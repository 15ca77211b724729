use mcp_crm::text::{
    contains, i64_text, soql_escape_of, parse_i64, parse_i64_or_zero, trim_end_slashes, u64_text,
};
use mcp_crm::urlencoding::encode;

/// Percent-decoding, written out here to check that nothing is lost.
fn decode(text: &str) -> Vec<u8> {
    let b = text.as_bytes();
    let mut out = Vec::new();
    let mut i = 0;
    while i < b.len() {
        if b[i] == b'%' && i + 2 < b.len() {
            let hex = std::str::from_utf8(&b[i + 1..i + 3]).unwrap();
            out.push(u8::from_str_radix(hex, 16).unwrap());
            i += 3;
        } else {
            out.push(b[i]);
            i += 1;
        }
    }
    out
}

#[test]
fn encode_escapes_soql() {
    assert_eq!(encode("SELECT Id FROM Task  LIMIT 5"), "SELECT%20Id%20FROM%20Task%20%20LIMIT%205");
    assert_eq!(encode("WHERE WhoId = '003A'"), "WHERE%20WhoId%20%3D%20%27003A%27");
    assert_eq!(encode("Account.Name,Title"), "Account.Name%2CTitle");
}

#[test]
fn encode_keeps_unreserved_text() {
    assert_eq!(encode("AZaz09-_.~"), "AZaz09-_.~");
    assert_eq!(encode(""), "");
}

#[test]
fn encode_writes_utf8_bytes_in_upper_case_hex() {
    assert_eq!(encode("é"), "%C3%A9");
    assert_eq!(encode("/?&="), "%2F%3F%26%3D");
    assert_eq!(encode("%"), "%25");
}

#[test]
fn encode_round_trips() {
    for text in ["O'Brien & Sons", "100% café ☕", "a+b c", "%41"] {
        let e = encode(text);
        assert!(e.bytes().all(|c| c.is_ascii_alphanumeric() || b"-_.~%".contains(&c)), "{e}");
        assert_eq!(decode(&e), text.as_bytes().to_vec());
    }
}

#[test]
fn parse_i64_accepts_what_rust_accepts() {
    assert_eq!(parse_i64("42"), Some(42));
    assert_eq!(parse_i64("+7"), Some(7));
    assert_eq!(parse_i64("-0"), Some(0));
    assert_eq!(parse_i64("-9223372036854775808"), Some(i64::MIN));
    assert_eq!(parse_i64("9223372036854775807"), Some(i64::MAX));
    assert_eq!(parse_i64("9223372036854775808"), None);
    assert_eq!(parse_i64(""), None);
    assert_eq!(parse_i64("-"), None);
    assert_eq!(parse_i64("+"), None);
    assert_eq!(parse_i64("12a"), None);
    assert_eq!(parse_i64(" 1"), None);
    for t in ["42", "+7", "-12", "007", "x", "99999999999999999999"] {
        assert_eq!(parse_i64(t), t.parse::<i64>().ok(), "{t}");
    }
}

#[test]
fn parse_or_zero_defaults() {
    assert_eq!(parse_i64_or_zero("acme-id"), 0);
    assert_eq!(parse_i64_or_zero("15"), 15);
}

#[test]
fn integer_text_round_trips() {
    for n in [0i64, 7, -7, 1234567890, i64::MIN, i64::MAX] {
        let t = i64_text(n);
        assert_eq!(t, n.to_string());
        assert_eq!(parse_i64(&t), Some(n));
    }
    assert_eq!(u64_text(0), "0");
    assert_eq!(u64_text(u64::MAX), u64::MAX.to_string());
}

#[test]
fn trimming_trailing_slashes() {
    assert_eq!(trim_end_slashes("https://x.my.salesforce.com//"), "https://x.my.salesforce.com");
    assert_eq!(trim_end_slashes("https://x.my.salesforce.com"), "https://x.my.salesforce.com");
    assert_eq!(trim_end_slashes("///"), "");
    let once = trim_end_slashes("a/b/");
    assert_eq!(trim_end_slashes(&once), once);
}

#[test]
fn containment() {
    assert!(contains("sarah chen", "h c"));
    assert!(contains("abc", ""));
    assert!(!contains("abc", "abcd"));
    assert!(!contains("", "a"));
}

#[test]
fn soql_literals_are_escaped() {
    assert_eq!(soql_escape_of("O'Brien", false), "O\\'Brien");
    assert_eq!(soql_escape_of("a\\b", false), "a\\\\b");
    assert_eq!(soql_escape_of("50%_x", false), "50%_x");
    assert_eq!(soql_escape_of("50%_x", true), "50\\%\\_x");
    assert_eq!(soql_escape_of("plain", true), "plain");
}
