//! Percent-encoding of query text for URLs.
use vstd::prelude::*;
use crate::text::{push_char, digit_char};
use vstd::string::StringSliceAdditionalSpecFns;

verus! {

/// The bytes that pass unencoded: ASCII letters, digits, `-`, `_`, `.`, `~`.
pub open spec fn unreserved(b: u8) -> bool {
    (65 <= b <= 90) || (97 <= b <= 122) || (48 <= b <= 57) || b == 45 || b == 95 || b == 46
        || b == 126
}

/// The upper-case hexadecimal digit of `n < 16`.
pub open spec fn hex_char(n: nat) -> char {
    if n < 10 {
        digit_char(n)
    } else {
        ((n - 10) + ('A' as int)) as char
    }
}

/// The encoding of one byte: itself when unreserved, else `%` and two upper-case hex digits.
pub open spec fn encode_byte(b: u8) -> Seq<char> {
    if unreserved(b) {
        seq![b as char]
    } else {
        seq!['%', hex_char((b / 16) as nat), hex_char((b % 16) as nat)]
    }
}

/// The encoding of a byte string, byte by byte.
pub open spec fn encode_bytes(bs: Seq<u8>) -> Seq<char>
    decreases bs.len(),
{
    if bs.len() == 0 {
        seq![]
    } else {
        encode_bytes(bs.drop_last()) + encode_byte(bs.last())
    }
}

fn hex(n: u8) -> (c: char)
    requires
        n < 16,
    ensures
        c == hex_char(n as nat),
{
    if n < 10 {
        let b: u8 = n + 48u8;
        b as char
    } else {
        let b: u8 = n - 10u8 + 65u8;
        b as char
    }
}

/// Percent-encodes the UTF-8 bytes of `s`.
pub fn encode(s: &str) -> (r: String)
    ensures
        r@ == encode_bytes(s.spec_bytes()),
{
    let bytes = s.as_bytes();
    let mut out = String::new();
    let mut i: usize = 0;
    while i < bytes.len()
        invariant
            bytes@ == s.spec_bytes(),
            i <= bytes.len(),
            out@ == encode_bytes(bytes@.take(i as int)),
        decreases bytes.len() - i,
    {
        let b = bytes[i];
        if (65 <= b && b <= 90) || (97 <= b && b <= 122) || (48 <= b && b <= 57) || b == 45 || b
            == 95 || b == 46 || b == 126 {
            push_char(&mut out, b as char);
        } else {
            push_char(&mut out, '%');
            push_char(&mut out, hex(b / 16));
            push_char(&mut out, hex(b % 16));
        }
        proof {
            assert(bytes@.take(i + 1).drop_last() =~= bytes@.take(i as int));
            assert(out@ =~= encode_bytes(bytes@.take(i + 1)));
        }
        i = i + 1;
    }
    proof {
        assert(bytes@.take(bytes.len() as int) =~= bytes@);
    }
    out
}

/// The value of a hexadecimal digit (either case); other characters count as zero.
pub open spec fn hex_value(c: char) -> nat {
    if '0' <= c <= '9' {
        ((c as int) - ('0' as int)) as nat
    } else if 'A' <= c <= 'F' {
        ((c as int) - ('A' as int) + 10) as nat
    } else if 'a' <= c <= 'f' {
        ((c as int) - ('a' as int) + 10) as nat
    } else {
        0
    }
}

/// Percent-decoding: `%` with the two hex digits after it stands for one
/// byte; any other character stands for its own code.
pub open spec fn percent_decode(cs: Seq<char>) -> Seq<u8>
    decreases cs.len(),
{
    if cs.len() == 0 {
        seq![]
    } else if cs[0] == '%' && cs.len() >= 3 {
        seq![(hex_value(cs[1]) * 16 + hex_value(cs[2])) as u8] + percent_decode(cs.skip(3))
    } else {
        seq![cs[0] as u8] + percent_decode(cs.skip(1))
    }
}

/// A character that may stand in an encoded text: an unreserved character,
/// `%`, or an upper-case hexadecimal digit.
pub open spec fn url_safe(c: char) -> bool {
    ('A' <= c <= 'Z') || ('a' <= c <= 'z') || ('0' <= c <= '9') || c == '-' || c == '_' || c
        == '.' || c == '~' || c == '%'
}

proof fn lemma_hex_char(n: nat)
    requires
        n < 16,
    ensures
        hex_value(hex_char(n)) == n,
        url_safe(hex_char(n)),
        hex_char(n) != '%',
{
}

proof fn lemma_encode_byte(b: u8, rest: Seq<char>)
    ensures
        percent_decode(encode_byte(b) + rest) == seq![b] + percent_decode(rest),
        forall|i: int| 0 <= i < encode_byte(b).len() ==> url_safe(#[trigger] encode_byte(b)[i]),
{
    let e = encode_byte(b);
    if unreserved(b) {
        assert((e + rest)[0] == b as char);
        assert((e + rest).skip(1) =~= rest);
        assert((b as char) as u8 == b);
    } else {
        lemma_hex_char((b / 16) as nat);
        lemma_hex_char((b % 16) as nat);
        assert((e + rest)[0] == '%');
        assert((e + rest).skip(3) =~= rest);
        assert(hex_value((e + rest)[1]) * 16 + hex_value((e + rest)[2]) == b);
    }
}

proof fn lemma_encode_front(bs: Seq<u8>)
    requires
        bs.len() > 0,
    ensures
        encode_bytes(bs) == encode_byte(bs[0]) + encode_bytes(bs.drop_first()),
    decreases bs.len(),
{
    if bs.len() == 1 {
        assert(bs.drop_last() =~= Seq::<u8>::empty());
        assert(bs.drop_first() =~= Seq::<u8>::empty());
        assert(encode_bytes(bs) =~= encode_byte(bs[0]) + encode_bytes(bs.drop_first()));
    } else {
        lemma_encode_front(bs.drop_last());
        assert(bs.drop_last().drop_first() =~= bs.drop_first().drop_last());
        assert(bs.drop_first().last() == bs.last());
        assert(encode_bytes(bs) =~= encode_byte(bs[0]) + encode_bytes(bs.drop_first()));
    }
}

/// Decoding what [`encode`] writes gives back the bytes it was given: the
/// encoding loses nothing.
pub proof fn encode_round_trip(bs: Seq<u8>)
    ensures
        percent_decode(encode_bytes(bs)) == bs,
    decreases bs.len(),
{
    if bs.len() == 0 {
        assert(percent_decode(encode_bytes(bs)) =~= bs);
    } else {
        lemma_encode_front(bs);
        lemma_encode_byte(bs[0], encode_bytes(bs.drop_first()));
        encode_round_trip(bs.drop_first());
        assert(seq![bs[0]] + bs.drop_first() =~= bs);
    }
}

/// What [`encode`] writes holds only unreserved characters, `%` and
/// hexadecimal digits, so it can stand in a URL's query.
pub proof fn encoded_text_is_url_safe(bs: Seq<u8>)
    ensures
        forall|i: int| 0 <= i < encode_bytes(bs).len() ==> url_safe(#[trigger] encode_bytes(bs)[i]),
    decreases bs.len(),
{
    if bs.len() > 0 {
        encoded_text_is_url_safe(bs.drop_last());
        lemma_encode_byte(bs.last(), seq![]);
        let a = encode_bytes(bs.drop_last());
        let e = encode_byte(bs.last());
        assert forall|i: int| 0 <= i < encode_bytes(bs).len() implies url_safe(
            #[trigger] encode_bytes(bs)[i],
        ) by {
            if i < a.len() {
                assert(encode_bytes(bs)[i] == a[i]);
            } else {
                assert(encode_bytes(bs)[i] == e[i - a.len()]);
            }
        }
    }
}

/// Text made only of unreserved characters is left as it is.
pub proof fn encode_keeps_unreserved(bs: Seq<u8>)
    requires
        forall|i: int| 0 <= i < bs.len() ==> unreserved(#[trigger] bs[i]),
    ensures
        encode_bytes(bs) == bs.map_values(|b: u8| b as char),
    decreases bs.len(),
{
    if bs.len() == 0 {
        assert(encode_bytes(bs) =~= bs.map_values(|b: u8| b as char));
    } else {
        encode_keeps_unreserved(bs.drop_last());
        assert(bs.drop_last().map_values(|b: u8| b as char).push(bs.last() as char)
            =~= bs.map_values(|b: u8| b as char));
        assert(encode_bytes(bs) =~= bs.map_values(|b: u8| b as char));
    }
}

/// The encoding of a concatenation is the concatenation of the encodings:
/// the text is encoded byte by byte, each byte on its own.
pub proof fn encode_concat(a: Seq<u8>, b: Seq<u8>)
    ensures
        encode_bytes(a + b) == encode_bytes(a) + encode_bytes(b),
    decreases b.len(),
{
    if b.len() == 0 {
        assert(a + b =~= a);
        assert(encode_bytes(a) + encode_bytes(b) =~= encode_bytes(a));
    } else {
        encode_concat(a, b.drop_last());
        assert((a + b).drop_last() =~= a + b.drop_last());
        assert((a + b).last() == b.last());
        assert(encode_bytes(a + b) =~= encode_bytes(a) + encode_bytes(b));
    }
}

} // verus!
