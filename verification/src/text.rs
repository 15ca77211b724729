//! Text building blocks: decimal numerals, integer parsing, substring search,
//! quoting and trimming, over the characters of strings.
use vstd::prelude::*;

verus! {

/// Appends one character to a string (`String::push`).
#[verifier::external_body]
pub(crate) fn push_char(s: &mut String, c: char)
    ensures
        final(s)@ == old(s)@.push(c),
{
    s.push(c)
}

/// The Unicode lower-case mapping of a text, as `str::to_lowercase` computes it.
pub uninterp spec fn lowercase(s: Seq<char>) -> Seq<char>;

/// `str::to_lowercase`: the result is the lower-case mapping of the argument.
#[verifier::external_body]
pub(crate) fn to_lower(s: &str) -> (r: String)
    ensures
        r@ == lowercase(s@),
{
    s.to_lowercase()
}

/// The characters of a string, in order.
pub fn chars_of(s: &str) -> (r: Vec<char>)
    ensures
        r@ == s@,
{
    let n = s.unicode_len();
    let mut v: Vec<char> = Vec::new();
    let mut i: usize = 0;
    while i < n
        invariant
            n == s@.len(),
            i <= n,
            v@ == s@.take(i as int),
        decreases n - i,
    {
        let c = s.get_char(i);
        v.push(c);
        i = i + 1;
        proof {
            assert(v@ =~= s@.take(i as int));
        }
    }
    proof {
        assert(v@ =~= s@);
    }
    v
}

/// A string holding exactly the given characters.
pub fn string_of(cs: &Vec<char>) -> (r: String)
    ensures
        r@ == cs@,
{
    let mut s = String::new();
    let mut i: usize = 0;
    while i < cs.len()
        invariant
            i <= cs.len(),
            s@ == cs@.take(i as int),
        decreases cs.len() - i,
    {
        push_char(&mut s, cs[i]);
        i = i + 1;
        proof {
            assert(s@ =~= cs@.take(i as int));
        }
    }
    proof {
        assert(s@ =~= cs@);
    }
    s
}

/// A copy of a string slice.
pub fn owned(s: &str) -> (r: String)
    ensures
        r@ == s@,
{
    s.to_owned()
}

/// A copy of an optional string slice.
pub fn owned_opt(s: Option<&str>) -> (r: Option<String>)
    ensures
        opt_string_view(r) == opt_str_view(s),
{
    match s {
        Some(t) => Some(t.to_owned()),
        None => None,
    }
}

/// A copy of an optional string.
pub fn copy_opt(s: &Option<String>) -> (r: Option<String>)
    ensures
        opt_string_view(r) == opt_string_view(*s),
{
    match s {
        Some(t) => Some(t.clone()),
        None => None,
    }
}

pub open spec fn opt_string_view(s: Option<String>) -> Option<Seq<char>> {
    match s {
        Some(t) => Some(t@),
        None => None,
    }
}

pub open spec fn opt_str_view(s: Option<&str>) -> Option<Seq<char>> {
    match s {
        Some(t) => Some(t@),
        None => None,
    }
}

// ---- digits ----
pub open spec fn is_digit(c: char) -> bool {
    '0' <= c <= '9'
}

pub open spec fn all_digits(s: Seq<char>) -> bool {
    forall|i: int| 0 <= i < s.len() ==> is_digit(#[trigger] s[i])
}

pub open spec fn digit_val(c: char) -> nat {
    ((c as int) - ('0' as int)) as nat
}

/// The value of a string of decimal digits.
pub open spec fn digits_value(s: Seq<char>) -> nat
    decreases s.len(),
{
    if s.len() == 0 {
        0
    } else {
        digits_value(s.drop_last()) * 10 + digit_val(s.last())
    }
}

proof fn lemma_digits_value_grows(s: Seq<char>, k: int)
    requires
        0 <= k <= s.len(),
    ensures
        digits_value(s.take(k)) <= digits_value(s),
    decreases s.len() - k,
{
    if k < s.len() {
        lemma_digits_value_grows(s, k + 1);
        assert(s.take(k + 1).drop_last() =~= s.take(k));
    } else {
        assert(s.take(k) =~= s);
    }
}

/// Reads the digits `cs[from..]` as a number no greater than `bound`.
pub fn digits_upto(cs: &Vec<char>, from: usize, bound: u64) -> (r: Option<u64>)
    requires
        from <= cs.len(),
    ensures
        match r {
            Some(m) => {
                &&& cs@.skip(from as int).len() > 0
                &&& all_digits(cs@.skip(from as int))
                &&& digits_value(cs@.skip(from as int)) == m
                &&& m <= bound
            },
            None => !(cs@.skip(from as int).len() > 0 && all_digits(cs@.skip(from as int)))
                || digits_value(cs@.skip(from as int)) > bound,
        },
{
    let ghost d = cs@.skip(from as int);
    if from == cs.len() {
        return None;
    }
    let mut acc: u64 = 0;
    let mut i: usize = from;
    proof {
        assert(d.take(0) =~= Seq::<char>::empty());
    }
    while i < cs.len()
        invariant
            d == cs@.skip(from as int),
            from <= i <= cs.len(),
            forall|j: int| 0 <= j < i - from ==> is_digit(#[trigger] d[j]),
            digits_value(d.take(i - from)) == acc,
            acc <= bound,
        decreases cs.len() - i,
    {
        let c = cs[i];
        proof {
            assert(d[i - from] == c);
        }
        if !('0' <= c && c <= '9') {
            proof {
                assert(!is_digit(d[i - from]));
            }
            return None;
        }
        let dv: u64 = ((c as u32) - ('0' as u32)) as u64;
        let next: u128 = (acc as u128) * 10 + (dv as u128);
        proof {
            assert(d.take(i - from + 1).drop_last() =~= d.take(i - from));
            assert(d.take(i - from + 1).last() == c);
            assert(digits_value(d.take(i - from + 1)) == next);
        }
        if next > bound as u128 {
            proof {
                lemma_digits_value_grows(d, i - from + 1);
            }
            return None;
        }
        acc = next as u64;
        i = i + 1;
    }
    proof {
        assert(d.take(i - from) =~= d);
    }
    Some(acc)
}

/// The decimal digit character for `d < 10`.
pub open spec fn digit_char(d: nat) -> char {
    ((d as int) + ('0' as int)) as char
}

/// The decimal numeral of `n`, without leading zeros.
pub open spec fn dec(n: nat) -> Seq<char>
    decreases n,
{
    if n < 10 {
        seq![digit_char(n)]
    } else {
        dec(n / 10).push(digit_char(n % 10))
    }
}

/// The decimal numeral of an integer, with a minus sign when negative
/// (as `to_string` writes integers).
pub open spec fn dec_int(n: int) -> Seq<char> {
    if n < 0 {
        seq!['-'] + dec((-n) as nat)
    } else {
        dec(n as nat)
    }
}

fn digit(d: u64) -> (c: char)
    requires
        d < 10,
    ensures
        c == digit_char(d as nat),
{
    let b: u8 = (d as u8) + 48u8;
    proof {
        assert(('0' as int) == 48);
    }
    b as char
}

/// Appends the decimal numeral of `n`.
pub fn push_dec(s: &mut String, n: u64)
    ensures
        final(s)@ == old(s)@ + dec(n as nat),
    decreases n,
{
    if n >= 10 {
        push_dec(s, n / 10);
    }
    let c = digit(n % 10);
    push_char(s, c);
    proof {
        if n >= 10 {
            assert(final(s)@ =~= old(s)@ + dec(n as nat));
        } else {
            assert(final(s)@ =~= old(s)@ + dec(n as nat));
        }
    }
}

/// Appends the decimal numeral of a signed integer.
pub fn push_dec_i64(s: &mut String, n: i64)
    ensures
        final(s)@ == old(s)@ + dec_int(n as int),
{
    if n < 0 {
        push_char(s, '-');
        let m: i128 = 0i128 - (n as i128);
        push_dec(s, m as u64);
        proof {
            assert(final(s)@ =~= old(s)@ + dec_int(n as int));
        }
    } else {
        push_dec(s, n as u64);
    }
}

/// `n.to_string()` for an unsigned integer.
pub fn u64_text(n: u64) -> (r: String)
    ensures
        r@ == dec(n as nat),
{
    let mut s = String::new();
    push_dec(&mut s, n);
    proof {
        assert(s@ =~= dec(n as nat));
    }
    s
}

/// `n.to_string()` for a signed integer.
pub fn i64_text(n: i64) -> (r: String)
    ensures
        r@ == dec_int(n as int),
{
    let mut s = String::new();
    push_dec_i64(&mut s, n);
    proof {
        assert(s@ =~= dec_int(n as int));
    }
    s
}

/// What `s.parse::<i64>()` accepts: an optional `+` or `-`, then one or more
/// decimal digits, whose value lies in the range of `i64`.
pub open spec fn parse_i64_spec(s: Seq<char>) -> Option<i64> {
    let neg = s.len() > 0 && s[0] == '-';
    let d = if s.len() > 0 && (s[0] == '-' || s[0] == '+') {
        s.drop_first()
    } else {
        s
    };
    if d.len() > 0 && all_digits(d) {
        let v: int = if neg {
            -(digits_value(d) as int)
        } else {
            digits_value(d) as int
        };
        if i64::MIN <= v <= i64::MAX {
            Some(v as i64)
        } else {
            None
        }
    } else {
        None
    }
}

/// `s.parse::<i64>().ok()`.
pub fn parse_i64(s: &str) -> (r: Option<i64>)
    ensures
        r == parse_i64_spec(s@),
{
    let cs = chars_of(s);
    let signed = cs.len() > 0 && (cs[0] == '-' || cs[0] == '+');
    let neg = cs.len() > 0 && cs[0] == '-';
    let from: usize = if signed {
        1
    } else {
        0
    };
    proof {
        if signed {
            assert(cs@.skip(1) =~= s@.drop_first());
        } else {
            assert(cs@.skip(0) =~= s@);
        }
    }
    let bound: u64 = if neg {
        9223372036854775808u64
    } else {
        9223372036854775807u64
    };
    match digits_upto(&cs, from, bound) {
        Some(m) => {
            if neg {
                let x: i128 = 0i128 - (m as i128);
                Some(x as i64)
            } else {
                Some(m as i64)
            }
        },
        None => None,
    }
}

/// `s.parse::<i64>().unwrap_or(0)`.
pub fn parse_i64_or_zero(s: &str) -> (r: i64)
    ensures
        r == match parse_i64_spec(s@) {
            Some(v) => v,
            None => 0,
        },
{
    match parse_i64(s) {
        Some(v) => v,
        None => 0,
    }
}

// ---- searching, quoting, trimming ----
/// Whether `needle` occurs in `hay` at position `i`.
pub open spec fn occurs_at(hay: Seq<char>, needle: Seq<char>, i: int) -> bool {
    0 <= i && i + needle.len() <= hay.len() && hay.subrange(i, i + needle.len()) == needle
}

/// `hay.contains(needle)`.
pub open spec fn contains_spec(hay: Seq<char>, needle: Seq<char>) -> bool {
    exists|i: int| occurs_at(hay, needle, i)
}

fn matches_at(hay: &Vec<char>, needle: &Vec<char>, i: usize) -> (r: bool)
    requires
        i + needle.len() <= hay.len(),
    ensures
        r == occurs_at(hay@, needle@, i as int),
{
    let mut j: usize = 0;
    while j < needle.len()
        invariant
            i + needle.len() <= hay.len(),
            j <= needle.len(),
            forall|k: int| 0 <= k < j ==> hay@[i + k] == needle@[k],
        decreases needle.len() - j,
    {
        if hay[i + j] != needle[j] {
            proof {
                assert(hay@.subrange(i as int, i + needle.len())[j as int] != needle@[j as int]);
            }
            return false;
        }
        j = j + 1;
    }
    proof {
        assert(hay@.subrange(i as int, i + needle.len()) =~= needle@);
    }
    true
}

/// Whether `needle` occurs in `hay`.
pub fn contains(hay: &str, needle: &str) -> (r: bool)
    ensures
        r == contains_spec(hay@, needle@),
{
    let h = chars_of(hay);
    let n = chars_of(needle);
    if n.len() > h.len() {
        return false;
    }
    let last = h.len() - n.len();
    let mut i: usize = 0;
    loop
        invariant
            h@ == hay@,
            n@ == needle@,
            last == h.len() - n.len(),
            n.len() <= h.len(),
            i <= last,
            forall|k: int| 0 <= k < i ==> !occurs_at(hay@, needle@, k),
        decreases last - i,
    {
        if matches_at(&h, &n, i) {
            return true;
        }
        if i == last {
            return false;
        }
        i = i + 1;
    }
}

/// Whether SOQL needs a backslash before `c` inside a quoted literal: before a
/// backslash or `'` always, and before `%` or `_` in a `LIKE` pattern (wildcards).
pub open spec fn soql_special(c: char, like: bool) -> bool {
    c == '\\' || c == '\'' || (like && (c == '%' || c == '_'))
}

/// A text made safe to stand between quotes in SOQL: each special character
/// gets a backslash before it, so the text can never end the literal.
pub open spec fn soql_escape(s: Seq<char>, like: bool) -> Seq<char>
    decreases s.len(),
{
    if s.len() == 0 {
        seq![]
    } else {
        soql_escape(s.drop_last(), like) + if soql_special(s.last(), like) {
            seq!['\\', s.last()]
        } else {
            seq![s.last()]
        }
    }
}

/// Escapes a text for a quoted SOQL literal (a `LIKE` pattern when `like` holds).
pub fn soql_escape_of(s: &str, like: bool) -> (r: String)
    ensures
        r@ == soql_escape(s@, like),
{
    let cs = chars_of(s);
    let mut out = String::new();
    let mut i: usize = 0;
    while i < cs.len()
        invariant
            cs@ == s@,
            i <= cs.len(),
            out@ == soql_escape(s@.take(i as int), like),
        decreases cs.len() - i,
    {
        let c = cs[i];
        if c == '\\' || c == '\'' || (like && (c == '%' || c == '_')) {
            push_char(&mut out, '\\');
        }
        push_char(&mut out, c);
        proof {
            assert(s@.take(i + 1).drop_last() =~= s@.take(i as int));
            assert(out@ =~= soql_escape(s@.take(i + 1), like));
        }
        i = i + 1;
    }
    proof {
        assert(s@.take(cs.len() as int) =~= s@);
    }
    out
}

/// A text that SOQL reads between quotes as plain characters: every special
/// character comes right after a backslash, and every backslash begins such a
/// pair; so no quote in it can end the literal.
pub open spec fn well_escaped(t: Seq<char>, like: bool) -> bool
    decreases t.len(),
{
    if t.len() == 0 {
        true
    } else if t[0] == '\\' {
        t.len() >= 2 && soql_special(t[1], like) && well_escaped(t.skip(2), like)
    } else {
        !soql_special(t[0], like) && well_escaped(t.skip(1), like)
    }
}

proof fn lemma_well_escaped_concat(a: Seq<char>, b: Seq<char>, like: bool)
    requires
        well_escaped(a, like),
        well_escaped(b, like),
    ensures
        well_escaped(a + b, like),
    decreases a.len(),
{
    if a.len() == 0 {
        assert(a + b =~= b);
    } else if a[0] == '\\' {
        lemma_well_escaped_concat(a.skip(2), b, like);
        assert((a + b).skip(2) =~= a.skip(2) + b);
    } else {
        lemma_well_escaped_concat(a.skip(1), b, like);
        assert((a + b).skip(1) =~= a.skip(1) + b);
    }
}

/// Escaping makes any text safe inside a quoted SOQL literal: whatever an id
/// or a search term holds, it cannot end the literal and widen the query.
pub proof fn soql_escape_is_safe(s: Seq<char>, like: bool)
    ensures
        well_escaped(soql_escape(s, like), like),
    decreases s.len(),
{
    if s.len() > 0 {
        soql_escape_is_safe(s.drop_last(), like);
        let c = s.last();
        let tail: Seq<char> = if soql_special(c, like) {
            seq!['\\', c]
        } else {
            seq![c]
        };
        assert(well_escaped(Seq::<char>::empty(), like));
        assert(well_escaped(tail, like)) by {
            if soql_special(c, like) {
                assert(tail[0] == '\\' && tail[1] == c && tail.len() == 2);
                assert(tail.skip(2) =~= Seq::<char>::empty());
            } else {
                assert(c != '\\');
                assert(tail[0] == c && tail.len() == 1);
                assert(tail.skip(1) =~= Seq::<char>::empty());
            }
        }
        assert(soql_escape(s, like) == soql_escape(s.drop_last(), like) + tail);
        lemma_well_escaped_concat(soql_escape(s.drop_last(), like), tail, like);
    }
}

/// Containment is transitive: what occurs in a text that occurs in `hay`
/// occurs in `hay`.
pub proof fn contains_transitive(hay: Seq<char>, mid: Seq<char>, needle: Seq<char>)
    requires
        contains_spec(hay, mid),
        contains_spec(mid, needle),
    ensures
        contains_spec(hay, needle),
{
    let i = choose|i: int| occurs_at(hay, mid, i);
    let k = choose|k: int| occurs_at(mid, needle, k);
    assert(occurs_at(hay, needle, i + k)) by {
        assert forall|t: int| 0 <= t < needle.len() implies hay.subrange(
            i + k,
            i + k + needle.len(),
        )[t] == needle[t] by {
            assert(mid.subrange(k, k + needle.len())[t] == needle[t]);
            assert(hay.subrange(i, i + mid.len())[k + t] == mid[k + t]);
        }
        assert(hay.subrange(i + k, i + k + needle.len()) =~= needle);
    }
}

/// A text with every trailing `/` removed.
pub open spec fn trim_slashes(s: Seq<char>) -> Seq<char>
    decreases s.len(),
{
    if s.len() > 0 && s.last() == '/' {
        trim_slashes(s.drop_last())
    } else {
        s
    }
}

/// `s.trim_end_matches('/')`.
pub fn trim_end_slashes(s: &str) -> (r: String)
    ensures
        r@ == trim_slashes(s@),
{
    let cs = chars_of(s);
    let mut end = cs.len();
    proof {
        assert(s@.take(end as int) =~= s@);
    }
    while end > 0 && cs[end - 1] == '/'
        invariant
            cs@ == s@,
            end <= cs.len(),
            trim_slashes(s@) == trim_slashes(s@.take(end as int)),
        decreases end,
    {
        proof {
            assert(s@.take(end as int).drop_last() =~= s@.take(end - 1));
        }
        end = end - 1;
    }
    proof {
        assert(s@.take(end as int).len() == 0 || s@.take(end as int).last() != '/');
    }
    let mut out = String::new();
    let mut i: usize = 0;
    while i < end
        invariant
            cs@ == s@,
            end <= cs.len(),
            i <= end,
            out@ == s@.take(i as int),
        decreases end - i,
    {
        push_char(&mut out, cs[i]);
        i = i + 1;
        proof {
            assert(out@ =~= s@.take(i as int));
        }
    }
    proof {
        assert(s@.take(cs.len() as int) =~= s@);
    }
    out
}

/// Trimming leaves no `/` at the end, changes nothing when done again, and
/// removes nothing but the `/` at the end.
pub proof fn trim_slashes_laws(s: Seq<char>)
    ensures
        !(trim_slashes(s).len() > 0 && trim_slashes(s).last() == '/'),
        trim_slashes(trim_slashes(s)) == trim_slashes(s),
        trim_slashes(s).len() <= s.len(),
        s.take(trim_slashes(s).len() as int) == trim_slashes(s),
        forall|i: int| trim_slashes(s).len() <= i < s.len() ==> s[i] == '/',
    decreases s.len(),
{
    if s.len() > 0 && s.last() == '/' {
        trim_slashes_laws(s.drop_last());
        let t = trim_slashes(s.drop_last());
        assert(s.take(t.len() as int) =~= s.drop_last().take(t.len() as int));
        assert forall|i: int| t.len() <= i < s.len() implies s[i] == '/' by {
            if i < s.len() - 1 {
                assert(s[i] == s.drop_last()[i]);
            }
        }
    } else {
        assert(s.take(s.len() as int) =~= s);
    }
}

proof fn lemma_dec(n: nat)
    ensures
        dec(n).len() > 0,
        all_digits(dec(n)),
        digits_value(dec(n)) == n,
    decreases n,
{
    if n >= 10 {
        lemma_dec(n / 10);
        let p = dec(n / 10);
        assert(dec(n) == p.push(digit_char(n % 10)));
        assert(p.push(digit_char(n % 10)).drop_last() =~= p);
        assert(digit_val(digit_char(n % 10)) == n % 10);
        assert((n / 10) * 10 + n % 10 == n);
        assert(dec(n).drop_last() == p);
        assert(dec(n).last() == digit_char(n % 10));
        assert(digits_value(dec(n)) == digits_value(p) * 10 + digit_val(digit_char(n % 10)));
        assert forall|i: int| 0 <= i < dec(n).len() implies is_digit(#[trigger] dec(n)[i]) by {
            if i < p.len() {
                assert(dec(n)[i] == p[i]);
            }
        }
    } else {
        assert(dec(n).drop_last() =~= Seq::<char>::empty());
        assert(digit_val(digit_char(n)) == n);
        assert(digits_value(dec(n)) == digits_value(dec(n).drop_last()) * 10 + digit_val(
            dec(n).last(),
        ));
    }
}

/// The text `to_string` writes for an `i64` is read back by `parse::<i64>()`
/// as the same number: an id a backend reports can be sent back unchanged.
pub proof fn integer_text_round_trip(n: i64)
    ensures
        parse_i64_spec(dec_int(n as int)) == Some(n),
{
    if n < 0 {
        let m: nat = (-(n as int)) as nat;
        lemma_dec(m);
        let s = dec_int(n as int);
        assert(s.drop_first() =~= dec(m));
    } else {
        lemma_dec(n as nat);
        assert(is_digit(dec(n as nat)[0]));
    }
}

// ---- joining ----
/// `a` followed by `b`.
pub fn join2(a: &str, b: &str) -> (r: String)
    ensures
        r@ == a@ + b@,
{
    let mut s = a.to_owned();
    s.append(b);
    s
}

/// `a`, `b`, `c` in order.
pub fn join3(a: &str, b: &str, c: &str) -> (r: String)
    ensures
        r@ == a@ + b@ + c@,
{
    let mut s = a.to_owned();
    s.append(b);
    s.append(c);
    s
}

/// `a`, `b`, `c`, `d` in order.
pub fn join4(a: &str, b: &str, c: &str, d: &str) -> (r: String)
    ensures
        r@ == a@ + b@ + c@ + d@,
{
    let mut s = a.to_owned();
    s.append(b);
    s.append(c);
    s.append(d);
    s
}

/// `a`, `b`, `c`, `d`, `e` in order.
pub fn join5(a: &str, b: &str, c: &str, d: &str, e: &str) -> (r: String)
    ensures
        r@ == a@ + b@ + c@ + d@ + e@,
{
    let mut s = a.to_owned();
    s.append(b);
    s.append(c);
    s.append(d);
    s.append(e);
    s
}

/// `a`, the decimal numeral of `n`, `b` in order.
pub fn join_num(a: &str, n: u64, b: &str) -> (r: String)
    ensures
        r@ == a@ + dec(n as nat) + b@,
{
    let mut s = a.to_owned();
    push_dec(&mut s, n);
    s.append(b);
    s
}

/// `a` followed by the decimal numeral of `n`.
pub fn join_dec(a: &str, n: u64) -> (r: String)
    ensures
        r@ == a@ + dec(n as nat),
{
    let mut s = a.to_owned();
    push_dec(&mut s, n);
    s
}

/// `a`, `b`, `c` and the decimal numeral of `n`, in order.
pub fn join3_dec(a: &str, b: &str, c: &str, n: u64) -> (r: String)
    ensures
        r@ == a@ + b@ + c@ + dec(n as nat),
{
    let mut s = a.to_owned();
    s.append(b);
    s.append(c);
    push_dec(&mut s, n);
    s
}

/// `a`, `b` and the decimal numeral of `n`, in order.
pub fn join_num_after(a: &str, b: &str, n: u64) -> (r: String)
    ensures
        r@ == a@ + b@ + dec(n as nat),
{
    let mut s = a.to_owned();
    s.append(b);
    push_dec(&mut s, n);
    s
}

/// `a`, `b`, `c`, the decimal numeral of `n`, `d` in order.
pub fn join_num4(a: &str, b: &str, c: &str, n: u64, d: &str) -> (r: String)
    ensures
        r@ == a@ + b@ + c@ + dec(n as nat) + d@,
{
    let mut s = a.to_owned();
    s.append(b);
    s.append(c);
    push_dec(&mut s, n);
    s.append(d);
    s
}

} // verus!
