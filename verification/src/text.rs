//! Text helpers: decimal rendering, decimal parsing and line handling.
use vstd::prelude::*;

verus! {

/// The character of a decimal digit.
pub open spec fn digit_char(d: nat) -> char {
    (48 + d) as char
}

/// Decimal rendering of a natural number, without sign or leading zeros.
pub open spec fn decimal_text(n: nat) -> Seq<char>
    decreases n,
{
    if n < 10 {
        seq![digit_char(n)]
    } else {
        decimal_text(n / 10) + seq![digit_char(n % 10)]
    }
}

/// Decimal rendering of an integer: a minus sign before the digits of a negative one.
pub open spec fn signed_decimal_text(i: int) -> Seq<char> {
    if i < 0 {
        seq!['-'] + decimal_text((-i) as nat)
    } else {
        decimal_text(i as nat)
    }
}

/// What `{:?}` prints for an optional unsigned number.
pub open spec fn debug_option_text(v: Option<nat>) -> Seq<char> {
    match v {
        Some(n) => "Some("@ + decimal_text(n) + ")"@,
        None => "None"@,
    }
}

fn digit_str(d: u64) -> (s: &'static str)
    requires
        d < 10,
    ensures
        s@ == seq![digit_char(d as nat)],
{
    if d == 0 {
        proof { reveal_strlit("0"); }
        "0"
    } else if d == 1 {
        proof { reveal_strlit("1"); }
        "1"
    } else if d == 2 {
        proof { reveal_strlit("2"); }
        "2"
    } else if d == 3 {
        proof { reveal_strlit("3"); }
        "3"
    } else if d == 4 {
        proof { reveal_strlit("4"); }
        "4"
    } else if d == 5 {
        proof { reveal_strlit("5"); }
        "5"
    } else if d == 6 {
        proof { reveal_strlit("6"); }
        "6"
    } else if d == 7 {
        proof { reveal_strlit("7"); }
        "7"
    } else if d == 8 {
        proof { reveal_strlit("8"); }
        "8"
    } else {
        proof { reveal_strlit("9"); }
        "9"
    }
}

/// Renders `n` in decimal, as `format!("{}", n)` does.
pub fn decimal_u64(n: u64) -> (s: String)
    ensures
        s@ == decimal_text(n as nat),
    decreases n,
{
    if n < 10 {
        String::from_str(digit_str(n))
    } else {
        let mut s = decimal_u64(n / 10);
        s.append(digit_str(n % 10));
        s
    }
}

/// Renders `n` in decimal, as `format!("{}", n)` does.
pub fn decimal_usize(n: usize) -> (s: String)
    ensures
        s@ == decimal_text(n as nat),
{
    decimal_u64(n as u64)
}

/// Renders `n` in decimal with a leading minus sign when negative, as `format!("{}", n)` does.
pub fn decimal_i32(n: i32) -> (s: String)
    ensures
        s@ == signed_decimal_text(n as int),
{
    if n < 0 {
        let magnitude: u64 = (0i64 - (n as i64)) as u64;
        let mut s = String::from_str("-");
        proof { reveal_strlit("-"); }
        let digits = decimal_u64(magnitude);
        s.append(digits.as_str());
        s
    } else {
        decimal_u64(n as u64)
    }
}

/// Renders an optional count as `format!("{:?}", v)` does.
pub fn debug_option_u64(v: Option<u64>) -> (s: String)
    ensures
        s@ == debug_option_text(
            match v {
                Some(n) => Some(n as nat),
                None => None,
            },
        ),
{
    match v {
        Some(n) => {
            let mut s = String::from_str("Some(");
            let digits = decimal_u64(n);
            s.append(digits.as_str());
            s.append(")");
            s
        },
        None => String::from_str("None"),
    }
}

/// Spelled-out equality of two strings, character by character.
pub fn str_eq(a: &str, b: &str) -> (r: bool)
    ensures
        r == (a@ == b@),
{
    let n = a.unicode_len();
    let m = b.unicode_len();
    if n != m {
        return false;
    }
    let mut i: usize = 0;
    while i < n
        invariant
            n == a@.len(),
            m == b@.len(),
            n == m,
            i <= n,
            forall|j: int| 0 <= j < i ==> a@[j] == b@[j],
        decreases n - i,
    {
        if a.get_char(i) != b.get_char(i) {
            return false;
        }
        i = i + 1;
    }
    assert(a@ =~= b@);
    true
}

/// Whether the last character of `s` is `c` (`str::ends_with` with one character).
pub fn ends_with_char(s: &str, c: char) -> (r: bool)
    ensures
        r == (s@.len() > 0 && s@.last() == c),
{
    let n = s.unicode_len();
    if n == 0 {
        false
    } else {
        s.get_char(n - 1) == c
    }
}

/// Joins two pieces of text.
pub fn concat2(a: &str, b: &str) -> (s: String)
    ensures
        s@ == a@ + b@,
{
    String::from_str(a).concat(b)
}

/// Joins three pieces of text.
pub fn concat3(a: &str, b: &str, c: &str) -> (s: String)
    ensures
        s@ == a@ + b@ + c@,
{
    let mut s = String::from_str(a);
    s.append(b);
    s.append(c);
    s
}

/// Joins four pieces of text.
pub fn concat4(a: &str, b: &str, c: &str, d: &str) -> (s: String)
    ensures
        s@ == a@ + b@ + c@ + d@,
{
    let mut s = String::from_str(a);
    s.append(b);
    s.append(c);
    s.append(d);
    s
}


/// A decimal digit byte.
pub open spec fn is_digit_byte(b: u8) -> bool {
    48 <= b <= 57
}

/// The value of a run of decimal digit bytes, most significant first.
pub open spec fn digits_value(s: Seq<u8>) -> nat
    decreases s.len(),
{
    if s.len() == 0 {
        0
    } else {
        digits_value(s.drop_last()) * 10 + (s.last() - 48) as nat
    }
}

/// The digits of an unsigned number: one leading `+` may stand before them.
pub open spec fn unsigned_digits(s: Seq<u8>) -> Seq<u8> {
    if s.len() > 0 && s[0] == 43 {
        s.drop_first()
    } else {
        s
    }
}

/// What `str::parse::<usize>` gives for the text `s`: an optional `+`, then one
/// or more decimal digits whose value fits in `usize`; nothing else is accepted.
pub open spec fn parse_usize_spec(s: Seq<u8>) -> Option<usize> {
    let d = unsigned_digits(s);
    if d.len() > 0 && (forall|i: int| 0 <= i < d.len() ==> is_digit_byte(#[trigger] d[i]))
        && digits_value(d) <= usize::MAX {
        Some(digits_value(d) as usize)
    } else {
        None
    }
}

/// The bytes of a text made of characters below 256.
pub open spec fn latin_bytes(s: Seq<char>) -> Seq<u8> {
    s.map_values(|c: char| c as u8)
}

proof fn lemma_digits_value_prefix(s: Seq<u8>, k: int)
    requires
        0 <= k <= s.len(),
        forall|i: int| 0 <= i < s.len() ==> is_digit_byte(#[trigger] s[i]),
    ensures
        digits_value(s.take(k)) <= digits_value(s),
    decreases s.len(),
{
    if k < s.len() {
        let t = s.drop_last();
        assert(t.take(k) =~= s.take(k));
        assert forall|i: int| 0 <= i < t.len() implies is_digit_byte(#[trigger] t[i]) by {
            assert(t[i] == s[i]);
        }
        lemma_digits_value_prefix(t, k);
    } else {
        assert(s.take(k) =~= s);
    }
}

/// Parses a run of bytes as `str::parse::<usize>` parses text.
pub fn parse_usize(s: &[u8]) -> (r: Option<usize>)
    ensures
        r == parse_usize_spec(s@),
{
    let n = s.len();
    let start: usize = if n > 0 && s[0] == 43u8 { 1 } else { 0 };
    let ghost d = unsigned_digits(s@);
    assert(d =~= s@.subrange(start as int, n as int));
    if start == n {
        return None;
    }
    let mut acc: usize = 0;
    let mut i: usize = start;
    while i < n
        invariant
            start <= i <= n,
            n == s@.len(),
            d == unsigned_digits(s@),
            d =~= s@.subrange(start as int, n as int),
            forall|j: int| start <= j < i ==> is_digit_byte(#[trigger] s@[j]),
            acc as nat == digits_value(s@.subrange(start as int, i as int)),
        decreases n - i,
    {
        let b = s[i];
        if b < 48u8 || b > 57u8 {
            assert(!is_digit_byte(d[i - start]));
            assert(!(forall|j: int| 0 <= j < d.len() ==> is_digit_byte(#[trigger] d[j])));
            return None;
        }
        let digit: usize = (b - 48u8) as usize;
        let ghost prefix = s@.subrange(start as int, i + 1);
        assert(prefix.drop_last() =~= s@.subrange(start as int, i as int));
        assert(prefix.last() == b);
        assert(digits_value(prefix) == acc * 10 + digit);
        if acc > (usize::MAX - digit) / 10 {
            assert(acc * 10 + digit > usize::MAX) by (nonlinear_arith)
                requires
                    acc > (usize::MAX - digit) / 10,
                    digit <= 9,
            ;
            proof {
                if forall|j: int| 0 <= j < d.len() ==> is_digit_byte(#[trigger] d[j]) {
                    assert(d.take(i + 1 - start) =~= prefix);
                    lemma_digits_value_prefix(d, i + 1 - start);
                }
            }
            return None;
        }
        assert(acc * 10 + digit <= usize::MAX) by (nonlinear_arith)
            requires
                acc <= (usize::MAX - digit) / 10,
                digit <= 9,
        ;
        acc = acc * 10 + digit;
        i = i + 1;
    }
    assert(s@.subrange(start as int, n as int) =~= d);
    assert forall|j: int| 0 <= j < d.len() implies is_digit_byte(#[trigger] d[j]) by {
        assert(d[j] == s@[j + start]);
    }
    Some(acc)
}

/// Decimal rendering read back by the parser gives the number again.
pub proof fn lemma_parse_decimal_roundtrip(n: usize)
    ensures
        parse_usize_spec(latin_bytes(decimal_text(n as nat))) == Some(n),
{
    lemma_decimal_digits(n as nat);
    let b = latin_bytes(decimal_text(n as nat));
    assert(unsigned_digits(b) == b);
}

/// A signed rendering is a minus sign before the magnitude's digits exactly
/// for negative numbers, and its digits read back to the magnitude.
pub proof fn lemma_signed_decimal_roundtrip(i: i32)
    ensures
        i < 0 ==> signed_decimal_text(i as int)[0] == '-' && parse_usize_spec(
            latin_bytes(signed_decimal_text(i as int).drop_first()),
        ) == Some((-(i as int)) as usize),
        i >= 0 ==> signed_decimal_text(i as int)[0] != '-' && parse_usize_spec(
            latin_bytes(signed_decimal_text(i as int)),
        ) == Some(i as usize),
{
    if i < 0 {
        let m = (-(i as int)) as usize;
        lemma_parse_decimal_roundtrip(m);
        assert(signed_decimal_text(i as int).drop_first() =~= decimal_text(m as nat));
    } else {
        lemma_parse_decimal_roundtrip(i as usize);
        lemma_decimal_digits(i as nat);
        assert(is_digit_byte(latin_bytes(decimal_text(i as nat))[0]));
    }
}

/// Each byte of a decimal rendering is a digit.
pub proof fn lemma_decimal_bytes_are_digits(n: nat, i: int)
    requires
        0 <= i < decimal_text(n).len(),
    ensures
        is_digit_byte(latin_bytes(decimal_text(n))[i]),
{
    lemma_decimal_digits(n);
}

proof fn lemma_decimal_digits(n: nat)
    ensures
        decimal_text(n).len() > 0,
        forall|i: int| 0 <= i < decimal_text(n).len() ==> is_digit_byte(#[trigger] latin_bytes(decimal_text(n))[i]),
        digits_value(latin_bytes(decimal_text(n))) == n,
    decreases n,
{
    let b = latin_bytes(decimal_text(n));
    if n < 10 {
        assert(b.drop_last() =~= Seq::<u8>::empty());
        assert(b.last() == 48 + n);
        assert(digits_value(b.drop_last()) == 0);
        assert(digits_value(b) == digits_value(b.drop_last()) * 10 + (b.last() - 48) as nat);
    } else {
        lemma_decimal_digits(n / 10);
        let h = latin_bytes(decimal_text(n / 10));
        assert(b.drop_last() =~= h);
        assert(b.last() == 48 + n % 10);
        assert(digits_value(b) == digits_value(h) * 10 + n % 10);
        assert((n / 10) * 10 + n % 10 == n) by (nonlinear_arith);
        assert forall|i: int| 0 <= i < decimal_text(n).len() implies is_digit_byte(#[trigger] b[i]) by {
            if i < h.len() {
                assert(b[i] == h[i]);
            }
        }
    }
}

/// The bytes that HTTP header values may show as text: visible ASCII and tab.
pub open spec fn is_visible_ascii(b: u8) -> bool {
    (32 <= b && b < 127) || b == 9
}

/// Whether all bytes of a header value are visible ASCII (when `HeaderValue::to_str` succeeds).
pub fn header_is_text(bytes: &[u8]) -> (r: bool)
    ensures
        r == (forall|i: int| 0 <= i < bytes@.len() ==> is_visible_ascii(#[trigger] bytes@[i])),
{
    let n = bytes.len();
    let mut i: usize = 0;
    while i < n
        invariant
            n == bytes@.len(),
            i <= n,
            forall|j: int| 0 <= j < i ==> is_visible_ascii(#[trigger] bytes@[j]),
        decreases n - i,
    {
        let b = bytes[i];
        if !((b >= 32u8 && b < 127u8) || b == 9u8) {
            assert(!is_visible_ascii(bytes@[i as int]));
            return false;
        }
        i = i + 1;
    }
    true
}

/// Position of the first line feed at or after `i`, or the length when there is none.
pub open spec fn line_feed_from(s: Seq<char>, i: int) -> int
    decreases s.len() - i,
{
    if i >= s.len() {
        s.len() as int
    } else if s[i] == '\n' {
        i
    } else {
        line_feed_from(s, i + 1)
    }
}

/// What `str::lines().next()` gives: nothing for empty text, otherwise the
/// text before the first line feed, with a carriage return that stands just
/// before that line feed removed.
pub open spec fn first_line_spec(s: Seq<char>) -> Option<Seq<char>> {
    if s.len() == 0 {
        None
    } else {
        let e = line_feed_from(s, 0);
        if e < s.len() && e > 0 && s[e - 1] == '\r' {
            Some(s.take(e - 1))
        } else {
            Some(s.take(e))
        }
    }
}

proof fn lemma_line_feed_from_bounds(s: Seq<char>, i: int)
    requires
        0 <= i <= s.len(),
    ensures
        i <= line_feed_from(s, i) <= s.len(),
        forall|j: int| i <= j < line_feed_from(s, i) ==> s[j] != '\n',
        line_feed_from(s, i) < s.len() ==> s[line_feed_from(s, i)] == '\n',
    decreases s.len() - i,
{
    if i < s.len() && s[i] != '\n' {
        lemma_line_feed_from_bounds(s, i + 1);
    }
}

/// The first line of `text`, as `text.lines().next()` gives it.
pub fn first_line(text: &str) -> (r: Option<String>)
    ensures
        match r {
            Some(l) => first_line_spec(text@) == Some(l@),
            None => first_line_spec(text@) is None,
        },
        r is None <==> text@.len() == 0,
        text@.len() > 0 && (forall|j: int| 0 <= j < text@.len() ==> text@[j] != '\n') ==> (r matches Some(
            l,
        ) && l@ == text@),
        forall|i: int|
            0 <= i < text@.len() && #[trigger] text@[i] == '\n' && (forall|j: int|
                0 <= j < i ==> text@[j] != '\n') ==> (r matches Some(l) && l@ == (if i > 0 && text@[i
                - 1] == '\r' {
                text@.take(i - 1)
            } else {
                text@.take(i)
            })),
{
    proof {
        lemma_first_line_whole(text@);
    }
    let n = text.unicode_len();
    if n == 0 {
        return None;
    }
    let mut i: usize = 0;
    while i < n
        invariant
            n == text@.len(),
            i <= n,
            line_feed_from(text@, 0) == line_feed_from(text@, i as int),
        ensures
            i <= n,
            line_feed_from(text@, 0) == line_feed_from(text@, i as int),
            i == n || text@[i as int] == '\n',
        decreases n - i,
    {
        if text.get_char(i) == '\n' {
            break;
        }
        i = i + 1;
    }
    proof {
        lemma_line_feed_from_bounds(text@, i as int);
    }
    let e = i;
    assert(e == line_feed_from(text@, 0));
    let end = if e < n && e > 0 && text.get_char(e - 1) == '\r' { e - 1 } else { e };
    let line = text.substring_char(0, end);
    assert(line@ =~= text@.take(end as int));
    Some(String::from_str(line))
}

/// The first line holds no line feed and is where the text begins.
pub proof fn lemma_first_line_shape(s: Seq<char>)
    ensures
        first_line_spec(s) is None <==> s.len() == 0,
        first_line_spec(s) matches Some(l) ==> (l.len() <= s.len() && l =~= s.take(l.len() as int)
            && forall|j: int| 0 <= j < l.len() ==> l[j] != '\n'),
{
    lemma_line_feed_from_bounds(s, 0);
}

/// The first line is the whole first line: all of a text without a line
/// feed, and otherwise everything before the first line feed, less one
/// carriage return standing just before it.
pub proof fn lemma_first_line_whole(s: Seq<char>)
    ensures
        s.len() > 0 && (forall|j: int| 0 <= j < s.len() ==> s[j] != '\n') ==> first_line_spec(s)
            == Some(s),
        forall|i: int|
            0 <= i < s.len() && #[trigger] s[i] == '\n' && (forall|j: int| 0 <= j < i ==> s[j] != '\n')
                ==> first_line_spec(s) == Some(
                if i > 0 && s[i - 1] == '\r' {
                    s.take(i - 1)
                } else {
                    s.take(i)
                },
            ),
{
    lemma_line_feed_from_bounds(s, 0);
    let e = line_feed_from(s, 0);
    if s.len() > 0 && (forall|j: int| 0 <= j < s.len() ==> s[j] != '\n') {
        if e < s.len() {
            assert(s[e] == '\n');
        }
        assert(s.take(s.len() as int) =~= s);
    }
    assert forall|i: int|
        0 <= i < s.len() && #[trigger] s[i] == '\n' && (forall|j: int| 0 <= j < i ==> s[j] != '\n')
            implies first_line_spec(s) == Some(
        if i > 0 && s[i - 1] == '\r' {
            s.take(i - 1)
        } else {
            s.take(i)
        },
    ) by {
        if e < i {
            assert(s[e] == '\n');
        }
        if e > i {
            assert(s[i] != '\n');
        }
        assert(e == i);
    }
}

} // verus!
