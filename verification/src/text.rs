//! Small verified text helpers: string equality and decimal parsing.
use vstd::prelude::*;
use vstd::string::StringSliceAdditionalSpecFns;

verus! {

/// Two strings are equal exactly when their UTF-8 encodings are equal.
pub proof fn lemma_bytes_eq_iff_chars_eq(a: Seq<char>, b: Seq<char>)
    ensures
        (vstd::utf8::encode_utf8(a) == vstd::utf8::encode_utf8(b)) <==> (a == b),
{
    vstd::utf8::encode_utf8_decode_utf8(a);
    vstd::utf8::encode_utf8_decode_utf8(b);
}

/// Compares two string slices character by character.
pub fn str_eq(a: &str, b: &str) -> (r: bool)
    ensures
        r == (a@ == b@),
{
    let x = a.as_bytes();
    let y = b.as_bytes();
    proof {
        lemma_bytes_eq_iff_chars_eq(a@, b@);
    }
    if x.len() != y.len() {
        assert(x@ != y@);
        return false;
    }
    let mut i: usize = 0;
    while i < x.len()
        invariant
            x.len() == y.len(),
            0 <= i <= x.len(),
            x@ == a.spec_bytes(),
            y@ == b.spec_bytes(),
            (x@ == y@) <==> (a@ == b@),
            forall|k: int| 0 <= k < i ==> x@[k] == y@[k],
        decreases x.len() - i,
    {
        if x[i] != y[i] {
            assert(x@[i as int] != y@[i as int]);
            return false;
        }
        i = i + 1;
    }
    assert(x@ =~= y@);
    true
}

/// Value of a run of decimal digits.
pub open spec fn digits_value(s: Seq<char>) -> int
    decreases s.len(),
{
    if s.len() == 0 {
        0
    } else {
        digits_value(s.drop_last()) * 10 + (s.last() as int - '0' as int)
    }
}

/// Every character is an ASCII decimal digit.
pub open spec fn all_digits(s: Seq<char>) -> bool {
    forall|k: int| 0 <= k < s.len() ==> '0' <= #[trigger] s[k] <= '9'
}

/// The digits of a decimal integer literal: the text after an optional leading `+`.
pub open spec fn unsigned_digits(s: Seq<char>) -> Seq<char> {
    if s.len() > 0 && s[0] == '+' {
        s.drop_first()
    } else {
        s
    }
}

/// The `u16` that a string denotes as `u16`'s `FromStr` reads it: an optional `+` followed by
/// one or more ASCII digits whose value is at most 65535; anything else (empty text, signs,
/// whitespace, other characters, overflow) denotes none.
pub open spec fn decimal_u16(s: Seq<char>) -> Option<u16> {
    let d = unsigned_digits(s);
    if d.len() > 0 && all_digits(d) && digits_value(d) <= 65535 {
        Some(digits_value(d) as u16)
    } else {
        None
    }
}

/// Parses a decimal `u16` (optional `+`, then digits); `None` on anything else.
pub fn parse_u16(s: &str) -> (r: Option<u16>)
    ensures
        r == decimal_u16(s@),
{
    let n = s.unicode_len();
    let mut start: usize = 0;
    if n > 0 && s.get_char(0) == '+' {
        start = 1;
    }
    let ghost d = unsigned_digits(s@);
    assert(d =~= s@.subrange(start as int, n as int));
    if start >= n {
        return None;
    }
    // Saturates at 65536, above which the exact value no longer matters.
    let mut acc: u32 = 0;
    let mut k: usize = start;
    while k < n
        invariant
            n == s@.len(),
            start <= k <= n,
            start < n,
            d == unsigned_digits(s@),
            d =~= s@.subrange(start as int, n as int),
            all_digits(s@.subrange(start as int, k as int)),
            acc as int == if digits_value(s@.subrange(start as int, k as int)) < 65536 {
                digits_value(s@.subrange(start as int, k as int))
            } else {
                65536
            },
        decreases n - k,
    {
        let c = s.get_char(k);
        let ghost pre = s@.subrange(start as int, k as int);
        let ghost next = s@.subrange(start as int, k + 1);
        assert(next.drop_last() =~= pre);
        assert(next.last() == c);
        if c < '0' || c > '9' {
            assert(!all_digits(d)) by {
                assert(d[k - start] == c);
            }
            return None;
        }
        let digit: u32 = (c as u32) - ('0' as u32);
        assert(digits_value(next) == digits_value(pre) * 10 + digit);
        let wide: u32 = acc * 10 + digit;
        acc = if wide > 65536 { 65536 } else { wide };
        assert(all_digits(next)) by {
            assert forall|j: int| 0 <= j < next.len() implies '0' <= #[trigger] next[j] <= '9' by {
                if j < pre.len() {
                    assert(next[j] == pre[j]);
                }
            }
        }
        k = k + 1;
    }
    assert(s@.subrange(start as int, n as int) =~= d);
    if acc <= 65535 {
        Some(acc as u16)
    } else {
        None
    }
}

/// The ASCII digit character for a value below ten.
pub open spec fn digit_char(d: nat) -> char {
    (48 + d) as char
}

/// Decimal text of a natural number, most significant digit first, without leading zeros.
pub open spec fn decimal_digits(n: nat) -> Seq<char>
    decreases n,
{
    if n < 10 {
        seq![digit_char(n)]
    } else {
        decimal_digits(n / 10) + seq![digit_char(n % 10)]
    }
}

/// Decimal text of an integer, with a leading `-` when negative.
pub open spec fn decimal_text(v: int) -> Seq<char> {
    if v < 0 {
        seq!['-'] + decimal_digits((-v) as nat)
    } else {
        decimal_digits(v as nat)
    }
}

fn digit_str(d: u64) -> (r: &'static str)
    requires
        d < 10,
    ensures
        r@ == seq![digit_char(d as nat)],
{
    match d {
        0 => {
            proof { reveal_strlit("0"); }
            "0"
        },
        1 => {
            proof { reveal_strlit("1"); }
            "1"
        },
        2 => {
            proof { reveal_strlit("2"); }
            "2"
        },
        3 => {
            proof { reveal_strlit("3"); }
            "3"
        },
        4 => {
            proof { reveal_strlit("4"); }
            "4"
        },
        5 => {
            proof { reveal_strlit("5"); }
            "5"
        },
        6 => {
            proof { reveal_strlit("6"); }
            "6"
        },
        7 => {
            proof { reveal_strlit("7"); }
            "7"
        },
        8 => {
            proof { reveal_strlit("8"); }
            "8"
        },
        _ => {
            proof { reveal_strlit("9"); }
            "9"
        },
    }
}

fn append_digits(s: &mut String, n: u64)
    ensures
        final(s)@ == old(s)@ + decimal_digits(n as nat),
    decreases n,
{
    if n >= 10 {
        append_digits(s, n / 10);
    }
    s.append(digit_str(n % 10));
    assert(old(s)@ + decimal_digits(n as nat) =~= if n >= 10 {
        old(s)@ + decimal_digits((n / 10) as nat) + seq![digit_char((n % 10) as nat)]
    } else {
        old(s)@ + seq![digit_char(n as nat)]
    });
}

/// Appends the decimal text of `v` to `s`.
pub fn append_decimal(s: &mut String, v: i32)
    ensures
        final(s)@ == old(s)@ + decimal_text(v as int),
{
    if v < 0 {
        proof { reveal_strlit("-"); }
        s.append("-");
        let m: u64 = (-(v as i64)) as u64;
        append_digits(s, m);
        assert(old(s)@ + decimal_text(v as int) =~= old(s)@ + seq!['-'] + decimal_digits(m as nat));
    } else {
        append_digits(s, v as u64);
    }
}

} // verus!

verus! {

/// Unicode `White_Space`, the characters at which `str::split_whitespace` splits.
pub open spec fn is_unicode_whitespace(c: char) -> bool {
    ||| '\u{9}' <= c <= '\u{d}'
    ||| c == ' '
    ||| c == '\u{85}'
    ||| c == '\u{a0}'
    ||| c == '\u{1680}'
    ||| '\u{2000}' <= c <= '\u{200a}'
    ||| c == '\u{2028}'
    ||| c == '\u{2029}'
    ||| c == '\u{202f}'
    ||| c == '\u{205f}'
    ||| c == '\u{3000}'
}

/// Whether `c` is Unicode white space; see `is_unicode_whitespace`.
pub fn is_whitespace_char(c: char) -> (r: bool)
    ensures
        r == is_unicode_whitespace(c),
{
    ('\u{9}' <= c && c <= '\u{d}') || c == ' ' || c == '\u{85}' || c == '\u{a0}' || c
        == '\u{1680}' || ('\u{2000}' <= c && c <= '\u{200a}') || c == '\u{2028}' || c
        == '\u{2029}' || c == '\u{202f}' || c == '\u{205f}' || c == '\u{3000}'
}

/// The `i64` that a string denotes as `i64`'s `FromStr` reads it: an optional `+` or `-`, then
/// one or more ASCII digits, with the value inside `i64`'s range; anything else denotes none.
pub open spec fn decimal_i64(s: Seq<char>) -> Option<i64> {
    let neg = s.len() > 0 && s[0] == '-';
    let d = if s.len() > 0 && (s[0] == '-' || s[0] == '+') {
        s.drop_first()
    } else {
        s
    };
    let v = if neg {
        -digits_value(d)
    } else {
        digits_value(d)
    };
    if d.len() > 0 && all_digits(d) && i64::MIN <= v <= i64::MAX {
        Some(v as i64)
    } else {
        None
    }
}

/// The characters of a string slice, in order.
pub fn chars_of(s: &str) -> (v: Vec<char>)
    ensures
        v@ == s@,
{
    let n = s.unicode_len();
    let mut v: Vec<char> = Vec::new();
    let mut k: usize = 0;
    while k < n
        invariant
            n == s@.len(),
            k <= n,
            v@ == s@.subrange(0, k as int),
        decreases n - k,
    {
        v.push(s.get_char(k));
        k = k + 1;
        assert(v@ =~= s@.subrange(0, k as int));
    }
    assert(v@ =~= s@);
    v
}

/// Parses `cs[from..to]` as a decimal `i64`; see `decimal_i64`.
pub fn parse_i64_chars(cs: &Vec<char>, from: usize, to: usize) -> (r: Option<i64>)
    requires
        from <= to <= cs@.len(),
    ensures
        r == decimal_i64(cs@.subrange(from as int, to as int)),
{
    let ghost s = cs@.subrange(from as int, to as int);
    let mut neg = false;
    let mut start = from;
    if from < to && (cs[from] == '-' || cs[from] == '+') {
        neg = cs[from] == '-';
        start = from + 1;
    }
    let ghost d = if s.len() > 0 && (s[0] == '-' || s[0] == '+') {
        s.drop_first()
    } else {
        s
    };
    assert(d =~= cs@.subrange(start as int, to as int));
    assert(neg == (s.len() > 0 && s[0] == '-'));
    if start >= to {
        return None;
    }
    // The magnitude, saturated just above the largest one any `i64` can have.
    let cap: u128 = 9_223_372_036_854_775_809;
    let mut acc: u128 = 0;
    let mut k: usize = start;
    while k < to
        invariant
            from <= start <= k <= to <= cs@.len(),
            start < to,
            s == cs@.subrange(from as int, to as int),
            d == cs@.subrange(start as int, to as int),
            d == (if s.len() > 0 && (s[0] == '-' || s[0] == '+') {
                s.drop_first()
            } else {
                s
            }),
            neg == (s.len() > 0 && s[0] == '-'),
            cap == 9_223_372_036_854_775_809,
            all_digits(cs@.subrange(start as int, k as int)),
            digits_value(cs@.subrange(start as int, k as int)) >= 0,
            acc as int == if digits_value(cs@.subrange(start as int, k as int)) < cap {
                digits_value(cs@.subrange(start as int, k as int))
            } else {
                cap as int
            },
        decreases to - k,
    {
        let c = cs[k];
        let ghost pre = cs@.subrange(start as int, k as int);
        let ghost next = cs@.subrange(start as int, k + 1);
        assert(next.drop_last() =~= pre);
        assert(next.last() == c);
        if c < '0' || c > '9' {
            assert(!all_digits(cs@.subrange(start as int, to as int))) by {
                assert(cs@.subrange(start as int, to as int)[k - start] == c);
            }
            return None;
        }
        let digit: u128 = (c as u128) - ('0' as u128);
        assert(digits_value(next) == digits_value(pre) * 10 + digit);
        if acc < cap {
            let wide: u128 = acc * 10 + digit;
            acc = if wide > cap { cap } else { wide };
        }
        assert(all_digits(next)) by {
            assert forall|j: int| 0 <= j < next.len() implies '0' <= #[trigger] next[j] <= '9' by {
                if j < pre.len() {
                    assert(next[j] == pre[j]);
                }
            }
        }
        k = k + 1;
    }
    assert(cs@.subrange(start as int, to as int) =~= d);
    if neg {
        if acc <= 9_223_372_036_854_775_808 {
            let m = acc as i128;
            Some((-m) as i64)
        } else {
            None
        }
    } else {
        if acc <= 9_223_372_036_854_775_807 {
            Some(acc as i64)
        } else {
            None
        }
    }
}

/// Parses a decimal `i64`; see `decimal_i64`.
pub fn parse_i64(s: &str) -> (r: Option<i64>)
    ensures
        r == decimal_i64(s@),
{
    let cs = chars_of(s);
    let n = cs.len();
    assert(cs@.subrange(0, n as int) =~= s@);
    parse_i64_chars(&cs, 0, n)
}

/// `s[a..b]` is one of the words `str::split_whitespace` yields: a maximal run of
/// non-white-space characters.
pub open spec fn is_word(s: Seq<char>, a: int, b: int) -> bool {
    &&& 0 <= a < b <= s.len()
    &&& (a == 0 || is_unicode_whitespace(s[a - 1]))
    &&& (b == s.len() || is_unicode_whitespace(s[b]))
    &&& forall|k: int| a <= k < b ==> !is_unicode_whitespace(#[trigger] s[k])
}

/// The word `s[a..b]` starts with `key`.
pub open spec fn word_has_prefix(s: Seq<char>, a: int, b: int, key: Seq<char>) -> bool {
    &&& b - a >= key.len()
    &&& s.subrange(a, a + key.len()) == key
}

/// `s[a..b]` is the first word of `s` that starts with `key`.
pub open spec fn first_keyed_word(s: Seq<char>, key: Seq<char>, a: int, b: int) -> bool {
    &&& is_word(s, a, b)
    &&& word_has_prefix(s, a, b, key)
    &&& forall|a2: int, b2: int|
        a2 < a && #[trigger] is_word(s, a2, b2) ==> !word_has_prefix(s, a2, b2, key)
}

/// The value of a `KEY:value` field in white-space separated text: the first word that starts
/// with `key`, with `key` removed, read as an `i64`. `None` when no word starts with `key` or
/// when the rest of that first word is not a valid `i64`.
pub open spec fn keyed_field(s: Seq<char>, key: Seq<char>) -> Option<i64> {
    if exists|a: int, b: int| #[trigger] first_keyed_word(s, key, a, b) {
        let (a, b) = choose|a: int, b: int| #[trigger] first_keyed_word(s, key, a, b);
        decimal_i64(s.subrange(a + key.len(), b))
    } else {
        None
    }
}

/// Whether `cs[a..]` begins with `key`.
fn starts_with_at(cs: &Vec<char>, a: usize, b: usize, key: &Vec<char>) -> (r: bool)
    requires
        a <= b <= cs@.len(),
    ensures
        r == word_has_prefix(cs@, a as int, b as int, key@),
{
    let kl = key.len();
    if b - a < kl {
        return false;
    }
    let mut j: usize = 0;
    while j < kl
        invariant
            kl == key@.len(),
            a + kl <= b <= cs@.len(),
            j <= kl,
            forall|t: int| 0 <= t < j ==> cs@[a + t] == key@[t],
        decreases kl - j,
    {
        if cs[a + j] != key[j] {
            assert(cs@.subrange(a as int, a + kl)[j as int] != key@[j as int]);
            return false;
        }
        j = j + 1;
    }
    assert(cs@.subrange(a as int, a + kl) =~= key@);
    true
}

/// Reads the `i64` of the `KEY:value` field `key` from white-space separated text, as
/// `keyed_field` describes.
pub fn keyed_field_value(text: &str, key: &str) -> (r: Option<i64>)
    ensures
        r == keyed_field(text@, key@),
{
    let cs = chars_of(text);
    let ks = chars_of(key);
    let n = cs.len();
    let kl = ks.len();
    let ghost s = cs@;
    let mut i: usize = 0;
    while i < n
        invariant
            s == cs@,
            s == text@,
            ks@ == key@,
            n == s.len(),
            kl == ks@.len(),
            i <= n,
            i == 0 || i == n || is_unicode_whitespace(s[i - 1]),
            forall|a2: int, b2: int|
                a2 < i && #[trigger] is_word(s, a2, b2) ==> !word_has_prefix(s, a2, b2, ks@),
        decreases n - i,
    {
        if is_whitespace_char(cs[i]) {
            i = i + 1;
            continue;
        }
        let a = i;
        let mut b = i;
        loop
            invariant
                s == cs@,
                n == s.len(),
                a <= b <= n,
                forall|k: int| a <= k < b ==> !is_unicode_whitespace(#[trigger] s[k]),
            ensures
                a <= b <= n,
                forall|k: int| a <= k < b ==> !is_unicode_whitespace(#[trigger] s[k]),
                b == n || is_unicode_whitespace(s[b as int]),
            decreases n - b,
        {
            if b == n {
                break;
            }
            if is_whitespace_char(cs[b]) {
                break;
            }
            b = b + 1;
        }
        assert(b > a);
        assert(is_word(s, a as int, b as int));
        if starts_with_at(&cs, a, b, &ks) {
            assert(first_keyed_word(s, ks@, a as int, b as int));
            let ghost (a2, b2) = choose|a2: int, b2: int| #[trigger] first_keyed_word(s, ks@, a2, b2);
            assert(a2 == a && b2 == b) by {
                assert(a2 <= a);
                assert(a2 >= a);
                if b2 < b {
                    assert(!is_unicode_whitespace(s[b2]));
                }
                if b2 > b {
                    assert(!is_unicode_whitespace(s[b as int]));
                }
            }
            return parse_i64_chars(&cs, a + kl, b);
        }
        assert forall|a2: int, b2: int|
            a2 < b + 1 && #[trigger] is_word(s, a2, b2) implies !word_has_prefix(s, a2, b2, ks@) by {
            if a2 == a {
                if b2 < b {
                    assert(!is_unicode_whitespace(s[b2]));
                }
                if b2 > b {
                    assert(!is_unicode_whitespace(s[b as int]));
                }
            } else if a < a2 && a2 < b {
                assert(!is_unicode_whitespace(s[a2 - 1]));
            }
        }
        if b == n {
            i = n;
        } else {
            i = b + 1;
        }
    }
    assert(!exists|a: int, b: int| #[trigger] first_keyed_word(s, ks@, a, b));
    None
}

} // verus!
