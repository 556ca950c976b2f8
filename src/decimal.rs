//! Text form of the values held by control files: decimal digits, possibly
//! surrounded by white space.
use vstd::prelude::*;
use vstd::utf8::{decode_utf8, encode_utf8, is_ascii_chars, valid_utf8};

verus! {

broadcast use vstd::utf8::group_utf8_lib;

/// Why the contents of a control file do not give a value.
#[derive(Debug, Clone, Copy, PartialEq, Eq, Structural)]
pub enum DecodeError {
    /// The bytes are not valid UTF-8.
    NotText,
    /// The text, once trimmed, is not an unsigned decimal number that fits in 32 bits.
    NotANumber,
}

/// The Unicode `White_Space` property.
pub open spec fn white_space(c: char) -> bool {
    ||| '\u{9}' <= c <= '\u{d}'
    ||| c == ' '
    ||| c == '\u{85}'
    ||| c == '\u{a0}'
    ||| c == '\u{1680}'
    ||| '\u{2000}' <= c <= '\u{200a}'
    ||| c == '\u{2028}'
    ||| c == '\u{2029}'
    ||| c == '\u{202f}'
    ||| c == '\u{205f}'
    ||| c == '\u{3000}'
}

pub open spec fn trim_start(s: Seq<char>) -> Seq<char>
    decreases s.len(),
{
    if s.len() > 0 && white_space(s[0]) {
        trim_start(s.drop_first())
    } else {
        s
    }
}

pub open spec fn trim_end(s: Seq<char>) -> Seq<char>
    decreases s.len(),
{
    if s.len() > 0 && white_space(s.last()) {
        trim_end(s.drop_last())
    } else {
        s
    }
}

/// `s` without its leading and trailing white space.
pub open spec fn trimmed(s: Seq<char>) -> Seq<char> {
    trim_end(trim_start(s))
}

pub open spec fn is_digit(c: char) -> bool {
    '0' <= c <= '9'
}

pub open spec fn all_digits(s: Seq<char>) -> bool {
    forall|i: int| 0 <= i < s.len() ==> is_digit(#[trigger] s[i])
}

/// The number that a string of decimal digits denotes.
pub open spec fn digits_value(s: Seq<char>) -> nat
    decreases s.len(),
{
    if s.len() == 0 {
        0
    } else {
        digits_value(s.drop_last()) * 10 + (s.last() as nat - 48) as nat
    }
}

/// An unsigned 32-bit number in decimal: an optional `+`, then one or more
/// digits whose value fits.
pub open spec fn parse_u32_text(s: Seq<char>) -> Option<u32> {
    let d = if s.len() > 0 && s[0] == '+' {
        s.drop_first()
    } else {
        s
    };
    if d.len() > 0 && all_digits(d) && digits_value(d) <= u32::MAX {
        Some(digits_value(d) as u32)
    } else {
        None
    }
}

/// What the contents `b` of a control file hold: UTF-8 text that, trimmed,
/// parses as an unsigned 32-bit number.
pub open spec fn decoded_value(b: Seq<u8>) -> Result<u32, DecodeError> {
    if !valid_utf8(b) {
        Err(DecodeError::NotText)
    } else {
        match parse_u32_text(trimmed(decode_utf8(b))) {
            Some(v) => Ok(v),
            None => Err(DecodeError::NotANumber),
        }
    }
}

pub open spec fn digit_char(d: nat) -> char {
    (d + 48) as char
}

/// The shortest decimal form of `n`.
pub open spec fn decimal_chars(n: nat) -> Seq<char>
    decreases n,
{
    if n < 10 {
        seq![digit_char(n)]
    } else {
        decimal_chars(n / 10).push(digit_char(n % 10))
    }
}

/// The bytes written to a control file to set it to `n`.
pub open spec fn encoded_value(n: u32) -> Seq<u8> {
    encode_utf8(decimal_chars(n as nat))
}

/// The bytes of an ASCII text, one per character.
pub open spec fn ascii_bytes(s: Seq<char>) -> Seq<u8> {
    Seq::new(s.len(), |i: int| s[i] as u8)
}

/// Relies on `char::is_whitespace`: true exactly for the characters with the
/// Unicode `White_Space` property.
#[verifier::external_body]
fn is_white_space(c: char) -> (r: bool)
    ensures
        r == white_space(c),
{
    c.is_whitespace()
}

/// Relies on `std::str::from_utf8`: succeeds exactly on valid UTF-8 and then
/// holds the characters that the bytes encode.
#[verifier::external_body]
fn utf8_text(b: &[u8]) -> (r: Option<&str>)
    ensures
        r.is_some() == valid_utf8(b@),
        r matches Some(s) ==> s@ == decode_utf8(b@),
{
    std::str::from_utf8(b).ok()
}

proof fn lemma_trim_start_step(s: Seq<char>, i: int)
    requires
        0 <= i < s.len(),
        white_space(s[i]),
    ensures
        trim_start(s.subrange(i, s.len() as int)) == trim_start(s.subrange(i + 1, s.len() as int)),
{
    assert(s.subrange(i, s.len() as int).drop_first() =~= s.subrange(i + 1, s.len() as int));
}

proof fn lemma_trim_end_step(s: Seq<char>, lo: int, hi: int)
    requires
        0 <= lo < hi <= s.len(),
        white_space(s[hi - 1]),
    ensures
        trim_end(s.subrange(lo, hi)) == trim_end(s.subrange(lo, hi - 1)),
{
    assert(s.subrange(lo, hi).drop_last() =~= s.subrange(lo, hi - 1));
}

/// Bounds of the trimmed part of `s`, counted in characters.
fn trim_bounds(s: &str) -> (r: (usize, usize))
    ensures
        r.0 <= r.1 <= s@.len(),
        trimmed(s@) == s@.subrange(r.0 as int, r.1 as int),
{
    let n = s.unicode_len();
    let mut lo: usize = 0;
    assert(s@.subrange(0, n as int) =~= s@);
    while lo < n && is_white_space(s.get_char(lo))
        invariant
            n == s@.len(),
            lo <= n,
            trim_start(s@) == trim_start(s@.subrange(lo as int, n as int)),
        decreases n - lo,
    {
        proof {
            lemma_trim_start_step(s@, lo as int);
        }
        lo = lo + 1;
    }
    assert(trim_start(s@) == s@.subrange(lo as int, n as int));
    let mut hi: usize = n;
    while hi > lo && is_white_space(s.get_char(hi - 1))
        invariant
            n == s@.len(),
            lo <= hi <= n,
            trim_start(s@) == s@.subrange(lo as int, n as int),
            trimmed(s@) == trim_end(s@.subrange(lo as int, hi as int)),
        decreases hi,
    {
        proof {
            lemma_trim_end_step(s@, lo as int, hi as int);
        }
        hi = hi - 1;
    }
    (lo, hi)
}

proof fn lemma_digits_prefix_le(s: Seq<char>, k: int)
    requires
        0 <= k <= s.len(),
        all_digits(s),
    ensures
        digits_value(s.subrange(0, k)) <= digits_value(s),
    decreases s.len(),
{
    if k < s.len() {
        let t = s.drop_last();
        assert(all_digits(t));
        lemma_digits_prefix_le(t, k);
        assert(t.subrange(0, k) =~= s.subrange(0, k));
        assert(is_digit(s[s.len() - 1]));
    } else {
        assert(s.subrange(0, k) =~= s);
    }
}

/// Parses the characters `s[lo..hi]` as an unsigned 32-bit decimal number.
fn parse_range(s: &str, lo: usize, hi: usize) -> (r: Option<u32>)
    requires
        lo <= hi <= s@.len(),
    ensures
        r == parse_u32_text(s@.subrange(lo as int, hi as int)),
{
    let ghost t = s@.subrange(lo as int, hi as int);
    let mut start: usize = lo;
    if lo < hi && s.get_char(lo) == '+' {
        start = lo + 1;
    }
    let ghost d = s@.subrange(start as int, hi as int);
    assert(d =~= (if t.len() > 0 && t[0] == '+' { t.drop_first() } else { t }));
    if start == hi {
        return None;
    }
    let mut acc: u32 = 0;
    let mut j: usize = start;
    while j < hi
        invariant
            start <= j <= hi <= s@.len(),
            d == s@.subrange(start as int, hi as int),
            t == s@.subrange(lo as int, hi as int),
            d == (if t.len() > 0 && t[0] == '+' { t.drop_first() } else { t }),
            d.len() > 0,
            all_digits(s@.subrange(start as int, j as int)),
            acc as nat == digits_value(s@.subrange(start as int, j as int)),
        decreases hi - j,
    {
        let c = s.get_char(j);
        let ghost p = s@.subrange(start as int, j as int + 1);
        assert(p.drop_last() =~= s@.subrange(start as int, j as int));
        assert(d[j - start] == c);
        if !('0' <= c && c <= '9') {
            assert(!all_digits(d));
            return None;
        }
        let digit = (c as u32) - 48;
        assert(all_digits(p));
        assert(p.last() == c);
        assert(digits_value(p) == acc * 10 + digit);
        if acc > 429496729 || (acc == 429496729 && digit > 5) {
            proof {
                assert(acc * 10 + digit > u32::MAX) by (nonlinear_arith)
                    requires
                        acc > 429496729 || (acc == 429496729 && digit > 5),
                ;
                if all_digits(d) {
                    lemma_digits_prefix_le(d, j - start + 1);
                    assert(d.subrange(0, j - start + 1) =~= p);
                }
            }
            return None;
        }
        acc = acc * 10 + digit;
        j = j + 1;
    }
    assert(s@.subrange(start as int, j as int) =~= d);
    Some(acc)
}

/// Reads the value held by the contents `b` of a control file: the bytes
/// must be UTF-8 text that, trimmed of white space, is an unsigned 32-bit
/// decimal number.
pub fn decode_u32(b: &[u8]) -> (r: Result<u32, DecodeError>)
    ensures
        r == decoded_value(b@),
{
    match utf8_text(b) {
        None => Err(DecodeError::NotText),
        Some(s) => {
            let (lo, hi) = trim_bounds(s);
            match parse_range(s, lo, hi) {
                Some(v) => Ok(v),
                None => Err(DecodeError::NotANumber),
            }
        },
    }
}

proof fn lemma_decimal_chars(n: nat)
    ensures
        decimal_chars(n).len() > 0,
        all_digits(decimal_chars(n)),
        digits_value(decimal_chars(n)) == n,
    decreases n,
{
    if n >= 10 {
        lemma_decimal_chars(n / 10);
        let s = decimal_chars(n);
        assert(s.drop_last() =~= decimal_chars(n / 10));
        assert(s.last() == digit_char(n % 10));
        assert(digit_char(n % 10) as nat == n % 10 + 48);
        assert(is_digit(s[s.len() - 1]));
        assert(n == (n / 10) * 10 + n % 10);
        assert(digits_value(s) == digits_value(s.drop_last()) * 10 + (s.last() as nat - 48) as nat);
        assert(digits_value(s.drop_last()) == n / 10);
    } else {
        let s = decimal_chars(n);
        assert(s.drop_last() =~= Seq::<char>::empty());
        assert(digit_char(n) as nat == n + 48);
        assert(digits_value(s) == digits_value(s.drop_last()) * 10 + (s.last() as nat - 48) as nat);
    }
}

proof fn lemma_ascii_encoding(n: nat)
    ensures
        encode_utf8(decimal_chars(n)) == ascii_bytes(decimal_chars(n)),
{
    let s = decimal_chars(n);
    lemma_decimal_chars(n);
    assert(is_ascii_chars(s)) by {
        assert forall|i: int| 0 <= i < s.len() implies '\0' <= #[trigger] s[i] <= '\u{7f}' by {
            assert(is_digit(s[i]));
        }
    }
    assert(encode_utf8(s) =~= ascii_bytes(s));
}

/// Writes `v` in decimal, as the bytes of ASCII digits.
pub fn encode_u32(v: u32) -> (r: Vec<u8>)
    ensures
        r@ == encoded_value(v),
    decreases v,
{
    let mut out = if v < 10 {
        Vec::new()
    } else {
        encode_u32(v / 10)
    };
    let digit: u8 = (v % 10) as u8 + 48;
    out.push(digit);
    proof {
        lemma_ascii_encoding(v as nat);
        if v >= 10 {
            lemma_ascii_encoding((v / 10) as nat);
        }
        assert(out@ =~= ascii_bytes(decimal_chars(v as nat)));
    }
    out
}

/// What is written as a value is read back as that same value.
pub proof fn lemma_round_trip(v: u32)
    ensures
        decoded_value(encoded_value(v)) == Ok::<u32, DecodeError>(v),
{
    let s = decimal_chars(v as nat);
    lemma_decimal_chars(v as nat);
    assert(decode_utf8(encode_utf8(s)) == s);
    assert(is_digit(s[0]) && is_digit(s[s.len() - 1]));
    assert(trim_start(s) == s);
    assert(trim_end(s) == s);
}

/// Text that is not a number is refused, never read as some default value:
/// a character of the trimmed text that is neither a digit nor a leading `+`
/// makes the contents a parse failure.
pub proof fn lemma_malformed_rejected(b: Seq<u8>, i: int)
    requires
        valid_utf8(b),
        0 <= i < trimmed(decode_utf8(b)).len(),
        !is_digit(trimmed(decode_utf8(b))[i]),
        !(i == 0 && trimmed(decode_utf8(b))[i] == '+'),
    ensures
        decoded_value(b) == Err::<u32, DecodeError>(DecodeError::NotANumber),
{
    let t = trimmed(decode_utf8(b));
    if t.len() > 0 && t[0] == '+' {
        assert(!is_digit(t.drop_first()[i - 1]));
    } else {
        assert(!is_digit(t[i]));
    }
}

} // verus!
