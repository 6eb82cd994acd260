//! Byte-pattern search and decimal text, the small text primitives that the
//! protocol's ad hoc signalling is built on.

use vstd::prelude::*;
use vstd::utf8::*;

verus! {

/// `pat` occurs in `hay` starting at byte `i`, comparing `hay` through `fold`.
pub open spec fn occurs_at(hay: Seq<u8>, pat: Seq<u8>, i: int, fold: bool) -> bool {
    &&& 0 <= i
    &&& i + pat.len() <= hay.len()
    &&& forall|m: int| 0 <= m < pat.len() ==> #[trigger] folded(hay[i + m], fold) == pat[m]
}

/// ASCII upper-case letters mapped to lower case when `fold` is set.
pub open spec fn folded(b: u8, fold: bool) -> u8 {
    if fold && 65 <= b <= 90 {
        (b + 32) as u8
    } else {
        b
    }
}

/// `pat` is a substring of `hay`; with `fold`, ASCII letters of `hay` match
/// regardless of case (`pat` is then written in lower case).
pub open spec fn contains_bytes(hay: Seq<u8>, pat: Seq<u8>, fold: bool) -> bool {
    exists|i: int| occurs_at(hay, pat, i, fold)
}

fn fold_byte(b: u8, fold: bool) -> (r: u8)
    ensures
        r == folded(b, fold),
{
    if fold && 65 <= b && b <= 90 {
        b + 32
    } else {
        b
    }
}

/// Whether `pat` occurs in `hay` (see `contains_bytes`).
pub fn find_bytes(hay: &[u8], pat: &[u8], fold: bool) -> (r: bool)
    ensures
        r == contains_bytes(hay@, pat@, fold),
{
    if pat.len() > hay.len() {
        return false;
    }
    if pat.len() == 0 {
        assert(occurs_at(hay@, pat@, 0, fold));
        return true;
    }
    let n: usize = hay.len();
    let last: usize = n - pat.len();
    let mut i: usize = 0;
    while i <= last
        invariant
            n == hay@.len(),
            last == hay@.len() - pat@.len(),
            0 < pat@.len() <= hay@.len(),
            i <= last + 1,
            forall|j: int| 0 <= j < i ==> !occurs_at(hay@, pat@, j, fold),
        decreases last + 1 - i,
    {
        let mut k: usize = 0;
        let mut same: bool = true;
        while k < pat.len() && same
            invariant
                i <= last,
                n == hay@.len(),
                last == hay@.len() - pat@.len(),
                0 < pat@.len() <= hay@.len(),
                k <= pat@.len(),
                same == (forall|m: int| 0 <= m < k ==> #[trigger] folded(hay@[i + m], fold) == pat@[m]),
            decreases pat@.len() - k,
        {
            if fold_byte(hay[i + k], fold) != pat[k] {
                same = false;
            }
            k += 1;
        }
        if same {
            assert(occurs_at(hay@, pat@, i as int, fold));
            return true;
        }
        i += 1;
    }
    assert forall|j: int| !occurs_at(hay@, pat@, j, fold) by {
        if 0 <= j && j + pat@.len() <= hay@.len() {
            assert(j < i);
        }
    }
    false
}

/// The character of a decimal digit.
pub open spec fn digit_char(d: nat) -> char {
    seq!['0', '1', '2', '3', '4', '5', '6', '7', '8', '9'][d as int]
}

/// The value of a decimal digit character.
pub open spec fn digit_value(c: char) -> nat {
    (c as u32 - 48) as nat
}

pub open spec fn is_digit(c: char) -> bool {
    '0' <= c <= '9'
}

/// Decimal digits of `n`, without leading zeros.
pub open spec fn digits_of(n: nat) -> Seq<char>
    decreases n,
{
    if n < 10 {
        seq![digit_char(n)]
    } else {
        digits_of(n / 10).push(digit_char(n % 10))
    }
}

/// How an integer is written in decimal: a minus sign for negative values.
pub open spec fn decimal_of(v: int) -> Seq<char> {
    if v < 0 {
        seq!['-'] + digits_of((-v) as nat)
    } else {
        digits_of(v as nat)
    }
}

/// The value of a sequence of decimal digits.
pub open spec fn value_of_digits(s: Seq<char>) -> nat
    decreases s.len(),
{
    if s.len() == 0 {
        0
    } else {
        value_of_digits(s.drop_last()) * 10 + digit_value(s.last())
    }
}

/// How `str::parse::<i32>` reads text: an optional sign, then one or more
/// decimal digits, with a value that fits in an `i32`.
pub open spec fn parsed_i32(s: Seq<char>) -> Option<i32> {
    let negative = s.len() > 0 && s[0] == '-';
    let digits = if s.len() > 0 && (s[0] == '-' || s[0] == '+') {
        s.drop_first()
    } else {
        s
    };
    let v: int = if negative {
        -value_of_digits(digits)
    } else {
        value_of_digits(digits) as int
    };
    if digits.len() > 0 && (forall|i: int| 0 <= i < digits.len() ==> is_digit(#[trigger] digits[i]))
        && i32::MIN <= v <= i32::MAX {
        Some(v as i32)
    } else {
        None
    }
}

/// Relies on the `Display` impl of `i32`, which writes the value in decimal.
#[verifier::external_body]
pub(crate) fn decimal(v: i32) -> (r: String)
    ensures
        r@ == decimal_of(v as int),
{
    format!("{}", v)
}

/// Relies on `str::parse::<i32>` (`i32::from_str`).
#[verifier::external_body]
pub(crate) fn parse_i32(s: &str) -> (r: Option<i32>)
    ensures
        r == parsed_i32(s@),
{
    s.parse::<i32>().ok()
}

/// Relies on `String::from_utf8`: it succeeds exactly on valid UTF-8 and
/// then holds the decoded characters; on failure `FromUtf8Error::into_bytes`
/// hands the bytes back.
#[verifier::external_body]
pub(crate) fn utf8_text(bytes: Vec<u8>) -> (r: Result<String, Vec<u8>>)
    ensures
        r is Ok <==> valid_utf8(bytes@),
        r matches Ok(t) ==> t@ == decode_utf8(bytes@),
        r matches Err(b) ==> b@ == bytes@,
{
    String::from_utf8(bytes).map_err(|e| e.into_bytes())
}

} // verus!
