//! A whole number: from a string of digits to its words.

use crate::digit::{digit_of_char, is_digit_char, Digit, Gender};
use crate::period::{hundreds_to_faroese, period_words};
use crate::scale::{scale_to_faroese, scale_word, MAX_PERIODS};
use vstd::prelude::*;
use vstd::string::*;

verus! {

/// The longest run of significant digits that can be named.
pub const MAX_DIGITS: usize = 114;

/// Whether every character of `s` is a decimal digit.
pub open spec fn all_digit_chars(s: Seq<char>) -> bool {
    forall|i: int| 0 <= i < s.len() ==> is_digit_char(#[trigger] s[i])
}

/// The digits that `s` writes, lowest first: the digit at place `i` is the
/// one that the character `i` places from the end of `s` writes.
pub open spec fn rev_digits(s: Seq<char>) -> Seq<Digit> {
    Seq::new(s.len(), |i: int| digit_of_char(s[s.len() - 1 - i]).unwrap())
}

/// The number that the digits `d`, lowest first, write.
pub open spec fn digits_value(d: Seq<Digit>) -> nat
    decreases d.len(),
{
    if d.len() == 0 {
        0
    } else {
        d[0].value() + 10 * digits_value(d.drop_first())
    }
}

/// How many zeros bring a sequence of length `len` to whole periods.
pub open spec fn padding_len(len: nat) -> nat {
    ((3 - len % 3) % 3) as nat
}

/// `d` with zeros added at its high end until its length is a multiple of
/// three; unchanged where it already is one.
pub open spec fn padded(d: Seq<Digit>) -> Seq<Digit> {
    d + Seq::new(padding_len(d.len()), |i: int| Digit::Zero)
}

/// `s` without its leading zeros, the last character always kept: a string
/// of zeros alone keeps one zero.
pub open spec fn significant(s: Seq<char>) -> Seq<char>
    decreases s.len(),
{
    if s.len() > 1 && s[0] == '0' {
        significant(s.drop_first())
    } else {
        s
    }
}

/// The units digit of period `i` of `d`.
pub open spec fn units_at(d: Seq<Digit>, i: int) -> Digit {
    d[3 * i]
}

/// The tens digit of period `i` of `d`.
pub open spec fn tens_at(d: Seq<Digit>, i: int) -> Digit {
    d[3 * i + 1]
}

/// The hundreds digit of period `i` of `d`.
pub open spec fn hundreds_at(d: Seq<Digit>, i: int) -> Digit {
    d[3 * i + 2]
}

/// Whether period `i` of `d` is three zeros.
pub open spec fn period_is_zero(d: Seq<Digit>, i: int) -> bool {
    units_at(d, i) == Digit::Zero && tens_at(d, i) == Digit::Zero && hundreds_at(d, i)
        == Digit::Zero
}

/// Whether period `i` of `d` counts exactly one.
pub open spec fn period_is_one(d: Seq<Digit>, i: int) -> bool {
    units_at(d, i) == Digit::One && tens_at(d, i) == Digit::Zero && hundreds_at(d, i)
        == Digit::Zero
}

/// The gender of the period with index `i`: neuter for the two lowest,
/// feminine for every one above them.
pub open spec fn period_gender(i: int) -> Gender {
    if i <= 1 {
        Gender::Neut
    } else {
        Gender::Fem
    }
}

/// What period `i` of `d` adds to the words of the number, where `top` is
/// the index of the highest period.
///
/// A period of three zeros adds nothing, unless it is the highest: then the
/// whole number is zero and its word is written. Any other period adds its
/// words and, above the lowest, a space, its scale word and a space.
pub open spec fn period_fragment(d: Seq<Digit>, i: int, top: int) -> Seq<char> {
    if period_is_zero(d, i) && i != top {
        Seq::empty()
    } else if i > 0 {
        period_words(hundreds_at(d, i), tens_at(d, i), units_at(d, i), period_gender(i)) + " "@
            + scale_word(i, period_is_one(d, i)) + " "@
    } else {
        period_words(hundreds_at(d, i), tens_at(d, i), units_at(d, i), period_gender(i))
    }
}

/// The fragments of the periods from `top` down to `low`, highest first.
pub open spec fn words_down_to(d: Seq<Digit>, low: int, top: int) -> Seq<char>
    decreases top - low + 1,
{
    if low > top {
        Seq::empty()
    } else {
        words_down_to(d, low + 1, top) + period_fragment(d, low, top)
    }
}

/// The words of the number whose digits, lowest first and in whole periods,
/// are `d`.
pub open spec fn number_words(d: Seq<Digit>) -> Seq<char> {
    words_down_to(d, 0, d.len() / 3 - 1)
}

/// Whether `s` writes a number that can be put into words: it is not empty,
/// holds digits only, and has no more significant digits than can be named.
pub open spec fn is_spellable(s: Seq<char>) -> bool {
    s.len() > 0 && all_digit_chars(s) && significant(s).len() <= MAX_DIGITS
}

/// The words of the number that `s` writes.
pub open spec fn spelled(s: Seq<char>) -> Seq<char> {
    number_words(padded(rev_digits(significant(s))))
}

/// The words of the number that `s` writes, or nothing where `s` writes
/// none that can be put into words.
pub open spec fn faroese_words(s: Seq<char>) -> Option<Seq<char>> {
    if is_spellable(s) {
        Some(spelled(s))
    } else {
        None
    }
}

/// Parses a string of digits into its digits, lowest first.
///
/// Every character is read: one that is not a digit fails the whole string.
pub fn str_to_rev_digits(s: &str) -> (res: Option<Vec<Digit>>)
    ensures
        res is Some <==> all_digit_chars(s@),
        res matches Some(v) ==> v@ == rev_digits(s@),
{
    if !s.is_ascii() {
        return None;
    }
    let bytes = s.as_bytes();
    let n = bytes.len();
    proof {
        is_ascii_spec_bytes(s);
    }
    let mut v: Vec<Digit> = Vec::with_capacity(n);
    let mut i: usize = n;
    while i > 0
        invariant
            i <= n,
            n == s@.len(),
            n == bytes@.len(),
            is_ascii(s),
            forall|j: int| 0 <= j < n ==> bytes@[j] == s@[j] as u8,
            v@.len() == n - i,
            forall|j: int| i <= j < n ==> is_digit_char(#[trigger] s@[j]),
            forall|k: int|
                0 <= k < n - i ==> #[trigger] v@[k] == digit_of_char(s@[n - 1 - k]).unwrap(),
        decreases i,
    {
        i -= 1;
        let b = bytes[i];
        assert(b as char == s@[i as int]);
        match Digit::from_byte_char(b) {
            Some(digit) => v.push(digit),
            None => {
                return None;
            },
        }
    }
    assert(v@ =~= rev_digits(s@));
    Some(v)
}

/// Adds zeros at the high end of `digits` until they fill whole periods.
pub fn pad_to_periods(digits: &mut Vec<Digit>)
    requires
        old(digits).len() <= usize::MAX - 2,
    ensures
        final(digits)@ == padded(old(digits)@),
        final(digits)@.len() % 3 == 0,
{
    let ghost before = digits@;
    while digits.len() % 3 != 0
        invariant
            before.len() <= usize::MAX - 2,
            before.len() <= digits@.len() <= before.len() + padding_len(before.len()),
            digits@.len() % 3 != 0 ==> digits@.len() < before.len() + padding_len(before.len()),
            digits@.subrange(0, before.len() as int) == before,
            forall|k: int| before.len() <= k < digits@.len() ==> digits@[k] == Digit::Zero,
        decreases before.len() + padding_len(before.len()) - digits@.len(),
    {
        digits.push(Digit::Zero);
    }
    assert(digits@ =~= padded(before));
}

/// Puts into words the number whose digits, lowest first and in whole
/// periods, are `digits`. No digits give no words.
pub fn spell_periods(digits: &Vec<Digit>) -> (res: String)
    requires
        digits@.len() % 3 == 0,
        digits@.len() / 3 <= MAX_PERIODS,
    ensures
        res@ == number_words(digits@),
{
    let count: usize = digits.len() / 3;
    let mut out = String::new();
    let mut i: usize = count;
    while i > 0
        invariant
            i <= count,
            count == digits@.len() / 3,
            digits@.len() % 3 == 0,
            count <= MAX_PERIODS,
            out@ == words_down_to(digits@, i as int, count - 1),
        decreases i,
    {
        i -= 1;
        let u = digits[3 * i];
        let t = digits[3 * i + 1];
        let h = digits[3 * i + 2];
        let gender = if i <= 1 {
            Gender::Neut
        } else {
            Gender::Fem
        };
        let zero = u.is_zero() && t.is_zero() && h.is_zero();
        let ghost before = out@;
        if !zero || i + 1 == count {
            let words = hundreds_to_faroese(h, t, u, gender);
            out.append(words.as_str());
            if i > 0 {
                let one = h.is_zero() && t.is_zero() && u == Digit::One;
                let scale = scale_to_faroese(i, one);
                out.append(" ");
                out.append(scale.as_str());
                out.append(" ");
            }
        }
        assert(out@ =~= before + period_fragment(digits@, i as int, count - 1));
    }
    out
}

/// Exec form of the start of the significant digits: the index of the first
/// character of `s` that is not `'0'`, and of the last character where
/// there is none.
fn significant_start(s: &str) -> (start: usize)
    requires
        is_ascii(s),
        s@.len() > 0,
    ensures
        start < s@.len(),
        s@.skip(start as int) == significant(s@),
        forall|j: int| 0 <= j < start ==> s@[j] == '0',
{
    let bytes = s.as_bytes();
    let n = bytes.len();
    proof {
        is_ascii_spec_bytes(s);
    }
    let mut start: usize = 0;
    assert(s@.skip(0) =~= s@);
    while start + 1 < n && bytes[start] == 48u8
        invariant
            start < n,
            n == s@.len(),
            n == bytes@.len(),
            forall|j: int| 0 <= j < n ==> bytes@[j] == s@[j] as u8,
            is_ascii(s),
            significant(s@.skip(start as int)) == significant(s@),
            forall|j: int| 0 <= j < start ==> s@[j] == '0',
        decreases n - start,
    {
        assert(s@[start as int] == '0');
        assert(s@.skip(start as int).drop_first() =~= s@.skip(start + 1));
        start += 1;
    }
    assert(s@.skip(start as int)[0] == s@[start as int]);
    start
}

/// Puts the number that `s` writes into words.
///
/// Leading zeros are passed over, so that "007" reads as "7" and a string of
/// zeros as "0". The result is `None` where `s` is empty, where it holds a
/// character that is not a decimal digit, and where it has more than
/// `MAX_DIGITS` significant digits, for which there are no scale words.
pub fn to_faroese_words(s: &str) -> (res: Option<String>)
    ensures
        res is Some <==> is_spellable(s@),
        res matches Some(w) ==> w@ == spelled(s@),
{
    if !s.is_ascii() {
        return None;
    }
    let n = s.unicode_len();
    if n == 0 {
        return None;
    }
    let start = significant_start(s);
    let tail = s.substring_ascii(start, n);
    assert(tail@ == significant(s@));
    assert(all_digit_chars(tail@) <==> all_digit_chars(s@)) by {
        if all_digit_chars(tail@) {
            assert forall|j: int| 0 <= j < s@.len() implies is_digit_char(#[trigger] s@[j]) by {
                if j >= start {
                    assert(s@[j] == tail@[j - start]);
                }
            }
        }
        if all_digit_chars(s@) {
            assert forall|j: int| 0 <= j < tail@.len() implies is_digit_char(
                #[trigger] tail@[j],
            ) by {
                assert(tail@[j] == s@[j + start]);
            }
        }
    }
    if n - start > MAX_DIGITS {
        return None;
    }
    match str_to_rev_digits(tail) {
        None => None,
        Some(mut digits) => {
            pad_to_periods(&mut digits);
            Some(spell_periods(&digits))
        },
    }
}

} // verus!
