//! A period: three digits, from zero to nine hundred and ninety-nine, in words.

use crate::digit::{digit_word, Digit, Gender};
use vstd::prelude::*;
use vstd::string::*;

verus! {

/// The word for ten plus `u`: ten, eleven, ..., nineteen. These are words of
/// their own, not built from the word of `u`.
pub open spec fn teen_word(u: Digit) -> Seq<char> {
    match u {
        Digit::Zero => "tíggju"@,
        Digit::One => "ellivu"@,
        Digit::Two => "tólv"@,
        Digit::Three => "trettan"@,
        Digit::Four => "fjúrtan"@,
        Digit::Five => "fimtan"@,
        Digit::Six => "sekstan"@,
        Digit::Seven => "seytjan"@,
        Digit::Eight => "átjan"@,
        Digit::Nine => "nítjan"@,
    }
}

/// The word for `t` tens: ten, twenty, ..., ninety; empty for no tens.
pub open spec fn tens_word(t: Digit) -> Seq<char> {
    match t {
        Digit::Zero => ""@,
        Digit::One => "tíggju"@,
        Digit::Two => "tjúgu"@,
        Digit::Three => "trettivu"@,
        Digit::Four => "fjøruti"@,
        Digit::Five => "hálvtrýss"@,
        Digit::Six => "trýss"@,
        Digit::Seven => "hálvfjerðs"@,
        Digit::Eight => "fýrs"@,
        Digit::Nine => "hálvfems"@,
    }
}

/// The hundreds of a period: nothing for no hundreds, else the count in the
/// neuter, whatever the period's own gender, then the word for hundred and a
/// space.
pub open spec fn hundreds_part(h: Digit) -> Seq<char> {
    if h == Digit::Zero {
        Seq::empty()
    } else {
        digit_word(h, Gender::Neut) + " hundrað "@
    }
}

/// The tens and units of a period.
///
/// With no tens, the unit's word in the period's gender, left out where a
/// round hundred stands before it. With one ten, the teen word. With more,
/// the unit in its form before tens joined by "og" to the tens word, or the
/// tens word alone for a round ten.
pub open spec fn below_hundred_part(h: Digit, t: Digit, u: Digit, g: Gender) -> Seq<char> {
    if t == Digit::Zero {
        if u == Digit::Zero && h != Digit::Zero {
            Seq::empty()
        } else {
            digit_word(u, g)
        }
    } else if t == Digit::One {
        teen_word(u)
    } else if u == Digit::Zero {
        tens_word(t)
    } else {
        digit_word(u, Gender::BeforeTens) + "og"@ + tens_word(t)
    }
}

/// The words of the period with hundreds `h`, tens `t` and units `u`, in
/// gender `g`.
pub open spec fn period_words(h: Digit, t: Digit, u: Digit, g: Gender) -> Seq<char> {
    hundreds_part(h) + below_hundred_part(h, t, u, g)
}

/// The teen word for ten plus `u`.
pub fn teen_to_faroese(u: Digit) -> (res: &'static str)
    ensures
        res@ == teen_word(u),
{
    match u {
        Digit::Zero => "tíggju",
        Digit::One => "ellivu",
        Digit::Two => "tólv",
        Digit::Three => "trettan",
        Digit::Four => "fjúrtan",
        Digit::Five => "fimtan",
        Digit::Six => "sekstan",
        Digit::Seven => "seytjan",
        Digit::Eight => "átjan",
        Digit::Nine => "nítjan",
    }
}

/// The word for `t` tens.
pub fn tens_to_faroese(t: Digit) -> (res: &'static str)
    ensures
        res@ == tens_word(t),
{
    match t {
        Digit::Zero => "",
        Digit::One => "tíggju",
        Digit::Two => "tjúgu",
        Digit::Three => "trettivu",
        Digit::Four => "fjøruti",
        Digit::Five => "hálvtrýss",
        Digit::Six => "trýss",
        Digit::Seven => "hálvfjerðs",
        Digit::Eight => "fýrs",
        Digit::Nine => "hálvfems",
    }
}

/// Puts one period into words.
///
/// A period of three zeros gives the word for zero: whether such a period is
/// written at all is for the caller to decide.
pub fn hundreds_to_faroese(h: Digit, t: Digit, u: Digit, gender: Gender) -> (res: String)
    ensures
        res@ == period_words(h, t, u, gender),
{
    let mut s = String::new();
    match h {
        Digit::Zero => (),
        d => {
            s.append(d.to_faroese_word(Gender::Neut));
            s.append(" hundrað ");
        },
    }
    assert(s@ == hundreds_part(h));

    match t {
        Digit::Zero => {
            if u.is_zero() && !h.is_zero() {
            } else {
                s.append(u.to_faroese_word(gender));
            }
        },
        Digit::One => s.append(teen_to_faroese(u)),
        t => {
            if u.is_zero() {
                s.append(tens_to_faroese(t));
            } else {
                s.append(u.to_faroese_word(Gender::BeforeTens));
                s.append("og");
                s.append(tens_to_faroese(t));
                assert(s@ == hundreds_part(h) + (digit_word(u, Gender::BeforeTens) + "og"@
                    + tens_word(t)));
            }
        },
    }

    s
}

} // verus!
