//! What holds of the spelling of every number.

use crate::digit::{digit_word, is_digit_char, Digit, Gender};
use crate::number::{
    all_digit_chars, digits_value, faroese_words, is_spellable, number_words, padded,
    padding_len, period_fragment, period_is_one, period_is_zero, rev_digits, significant,
    spelled, words_down_to,
};
use crate::period::{below_hundred_part, hundreds_part, period_words, teen_word, tens_word};
use crate::scale::{scale_singular, scale_suffix, scale_word};
use vstd::prelude::*;

verus! {

/// A string that holds a character other than a decimal digit has no
/// spelling.
pub proof fn non_digit_has_no_spelling(s: Seq<char>, i: int)
    requires
        0 <= i < s.len(),
        !is_digit_char(s[i]),
    ensures
        faroese_words(s) is None,
{
}

/// The spelling depends on the characters of the string and on nothing
/// else: two strings with the same characters are spelled alike.
pub proof fn same_text_same_spelling(a: &str, b: &str)
    requires
        a@ == b@,
    ensures
        faroese_words(a@) == faroese_words(b@),
{
}

/// A zero put before a string that is not empty changes neither whether it
/// can be spelled nor its words.
pub proof fn leading_zero_changes_nothing(s: Seq<char>)
    requires
        s.len() > 0,
    ensures
        faroese_words(seq!['0'] + s) == faroese_words(s),
{
    let z = seq!['0'] + s;
    assert(z.drop_first() =~= s);
    assert(significant(z) == significant(s));
    if all_digit_chars(s) {
        assert forall|j: int| 0 <= j < z.len() implies is_digit_char(#[trigger] z[j]) by {
            if j > 0 {
                assert(z[j] == s[j - 1]);
            }
        }
    }
    if all_digit_chars(z) {
        assert forall|j: int| 0 <= j < s.len() implies is_digit_char(#[trigger] s[j]) by {
            assert(s[j] == z[j + 1]);
        }
    }
}

/// Any number of zeros put before a string that is not empty changes
/// neither whether it can be spelled nor its words.
pub proof fn leading_zeros_change_nothing(zeros: nat, s: Seq<char>)
    requires
        s.len() > 0,
    ensures
        faroese_words(Seq::new(zeros, |i: int| '0') + s) == faroese_words(s),
    decreases zeros,
{
    if zeros == 0 {
        assert(Seq::new(zeros, |i: int| '0') + s =~= s);
    } else {
        let rest = Seq::new((zeros - 1) as nat, |i: int| '0') + s;
        leading_zeros_change_nothing((zeros - 1) as nat, s);
        leading_zero_changes_nothing(rest);
        assert(Seq::new(zeros, |i: int| '0') + s =~= seq!['0'] + rest);
    }
}

/// Zeros at the high end of a sequence of digits do not change the number
/// that it writes.
pub proof fn high_zeros_keep_the_value(d: Seq<Digit>, zeros: nat)
    ensures
        digits_value(d + Seq::new(zeros, |i: int| Digit::Zero)) == digits_value(d),
    decreases d.len(), zeros,
{
    let z = Seq::new(zeros, |i: int| Digit::Zero);
    if d.len() > 0 {
        high_zeros_keep_the_value(d.drop_first(), zeros);
        assert((d + z).drop_first() =~= d.drop_first() + z);
    } else if zeros > 0 {
        let rest = Seq::new((zeros - 1) as nat, |i: int| Digit::Zero);
        high_zeros_keep_the_value(d, (zeros - 1) as nat);
        assert((d + z).drop_first() =~= d + rest);
    } else {
        assert(d + z =~= d);
    }
}

/// Filling up to whole periods does not change the number that the digits
/// write.
pub proof fn padding_keeps_the_value(d: Seq<Digit>)
    ensures
        digits_value(padded(d)) == digits_value(d),
        padded(d).len() % 3 == 0,
        d.len() <= padded(d).len() < d.len() + 3,
{
    high_zeros_keep_the_value(d, padding_len(d.len()));
}

/// Passing over the leading zeros of a string of digits does not change the
/// number that it writes.
pub proof fn significant_keeps_the_value(s: Seq<char>)
    requires
        all_digit_chars(s),
    ensures
        all_digit_chars(significant(s)),
        digits_value(rev_digits(significant(s))) == digits_value(rev_digits(s)),
    decreases s.len(),
{
    if s.len() > 1 && s[0] == '0' {
        let rest = s.drop_first();
        assert forall|j: int| 0 <= j < rest.len() implies is_digit_char(#[trigger] rest[j]) by {
            assert(rest[j] == s[j + 1]);
        }
        significant_keeps_the_value(rest);
        high_zeros_keep_the_value(rev_digits(rest), 1);
        assert(rev_digits(s) =~= rev_digits(rest) + Seq::new(1, |i: int| Digit::Zero));
    }
}

/// The significant digits of a string of zeros are one zero.
proof fn significant_of_zeros(s: Seq<char>)
    requires
        s.len() > 0,
        forall|i: int| 0 <= i < s.len() ==> s[i] == '0',
    ensures
        significant(s) =~= seq!['0'],
    decreases s.len(),
{
    if s.len() > 1 {
        significant_of_zeros(s.drop_first());
    }
}

/// A string of zeros, however long, is spelled with the word for zero.
pub proof fn zero_is_spelled_out(s: Seq<char>)
    requires
        s.len() > 0,
        forall|i: int| 0 <= i < s.len() ==> s[i] == '0',
    ensures
        faroese_words(s) == Some("null"@),
{
    significant_of_zeros(s);
    let d = padded(rev_digits(significant(s)));
    assert(d =~= seq![Digit::Zero, Digit::Zero, Digit::Zero]);
    assert(d.len() / 3 - 1 == 0);
    assert(words_down_to(d, 1, 0) =~= Seq::<char>::empty());
    assert(words_down_to(d, 0, 0) =~= period_fragment(d, 0, 0));
    assert(number_words(d) =~= "null"@);
}

/// No digit word is empty.
pub proof fn digit_word_is_not_empty(d: Digit, g: Gender)
    ensures
        digit_word(d, g).len() > 0,
{
    reveal_strlit("null");
    reveal_strlit("eitt");
    reveal_strlit("ein");
    reveal_strlit("tvey");
    reveal_strlit("tveir");
    reveal_strlit("tvær");
    reveal_strlit("trý");
    reveal_strlit("tríggir");
    reveal_strlit("tríggjar");
    reveal_strlit("fýra");
    reveal_strlit("fimm");
    reveal_strlit("seks");
    reveal_strlit("sjey");
    reveal_strlit("átta");
    reveal_strlit("níggju");
}

/// The words of a period are never empty: a period of three zeros has the
/// word for zero.
pub proof fn period_words_are_not_empty(h: Digit, t: Digit, u: Digit, g: Gender)
    ensures
        period_words(h, t, u, g).len() > 0,
{
    digit_word_is_not_empty(h, Gender::Neut);
    digit_word_is_not_empty(u, g);
    digit_word_is_not_empty(u, Gender::BeforeTens);
    reveal_strlit("tíggju");
    reveal_strlit("ellivu");
    reveal_strlit("tólv");
    reveal_strlit("trettan");
    reveal_strlit("fjúrtan");
    reveal_strlit("fimtan");
    reveal_strlit("sekstan");
    reveal_strlit("seytjan");
    reveal_strlit("átjan");
    reveal_strlit("nítjan");
    reveal_strlit("tjúgu");
    reveal_strlit("trettivu");
    reveal_strlit("fjøruti");
    reveal_strlit("hálvtrýss");
    reveal_strlit("trýss");
    reveal_strlit("hálvfjerðs");
    reveal_strlit("fýrs");
    reveal_strlit("hálvfems");
    assert(hundreds_part(h).len() > 0 || below_hundred_part(h, t, u, g).len() > 0);
}

/// The words from the highest period down are at least as long as the
/// fragment of the highest period.
proof fn words_hold_the_top_fragment(d: Seq<Digit>, low: int, top: int)
    requires
        0 <= low <= top,
    ensures
        words_down_to(d, low, top).len() >= period_fragment(d, top, top).len(),
    decreases top - low,
{
    if low < top {
        words_hold_the_top_fragment(d, low + 1, top);
    } else {
        assert(words_down_to(d, top + 1, top) =~= Seq::<char>::empty());
    }
}

/// Every number that can be spelled has words: the result is never the
/// empty string.
pub proof fn spelling_is_not_empty(s: Seq<char>)
    requires
        is_spellable(s),
    ensures
        spelled(s).len() > 0,
{
    significant_is_not_empty(s);
    let d = padded(rev_digits(significant(s)));
    let top = d.len() / 3 - 1;
    assert(d.len() >= 3);
    words_hold_the_top_fragment(d, 0, top);
    period_words_are_not_empty(d[3 * top + 2], d[3 * top + 1], d[3 * top], Gender::Neut);
    period_words_are_not_empty(d[3 * top + 2], d[3 * top + 1], d[3 * top], Gender::Fem);
}

/// The significant digits of a string that is not empty are not empty, and
/// no more than the string holds.
pub proof fn significant_is_not_empty(s: Seq<char>)
    requires
        s.len() > 0,
    ensures
        0 < significant(s).len() <= s.len(),
    decreases s.len(),
{
    if s.len() > 1 && s[0] == '0' {
        significant_is_not_empty(s.drop_first());
    }
}

/// With one ten, a period below a hundred is the teen word of its unit, in
/// every gender: it is not put together from the words for ten and the unit.
pub proof fn teens_are_words_of_their_own(u: Digit, g: Gender)
    ensures
        period_words(Digit::Zero, Digit::One, u, g) == teen_word(u),
{
    assert(period_words(Digit::Zero, Digit::One, u, g) =~= teen_word(u));
}

/// With two tens or more and a unit, a period below a hundred is the unit
/// in its form before tens, "og" and the tens word, with nothing between
/// them, in every gender.
pub proof fn tens_are_compounded(t: Digit, u: Digit, g: Gender)
    requires
        t != Digit::Zero,
        t != Digit::One,
        u != Digit::Zero,
    ensures
        period_words(Digit::Zero, t, u, g) == digit_word(u, Gender::BeforeTens) + "og"@
            + tens_word(t),
{
    assert(period_words(Digit::Zero, t, u, g) =~= digit_word(u, Gender::BeforeTens) + "og"@
        + tens_word(t));
}

/// The scale word of a count of one is the singular, and that of any other
/// count is the singular with the plural marker: the two are never the same
/// word.
pub proof fn scale_word_agrees_in_number(index: int)
    ensures
        scale_word(index, true) == scale_singular(index),
        scale_word(index, false) == scale_singular(index) + "ir"@,
        scale_word(index, true) != scale_word(index, false),
{
    reveal_strlit("ir");
    assert(scale_word(index, false).len() == scale_word(index, true).len() + 2);
}

/// A period above the lowest that is written carries its scale word between
/// two spaces, singular exactly where the period counts one.
pub proof fn written_period_carries_its_scale_word(d: Seq<Digit>, i: int, top: int)
    requires
        0 < i <= top,
        !period_is_zero(d, i),
    ensures
        (" "@ + scale_word(i, period_is_one(d, i)) + " "@).is_suffix_of(
            period_fragment(d, i, top),
        ),
{
    let tail = " "@ + scale_word(i, period_is_one(d, i)) + " "@;
    let whole = period_fragment(d, i, top);
    assert(whole.subrange(whole.len() - tail.len(), whole.len() as int) =~= tail);
}

/// A period of three zeros below the highest adds nothing to the words:
/// neither the word for zero nor a scale word.
pub proof fn zero_period_is_skipped(d: Seq<Digit>, i: int, top: int)
    requires
        period_is_zero(d, i),
        i != top,
    ensures
        period_fragment(d, i, top) == Seq::<char>::empty(),
{
}

/// The two endings take turns from one period to the next: neighbours
/// differ, and every second period has the same ending.
pub proof fn scale_suffix_alternates(index: int)
    ensures
        scale_suffix(index) != scale_suffix(index + 1),
        scale_suffix(index) == scale_suffix(index + 2),
        index % 2 == 0 ==> scale_suffix(index) == "illión"@,
        index % 2 != 0 ==> scale_suffix(index) == "illiard"@,
{
    reveal_strlit("illión");
    reveal_strlit("illiard");
    assert("illión"@.len() != "illiard"@.len());
}

} // verus!
