//! Decimal digits, grammatical genders, and the word of a digit.

use vstd::prelude::*;

verus! {

/// One decimal digit. No other value can be built, so a parsed number never
/// holds anything but the ten digits.
#[derive(Debug, Copy, Clone, PartialEq, Eq, Structural, PartialOrd, Ord)]
pub enum Digit {
    Zero,
    One,
    Two,
    Three,
    Four,
    Five,
    Six,
    Seven,
    Eight,
    Nine,
}

/// The agreement form in which a digit word is written.
///
/// `BeforeTens` is the form of a unit that stands directly before a tens
/// word ("ein" in "einogtjúgu"); the other three are the genders proper.
#[derive(Debug, Copy, Clone, PartialEq, Eq, Structural)]
pub enum Gender {
    BeforeTens,
    Masc,
    Fem,
    Neut,
}

/// Whether `c` is one of the ten decimal digit characters.
pub open spec fn is_digit_char(c: char) -> bool {
    '0' <= c <= '9'
}

/// The digit with the number `n`; `Nine` stands for every `n` above eight.
pub open spec fn digit_of_nat(n: nat) -> Digit {
    if n == 0 {
        Digit::Zero
    } else if n == 1 {
        Digit::One
    } else if n == 2 {
        Digit::Two
    } else if n == 3 {
        Digit::Three
    } else if n == 4 {
        Digit::Four
    } else if n == 5 {
        Digit::Five
    } else if n == 6 {
        Digit::Six
    } else if n == 7 {
        Digit::Seven
    } else if n == 8 {
        Digit::Eight
    } else {
        Digit::Nine
    }
}

/// The word of digit `d` in the form `g`.
///
/// Only one, two and three change with the form; each of the other digits
/// has a single word. The relation is irregular, so it is given as a table.
pub open spec fn digit_word(d: Digit, g: Gender) -> Seq<char> {
    match (d, g) {
        (Digit::Zero, _) => "null"@,
        (Digit::One, Gender::Neut) => "eitt"@,
        (Digit::One, _) => "ein"@,
        (Digit::Two, Gender::Neut) => "tvey"@,
        (Digit::Two, Gender::BeforeTens) => "tvey"@,
        (Digit::Two, Gender::Masc) => "tveir"@,
        (Digit::Two, Gender::Fem) => "tvær"@,
        (Digit::Three, Gender::Neut) => "trý"@,
        (Digit::Three, Gender::BeforeTens) => "trý"@,
        (Digit::Three, Gender::Masc) => "tríggir"@,
        (Digit::Three, Gender::Fem) => "tríggjar"@,
        (Digit::Four, _) => "fýra"@,
        (Digit::Five, _) => "fimm"@,
        (Digit::Six, _) => "seks"@,
        (Digit::Seven, _) => "sjey"@,
        (Digit::Eight, _) => "átta"@,
        (Digit::Nine, _) => "níggju"@,
    }
}

/// What a character parses to: the digit it writes, or nothing.
pub open spec fn digit_of_char(c: char) -> Option<Digit> {
    if is_digit_char(c) {
        Some(digit_of_nat((c as u32 - '0' as u32) as nat))
    } else {
        None
    }
}

impl Digit {
    /// The number that the digit stands for, from 0 to 9.
    pub open spec fn value(self) -> nat {
        match self {
            Digit::Zero => 0,
            Digit::One => 1,
            Digit::Two => 2,
            Digit::Three => 3,
            Digit::Four => 4,
            Digit::Five => 5,
            Digit::Six => 6,
            Digit::Seven => 7,
            Digit::Eight => 8,
            Digit::Nine => 9,
        }
    }

    /// Parses one character: a digit for each of `'0'` to `'9'`, `None` for
    /// every other character.
    pub fn from_char(c: char) -> (res: Option<Self>)
        ensures
            res == digit_of_char(c),
            res is Some <==> is_digit_char(c),
            res is Some ==> res.unwrap().value() == c as u32 - '0' as u32,
    {
        Some(
            match c {
                '0' => Digit::Zero,
                '1' => Digit::One,
                '2' => Digit::Two,
                '3' => Digit::Three,
                '4' => Digit::Four,
                '5' => Digit::Five,
                '6' => Digit::Six,
                '7' => Digit::Seven,
                '8' => Digit::Eight,
                '9' => Digit::Nine,
                _ => return None,
            },
        )
    }

    /// Parses one byte, read as the character with that code.
    #[inline]
    pub fn from_byte_char(b: u8) -> (res: Option<Self>)
        ensures
            res == digit_of_char(b as char),
            res is Some <==> 48 <= b <= 57,
            res is Some ==> res.unwrap().value() == b - 48,
    {
        Self::from_char(b as char)
    }

    /// The word of the digit in the form `gender`.
    pub fn to_faroese_word(self, gender: Gender) -> (res: &'static str)
        ensures
            res@ == digit_word(self, gender),
    {
        match (self, gender) {
            (Digit::Zero, _) => "null",
            (Digit::One, Gender::Neut) => "eitt",
            (Digit::One, Gender::Masc) | (Digit::One, Gender::Fem) | (
                Digit::One,
                Gender::BeforeTens,
            ) => "ein",
            (Digit::Two, Gender::Neut) | (Digit::Two, Gender::BeforeTens) => "tvey",
            (Digit::Two, Gender::Masc) => "tveir",
            (Digit::Two, Gender::Fem) => "tvær",
            (Digit::Three, Gender::Neut) | (Digit::Three, Gender::BeforeTens) => "trý",
            (Digit::Three, Gender::Masc) => "tríggir",
            (Digit::Three, Gender::Fem) => "tríggjar",
            (Digit::Four, _) => "fýra",
            (Digit::Five, _) => "fimm",
            (Digit::Six, _) => "seks",
            (Digit::Seven, _) => "sjey",
            (Digit::Eight, _) => "átta",
            (Digit::Nine, _) => "níggju",
        }
    }

    /// Whether the digit is zero.
    #[inline(always)]
    pub fn is_zero(self) -> (res: bool)
        ensures
            res == (self == Digit::Zero),
            res == (self.value() == 0),
    {
        if let Digit::Zero = self {
            true
        } else {
            false
        }
    }
}

} // verus!
