//! Scale words: thousand, million, milliard, billion, billiard, ...
//!
//! Periods are counted from the lowest, which has index 0 and no scale word.
//! The period with index `i` has the stem of tier `i / 2`. Tier 0 is the bare
//! word for thousand. Every other tier takes one of two endings, by the
//! parity of the index: "-illión" for an even index, "-illiard" for an odd
//! one. A count other than one puts the scale word in the plural.

use vstd::prelude::*;
use vstd::string::*;

verus! {

/// The number of tiers that have a stem.
pub const SCALE_TIERS: usize = 19;

/// The number of periods that can be named: the lowest, which has no scale
/// word, and each index up to the odd one of the highest tier.
pub const MAX_PERIODS: usize = 38;

/// The stem of a tier; empty for a tier that has none.
pub open spec fn scale_stem(tier: int) -> Seq<char> {
    if tier == 0 {
        "túsund"@
    } else if tier == 1 {
        "m"@
    } else if tier == 2 {
        "b"@
    } else if tier == 3 {
        "tr"@
    } else if tier == 4 {
        "kvadr"@
    } else if tier == 5 {
        "kvint"@
    } else if tier == 6 {
        "sekst"@
    } else if tier == 7 {
        "sept"@
    } else if tier == 8 {
        "okt"@
    } else if tier == 9 {
        "non"@
    } else if tier == 10 {
        "des"@
    } else if tier == 11 {
        "undes"@
    } else if tier == 12 {
        "duodes"@
    } else if tier == 13 {
        "tredes"@
    } else if tier == 14 {
        "kvattuordes"@
    } else if tier == 15 {
        "kvindes"@
    } else if tier == 16 {
        "seksdes"@
    } else if tier == 17 {
        "novemdes"@
    } else if tier == 18 {
        "vigint"@
    } else {
        Seq::empty()
    }
}

/// The ending that the period with index `index` gives to its stem.
pub open spec fn scale_suffix(index: int) -> Seq<char> {
    if index % 2 == 0 {
        "illión"@
    } else {
        "illiard"@
    }
}

/// The scale word of the period with index `index` in the singular: the stem
/// of its tier, with the ending of its parity unless the tier is 0.
pub open spec fn scale_singular(index: int) -> Seq<char> {
    if index / 2 == 0 {
        scale_stem(index / 2)
    } else {
        scale_stem(index / 2) + scale_suffix(index)
    }
}

/// The scale word of the period with index `index`, for a count of exactly
/// one (`one`) or for any other count, which adds the plural marker.
pub open spec fn scale_word(index: int, one: bool) -> Seq<char> {
    if one {
        scale_singular(index)
    } else {
        scale_singular(index) + "ir"@
    }
}

/// The stem of tier `tier`.
pub fn scale_stem_of(tier: usize) -> (res: &'static str)
    requires
        tier < SCALE_TIERS,
    ensures
        res@ == scale_stem(tier as int),
{
    if tier == 0 {
        "túsund"
    } else if tier == 1 {
        "m"
    } else if tier == 2 {
        "b"
    } else if tier == 3 {
        "tr"
    } else if tier == 4 {
        "kvadr"
    } else if tier == 5 {
        "kvint"
    } else if tier == 6 {
        "sekst"
    } else if tier == 7 {
        "sept"
    } else if tier == 8 {
        "okt"
    } else if tier == 9 {
        "non"
    } else if tier == 10 {
        "des"
    } else if tier == 11 {
        "undes"
    } else if tier == 12 {
        "duodes"
    } else if tier == 13 {
        "tredes"
    } else if tier == 14 {
        "kvattuordes"
    } else if tier == 15 {
        "kvindes"
    } else if tier == 16 {
        "seksdes"
    } else if tier == 17 {
        "novemdes"
    } else {
        "vigint"
    }
}

/// The scale word of the period with index `index`, singular where `one`
/// holds and plural otherwise.
pub fn scale_to_faroese(index: usize, one: bool) -> (res: String)
    requires
        index < MAX_PERIODS,
    ensures
        res@ == scale_word(index as int, one),
{
    let tier: usize = index / 2;
    let mut s = String::new();
    s.append(scale_stem_of(tier));
    if tier != 0 {
        if index % 2 == 0 {
            s.append("illión");
        } else {
            s.append("illiard");
        }
    }
    if !one {
        s.append("ir");
    }
    s
}

} // verus!
