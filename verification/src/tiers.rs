//! The fixed catalogue of rank tiers: ten bands of score, each with the label
//! of the role that shows it and a colour for that role.

use crate::text::str_equal;
use vstd::prelude::*;

verus! {

/// Number of tiers in the catalogue.
pub const TIER_COUNT: usize = 10;

/// `index` names a tier of the catalogue.
pub open spec fn valid_tier(index: int) -> bool {
    1 <= index <= 10
}

/// Smallest score of tier `index`: 1 for the first tier, then 801 and a step
/// of 150 per tier.
pub open spec fn tier_floor(index: int) -> int {
    if index <= 1 {
        1
    } else {
        651 + 150 * (index - 1)
    }
}

/// The tier that a score falls in: the highest tier whose floor the score
/// reaches. The tenth tier has no upper end; a score of zero has no tier.
pub open spec fn tier_of_score(score: int) -> Option<int> {
    if score < 1 {
        None
    } else if score <= 800 {
        Some(1)
    } else if score >= 2001 {
        Some(10)
    } else {
        Some((score - 801) / 150 + 2)
    }
}

/// The label of tier `index`, which is the name of the role that shows it.
pub open spec fn label_of(index: int) -> Seq<char> {
    if index == 1 {
        "Level 1 (1-800 ELO)"@
    } else if index == 2 {
        "Level 2 (801-950 ELO)"@
    } else if index == 3 {
        "Level 3 (951-1100 ELO)"@
    } else if index == 4 {
        "Level 4 (1101-1250 ELO)"@
    } else if index == 5 {
        "Level 5 (1251-1400 ELO)"@
    } else if index == 6 {
        "Level 6 (1401-1550 ELO)"@
    } else if index == 7 {
        "Level 7 (1551-1700 ELO)"@
    } else if index == 8 {
        "Level 8 (1701-1850 ELO)"@
    } else if index == 9 {
        "Level 9 (1851-2000 ELO)"@
    } else {
        "Level 10 (2001+ ELO)"@
    }
}

/// The colour of the role of tier `index`, as a 24-bit RGB value.
pub open spec fn colour_of(index: int) -> u32 {
    if index <= 1 {
        0xDDDDDD
    } else if index <= 3 {
        0x47E36E
    } else if index <= 7 {
        0xFFCD25
    } else if index <= 9 {
        0xFF6C20
    } else {
        0xE80128
    }
}

/// `name` is the label of some tier.
pub open spec fn is_tier_label(name: Seq<char>) -> bool {
    exists|k: int| valid_tier(k) && #[trigger] label_of(k) == name
}

/// The tier whose label is `name`.
pub open spec fn tier_with_label(name: Seq<char>) -> Option<int> {
    if is_tier_label(name) {
        Some(choose|k: int| valid_tier(k) && #[trigger] label_of(k) == name)
    } else {
        None
    }
}

/// The score at which tier `index` begins.
pub fn tier_lower_bound(index: usize) -> (floor: Option<u64>)
    ensures
        floor == if valid_tier(index as int) {
            Some(tier_floor(index as int) as u64)
        } else {
            None
        },
{
    if index < 1 || index > TIER_COUNT {
        None
    } else if index == 1 {
        Some(1)
    } else {
        let steps: u64 = (index - 1) as u64;
        Some(651 + 150 * steps)
    }
}

/// The tier of a score.
pub fn tier_for_elo(elo: u64) -> (tier: Option<usize>)
    ensures
        tier_of_score(elo as int) == match tier {
            Some(k) => Some(k as int),
            None => None,
        },
        tier matches Some(k) ==> valid_tier(k as int) && tier_floor(k as int) <= elo && (k < 10
            ==> elo < tier_floor(k + 1)),
        tier is None <==> elo == 0,
{
    if elo < 1 {
        None
    } else if elo <= 800 {
        Some(1)
    } else if elo >= 2001 {
        Some(10)
    } else {
        let band: u64 = (elo - 801) / 150 + 2;
        Some(band as usize)
    }
}

/// Each tier begins exactly at its floor: the floor of tier `k` is in tier
/// `k`, and the score one below it is in tier `k - 1`.
pub proof fn lemma_tier_boundaries(k: int)
    requires
        2 <= k <= 10,
    ensures
        tier_of_score(tier_floor(k)) == Some(k),
        tier_of_score(tier_floor(k) - 1) == Some(k - 1),
{
}

/// A score is in tier `k` exactly when it lies between the floor of `k` and
/// the floor of the next tier.
pub proof fn lemma_tier_of_score_band(score: int, k: int)
    requires
        valid_tier(k),
    ensures
        tier_of_score(score) == Some(k) <==> tier_floor(k) <= score && (k < 10 ==> score
            < tier_floor(k + 1)),
{
}

/// No two tiers share a label.
pub proof fn lemma_labels_distinct(a: int, b: int)
    requires
        valid_tier(a),
        valid_tier(b),
        label_of(a) == label_of(b),
    ensures
        a == b,
{
    reveal_strlit("Level 1 (1-800 ELO)");
    reveal_strlit("Level 2 (801-950 ELO)");
    reveal_strlit("Level 3 (951-1100 ELO)");
    reveal_strlit("Level 4 (1101-1250 ELO)");
    reveal_strlit("Level 5 (1251-1400 ELO)");
    reveal_strlit("Level 6 (1401-1550 ELO)");
    reveal_strlit("Level 7 (1551-1700 ELO)");
    reveal_strlit("Level 8 (1701-1850 ELO)");
    reveal_strlit("Level 9 (1851-2000 ELO)");
    reveal_strlit("Level 10 (2001+ ELO)");
    assert(label_of(1)[6] == '1' && label_of(1)[7] == ' ');
    assert(label_of(2)[6] == '2');
    assert(label_of(3)[6] == '3');
    assert(label_of(4)[6] == '4');
    assert(label_of(5)[6] == '5');
    assert(label_of(6)[6] == '6');
    assert(label_of(7)[6] == '7');
    assert(label_of(8)[6] == '8');
    assert(label_of(9)[6] == '9');
    assert(label_of(10)[6] == '1' && label_of(10)[7] == '0');
}

/// The label of a tier is the label of that tier only.
pub proof fn lemma_tier_with_label(k: int)
    requires
        valid_tier(k),
    ensures
        is_tier_label(label_of(k)),
        tier_with_label(label_of(k)) == Some(k),
{
    let found = choose|j: int| valid_tier(j) && #[trigger] label_of(j) == label_of(k);
    lemma_labels_distinct(found, k);
}

/// The label of tier `index`; `None` where the catalogue has no such tier.
pub fn tier_label(index: usize) -> (label: Option<&'static str>)
    ensures
        label is Some <==> valid_tier(index as int),
        label matches Some(text) ==> text@ == label_of(index as int),
{
    match index {
        1 => Some("Level 1 (1-800 ELO)"),
        2 => Some("Level 2 (801-950 ELO)"),
        3 => Some("Level 3 (951-1100 ELO)"),
        4 => Some("Level 4 (1101-1250 ELO)"),
        5 => Some("Level 5 (1251-1400 ELO)"),
        6 => Some("Level 6 (1401-1550 ELO)"),
        7 => Some("Level 7 (1551-1700 ELO)"),
        8 => Some("Level 8 (1701-1850 ELO)"),
        9 => Some("Level 9 (1851-2000 ELO)"),
        10 => Some("Level 10 (2001+ ELO)"),
        _ => None,
    }
}

/// The colour of the role of tier `index`; `None` where the catalogue has no
/// such tier.
pub fn tier_colour(index: usize) -> (colour: Option<u32>)
    ensures
        colour == if valid_tier(index as int) {
            Some(colour_of(index as int))
        } else {
            None
        },
{
    if index < 1 || index > TIER_COUNT {
        None
    } else if index <= 1 {
        Some(0xDDDDDD)
    } else if index <= 3 {
        Some(0x47E36E)
    } else if index <= 7 {
        Some(0xFFCD25)
    } else if index <= 9 {
        Some(0xFF6C20)
    } else {
        Some(0xE80128)
    }
}

/// The label and the colour of a tier of the catalogue.
pub(crate) fn tier_style(index: usize) -> (style: (&'static str, u32))
    requires
        valid_tier(index as int),
    ensures
        style.0@ == label_of(index as int),
        style.1 == colour_of(index as int),
{
    let label = match tier_label(index) {
        Some(label) => label,
        None => "",
    };
    let colour = match tier_colour(index) {
        Some(colour) => colour,
        None => 0,
    };
    (label, colour)
}

/// The tier that `name` is the label of, by exact match.
pub fn tier_of_label(name: &str) -> (tier: Option<usize>)
    ensures
        tier_with_label(name@) == match tier {
            Some(k) => Some(k as int),
            None => None,
        },
{
    let mut k: usize = 1;
    while k <= TIER_COUNT
        invariant
            1 <= k <= TIER_COUNT + 1,
            forall|j: int| 1 <= j < k ==> #[trigger] label_of(j) != name@,
        decreases TIER_COUNT + 1 - k,
    {
        let label = tier_label(k);
        match label {
            Some(text) => {
                if str_equal(text, name) {
                    proof {
                        let found = choose|j: int| valid_tier(j) && #[trigger] label_of(j) == name@;
                        lemma_labels_distinct(found, k as int);
                    }
                    return Some(k);
                }
            },
            None => {},
        }
        k += 1;
    }
    None
}

} // verus!
