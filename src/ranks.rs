//! Competitive ranks and their order, lowest (Iron) to highest (Radiant).
use vstd::prelude::*;
use crate::text::{same_text, trim_text, trimmed};

verus! {

/// The order of the rank named exactly `t`: 1 for Iron up to 9 for
/// Radiant ("Plat" and "Platinum" both name 5), and 0 for anything else.
pub open spec fn rank_order(t: Seq<char>) -> u8 {
    if t == "Iron"@ {
        1
    } else if t == "Bronze"@ {
        2
    } else if t == "Silver"@ {
        3
    } else if t == "Gold"@ {
        4
    } else if t == "Plat"@ || t == "Platinum"@ {
        5
    } else if t == "Diamond"@ {
        6
    } else if t == "Ascendant"@ {
        7
    } else if t == "Immortal"@ {
        8
    } else if t == "Radiant"@ {
        9
    } else {
        0
    }
}

/// The order of the rank named exactly `name`.
pub fn rank_of_name(name: &str) -> (r: u8)
    ensures
        r == rank_order(name@),
        r <= 9,
{
    if same_text(name, "Iron") {
        1
    } else if same_text(name, "Bronze") {
        2
    } else if same_text(name, "Silver") {
        3
    } else if same_text(name, "Gold") {
        4
    } else if same_text(name, "Plat") || same_text(name, "Platinum") {
        5
    } else if same_text(name, "Diamond") {
        6
    } else if same_text(name, "Ascendant") {
        7
    } else if same_text(name, "Immortal") {
        8
    } else if same_text(name, "Radiant") {
        9
    } else {
        0
    }
}

/// The order of the rank named by `rank`, white space around it ignored.
pub fn rank_to_number(rank: &str) -> (r: u8)
    ensures
        r == rank_order(trimmed(rank@)),
        r <= 9,
{
    rank_of_name(trim_text(rank))
}

} // verus!
