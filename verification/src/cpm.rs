//! Level multipliers.

use vstd::prelude::*;
use crate::pokemon::{find_level, first_level, IVs};
use crate::pokepedia::Pokepedia;

verus! {

/// Number of levels in the table: 1.0 to 51.0 in half-level steps.
pub const NUM_CPM: usize = 101;

/// The multiplier of each level in units of `1 / SCALE`, from level 1.0 on.
pub const CPM: [u64; 101] = [
    939999967, 1351374320, 1663978695, 1926509131, 2157324701,
    2365726514, 2557200491, 2735303721, 2902498841, 3060573813,
    3210875988, 3354450319, 3492126762, 3624577366, 3752355873,
    3875924077, 3995672762, 4111935532, 4225000143, 4329264205,
    4431075453, 4530599481, 4627983868, 4723360853, 4816849529,
    4908558071, 4998584389, 5087017489, 5173939466, 5259425161,
    5343543291, 5426357538, 5507926940, 5588305844, 5667545199,
    5745691281, 5822789072, 5898879078, 5974000096, 6048236486,
    6121572852, 6194041079, 6265671253, 6336491787, 6406529545,
    6475809713, 6544356346, 6612192658, 6679340004, 6745818856,
    6811649203, 6876849012, 6941436529, 7005429010, 7068842053,
    7131690748, 7193990945, 7255755869, 7317000031, 7347410385,
    7377694845, 7407855797, 7437894344, 7467811972, 7497610449,
    7527290997, 7556855082, 7586303702, 7615638375, 7644860495,
    7673971652, 7702972936, 7731865048, 7760649470, 7789327502,
    7817900507, 7846369743, 7874736085, 7903000116, 7928039680,
    7953000068, 7978000150, 8003000020, 8027999950, 8052999973,
    8078000000, 8102999925, 8127999850, 8152999877, 8177999900,
    8202999830, 8227999900, 8252999782, 8277999900, 8302999734,
    8327999900, 8353000283, 8377999900, 8402999900, 8427999900,
    8452999900,
];

/// A level of the table, in half-level steps: 2 is level 1.0, 102 is level 51.0.
pub open spec fn is_level(lv: u32) -> bool {
    2 <= lv <= 102
}

/// The multiplier of a level.
pub open spec fn cpm_spec(lv: u32) -> u64 {
    CPM[lv - 2]
}

/// The multiplier of the level `lv`, in units of `1 / SCALE`.
pub fn get_cpm(lv: u32) -> (r: u64)
    requires
        is_level(lv),
    ensures
        r == cpm_spec(lv),
        0 < r <= 9_000_000_000,
{
    let i: usize = (lv - 2) as usize;
    proof {
        lemma_cpm_bound(i as int);
    }
    CPM[i]
}

/// The level of a creature of the species `poke` that has the CP `cp` with
/// the given individual values: the first of the whole table, from 1.0 to
/// 51.0 in half-level steps, at which the CP is exactly `cp`.
pub fn calc_pokemon_lv(
    poke: &Pokepedia,
    cp: i32,
    attack_iv: i32,
    defense_iv: i32,
    stamina_iv: i32,
) -> (r: Option<u32>)
    requires
        0 <= attack_iv <= 15,
        0 <= defense_iv <= 15,
        0 <= stamina_iv <= 15,
    ensures
        r == first_level(
            poke,
            cp,
            IVs { attack: attack_iv, defense: defense_iv, stamina: stamina_iv },
            2,
            102,
        ),
{
    find_level(poke, cp, IVs { attack: attack_iv, defense: defense_iv, stamina: stamina_iv }, 102)
}

/// Every multiplier is positive and at most 0.9.
pub proof fn lemma_cpm_bound(i: int)
    requires
        0 <= i < 101,
    ensures
        0 < CPM[i] <= 9_000_000_000,
{
}

} // verus!
