//! Levels, their multipliers and what it costs to power up from them.

use vstd::prelude::*;
use crate::pokemon::{scale_stat, stat_spec, IVs, Stats};
use crate::pokepedia::Pokepedia;

verus! {

/// A level with its multiplier and the stardust and candies that powering
/// up from it costs.
#[derive(Debug, Clone, Copy, PartialEq, Eq, Structural)]
pub struct PokemonLv {
    /// The level, in half-level steps.
    pub lv: u32,
    /// The multiplier, in units of `1 / SCALE`.
    pub cpm: u64,
    pub powerup_stardust: i32,
    pub powerup_candies: i32,
}

/// Row `i` of the table of levels.
pub open spec fn pokemon_lv_entry(i: int) -> PokemonLv {
    PokemonLv {
        lv: POKEMON_LV[i].0,
        cpm: POKEMON_LV[i].1,
        powerup_stardust: POKEMON_LV[i].2,
        powerup_candies: POKEMON_LV[i].3,
    }
}

/// The row of the level `lv`, from 1.0 to 51.0 in half-level steps.
pub fn get_pokemon_lv(lv: u32) -> (r: PokemonLv)
    requires
        2 <= lv <= 102,
    ensures
        r == pokemon_lv_entry(lv - 2),
        r.lv == lv,
{
    let i: usize = (lv - 2) as usize;
    let row = POKEMON_LV[i];
    proof {
        lemma_row_level(i as int);
    }
    PokemonLv { lv: row.0, cpm: row.1, powerup_stardust: row.2, powerup_candies: row.3 }
}

/// Row `i` holds the level `i + 2`, and a multiplier of at most 0.9.
pub proof fn lemma_row_level(i: int)
    requires
        0 <= i < 101,
    ensures
        POKEMON_LV[i].0 == i + 2,
        POKEMON_LV[i].1 <= 9_000_000_000,
{
}

/// The stats of the species with the individual values at the level of row `i`.
pub open spec fn row_stats(bs: &Pokepedia, ivs: IVs, i: int) -> Stats {
    Stats {
        attack: stat_spec(bs.base_stats_spec().attack, ivs.attack, POKEMON_LV[i].1) as u64,
        defense: stat_spec(bs.base_stats_spec().defense, ivs.defense, POKEMON_LV[i].1) as u64,
        stamina: stat_spec(bs.base_stats_spec().stamina, ivs.stamina, POKEMON_LV[i].1) as u64,
    }
}

/// Whether the species has the CP at the level of row `i`.
pub open spec fn row_matches(bs: &Pokepedia, cp: i32, ivs: IVs, i: int) -> bool {
    row_stats(bs, ivs, i).cp_spec() == cp
}

/// The level of a creature of the species `bs` that has the CP `cp` with
/// the given individual values: that of the first row at which the CP is
/// exactly `cp`. There has to be such a row.
pub fn calc_pokemon_lv(bs: &Pokepedia, cp: i32, iv_attack: i32, iv_defense: i32, iv_stamina: i32) -> (r:
    u32)
    requires
        0 <= iv_attack <= 15,
        0 <= iv_defense <= 15,
        0 <= iv_stamina <= 15,
        exists|i: int|
            0 <= i < 101 && #[trigger] row_matches(
                bs,
                cp,
                IVs { attack: iv_attack, defense: iv_defense, stamina: iv_stamina },
                i,
            ),
    ensures
        2 <= r <= 102,
        row_matches(
            bs,
            cp,
            IVs { attack: iv_attack, defense: iv_defense, stamina: iv_stamina },
            r - 2,
        ),
        forall|i: int|
            0 <= i < r - 2 ==> !#[trigger] row_matches(
                bs,
                cp,
                IVs { attack: iv_attack, defense: iv_defense, stamina: iv_stamina },
                i,
            ),
{
    let ghost ivs = IVs { attack: iv_attack, defense: iv_defense, stamina: iv_stamina };
    let base = bs.base_stats();
    let mut i: usize = 0;
    while i < 100
        invariant
            i <= 100,
            0 <= iv_attack <= 15,
            0 <= iv_defense <= 15,
            0 <= iv_stamina <= 15,
            ivs == (IVs { attack: iv_attack, defense: iv_defense, stamina: iv_stamina }),
            base == bs.base_stats_spec(),
            forall|k: int| 0 <= k < i ==> !#[trigger] row_matches(bs, cp, ivs, k),
        decreases 100 - i,
    {
        let row = POKEMON_LV[i];
        proof {
            lemma_row_level(i as int);
        }
        let stats = Stats {
            attack: scale_stat(base.attack, iv_attack, row.1),
            defense: scale_stat(base.defense, iv_defense, row.1),
            stamina: scale_stat(base.stamina, iv_stamina, row.1),
        };
        if stats.calc_cp() == cp {
            return row.0;
        }
        i += 1;
    }
    // No row but the last is left for the level that there is.
    proof {
        let k = choose|k: int| 0 <= k < 101 && #[trigger] row_matches(bs, cp, ivs, k);
        assert(k == 100);
        lemma_row_level(100);
    }
    POKEMON_LV[100].0
}

/// Each row holds a level in half-level steps, its multiplier in units of
/// `1 / SCALE`, and the stardust and the candies for powering up.
pub const POKEMON_LV: [(u32, u64, i32, i32); 101] = [
    (2, 939999967, 200, 1),
    (3, 1351374320, 200, 1),
    (4, 1663978695, 200, 1),
    (5, 1926509131, 200, 1),
    (6, 2157324701, 400, 1),
    (7, 2365726514, 400, 1),
    (8, 2557200491, 400, 1),
    (9, 2735303721, 400, 1),
    (10, 2902498841, 600, 1),
    (11, 3060573813, 600, 1),
    (12, 3210875988, 600, 1),
    (13, 3354450319, 600, 1),
    (14, 3492126762, 800, 1),
    (15, 3624577366, 800, 1),
    (16, 3752355873, 800, 1),
    (17, 3875924077, 800, 1),
    (18, 3995672762, 1000, 1),
    (19, 4111935532, 1000, 1),
    (20, 4225000143, 1000, 1),
    (21, 4329264205, 1000, 1),
    (22, 4431075453, 1300, 2),
    (23, 4530599481, 1300, 2),
    (24, 4627983868, 1300, 2),
    (25, 4723360853, 1300, 2),
    (26, 4816849529, 1600, 2),
    (27, 4908558071, 1600, 2),
    (28, 4998584389, 1600, 2),
    (29, 5087017489, 1600, 2),
    (30, 5173939466, 1900, 2),
    (31, 5259425161, 1900, 2),
    (32, 5343543291, 1900, 2),
    (33, 5426357538, 1900, 2),
    (34, 5507926940, 2200, 2),
    (35, 5588305844, 2200, 2),
    (36, 5667545199, 2200, 2),
    (37, 5745691281, 2200, 2),
    (38, 5822789072, 2500, 2),
    (39, 5898879078, 2500, 2),
    (40, 5974000096, 2500, 2),
    (41, 6048236486, 2500, 2),
    (42, 6121572852, 3000, 3),
    (43, 6194041079, 3000, 3),
    (44, 6265671253, 3000, 3),
    (45, 6336491787, 3000, 3),
    (46, 6406529545, 3500, 3),
    (47, 6475809713, 3500, 3),
    (48, 6544356346, 3500, 3),
    (49, 6612192658, 3500, 3),
    (50, 6679340004, 4000, 3),
    (51, 6745818856, 4000, 3),
    (52, 6811649203, 4000, 4),
    (53, 6876849012, 4000, 4),
    (54, 6941436529, 4500, 4),
    (55, 7005429010, 4500, 4),
    (56, 7068842053, 4500, 4),
    (57, 7131690748, 4500, 4),
    (58, 7193990945, 5000, 4),
    (59, 7255755869, 5000, 4),
    (60, 7317000031, 5000, 4),
    (61, 7347410385, 5000, 4),
    (62, 7377694845, 6000, 6),
    (63, 7407855797, 6000, 6),
    (64, 7437894344, 6000, 6),
    (65, 7467811972, 6000, 6),
    (66, 7497610449, 7000, 8),
    (67, 7527290997, 7000, 8),
    (68, 7556855082, 7000, 8),
    (69, 7586303702, 7000, 8),
    (70, 7615638375, 8000, 10),
    (71, 7644860495, 8000, 10),
    (72, 7673971652, 8000, 10),
    (73, 7702972936, 8000, 10),
    (74, 7731865048, 9000, 12),
    (75, 7760649470, 9000, 12),
    (76, 7789327502, 9000, 12),
    (77, 7817900507, 9000, 12),
    (78, 7846369743, 10000, 15),
    (79, 7874736085, 10000, 15),
    (80, 7903000116, 10000, 10),
    (81, 7928039680, 10000, 10),
    (82, 7953000068, 11000, 10),
    (83, 7978000150, 11000, 10),
    (84, 8003000020, 11000, 12),
    (85, 8027999950, 11000, 12),
    (86, 8052999973, 12000, 12),
    (87, 8078000000, 12000, 12),
    (88, 8102999925, 12000, 15),
    (89, 8127999850, 12000, 15),
    (90, 8152999877, 13000, 15),
    (91, 8177999900, 13000, 15),
    (92, 8202999830, 13000, 17),
    (93, 8227999900, 13000, 17),
    (94, 8252999782, 14000, 17),
    (95, 8277999900, 14000, 17),
    (96, 8302999734, 14000, 20),
    (97, 8327999900, 14000, 20),
    (98, 8353000283, 15000, 20),
    (99, 8377999900, 15000, 20),
    (100, 8402999900, 0, 0),
    (101, 8427999900, 0, 0),
    (102, 8452999900, 0, 0),
];

} // verus!
