//! Stat stages and the damage of one hit.

use vstd::prelude::*;
use crate::pokemon::{lemma_product7};
use crate::ratio::Ratio;
use crate::wide::{
    floor_root, floor_root_of, lemma_floor_root_is, lemma_floor_root_quotient, power,
    seq_product, INDEX_MAX,
};

verus! {

/// The multiplier of a stat stage: 1/2, 4/7, 2/3, 4/5, 1, 5/4, 3/2, 7/4, 2
/// for the stages -4 to 4.
pub open spec fn rank_mul_spec(buff: int) -> Ratio {
    if buff <= -4 {
        Ratio { num: 1, den: 2 }
    } else if buff == -3 {
        Ratio { num: 4, den: 7 }
    } else if buff == -2 {
        Ratio { num: 2, den: 3 }
    } else if buff == -1 {
        Ratio { num: 4, den: 5 }
    } else if buff == 0 {
        Ratio { num: 1, den: 1 }
    } else if buff == 1 {
        Ratio { num: 5, den: 4 }
    } else if buff == 2 {
        Ratio { num: 3, den: 2 }
    } else if buff == 3 {
        Ratio { num: 7, den: 4 }
    } else {
        Ratio { num: 2, den: 1 }
    }
}

/// The multiplier of the stat stage `buff`.
pub fn rank_mul(buff: i32) -> (r: Ratio)
    requires
        -4 <= buff <= 4,
    ensures
        r == rank_mul_spec(buff as int),
        r.wf(),
        1 <= r.num <= 7,
        1 <= r.den <= 7,
{
    if buff == -4 {
        Ratio { num: 1, den: 2 }
    } else if buff == -3 {
        Ratio { num: 4, den: 7 }
    } else if buff == -2 {
        Ratio { num: 2, den: 3 }
    } else if buff == -1 {
        Ratio { num: 4, den: 5 }
    } else if buff == 0 {
        Ratio { num: 1, den: 1 }
    } else if buff == 1 {
        Ratio { num: 5, den: 4 }
    } else if buff == 2 {
        Ratio { num: 3, den: 2 }
    } else if buff == 3 {
        Ratio { num: 7, den: 4 }
    } else {
        Ratio { num: 2, den: 1 }
    }
}

/// The bonus of a trainer battle, 1.3.
pub open spec fn trainer_battle_bonus_spec() -> Ratio {
    Ratio { num: 13, den: 10 }
}

pub fn trainer_battle_bonus() -> (r: Ratio)
    ensures
        r == trainer_battle_bonus_spec(),
{
    Ratio { num: 13, den: 10 }
}

/// What goes into the damage of one hit.
#[derive(Debug, Clone, Copy)]
pub struct Hit {
    /// Power of the move, the same-type bonus included.
    pub power: Ratio,
    /// Multiplier of the move's type against the defender.
    pub effect: Ratio,
    /// Share of the full charge-move damage, in percent; above 100 counts as 100.
    pub cm_bonus: u32,
    /// Attack of the attacker, in units of `1 / SCALE`.
    pub attack: u64,
    /// Attack stage of the attacker.
    pub atk_rank: i32,
    /// Defense of the defender, in units of `1 / SCALE`.
    pub defense: u64,
    /// Defense stage of the defender.
    pub def_rank: i32,
}

impl Hit {
    /// The share of the full damage, in percent.
    pub open spec fn share(self) -> int {
        if self.cm_bonus > 100 {
            100
        } else {
            self.cm_bonus as int
        }
    }

    /// Numerator of
    /// `1/2 * 13/10 * power * effect * share * (attack * stage) / (defense * stage)`.
    pub open spec fn numerator(self) -> int {
        13 * self.power.num * self.effect.num * self.share() * self.attack * rank_mul_spec(
            self.atk_rank as int,
        ).num * rank_mul_spec(self.def_rank as int).den
    }

    /// Denominator of the same.
    pub open spec fn denominator(self) -> int {
        20 * self.power.den * self.effect.den * 100 * self.defense * rank_mul_spec(
            self.atk_rank as int,
        ).den * rank_mul_spec(self.def_rank as int).num
    }

    /// The damage of the hit: the quotient above rounded down, plus one, and
    /// at most `INDEX_MAX`. Against a defense of zero it is `INDEX_MAX`.
    pub open spec fn damage(self) -> int {
        if self.denominator() == 0 {
            INDEX_MAX as int
        } else if self.numerator() / self.denominator() >= INDEX_MAX {
            INDEX_MAX as int
        } else {
            self.numerator() / self.denominator() + 1
        }
    }
}

/// The damage of one hit.
pub fn calc_damage(hit: &Hit) -> (r: i32)
    requires
        -4 <= hit.atk_rank <= 4,
        -4 <= hit.def_rank <= 4,
    ensures
        r == hit.damage(),
        r >= 1,
{
    let share: u64 = if hit.cm_bonus > 100 {
        100
    } else {
        hit.cm_bonus as u64
    };
    let ra = rank_mul(hit.atk_rank);
    let rd = rank_mul(hit.def_rank);
    let num: [u64; 7] = [13, hit.power.num, hit.effect.num, share, hit.attack, ra.num, rd.den];
    let den: [u64; 7] = [20, hit.power.den, hit.effect.den, 100, hit.defense, ra.den, rd.num];
    proof {
        lemma_product7(num@);
        lemma_product7(den@);
        crate::wide::lemma_seq_product_nonneg(num@);
        crate::wide::lemma_seq_product_nonneg(den@);
        assert(seq_product(num@) == hit.numerator());
        assert(seq_product(den@) == hit.denominator());
        if hit.denominator() > 0 {
            lemma_floor_root_quotient(hit.numerator(), hit.denominator());
        } else {
            lemma_zero_denominator(hit.numerator());
        }
    }
    let q = floor_root_of(num.as_slice(), den.as_slice(), 1);
    if q >= 0x7FFF_FFFF {
        0x7FFF_FFFF
    } else {
        (q + 1) as i32
    }
}

/// A quotient by zero counts as the largest value.
pub proof fn lemma_zero_denominator(n: int)
    requires
        n >= 0,
    ensures
        floor_root(n, 0, 1) == INDEX_MAX,
{
    assert(power(INDEX_MAX as int, 1) * 0 == 0) by (nonlinear_arith);
    lemma_floor_root_is(INDEX_MAX as int, n, 0, 1);
}

} // verus!
