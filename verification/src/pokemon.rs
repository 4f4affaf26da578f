//! Configured creatures: a species at a level, with individual values and
//! chosen moves, and the stats and indices that follow from them.

use vstd::prelude::*;
use vstd::string::*;
use crate::cpm::{cpm_spec, get_cpm, is_level};
use crate::moves::{
    charge_move_by_name, charge_move_by_no, charge_move_name_upto, charge_move_no_upto,
    fast_move_by_name, fast_move_by_no, fast_move_name_upto, fast_move_no_upto, ChargeMove,
    FastMove,
};
use crate::pokepedia::{
    pokepedia_by_name, pokepedia_by_no, species_name_upto, species_no_upto, Pokepedia,
};
use crate::text::{decimal_spec, push_decimal, push_signed, signed_decimal_spec, str_eq};
use crate::ratio::SCALE;
use crate::types::Type;
use crate::wide::{
    floor_root, floor_root_of, lemma_floor_root_at_least, lemma_product_step,
    lemma_seq_product_nonneg, power, root_at_least, seq_product,
};

verus! {

/// Attack, defense and stamina, in units of `1 / SCALE`.
#[derive(Debug, Clone, Copy, PartialEq, Eq, Structural)]
pub struct Stats {
    pub attack: u64,
    pub defense: u64,
    pub stamina: u64,
}

/// Individual values, each from 0 to 15.
#[derive(Debug, Clone, Copy, PartialEq, Eq, Structural)]
pub struct IVs {
    pub attack: i32,
    pub defense: i32,
    pub stamina: i32,
}

/// A creature: a species at a level (in half-level steps), with individual
/// values, one fast move and one or two charge moves.
#[derive(Debug, Clone, Copy)]
pub struct Pokemon {
    pub dict: &'static Pokepedia,
    pub lv: u32,
    pub ivs: IVs,
    pub fast_move: FastMove,
    pub charge_move1: ChargeMove,
    pub charge_move2: Option<ChargeMove>,
}

/// One axis of the stats of a creature: base value plus individual value,
/// times the level's multiplier, rounded down to a unit.
pub open spec fn stat_spec(base: u64, iv: i32, cpm: u64) -> int {
    (base + iv * SCALE) * cpm / (SCALE as int)
}

/// `10^42`, the scale of the square of an attack times a defense and a stamina.
pub open spec fn cp_scale() -> int {
    100_000_000_000_000int * 100_000_000_000_000int * 100_000_000_000_000int
}

/// `10^43`: `10^40` for the scale of two squared stats, `10^3` for the cube of ten.
pub open spec fn scp_scale() -> int {
    1_000_000_000_000_000int * 100_000_000_000_000int * 100_000_000_000_000int
}

/// `10^105`: `10^100` for the scale of ten stats, `10^5` for the fifth power of ten.
pub open spec fn dcp_scale() -> int {
    1_000_000_000_000_000int * 1_000_000_000_000_000int * 1_000_000_000_000_000int
        * 1_000_000_000_000_000int * 1_000_000_000_000_000int * 1_000_000_000_000_000int
        * 1_000_000_000_000_000int
}

/// `v`, but at least 10, the least that an index can be.
pub open spec fn at_least_min(v: int) -> int {
    if v < 10 {
        10
    } else {
        v
    }
}

impl Stats {
    /// `attack * sqrt(defense * stamina) / 10` rounded down, at least 10: the
    /// largest `k` with `(10 k)^2 <= attack^2 * defense * stamina`.
    pub open spec fn cp_spec(self) -> int {
        at_least_min(
            floor_root(self.attack * self.attack * self.defense * self.stamina, cp_scale(), 2),
        )
    }

    /// The whole part of the stamina.
    pub open spec fn hp_spec(self) -> int {
        (self.stamina / SCALE) as int
    }

    /// `(attack * defense * floor(stamina))^(2/3) / 10` rounded down, at least
    /// 10: the largest `k` with `(10 k)^3 <= (attack * defense * floor(stamina))^2`.
    /// The stamina is rounded down before it is multiplied.
    pub open spec fn scp_spec(self) -> int {
        at_least_min(
            floor_root(
                self.attack * self.attack * self.defense * self.defense * self.hp_spec()
                    * self.hp_spec(),
                scp_scale(),
                3,
            ),
        )
    }

    /// `(attack * defense^2 * stamina^2)^(2/5) / 10` rounded down, at least 10:
    /// the largest `k` with `(10 k)^5 <= (attack * defense^2 * stamina^2)^2`.
    pub open spec fn dcp_spec(self) -> int {
        at_least_min(
            floor_root(
                self.attack * self.attack * self.defense * self.defense * self.defense
                    * self.defense * self.stamina * self.stamina * self.stamina * self.stamina,
                dcp_scale(),
                5,
            ),
        )
    }

    /// The stats of a creature with these base stats at level `lv`.
    pub open spec fn stats_spec(self, lv: u32, ivs: IVs) -> Stats {
        Stats {
            attack: stat_spec(self.attack, ivs.attack, cpm_spec(lv)) as u64,
            defense: stat_spec(self.defense, ivs.defense, cpm_spec(lv)) as u64,
            stamina: stat_spec(self.stamina, ivs.stamina, cpm_spec(lv)) as u64,
        }
    }

    /// The factors of the number under the root of the CP.
    pub open spec fn cp_factors(self) -> Seq<u64> {
        seq![self.attack, self.attack, self.defense, self.stamina]
    }

    pub fn new(attack: u64, defense: u64, stamina: u64) -> (r: Stats)
        ensures
            r == (Stats { attack, defense, stamina }),
    {
        Stats { attack, defense, stamina }
    }

    /// Taking these as base stats, the stats of a creature at level `lv`
    /// (in half-level steps) with the individual values `ivs`.
    pub fn stats(&self, lv: u32, ivs: IVs) -> (r: Stats)
        requires
            is_level(lv),
            ivs.wf(),
        ensures
            r == self.stats_spec(lv, ivs),
            r.attack == stat_spec(self.attack, ivs.attack, cpm_spec(lv)),
            r.defense == stat_spec(self.defense, ivs.defense, cpm_spec(lv)),
            r.stamina == stat_spec(self.stamina, ivs.stamina, cpm_spec(lv)),
    {
        let cpm = get_cpm(lv);
        Stats {
            attack: scale_stat(self.attack, ivs.attack, cpm),
            defense: scale_stat(self.defense, ivs.defense, cpm),
            stamina: scale_stat(self.stamina, ivs.stamina, cpm),
        }
    }
}

/// The product of four factors, multiplied from the left.
pub proof fn lemma_product4(s: Seq<u64>)
    requires
        s.len() == 4,
    ensures
        seq_product(s) == s[0] * s[1] * s[2] * s[3],
{
    lemma_product_step(s, 0);
    lemma_product_step(s, 1);
    lemma_product_step(s, 2);
    lemma_product_step(s, 3);
    assert(s.take(4) =~= s);
    assert(seq_product(s.take(0)) == 1);
}

/// The product of three factors, multiplied from the left.
pub proof fn lemma_product3(s: Seq<u64>)
    requires
        s.len() == 3,
    ensures
        seq_product(s) == s[0] * s[1] * s[2],
{
    lemma_product_step(s, 0);
    lemma_product_step(s, 1);
    lemma_product_step(s, 2);
    assert(s.take(3) =~= s);
    assert(seq_product(s.take(0)) == 1);
}

/// The product of six factors, multiplied from the left.
pub proof fn lemma_product6(s: Seq<u64>)
    requires
        s.len() == 6,
    ensures
        seq_product(s) == s[0] * s[1] * s[2] * s[3] * s[4] * s[5],
{
    lemma_product_step(s, 0);
    lemma_product_step(s, 1);
    lemma_product_step(s, 2);
    lemma_product_step(s, 3);
    lemma_product_step(s, 4);
    lemma_product_step(s, 5);
    assert(s.take(6) =~= s);
    assert(seq_product(s.take(0)) == 1);
}

/// The product of seven factors, multiplied from the left.
pub proof fn lemma_product7(s: Seq<u64>)
    requires
        s.len() == 7,
    ensures
        seq_product(s) == s[0] * s[1] * s[2] * s[3] * s[4] * s[5] * s[6],
{
    lemma_product_step(s, 0);
    lemma_product_step(s, 1);
    lemma_product_step(s, 2);
    lemma_product_step(s, 3);
    lemma_product_step(s, 4);
    lemma_product_step(s, 5);
    lemma_product_step(s, 6);
    assert(s.take(7) =~= s);
    assert(seq_product(s.take(0)) == 1);
}

/// The product of ten factors, multiplied from the left.
pub proof fn lemma_product10(s: Seq<u64>)
    requires
        s.len() == 10,
    ensures
        seq_product(s) == s[0] * s[1] * s[2] * s[3] * s[4] * s[5] * s[6] * s[7] * s[8] * s[9],
{
    lemma_product_step(s, 0);
    lemma_product_step(s, 1);
    lemma_product_step(s, 2);
    lemma_product_step(s, 3);
    lemma_product_step(s, 4);
    lemma_product_step(s, 5);
    lemma_product_step(s, 6);
    lemma_product_step(s, 7);
    lemma_product_step(s, 8);
    lemma_product_step(s, 9);
    assert(s.take(10) =~= s);
    assert(seq_product(s.take(0)) == 1);
}

impl Stats {
    /// CP, the combat power shown by the game.
    pub fn calc_cp(&self) -> (r: i32)
        ensures
            r == self.cp_spec(),
            r >= 10,
    {
        let num: [u64; 4] = [self.attack, self.attack, self.defense, self.stamina];
        let den: [u64; 3] = [100_000_000_000_000, 100_000_000_000_000, 100_000_000_000_000];
        proof {
            lemma_product4(num@);
            lemma_product3(den@);
        }
        let k = floor_root_of(num.as_slice(), den.as_slice(), 2);
        if k < 10 {
            10
        } else {
            k as i32
        }
    }

    /// Whether the CP is above `limit`.
    pub fn cp_exceeds(&self, limit: i32) -> (r: bool)
        ensures
            r == (self.cp_spec() > limit),
    {
        if limit < 10 {
            return true;
        }
        if limit == 0x7FFF_FFFF {
            proof {
                let n = self.attack * self.attack * self.defense * self.stamina;
                assert(n >= 0) by (nonlinear_arith)
                    requires
                        n == self.attack * self.attack * self.defense * self.stamina,
                        self.attack >= 0,
                        self.defense >= 0,
                        self.stamina >= 0,
                ;
                crate::wide::lemma_floor_root_exists(n, cp_scale(), 2);
            }
            return false;
        }
        let num: [u64; 4] = [self.attack, self.attack, self.defense, self.stamina];
        let den: [u64; 3] = [100_000_000_000_000, 100_000_000_000_000, 100_000_000_000_000];
        let k: u64 = (limit + 1) as u64;
        proof {
            lemma_product4(num@);
            lemma_product3(den@);
            lemma_seq_product_nonneg(num@);
            lemma_floor_root_at_least(k as int, seq_product(num@), seq_product(den@), 2);
        }
        root_at_least(num.as_slice(), den.as_slice(), 2, k)
    }

    /// SCP, the standard combat power: an index that weighs attack, defense
    /// and stamina evenly.
    pub fn calc_scp(&self) -> (r: i32)
        ensures
            r == self.scp_spec(),
            r >= 10,
    {
        let hp: u64 = self.stamina / SCALE;
        let num: [u64; 6] = [self.attack, self.attack, self.defense, self.defense, hp, hp];
        let den: [u64; 3] = [1_000_000_000_000_000, 100_000_000_000_000, 100_000_000_000_000];
        proof {
            lemma_product6(num@);
            lemma_product3(den@);
        }
        let k = floor_root_of(num.as_slice(), den.as_slice(), 3);
        if k < 10 {
            10
        } else {
            k as i32
        }
    }

    /// DCP, the defensive combat power: an index that weighs defense and
    /// stamina more than attack.
    pub fn calc_dcp(&self) -> (r: i32)
        ensures
            r == self.dcp_spec(),
            r >= 10,
    {
        let num: [u64; 10] = [
            self.attack,
            self.attack,
            self.defense,
            self.defense,
            self.defense,
            self.defense,
            self.stamina,
            self.stamina,
            self.stamina,
            self.stamina,
        ];
        let den: [u64; 7] = [
            1_000_000_000_000_000,
            1_000_000_000_000_000,
            1_000_000_000_000_000,
            1_000_000_000_000_000,
            1_000_000_000_000_000,
            1_000_000_000_000_000,
            1_000_000_000_000_000,
        ];
        proof {
            lemma_product10(num@);
            lemma_product7(den@);
        }
        let k = floor_root_of(num.as_slice(), den.as_slice(), 5);
        if k < 10 {
            10
        } else {
            k as i32
        }
    }

    /// The hit points that go with these stats: the whole part of the stamina.
    pub fn hp(&self) -> (r: i32)
        ensures
            r == self.hp_spec(),
            r >= 0,
    {
        (self.stamina / SCALE) as i32
    }
}

/// One axis of `Stats::stats`.
pub fn scale_stat(base: u64, iv: i32, cpm: u64) -> (r: u64)
    requires
        0 <= iv <= 15,
        cpm <= 9_000_000_000,
    ensures
        r == stat_spec(base, iv, cpm),
{
    let sum: u128 = (base as u128) + (iv as u128) * 10_000_000_000u128;
    assert(0 <= sum * cpm < 0x1_0000_0000_0000_0000 * 10_000_000_000) by (nonlinear_arith)
        requires
            0 <= sum <= 0xFFFF_FFFF_FFFF_FFFF + 150_000_000_000,
            0 <= cpm <= 9_000_000_000,
    ;
    let prod: u128 = sum * (cpm as u128);
    let q: u128 = prod / 10_000_000_000u128;
    q as u64
}

impl IVs {
    /// Each value lies between 0 and 15.
    pub open spec fn wf(self) -> bool {
        &&& 0 <= self.attack <= 15
        &&& 0 <= self.defense <= 15
        &&& 0 <= self.stamina <= 15
    }

    /// Whether each value lies between 0 and 15.
    pub fn is_valid(&self) -> (r: bool)
        ensures
            r == self.wf(),
    {
        0 <= self.attack && self.attack <= 15 && 0 <= self.defense && self.defense <= 15 && 0
            <= self.stamina && self.stamina <= 15
    }

    pub fn to_tuple(self) -> (r: (i32, i32, i32))
        ensures
            r == (self.attack, self.defense, self.stamina),
    {
        (self.attack, self.defense, self.stamina)
    }
}

impl Pokemon {
    /// The level is one of the table, the individual values are in range and
    /// the moves are well formed.
    pub open spec fn wf(self) -> bool {
        &&& is_level(self.lv)
        &&& self.ivs.wf()
        &&& self.fast_move.wf()
        &&& self.charge_move1.wf()
        &&& self.charge_move2 is Some ==> self.charge_move2.unwrap().wf()
    }

    /// The stats of the creature.
    pub open spec fn stats_spec(self) -> Stats {
        self.dict.base_stats_spec().stats_spec(self.lv, self.ivs)
    }

    /// The hit points of the creature when unhurt.
    pub open spec fn hp_spec(self) -> int {
        self.stats_spec().hp_spec()
    }

    /// The charge move in slot `i`: the first for 0, the second for 1.
    pub open spec fn charge_move_spec(self, i: int) -> Option<ChargeMove> {
        if i == 0 {
            Some(self.charge_move1)
        } else if i == 1 {
            self.charge_move2
        } else {
            None
        }
    }

    /// Whether the creature is well formed.
    pub fn is_valid(&self) -> (r: bool)
        ensures
            r == self.wf(),
    {
        2 <= self.lv && self.lv <= 102 && self.ivs.is_valid() && self.fast_move.is_valid()
            && self.charge_move1.is_valid() && match self.charge_move2 {
            Some(mv) => mv.is_valid(),
            None => true,
        }
    }

    /// A creature of these parts, which are taken as they are.
    pub fn raw_new(
        dict: &'static Pokepedia,
        lv: u32,
        ivs: IVs,
        fast_move: FastMove,
        charge_move1: ChargeMove,
        charge_move2: Option<ChargeMove>,
    ) -> (r: Pokemon)
        ensures
            r == (Pokemon { dict, lv, ivs, fast_move, charge_move1, charge_move2 }),
    {
        Pokemon { dict, lv, ivs, fast_move, charge_move1, charge_move2 }
    }

    pub fn dict(&self) -> (r: &'static Pokepedia)
        ensures
            r == self.dict,
    {
        self.dict
    }

    pub fn no(&self) -> (r: &'static str)
        ensures
            r == self.dict.no,
    {
        self.dict.no
    }

    pub fn name(&self) -> (r: &'static str)
        ensures
            r == self.dict.name,
    {
        self.dict.name
    }

    pub fn s_name(&self) -> (r: &'static str)
        ensures
            r == self.dict.s_name,
    {
        self.dict.s_name
    }

    pub fn types(&self) -> (r: Vec<Type>)
        ensures
            r@ == self.dict.types_spec(),
    {
        self.dict.types()
    }

    pub fn base_stats(&self) -> (r: Stats)
        ensures
            r == self.dict.base_stats_spec(),
    {
        self.dict.base_stats()
    }

    /// The level, in half-level steps.
    pub fn lv(&self) -> (r: u32)
        ensures
            r == self.lv,
    {
        self.lv
    }

    pub fn lv_mut(&mut self) -> (r: &mut u32)
        ensures
            *r == old(self).lv,
            *final(self) == (Pokemon { lv: *final(r), ..*old(self) }),
    {
        &mut self.lv
    }

    pub fn ivs(&self) -> (r: IVs)
        ensures
            r == self.ivs,
    {
        self.ivs
    }

    pub fn ivs_mut(&mut self) -> (r: &mut IVs)
        ensures
            *r == old(self).ivs,
            *final(self) == (Pokemon { ivs: *final(r), ..*old(self) }),
    {
        &mut self.ivs
    }

    pub fn fast_move(&self) -> (r: FastMove)
        ensures
            r == self.fast_move,
    {
        self.fast_move
    }

    pub fn set_fast_move(&mut self, fast_move: FastMove)
        ensures
            *final(self) == (Pokemon { fast_move, ..*old(self) }),
    {
        self.fast_move = fast_move;
    }

    pub fn charge_move1(&self) -> (r: ChargeMove)
        ensures
            r == self.charge_move1,
    {
        self.charge_move1
    }

    pub fn set_charge_move1(&mut self, charge_move1: ChargeMove)
        ensures
            *final(self) == (Pokemon { charge_move1, ..*old(self) }),
    {
        self.charge_move1 = charge_move1;
    }

    pub fn charge_move2(&self) -> (r: Option<ChargeMove>)
        ensures
            r == self.charge_move2,
    {
        self.charge_move2
    }

    pub fn set_charge_move2(&mut self, charge_move2: Option<ChargeMove>)
        ensures
            *final(self) == (Pokemon { charge_move2, ..*old(self) }),
    {
        self.charge_move2 = charge_move2;
    }

    /// The multiplier of the creature's level, in units of `1 / SCALE`.
    pub fn cpm(&self) -> (r: u64)
        requires
            is_level(self.lv),
        ensures
            r == cpm_spec(self.lv),
    {
        get_cpm(self.lv)
    }

    pub fn stats(&self) -> (r: Stats)
        requires
            is_level(self.lv),
            self.ivs.wf(),
        ensures
            r == self.stats_spec(),
    {
        self.dict.base_stats().stats(self.lv, self.ivs)
    }

    pub fn cp(&self) -> (r: i32)
        requires
            is_level(self.lv),
            self.ivs.wf(),
        ensures
            r == self.stats_spec().cp_spec(),
    {
        self.stats().calc_cp()
    }

    pub fn scp(&self) -> (r: i32)
        requires
            is_level(self.lv),
            self.ivs.wf(),
        ensures
            r == self.stats_spec().scp_spec(),
    {
        self.stats().calc_scp()
    }

    pub fn dcp(&self) -> (r: i32)
        requires
            is_level(self.lv),
            self.ivs.wf(),
        ensures
            r == self.stats_spec().dcp_spec(),
    {
        self.stats().calc_dcp()
    }

    /// The hit points of the creature when unhurt.
    pub fn hp(&self) -> (r: i32)
        requires
            is_level(self.lv),
            self.ivs.wf(),
        ensures
            r == self.hp_spec(),
            r >= 0,
    {
        self.stats().hp()
    }
}

/// Why a creature could not be made.
#[derive(Debug, Clone, Copy, PartialEq, Eq, Structural)]
pub enum ErrorKind {
    /// The individual value of the attack is not within 0 to 15.
    AttackIv,
    /// The individual value of the defense is not within 0 to 15.
    DefenseIv,
    /// The individual value of the stamina is not within 0 to 15.
    StaminaIv,
    /// The catalog holds no such species.
    UnknownSpecies,
    /// The level is not within 1.0 to 50.0.
    LevelOutOfRange,
    /// No level gives the species the CP with the individual values.
    LevelNotFound,
    /// The catalog holds no such fast move.
    UnknownFastMove,
    /// The catalog holds no such first charge move.
    UnknownChargeMove1,
    /// The catalog holds no such second charge move.
    UnknownChargeMove2,
    /// The hit points that were recorded are not those of the creature.
    HpMismatch,
}

/// A creature could not be made.
#[derive(Debug, Clone)]
pub struct PokemonError {
    pub kind: ErrorKind,
    /// What went wrong, for the user.
    pub message: String,
    /// Where no level was found: the individual values next to the given
    /// ones for which there is one.
    pub near_ivs: Vec<IVs>,
}

impl PokemonError {
    /// The message of the error.
    pub fn message(&self) -> (r: String)
        ensures
            r@ == self.message@,
    {
        self.message.clone()
    }
}

/// The message for an individual value out of range.
pub open spec fn iv_message(kind: ErrorKind, v: int) -> Seq<char> {
    (match kind {
        ErrorKind::AttackIv => "[IVs::new] 攻撃の個体値(attack_iv)が範囲外(0～15が正常): "@,
        ErrorKind::DefenseIv => "[IVs::new] 防御の個体値(defense_iv)が範囲外(0～15が正常): "@,
        _ => "[IVs::new] 耐久の個体値(stamina_iv)が範囲外(0～15が正常): "@,
    }) + signed_decimal_spec(v)
}

/// What `IVs::new` makes of three values: the values, or the first of them
/// that is out of range.
pub open spec fn ivs_outcome(attack: i32, defense: i32, stamina: i32) -> Result<IVs, ErrorKind> {
    if !(0 <= attack <= 15) {
        Err(ErrorKind::AttackIv)
    } else if !(0 <= defense <= 15) {
        Err(ErrorKind::DefenseIv)
    } else if !(0 <= stamina <= 15) {
        Err(ErrorKind::StaminaIv)
    } else {
        Ok(IVs { attack, defense, stamina })
    }
}

/// The value that `IVs::new` finds out of range.
pub open spec fn ivs_offender(attack: i32, defense: i32, stamina: i32) -> int {
    if !(0 <= attack <= 15) {
        attack as int
    } else if !(0 <= defense <= 15) {
        defense as int
    } else {
        stamina as int
    }
}

impl IVs {
    /// Individual values, each of which has to lie within 0 to 15; else the
    /// first that does not is named.
    pub fn new(attack: i32, defense: i32, stamina: i32) -> (r: Result<IVs, PokemonError>)
        ensures
            match r {
                Ok(ivs) => ivs_outcome(attack, defense, stamina) == Ok::<IVs, ErrorKind>(ivs)
                    && ivs.wf(),
                Err(e) => ivs_outcome(attack, defense, stamina) == Err::<IVs, ErrorKind>(e.kind)
                    && e.message@ == iv_message(e.kind, ivs_offender(attack, defense, stamina))
                    && e.near_ivs@.len() == 0,
            },
    {
        if attack < 0 || attack > 15 {
            let mut message = String::new();
            message.append("[IVs::new] 攻撃の個体値(attack_iv)が範囲外(0～15が正常): ");
            push_signed(&mut message, attack as i64);
            return Err(PokemonError { kind: ErrorKind::AttackIv, message, near_ivs: Vec::new() });
        }
        if defense < 0 || defense > 15 {
            let mut message = String::new();
            message.append("[IVs::new] 防御の個体値(defense_iv)が範囲外(0～15が正常): ");
            push_signed(&mut message, defense as i64);
            return Err(PokemonError { kind: ErrorKind::DefenseIv, message, near_ivs: Vec::new() });
        }
        if stamina < 0 || stamina > 15 {
            let mut message = String::new();
            message.append("[IVs::new] 耐久の個体値(stamina_iv)が範囲外(0～15が正常): ");
            push_signed(&mut message, stamina as i64);
            return Err(PokemonError { kind: ErrorKind::StaminaIv, message, near_ivs: Vec::new() });
        }
        Ok(IVs { attack, defense, stamina })
    }
}

/// Whether the species `poke` has the CP `cp` at level `lv` with the
/// individual values `ivs`.
pub open spec fn cp_matches(poke: &Pokepedia, cp: i32, ivs: IVs, lv: u32) -> bool {
    poke.base_stats_spec().stats_spec(lv, ivs).cp_spec() == cp
}

/// The first level from `from` to `to` at which the species has the CP.
pub open spec fn first_level(poke: &Pokepedia, cp: i32, ivs: IVs, from: int, to: int) -> Option<
    u32,
>
    decreases to + 1 - from,
{
    if from > to {
        None
    } else if cp_matches(poke, cp, ivs, from as u32) {
        Some(from as u32)
    } else {
        first_level(poke, cp, ivs, from + 1, to)
    }
}

/// The level of a creature of the species `poke` that has the CP `cp` with
/// the individual values `ivs`: the first from 1.0 to 50.0, in half-level
/// steps, at which the CP is exactly `cp`; none where there is no such level.
pub open spec fn calc_lv_spec(poke: &Pokepedia, cp: i32, ivs: IVs) -> Option<u32> {
    first_level(poke, cp, ivs, 2, 100)
}

/// The first level within a range at which the species has the CP.
pub fn find_level(poke: &Pokepedia, cp: i32, ivs: IVs, to: u32) -> (r: Option<u32>)
    requires
        ivs.wf(),
        2 <= to <= 102,
    ensures
        r == first_level(poke, cp, ivs, 2, to as int),
        r is Some ==> 2 <= r.unwrap() <= to && cp_matches(poke, cp, ivs, r.unwrap()),
{
    let base = poke.base_stats();
    let mut lv: u32 = 2;
    while lv <= to
        invariant
            2 <= lv <= to + 1,
            to <= 102,
            ivs.wf(),
            base == poke.base_stats_spec(),
            first_level(poke, cp, ivs, 2, to as int) == first_level(
                poke,
                cp,
                ivs,
                lv as int,
                to as int,
            ),
        decreases to + 1 - lv,
    {
        let stats = base.stats(lv, ivs);
        if stats.calc_cp() == cp {
            return Some(lv);
        }
        lv += 1;
    }
    None
}

/// The level of a creature of the species `poke` that has the CP `cp` with
/// the individual values `ivs`, as `calc_lv_spec` says.
pub fn calc_lv(poke: &Pokepedia, cp: i32, ivs: IVs) -> (r: Option<u32>)
    requires
        ivs.wf(),
    ensures
        r == calc_lv_spec(poke, cp, ivs),
        r is Some ==> 2 <= r.unwrap() <= 100 && cp_matches(poke, cp, ivs, r.unwrap()),
{
    find_level(poke, cp, ivs, 100)
}

/// Past `from`, the first level that has the CP is `lv` where `lv` has it
/// and no level from `from` up to `lv` has.
pub proof fn lemma_first_level_is(poke: &Pokepedia, cp: i32, ivs: IVs, from: int, to: int, lv: u32)
    requires
        0 <= from <= lv <= to,
        cp_matches(poke, cp, ivs, lv),
        forall|l: u32| from <= l < lv ==> !cp_matches(poke, cp, ivs, l),
    ensures
        first_level(poke, cp, ivs, from, to) == Some(lv),
    decreases lv - from,
{
    if from < lv {
        assert(!cp_matches(poke, cp, ivs, from as u32));
        lemma_first_level_is(poke, cp, ivs, from + 1, to, lv);
    }
}

/// From the CP of a creature its level is found again: where no other level
/// from 1.0 to 50.0 gives the species the same CP with the same individual
/// values, `calc_lv` of the CP at a level is that level.
pub proof fn lemma_cp_round_trip(poke: &Pokepedia, lv: u32, ivs: IVs)
    requires
        2 <= lv <= 100,
        ivs.wf(),
        forall|l: u32|
            2 <= l <= 100 && l != lv ==> poke.base_stats_spec().stats_spec(l, ivs).cp_spec()
                != poke.base_stats_spec().stats_spec(lv, ivs).cp_spec(),
    ensures
        calc_lv_spec(poke, poke.base_stats_spec().stats_spec(lv, ivs).cp_spec() as i32, ivs)
            == Some(lv),
{
    let st = poke.base_stats_spec().stats_spec(lv, ivs);
    let n = st.attack * st.attack * st.defense * st.stamina;
    assert(n >= 0) by (nonlinear_arith)
        requires
            n == st.attack * st.attack * st.defense * st.stamina,
            st.attack >= 0,
            st.defense >= 0,
            st.stamina >= 0,
    ;
    crate::wide::lemma_floor_root_exists(n, cp_scale(), 2);
    let cp = st.cp_spec() as i32;
    assert(cp == st.cp_spec());
    lemma_first_level_is(poke, cp, ivs, 2, 100, lv);
}

/// The `k`-th of the 27 triples next to `ivs`: each value changed by -1, 0
/// or 1, the attack slowest and the stamina fastest.
pub open spec fn near_candidate(ivs: IVs, k: int) -> (int, int, int) {
    (ivs.attack + k / 9 - 1, ivs.defense + (k / 3) % 3 - 1, ivs.stamina + k % 3 - 1)
}

/// Whether the `k`-th triple next to `ivs` holds individual values for
/// which the species has a level with the CP.
pub open spec fn near_hit(poke: &Pokepedia, cp: i32, ivs: IVs, k: int) -> bool {
    let c = near_candidate(ivs, k);
    &&& 0 <= c.0 <= 15
    &&& 0 <= c.1 <= 15
    &&& 0 <= c.2 <= 15
    &&& calc_lv_spec(
        poke,
        cp,
        IVs { attack: c.0 as i32, defense: c.1 as i32, stamina: c.2 as i32 },
    ) is Some
}

/// Of the first `n` triples next to `ivs`, those that are hits, in order.
pub open spec fn near_upto(poke: &Pokepedia, cp: i32, ivs: IVs, n: nat) -> Seq<IVs>
    decreases n,
{
    if n == 0 {
        Seq::empty()
    } else {
        let c = near_candidate(ivs, n - 1);
        let rest = near_upto(poke, cp, ivs, (n - 1) as nat);
        if near_hit(poke, cp, ivs, n - 1) {
            rest.push(IVs { attack: c.0 as i32, defense: c.1 as i32, stamina: c.2 as i32 })
        } else {
            rest
        }
    }
}

/// The individual values that differ from `ivs` by at most one in each
/// value, `ivs` among them, and with which the species can have the CP `cp`.
pub fn search_near_iv(poke: &Pokepedia, cp: i32, ivs: IVs) -> (r: Vec<IVs>)
    ensures
        r@ == near_upto(poke, cp, ivs, 27),
{
    let mut near: Vec<IVs> = Vec::new();
    let mut k: i64 = 0;
    while k < 27
        invariant
            0 <= k <= 27,
            near@ == near_upto(poke, cp, ivs, k as nat),
        decreases 27 - k,
    {
        let a: i64 = ivs.attack as i64 + k / 9 - 1;
        let d: i64 = ivs.defense as i64 + (k / 3) % 3 - 1;
        let s: i64 = ivs.stamina as i64 + k % 3 - 1;
        if 0 <= a && a <= 15 && 0 <= d && d <= 15 && 0 <= s && s <= 15 {
            let v = IVs { attack: a as i32, defense: d as i32, stamina: s as i32 };
            if calc_lv(poke, cp, v).is_some() {
                near.push(v);
            }
        }
        k += 1;
    }
    near
}

/// A level in words: `20` for level 20.0, `20.5` for level 20.5.
pub open spec fn level_text(lv: u32) -> Seq<char> {
    if lv % 2 == 1 {
        decimal_spec((lv / 2) as nat) + ".5"@
    } else {
        decimal_spec((lv / 2) as nat)
    }
}

/// Individual values in words.
pub open spec fn ivs_text(ivs: IVs) -> Seq<char> {
    "IVs { attack: "@ + signed_decimal_spec(ivs.attack as int) + ", defense: "@
        + signed_decimal_spec(ivs.defense as int) + ", stamina: "@ + signed_decimal_spec(
        ivs.stamina as int,
    ) + " }"@
}

/// A line for each of the first `n` of `near`.
pub open spec fn near_lines(near: Seq<IVs>, n: nat) -> Seq<char>
    decreases n,
{
    if n == 0 {
        Seq::empty()
    } else {
        near_lines(near, (n - 1) as nat) + "\n"@ + ivs_text(near[n - 1])
    }
}

/// The message where no level was found, with the individual values nearby
/// that would do.
pub open spec fn level_not_found_text(name: Seq<char>, near: Seq<IVs>) -> Seq<char> {
    if near.len() == 0 {
        name + ": ポケモンレベルの取得に失敗(CPか個体値が間違っている)"@
    } else {
        name + ": ポケモンレベルの取得に失敗(CPか個体値が間違っている)"@ + "\nもしかして、この値?"@
            + near_lines(near, near.len())
    }
}

/// What is added to the message for an unknown fast move where the name is
/// that of a family of moves.
pub open spec fn fast_move_hint(name: Seq<char>) -> Seq<char> {
    if name == "ウェザーボール"@ {
        "\n'ウェザーボール(ノーマル)', 'ウェザーボール(ほのお)'"@
            + "\n'ウェザーボール(こおり)', 'ウェザーボール(いわ)'"@
            + "\n'ウェザーボール(みず)' のどれか。"@
    } else if name == "テクノバスター"@ {
        "\n'テクノバスター(ノーマル)', 'テクノバスター(ほのお)'"@
            + "\n'テクノバスター(こおり)', 'テクノバスター(みず)'"@
            + "\n'テクノバスター(でんき)' のどれか。"@
    } else {
        Seq::empty()
    }
}

/// The three strings in a row.
pub fn concat3(a: &str, b: &str, c: &str) -> (r: String)
    ensures
        r@ == a@ + b@ + c@,
{
    let mut r = String::new();
    r.append(a);
    r.append(b);
    r.append(c);
    proof {
        assert(r@ =~= a@ + b@ + c@);
    }
    r
}

/// Writes the individual values in words at the end of `s`.
pub fn push_ivs(s: &mut String, ivs: IVs)
    ensures
        final(s)@ == old(s)@ + ivs_text(ivs),
{
    s.append("IVs { attack: ");
    push_signed(s, ivs.attack as i64);
    s.append(", defense: ");
    push_signed(s, ivs.defense as i64);
    s.append(", stamina: ");
    push_signed(s, ivs.stamina as i64);
    s.append(" }");
    proof {
        assert(s@ =~= old(s)@ + ivs_text(ivs));
    }
}

/// The error for a CP that the species has at no level.
pub fn level_not_found(name: &str, near: Vec<IVs>) -> (e: PokemonError)
    ensures
        e.kind == ErrorKind::LevelNotFound,
        e.near_ivs@ == near@,
        e.message@ == level_not_found_text(name@, near@),
{
    let mut message = String::new();
    message.append(name);
    message.append(": ポケモンレベルの取得に失敗(CPか個体値が間違っている)");
    if near.len() > 0 {
        message.append("\nもしかして、この値?");
        let ghost head = message@;
        let mut i: usize = 0;
        while i < near.len()
            invariant
                i <= near.len(),
                message@ == head + near_lines(near@, i as nat),
            decreases near.len() - i,
        {
            let ghost before = message@;
            message.append("\n");
            push_ivs(&mut message, near[i]);
            proof {
                assert(message@ =~= head + near_lines(near@, (i + 1) as nat));
            }
            i += 1;
        }
        proof {
            assert(message@ =~= level_not_found_text(name@, near@));
        }
    } else {
        proof {
            assert(message@ =~= level_not_found_text(name@, near@));
        }
    }
    PokemonError { kind: ErrorKind::LevelNotFound, message, near_ivs: near }
}

/// The error for a level that is not within 1.0 to 50.0.
pub fn level_out_of_range(name: &str, lv: u32) -> (e: PokemonError)
    ensures
        e.kind == ErrorKind::LevelOutOfRange,
        e.near_ivs@.len() == 0,
        e.message@ == name@ + ": pokemon_lvが1.0から50.0の間でない。: "@ + level_text(lv),
{
    let mut message = String::new();
    message.append(name);
    message.append(": pokemon_lvが1.0から50.0の間でない。: ");
    push_decimal(&mut message, (lv / 2) as u64);
    if lv % 2 == 1 {
        message.append(".5");
    }
    proof {
        assert(message@ =~= name@ + ": pokemon_lvが1.0から50.0の間でない。: "@ + level_text(lv));
    }
    PokemonError { kind: ErrorKind::LevelOutOfRange, message, near_ivs: Vec::new() }
}

/// The error for a fast move that the catalog does not hold.
pub fn unknown_fast_move(name: &str, fast_move: &str) -> (e: PokemonError)
    ensures
        e.kind == ErrorKind::UnknownFastMove,
        e.near_ivs@.len() == 0,
        e.message@ == name@ + ": 存在しないノーマルアタック: "@ + fast_move@ + fast_move_hint(fast_move@),
{
    let mut message = concat3(name, ": 存在しないノーマルアタック: ", fast_move);
    if str_eq(fast_move, "ウェザーボール") {
        message.append("\n'ウェザーボール(ノーマル)', 'ウェザーボール(ほのお)'");
        message.append("\n'ウェザーボール(こおり)', 'ウェザーボール(いわ)'");
        message.append("\n'ウェザーボール(みず)' のどれか。");
    } else if str_eq(fast_move, "テクノバスター") {
        message.append("\n'テクノバスター(ノーマル)', 'テクノバスター(ほのお)'");
        message.append("\n'テクノバスター(こおり)', 'テクノバスター(みず)'");
        message.append("\n'テクノバスター(でんき)' のどれか。");
    }
    proof {
        assert(message@ =~= name@ + ": 存在しないノーマルアタック: "@ + fast_move@ + fast_move_hint(
            fast_move@,
        ));
    }
    PokemonError { kind: ErrorKind::UnknownFastMove, message, near_ivs: Vec::new() }
}

/// An error of the kind `kind` with the three strings in a row as message.
pub fn plain_error(kind: ErrorKind, a: &str, b: &str, c: &str) -> (e: PokemonError)
    ensures
        e.kind == kind,
        e.near_ivs@.len() == 0,
        e.message@ == a@ + b@ + c@,
{
    PokemonError { kind, message: concat3(a, b, c), near_ivs: Vec::new() }
}

/// What `Pokemon::new` is asked to make a creature of.
pub struct Request {
    /// The species to choose from.
    pub catalog: Seq<Pokepedia>,
    /// The name of the species.
    pub name: Seq<char>,
    /// The level in half-level steps, where it is known.
    pub pokemon_lv: Option<u32>,
    pub ivs: (i32, i32, i32),
    /// The names of the moves.
    pub fast_move: Seq<char>,
    pub charge_move1: Seq<char>,
    pub charge_move2: Option<Seq<char>>,
    /// The CP from which the level is found where it is not known.
    pub cp: i32,
}

impl Request {
    /// The species asked for.
    pub open spec fn species(self) -> Option<int> {
        species_name_upto(self.catalog, self.name, self.catalog.len())
    }

    pub open spec fn dict(self) -> Pokepedia {
        self.catalog[self.species().unwrap()]
    }

    pub open spec fn ivs_value(self) -> IVs {
        IVs { attack: self.ivs.0, defense: self.ivs.1, stamina: self.ivs.2 }
    }

    /// The level of the creature: the given one, else that found from the CP.
    pub open spec fn level(self) -> Option<u32> {
        match self.pokemon_lv {
            Some(lv) => Some(lv),
            None => calc_lv_spec(&self.dict(), self.cp, self.ivs_value()),
        }
    }

    /// What stands in the way of the creature, if anything does. The
    /// species is looked at first, then the individual values, the level,
    /// the fast move, the first and the second charge move.
    pub open spec fn error(self) -> Option<ErrorKind> {
        if self.species() is None {
            Some(ErrorKind::UnknownSpecies)
        } else if ivs_outcome(self.ivs.0, self.ivs.1, self.ivs.2) is Err {
            Some(ivs_outcome(self.ivs.0, self.ivs.1, self.ivs.2)->Err_0)
        } else if self.pokemon_lv is Some && !(2 <= self.pokemon_lv.unwrap() <= 100) {
            Some(ErrorKind::LevelOutOfRange)
        } else if self.level() is None {
            Some(ErrorKind::LevelNotFound)
        } else if fast_move_name_upto(self.fast_move, 188) is None {
            Some(ErrorKind::UnknownFastMove)
        } else if charge_move_name_upto(self.charge_move1, 394) is None {
            Some(ErrorKind::UnknownChargeMove1)
        } else if self.charge_move2 is Some && charge_move_name_upto(
            self.charge_move2.unwrap(),
            394,
        ) is None {
            Some(ErrorKind::UnknownChargeMove2)
        } else {
            None
        }
    }

    /// The message that goes with the error.
    pub open spec fn message(self) -> Seq<char> {
        match self.error() {
            Some(ErrorKind::UnknownSpecies) => "存在しないポケモン: "@ + self.name,
            Some(ErrorKind::LevelOutOfRange) => self.dict().name@
                + ": pokemon_lvが1.0から50.0の間でない。: "@ + level_text(self.pokemon_lv.unwrap()),
            Some(ErrorKind::LevelNotFound) => level_not_found_text(
                self.dict().name@,
                near_upto(&self.dict(), self.cp, self.ivs_value(), 27),
            ),
            Some(ErrorKind::UnknownFastMove) => self.dict().name@ + ": 存在しないノーマルアタック: "@
                + self.fast_move + fast_move_hint(self.fast_move),
            Some(ErrorKind::UnknownChargeMove1) => self.dict().name@
                + ": 存在しないスペシャルアタック1: "@ + self.charge_move1,
            Some(ErrorKind::UnknownChargeMove2) => self.dict().name@
                + ": 存在しないスペシャルアタック2: "@ + self.charge_move2.unwrap(),
            Some(kind) => iv_message(kind, ivs_offender(self.ivs.0, self.ivs.1, self.ivs.2)),
            None => Seq::empty(),
        }
    }

    /// The parts of the creature that is made where nothing stands in the way.
    pub open spec fn fits(self, p: Pokemon) -> bool {
        &&& *p.dict == self.dict()
        &&& Some(p.lv) == self.level()
        &&& p.ivs == self.ivs_value()
        &&& Some(p.fast_move) == fast_move_name_upto(self.fast_move, 188)
        &&& Some(p.charge_move1) == charge_move_name_upto(self.charge_move1, 394)
        &&& p.charge_move2 == match self.charge_move2 {
            Some(n) => charge_move_name_upto(n, 394),
            None => None,
        }
    }
}

/// The view of an optional string.
pub open spec fn opt_view(s: Option<String>) -> Option<Seq<char>> {
    match s {
        Some(x) => Some(x@),
        None => None,
    }
}

/// What `Pokemon::new_by_no` returns for what it is given.
pub open spec fn by_no_result(
    catalog: Seq<Pokepedia>,
    no: Seq<char>,
    pokemon_lv: Option<u32>,
    ivs_tuple: (i32, i32, i32),
    fast_move_no: Seq<char>,
    charge_move1_no: Seq<char>,
    charge_move2_no: Option<Seq<char>>,
    cp: i32,
    r: Result<Pokemon, PokemonError>,
) -> bool {
    let sp = species_no_upto(catalog, no, catalog.len());
    let fm = fast_move_no_upto(fast_move_no, 188);
    let c1 = charge_move_no_upto(charge_move1_no, 394);
    let c2 = match charge_move2_no {
        Some(n) => charge_move_no_upto(n, 394),
        None => None,
    };
    if sp is None {
        r is Err && r->Err_0.kind == ErrorKind::UnknownSpecies && r->Err_0.message@
            == "存在しないポケモン: no = "@ + no
    } else if fm is None {
        r is Err && r->Err_0.kind == ErrorKind::UnknownFastMove && r->Err_0.message@
            == catalog[sp.unwrap()].name@ + ": 存在しないノーマルアタック: no = "@ + fast_move_no
    } else if c1 is None {
        r is Err && r->Err_0.kind == ErrorKind::UnknownChargeMove1 && r->Err_0.message@
            == catalog[sp.unwrap()].name@ + ": 存在しないスペシャルアタック1: no = "@ + charge_move1_no
    } else if charge_move2_no is Some && c2 is None {
        r is Err && r->Err_0.kind == ErrorKind::UnknownChargeMove2 && r->Err_0.message@
            == catalog[sp.unwrap()].name@ + ": 存在しないスペシャルアタック2: no = "@
            + charge_move2_no.unwrap()
    } else {
        let q = Request {
            catalog,
            name: catalog[sp.unwrap()].name@,
            pokemon_lv,
            ivs: ivs_tuple,
            fast_move: fm.unwrap().name@,
            charge_move1: c1.unwrap().name@,
            charge_move2: match c2 {
                Some(m) => Some(m.name@),
                None => None,
            },
            cp,
        };
        match r {
            Ok(p) => q.error() is None && q.fits(p) && p.wf(),
            Err(e) => q.error() == Some(e.kind) && e.message@ == q.message() && (e.kind
                == ErrorKind::LevelNotFound ==> e.near_ivs@ == near_upto(
                &q.dict(),
                cp,
                q.ivs_value(),
                27,
            )),
        }
    }
}

impl Pokemon {
    /// The creature of the species named `name` in `catalog`, with the
    /// level `pokemon_lv` (in half-level steps, from 1.0 to 50.0) or, where
    /// none is given, the level that the CP `cp` shows; with the individual
    /// values `ivs_tuple` and the moves of the given names. What stands in
    /// the way is told as `Request::error` and `Request::message` say.
    pub fn new(
        catalog: &'static [Pokepedia],
        name: &str,
        pokemon_lv: Option<u32>,
        ivs_tuple: (i32, i32, i32),
        fast_move: &str,
        charge_move1: &str,
        charge_move2: Option<String>,
        cp: i32,
    ) -> (r: Result<Pokemon, PokemonError>)
        ensures
            ({
                let q = Request {
                    catalog: catalog@,
                    name: name@,
                    pokemon_lv,
                    ivs: ivs_tuple,
                    fast_move: fast_move@,
                    charge_move1: charge_move1@,
                    charge_move2: opt_view(charge_move2),
                    cp,
                };
                match r {
                    Ok(p) => q.error() is None && q.fits(p) && p.wf(),
                    Err(e) => q.error() == Some(e.kind) && e.message@ == q.message() && (e.kind
                        == ErrorKind::LevelNotFound ==> e.near_ivs@ == near_upto(
                        &q.dict(),
                        cp,
                        q.ivs_value(),
                        27,
                    )),
                }
            }),
    {
        let dict = match pokepedia_by_name(catalog, name) {
            None => {
                let e = plain_error(ErrorKind::UnknownSpecies, "存在しないポケモン: ", name, "");
                proof {
                    reveal_strlit("");
                    assert(e.message@ =~= "存在しないポケモン: "@ + name@);
                }
                return Err(e);
            },
            Some(dict) => dict,
        };
        let ivs = match IVs::new(ivs_tuple.0, ivs_tuple.1, ivs_tuple.2) {
            Ok(ivs) => ivs,
            Err(e) => {
                return Err(e);
            },
        };
        let lv: u32 = match pokemon_lv {
            Some(pl) => {
                if pl < 2 || pl > 100 {
                    return Err(level_out_of_range(dict.name, pl));
                }
                pl
            },
            None => match calc_lv(dict, cp, ivs) {
                None => {
                    let near = search_near_iv(dict, cp, ivs);
                    return Err(level_not_found(dict.name, near));
                },
                Some(lv) => lv,
            },
        };
        let fast = match fast_move_by_name(fast_move) {
            None => {
                return Err(unknown_fast_move(dict.name, fast_move));
            },
            Some(mv) => mv,
        };
        let charge1 = match charge_move_by_name(charge_move1) {
            None => {
                return Err(
                    plain_error(
                        ErrorKind::UnknownChargeMove1,
                        dict.name,
                        ": 存在しないスペシャルアタック1: ",
                        charge_move1,
                    ),
                );
            },
            Some(mv) => mv,
        };
        let charge2 = match charge_move2 {
            None => None,
            Some(mv_str) => match charge_move_by_name(mv_str.as_str()) {
                None => {
                    return Err(
                        plain_error(
                            ErrorKind::UnknownChargeMove2,
                            dict.name,
                            ": 存在しないスペシャルアタック2: ",
                            mv_str.as_str(),
                        ),
                    );
                },
                Some(mv) => Some(mv),
            },
        };
        Ok(
            Pokemon {
                dict,
                lv,
                ivs,
                fast_move: fast,
                charge_move1: charge1,
                charge_move2: charge2,
            },
        )
    }

    /// The creature of the species with the number `no` in `catalog` and the
    /// moves with the given numbers. A number that the catalogs do not hold
    /// is told first of all: that of the species, of the fast move, of the
    /// first and of the second charge move. Else the creature is made by
    /// `Pokemon::new` from the names that go with the numbers.
    pub fn new_by_no(
        catalog: &'static [Pokepedia],
        no: &str,
        pokemon_lv: Option<u32>,
        ivs_tuple: (i32, i32, i32),
        fast_move_no: &str,
        charge_move1_no: &str,
        charge_move2_no: Option<String>,
        cp: i32,
    ) -> (r: Result<Pokemon, PokemonError>)
        ensures
            by_no_result(
                catalog@,
                no@,
                pokemon_lv,
                ivs_tuple,
                fast_move_no@,
                charge_move1_no@,
                opt_view(charge_move2_no),
                cp,
                r,
            ),
    {
        let dict = match pokepedia_by_no(catalog, no) {
            None => {
                let e = plain_error(ErrorKind::UnknownSpecies, "存在しないポケモン: no = ", no, "");
                proof {
                    reveal_strlit("");
                    assert(e.message@ =~= "存在しないポケモン: no = "@ + no@);
                }
                return Err(e);
            },
            Some(dict) => dict,
        };
        let fast = match fast_move_by_no(fast_move_no) {
            None => {
                return Err(
                    plain_error(
                        ErrorKind::UnknownFastMove,
                        dict.name,
                        ": 存在しないノーマルアタック: no = ",
                        fast_move_no,
                    ),
                );
            },
            Some(mv) => mv,
        };
        let charge1 = match charge_move_by_no(charge_move1_no) {
            None => {
                return Err(
                    plain_error(
                        ErrorKind::UnknownChargeMove1,
                        dict.name,
                        ": 存在しないスペシャルアタック1: no = ",
                        charge_move1_no,
                    ),
                );
            },
            Some(mv) => mv,
        };
        let charge2: Option<String> = match charge_move2_no {
            None => None,
            Some(mv_no) => match charge_move_by_no(mv_no.as_str()) {
                None => {
                    return Err(
                        plain_error(
                            ErrorKind::UnknownChargeMove2,
                            dict.name,
                            ": 存在しないスペシャルアタック2: no = ",
                            mv_no.as_str(),
                        ),
                    );
                },
                Some(mv) => Some(String::from_str(mv.name)),
            },
        };
        Pokemon::new(
            catalog,
            dict.name,
            pokemon_lv,
            ivs_tuple,
            fast.name,
            charge1.name,
            charge2,
            cp,
        )
    }

    /// Finds the level again from the CP `cp` and takes it, where there is
    /// one; says whether there was.
    pub fn set_cp(&mut self, cp: i32) -> (r: bool)
        requires
            old(self).ivs.wf(),
        ensures
            r == (calc_lv_spec(old(self).dict, cp, old(self).ivs) is Some),
            r ==> *final(self) == (Pokemon {
                lv: calc_lv_spec(old(self).dict, cp, old(self).ivs).unwrap(),
                ..*old(self)
            }),
            !r ==> *final(self) == *old(self),
    {
        match calc_lv(self.dict, cp, self.ivs) {
            None => false,
            Some(lv) => {
                self.lv = lv;
                true
            },
        }
    }
}

} // verus!
