//! Power per turn: how much power a creature brings to bear per tick while
//! it wears an opponent down, and the index that is built on it.

use vstd::prelude::*;
use crate::chance::{
    seeded_draw, seeded_rng, seeded_word, std_rng_drawn, std_rng_seed, triggers, triggers_spec,
};
use crate::cpm::is_level;
use crate::damage::{calc_damage, Hit};
use crate::moves::{ppe_spec, real_power2_spec, ChargeMove, FastMove};
use crate::pokemon::{at_least_min, lemma_product4, lemma_product6, Pokemon, Stats};
use crate::ratio::Ratio;
use crate::types::{Type, TYPES};
use crate::wide::{floor_root, floor_root_of};

verus! {

/// Power is summed in units of `1 / POWER_UNIT`, which every power with the
/// same-type bonus and a type multiplier is a whole number of.
pub const POWER_UNIT: u64 = 64000;

/// The scale of the power per turn in the ECP.
pub const PPT_SCALE: u64 = 16;

/// What the wearing down of an opponent starts from.
pub struct Duel {
    /// The types of the attacker.
    pub types: Seq<Type>,
    /// The types that the attacker's moves are measured against.
    pub opponent: Seq<Type>,
    /// The attacker's fast move.
    pub fast_move: FastMove,
    /// The charge move that is used while the opponent has a shield.
    pub shield_charge_move: ChargeMove,
    /// The charge move that is used afterwards.
    pub charge_move: ChargeMove,
    /// The attack of the attacker and the defense of the defender.
    pub attack: u64,
    pub defense: u64,
    /// The hit points to wear down.
    pub min_hp: int,
}

/// How far the wearing down has come.
pub struct Wear {
    pub total_damage: int,
    pub num_turns: int,
    /// The power of all moves so far, in units of `1 / POWER_UNIT`.
    pub sum_power: int,
    pub energy: int,
    /// Shields that the opponent has left.
    pub num_shields: int,
    /// Stage of the attack and of the opponent's defense.
    pub atk_buff: int,
    pub def_buff: int,
}

/// `v`, held to the range of the stat stages.
pub open spec fn clamp_stage(v: int) -> int {
    if v < -4 {
        -4
    } else if v > 4 {
        4
    } else {
        v
    }
}

/// A power in units of `1 / POWER_UNIT`.
pub open spec fn power_units(p: Ratio) -> int {
    p.num * (POWER_UNIT as int / p.den as int)
}

impl Duel {
    /// The charge move that comes next.
    pub open spec fn next_charge_move(self, w: Wear) -> ChargeMove {
        if w.num_shields > 0 {
            self.shield_charge_move
        } else {
            self.charge_move
        }
    }

    /// Whether the next move is a charge move: the energy for it is there.
    pub open spec fn charges(self, w: Wear) -> bool {
        w.energy >= self.next_charge_move(w).energy
    }

    /// Whether the next move takes a draw: it is a charge move that may
    /// change stat stages.
    pub open spec fn draws(self, w: Wear) -> bool {
        self.charges(w) && self.next_charge_move(w).buff is Some
    }

    /// The damage of a move of the power `power` at the stages of `w`.
    pub open spec fn damage(self, w: Wear, power: Ratio) -> int {
        (Hit {
            power,
            effect: Ratio { num: 1, den: 1 },
            cm_bonus: 100,
            attack: self.attack,
            atk_rank: w.atk_buff as i32,
            defense: self.defense,
            def_rank: w.def_buff as i32,
        }).damage()
    }

    /// The wear after the next move. With the energy for the charge move
    /// that comes next, that move is used: against a shield it counts a
    /// power and a damage of 1 and the shield is spent; its change of stat
    /// stages takes place where `draw` makes its chance come true, a change
    /// of the own defense counting as the opposite change of the opponent's
    /// defense, and one of the opponent's attack as the opposite change of
    /// the own attack; it takes one turn. Else the fast move is used.
    pub open spec fn step(self, w: Wear, draw: u32) -> Wear {
        if self.charges(w) {
            let mv = self.next_charge_move(w);
            let power = real_power2_spec(mv.power as int, mv.mtype, self.types, self.opponent);
            let shielded = w.num_shields > 0;
            let staged = mv.buff is Some && triggers_spec(draw, mv.buff_prob);
            Wear {
                total_damage: w.total_damage + if shielded {
                    1
                } else {
                    self.damage(w, power)
                },
                num_turns: w.num_turns + 1,
                sum_power: w.sum_power + if shielded {
                    POWER_UNIT as int
                } else {
                    power_units(power)
                },
                energy: w.energy - mv.energy,
                num_shields: if shielded {
                    w.num_shields - 1
                } else {
                    w.num_shields
                },
                atk_buff: if staged {
                    clamp_stage(clamp_stage(w.atk_buff + mv.buff.unwrap().0) - mv.buff.unwrap().2)
                } else {
                    w.atk_buff
                },
                def_buff: if staged {
                    clamp_stage(clamp_stage(w.def_buff - mv.buff.unwrap().1) + mv.buff.unwrap().3)
                } else {
                    w.def_buff
                },
            }
        } else {
            let mv = self.fast_move;
            let power = real_power2_spec(mv.power as int, mv.mtype, self.types, self.opponent);
            Wear {
                total_damage: w.total_damage + self.damage(w, power),
                num_turns: w.num_turns + mv.turns,
                sum_power: w.sum_power + power_units(power),
                energy: if w.energy + mv.energy > 100 {
                    100
                } else {
                    w.energy + mv.energy
                },
                ..w
            }
        }
    }

    /// The opponent is worn down.
    pub open spec fn done(self, w: Wear) -> bool {
        w.total_damage >= self.min_hp
    }

    /// The draw for the next move where `taken` draws were taken before:
    /// the next word of the seeded stream where the move takes a draw, and
    /// 0 without a draw where it takes none.
    pub open spec fn next_draw(self, w: Wear, taken: nat) -> u32 {
        if self.draws(w) {
            seeded_word(ppt_seed(), taken)
        } else {
            0
        }
    }

    /// The wear after `n` moves from `start`, and the number of draws that
    /// they have taken.
    pub open spec fn after(self, start: Wear, n: nat) -> (Wear, nat)
        decreases n,
    {
        if n == 0 {
            (start, 0nat)
        } else {
            let p = self.after(start, (n - 1) as nat);
            (
                self.step(p.0, self.next_draw(p.0, p.1)),
                if self.draws(p.0) {
                    p.1 + 1
                } else {
                    p.1
                },
            )
        }
    }

    /// The wearing down from `start` ends with move `n`: the opponent is
    /// worn down after it and not before.
    pub open spec fn ends_after(self, start: Wear, n: nat) -> bool {
        &&& self.done(self.after(start, n).0)
        &&& forall|k: nat| k < n ==> !self.done(#[trigger] self.after(start, k).0)
    }
}

/// The seed of the draws of the power per turn: 32 bytes of zero.
pub open spec fn ppt_seed() -> Seq<u8> {
    Seq::new(32, |i: int| 0u8)
}

/// The wear before the first move.
pub open spec fn fresh_wear(num_shields: int) -> Wear {
    Wear {
        total_damage: 0,
        num_turns: 0,
        sum_power: 0,
        energy: 0,
        num_shields,
        atk_buff: 0,
        def_buff: 0,
    }
}

/// The views of an optional list of types.
pub open spec fn opt_types(t: Option<Vec<Type>>) -> Option<Seq<Type>> {
    match t {
        Some(v) => Some(v@),
        None => None,
    }
}

impl Pokemon {
    /// The moves that the wearing down of `opponent` uses are bounded, so
    /// that its sums of power and of turns fit in 64 and 32 bits.
    pub open spec fn ppt_ready(self, opponent: Option<Pokemon>) -> bool {
        &&& self.fast_move.bounded()
        &&& self.defender(opponent).charge_move1.bounded()
        &&& self.defender(opponent).charge_move2 is Some ==> self.defender(
            opponent,
        ).charge_move2.unwrap().bounded()
    }

    /// The creature that is worn down: the opponent, or this creature
    /// itself where there is none.
    pub open spec fn defender(self, opponent: Option<Pokemon>) -> Pokemon {
        match opponent {
            Some(p) => p,
            None => self,
        }
    }

    /// What the wearing down of `opponent` starts from. The moves are
    /// measured against the opponent's types; without an opponent against
    /// `custom_types`, or against no type at all. The charge moves are
    /// those of the defender: while the opponent has a shield the one that
    /// costs less, the first on a tie of two; afterwards the one with more
    /// power per energy, the second on a tie.
    pub open spec fn duel(self, opponent: Option<Pokemon>, custom_types: Option<Seq<Type>>) -> Duel {
        let defender = self.defender(opponent);
        let types = self.dict.types_spec();
        let against = match opponent {
            Some(p) => p.dict.types_spec(),
            None => match custom_types {
                Some(v) => v,
                None => Seq::empty(),
            },
        };
        let mv1 = defender.charge_move1;
        Duel {
            types,
            opponent: against,
            fast_move: self.fast_move,
            shield_charge_move: match defender.charge_move2 {
                Some(mv2) => if mv1.energy < mv2.energy {
                    mv1
                } else {
                    mv2
                },
                None => mv1,
            },
            charge_move: match defender.charge_move2 {
                Some(mv2) => if ratio_gt(ppe_spec(mv1, types, against), ppe_spec(mv2, types, against)) {
                    mv1
                } else {
                    mv2
                },
                None => mv1,
            },
            attack: self.stats_spec().attack,
            defense: defender.stats_spec().defense,
            min_hp: defender.hp_spec(),
        }
    }

    /// `r` is the power per turn and the number of turns with which the
    /// wearing down of `opponent` ends: the power `r.0.num / POWER_UNIT` in
    /// `r.1` turns after the move with which it ends.
    pub open spec fn ppt_outcome(
        self,
        opponent: Option<Pokemon>,
        custom_types: Option<Seq<Type>>,
        num_shields: i32,
        r: (Ratio, i32),
    ) -> bool {
        exists|n: nat|
            {
                &&& #[trigger] self.duel(opponent, custom_types).ends_after(
                    fresh_wear(num_shields as int),
                    n,
                )
                &&& ppt_of(
                    self.duel(opponent, custom_types).after(fresh_wear(num_shields as int), n).0,
                    r,
                )
            }
    }
}

/// `r` is the power per turn and the number of turns of the wear `end`.
pub open spec fn ppt_of(end: Wear, r: (Ratio, i32)) -> bool {
    &&& r.0.num == end.sum_power
    &&& r.0.den == POWER_UNIT * end.num_turns
    &&& r.1 == end.num_turns
}

/// The power per turn is the same whenever it is reckoned: two outcomes for
/// the same creatures, types and shields are one.
pub proof fn lemma_ppt_reproducible(
    poke: Pokemon,
    opponent: Option<Pokemon>,
    custom_types: Option<Seq<Type>>,
    num_shields: i32,
    r1: (Ratio, i32),
    r2: (Ratio, i32),
)
    requires
        poke.ppt_outcome(opponent, custom_types, num_shields, r1),
        poke.ppt_outcome(opponent, custom_types, num_shields, r2),
    ensures
        r1 == r2,
{
    let duel = poke.duel(opponent, custom_types);
    let start = fresh_wear(num_shields as int);
    let n1 = choose|n: nat| #[trigger] duel.ends_after(start, n) && ppt_of(duel.after(start, n).0, r1);
    let n2 = choose|n: nat| #[trigger] duel.ends_after(start, n) && ppt_of(duel.after(start, n).0, r2);
    if n1 < n2 {
        assert(!duel.done(duel.after(start, n1).0));
    } else if n2 < n1 {
        assert(!duel.done(duel.after(start, n2).0));
    }
}

/// Whether the fraction `a` is greater than `b`. A fraction over zero is
/// greater than every number where its numerator is positive, and is
/// neither greater nor less where it is zero.
pub open spec fn ratio_gt(a: Ratio, b: Ratio) -> bool {
    if a.den == 0 && a.num == 0 {
        false
    } else if b.den == 0 && b.num == 0 {
        false
    } else if a.den == 0 {
        b.den != 0
    } else if b.den == 0 {
        false
    } else {
        a.num * b.den > b.num * a.den
    }
}

/// Whether the fraction `a` is greater than `b`, as `ratio_gt` says.
pub fn ratio_greater(a: Ratio, b: Ratio) -> (r: bool)
    ensures
        r == ratio_gt(a, b),
{
    if a.den == 0 && a.num == 0 {
        false
    } else if b.den == 0 && b.num == 0 {
        false
    } else if a.den == 0 {
        b.den != 0
    } else if b.den == 0 {
        false
    } else {
        proof {
            crate::ratio::lemma_product_fits(a.num, b.den);
            crate::ratio::lemma_product_fits(b.num, a.den);
        }
        (a.num as u128) * (b.den as u128) > (b.num as u128) * (a.den as u128)
    }
}

/// What the wearing down of an opponent starts from, as it is held while
/// it runs.
pub struct DuelSetup {
    pub types: Vec<Type>,
    pub opponent: Vec<Type>,
    pub fast_move: FastMove,
    pub shield_charge_move: ChargeMove,
    pub charge_move: ChargeMove,
    pub attack: u64,
    pub defense: u64,
    pub min_hp: i32,
}

impl View for DuelSetup {
    type V = Duel;

    open spec fn view(&self) -> Duel {
        Duel {
            types: self.types@,
            opponent: self.opponent@,
            fast_move: self.fast_move,
            shield_charge_move: self.shield_charge_move,
            charge_move: self.charge_move,
            attack: self.attack,
            defense: self.defense,
            min_hp: self.min_hp as int,
        }
    }
}

/// How far the wearing down has come, as it is held while it runs.
#[derive(Debug, Clone, Copy)]
pub struct WearState {
    pub total_damage: i64,
    pub num_turns: i64,
    pub sum_power: u64,
    pub energy: i32,
    pub num_shields: i32,
    pub atk_buff: i32,
    pub def_buff: i32,
}

impl View for WearState {
    type V = Wear;

    open spec fn view(&self) -> Wear {
        Wear {
            total_damage: self.total_damage as int,
            num_turns: self.num_turns as int,
            sum_power: self.sum_power as int,
            energy: self.energy as int,
            num_shields: self.num_shields as int,
            atk_buff: self.atk_buff as int,
            def_buff: self.def_buff as int,
        }
    }
}

impl DuelSetup {
    /// The moves are well formed, and bounded so that the sums of power and
    /// of turns fit.
    pub open spec fn wf(&self) -> bool {
        &&& self.fast_move.wf()
        &&& self.fast_move.bounded()
        &&& self.shield_charge_move.wf()
        &&& self.shield_charge_move.bounded()
        &&& self.charge_move.wf()
        &&& self.charge_move.bounded()
    }

    /// Whether the next move takes a draw.
    pub fn draws(&self, w: &WearState) -> (r: bool)
        ensures
            r == self@.draws(w@),
    {
        let mv = if w.num_shields > 0 {
            self.shield_charge_move
        } else {
            self.charge_move
        };
        w.energy >= mv.energy && mv.buff.is_some()
    }

    /// The wear after the next move, as `Duel::step` says.
    pub fn step(&self, w: WearState, draw: u32) -> (r: WearState)
        requires
            self.wf(),
            0 <= w.energy <= 100,
            -4 <= w.atk_buff <= 4,
            -4 <= w.def_buff <= 4,
            0 <= w.total_damage <= 0x7FFF_FFFF * 0x2_0000,
            0 <= w.num_turns <= 255 * 0x2_0000,
            w.sum_power <= 3_145_680_000_000 * 0x2_0000,
        ensures
            r@ == self@.step(w@, draw),
            0 <= r.energy <= 100,
            -4 <= r.atk_buff <= 4,
            -4 <= r.def_buff <= 4,
            w.total_damage + 1 <= r.total_damage <= w.total_damage + 0x7FFF_FFFF,
            w.num_turns <= r.num_turns <= w.num_turns + 255,
            w.sum_power <= r.sum_power <= w.sum_power + 3_145_680_000_000,
    {
        let mv = if w.num_shields > 0 {
            self.shield_charge_move
        } else {
            self.charge_move
        };
        if w.energy >= mv.energy {
            let power = mv.real_power2(self.types.as_slice(), self.opponent.as_slice());
            let shielded = w.num_shields > 0;
            let damage: i32;
            let units: u64;
            if shielded {
                damage = 1;
                units = POWER_UNIT;
            } else {
                damage = self.damage(&w, power);
                units = units_of(power);
            }
            let mut atk_buff = w.atk_buff;
            let mut def_buff = w.def_buff;
            match mv.buff {
                Some(b) => {
                    if triggers(draw, mv.buff_prob) {
                        atk_buff = hold_stage(hold_stage(atk_buff + b.0 as i32) - b.2 as i32);
                        def_buff = hold_stage(hold_stage(def_buff - b.1 as i32) + b.3 as i32);
                    }
                },
                None => {},
            }
            WearState {
                total_damage: w.total_damage + damage as i64,
                num_turns: w.num_turns + 1,
                sum_power: w.sum_power + units,
                energy: w.energy - mv.energy,
                num_shields: if shielded {
                    w.num_shields - 1
                } else {
                    w.num_shields
                },
                atk_buff,
                def_buff,
            }
        } else {
            let mv = self.fast_move;
            let power = mv.real_power2(self.types.as_slice(), self.opponent.as_slice());
            let damage = self.damage(&w, power);
            let units = units_of(power);
            WearState {
                total_damage: w.total_damage + damage as i64,
                num_turns: w.num_turns + mv.turns as i64,
                sum_power: w.sum_power + units,
                energy: if w.energy as i64 + mv.energy as i64 > 100 {
                    100
                } else {
                    w.energy + mv.energy
                },
                ..w
            }
        }
    }

    /// The damage of a move of the power `power` at the stages of `w`.
    pub fn damage(&self, w: &WearState, power: Ratio) -> (r: i32)
        requires
            -4 <= w.atk_buff <= 4,
            -4 <= w.def_buff <= 4,
        ensures
            r == self@.damage(w@, power),
            r >= 1,
    {
        calc_damage(
            &Hit {
                power,
                effect: Ratio { num: 1, den: 1 },
                cm_bonus: 100,
                attack: self.attack,
                atk_rank: w.atk_buff,
                defense: self.defense,
                def_rank: w.def_buff,
            },
        )
    }
}

/// `v`, held to the range of the stat stages.
pub fn hold_stage(v: i32) -> (r: i32)
    ensures
        r == clamp_stage(v as int),
        -4 <= r <= 4,
{
    if v < -4 {
        -4
    } else if v > 4 {
        4
    } else {
        v
    }
}

/// A power in units of `1 / POWER_UNIT`.
pub fn units_of(p: Ratio) -> (r: u64)
    requires
        0 < p.den,
        p.num <= 65535 * 6 * 125,
    ensures
        r == power_units(p),
        r <= 3_145_680_000_000,
{
    let per: u64 = POWER_UNIT / p.den;
    assert(p.num * per <= 65535 * 6 * 125 * 64000) by (nonlinear_arith)
        requires
            0 <= p.num <= 65535 * 6 * 125,
            0 <= per <= 64000,
    ;
    p.num * per
}

/// The hit points of a creature are at most those of the highest base
/// stamina and individual value.
pub proof fn lemma_hp_bound(p: Pokemon)
    requires
        is_level(p.lv),
        p.ivs.wf(),
    ensures
        0 <= p.hp_spec() <= 65550,
{
    let base = p.dict.base_stats_spec().stamina;
    let cpm = crate::cpm::cpm_spec(p.lv);
    crate::cpm::lemma_cpm_bound(p.lv - 2);
    let sum: int = base + p.ivs.stamina * 10_000_000_000;
    assert(base == p.dict.stamina_st * 10_000_000_000);
    assert(0 <= sum * cpm <= 65550 * 10_000_000_000 * 10_000_000_000) by (nonlinear_arith)
        requires
            0 <= sum <= 65550 * 10_000_000_000,
            0 <= cpm <= 10_000_000_000,
    ;
}

/// The product of five factors, multiplied from the left.
pub proof fn lemma_product5(s: Seq<u64>)
    requires
        s.len() == 5,
    ensures
        crate::wide::seq_product(s) == s[0] * s[1] * s[2] * s[3] * s[4],
{
    crate::wide::lemma_product_step(s, 0);
    crate::wide::lemma_product_step(s, 1);
    crate::wide::lemma_product_step(s, 2);
    crate::wide::lemma_product_step(s, 3);
    crate::wide::lemma_product_step(s, 4);
    assert(s.take(5) =~= s);
    assert(crate::wide::seq_product(s.take(0)) == 1);
}

/// The ECP of a creature with the stats `stats` and the power per turn
/// `ppt`: `sqrt(16 * ppt * attack * defense * floor(stamina)) / 10` rounded
/// down, at least 10; 10 where the power per turn is zero over zero.
pub open spec fn ecp_spec(stats: Stats, ppt: Ratio) -> int {
    if ppt.num == 0 && ppt.den == 0 {
        10
    } else {
        at_least_min(
            floor_root(
                16 * ppt.num * stats.attack * stats.defense * stats.hp_spec(),
                100 * ppt.den * 10_000_000_000 * 10_000_000_000,
                2,
            ),
        )
    }
}

/// The ECP of a creature with the stats `stats` and the power per turn `ppt`.
pub fn ecp_of(stats: &Stats, ppt: Ratio) -> (r: i32)
    ensures
        r == ecp_spec(*stats, ppt),
        r >= 10,
{
    if ppt.num == 0 && ppt.den == 0 {
        return 10;
    }
    let hp: u64 = stats.stamina / 10_000_000_000;
    let num: [u64; 5] = [16, ppt.num, stats.attack, stats.defense, hp];
    let den: [u64; 4] = [100, ppt.den, 10_000_000_000, 10_000_000_000];
    proof {
        lemma_product5(num@);
        lemma_product4(den@);
    }
    let k = floor_root_of(num.as_slice(), den.as_slice(), 2);
    if k < 10 {
        10
    } else {
        k as i32
    }
}

/// The sum of the first `n` numbers of `s`.
pub open spec fn sum_upto(s: Seq<int>, n: nat) -> int
    decreases n,
{
    if n == 0 {
        0
    } else {
        sum_upto(s, (n - 1) as nat) + s[n - 1]
    }
}

impl Pokemon {
    /// `r` is the ECP of the creature against `opponent`: the ECP of its
    /// stats and of the power per turn with which the wearing down ends.
    pub open spec fn ecp_outcome(
        self,
        opponent: Option<Pokemon>,
        custom_types: Option<Seq<Type>>,
        num_shields: i32,
        r: int,
    ) -> bool {
        exists|p: (Ratio, i32)|
            #[trigger] self.ppt_outcome(opponent, custom_types, num_shields, p) && r == ecp_spec(
                self.stats_spec(),
                p.0,
            )
    }

    /// `e` holds, for each type in turn, the ECP of the creature against
    /// itself with its moves measured against that type.
    pub open spec fn ecps_by_type(self, num_shields: i32, e: Seq<int>) -> bool {
        &&& e.len() == 18
        &&& forall|i: int|
            0 <= i < 18 ==> self.ecp_outcome(None, Some(seq![TYPES[i]]), num_shields, #[trigger] e[i])
    }

    /// Whether the moves that the wearing down of `opponent` uses are
    /// bounded, as `ppt_ready` says.
    pub fn is_ppt_ready(&self, opponent: Option<&Pokemon>) -> (r: bool)
        ensures
            r == self.ppt_ready(
                match opponent {
                    Some(p) => Some(*p),
                    None => None,
                },
            ),
    {
        let defender: &Pokemon = match opponent {
            Some(p) => p,
            None => self,
        };
        self.fast_move.is_bounded() && defender.charge_move1.is_bounded() && match defender.charge_move2 {
            Some(mv) => mv.is_bounded(),
            None => true,
        }
    }

    /// What the wearing down of `opponent` starts from, as `Pokemon::duel` says.
    pub fn duel_setup(&self, opponent: Option<&Pokemon>, custom_types: Option<Vec<Type>>) -> (r:
        DuelSetup)
        requires
            self.wf(),
            opponent is Some ==> opponent.unwrap().wf(),
            self.ppt_ready(
                match opponent {
                    Some(p) => Some(*p),
                    None => None,
                },
            ),
        ensures
            r@ == self.duel(
                match opponent {
                    Some(p) => Some(*p),
                    None => None,
                },
                opt_types(custom_types),
            ),
            r.wf(),
            0 <= r.min_hp <= 65550,
    {
        let defender: &Pokemon = match opponent {
            Some(p) => p,
            None => self,
        };
        let against: Vec<Type> = match opponent {
            Some(p) => p.types(),
            None => match custom_types {
                Some(v) => v,
                None => Vec::new(),
            },
        };
        let types = self.types();
        let mv1 = defender.charge_move1;
        let shield_charge_move;
        let charge_move;
        match defender.charge_move2 {
            Some(mv2) => {
                shield_charge_move = if mv1.energy < mv2.energy {
                    mv1
                } else {
                    mv2
                };
                let ppe1 = mv1.ppe(types.as_slice(), against.as_slice());
                let ppe2 = mv2.ppe(types.as_slice(), against.as_slice());
                charge_move = if ratio_greater(ppe1, ppe2) {
                    mv1
                } else {
                    mv2
                };
            },
            None => {
                shield_charge_move = mv1;
                charge_move = mv1;
            },
        }
        proof {
            lemma_hp_bound(*defender);
        }
        DuelSetup {
            types,
            opponent: against,
            fast_move: self.fast_move,
            shield_charge_move,
            charge_move,
            attack: self.stats().attack,
            defense: defender.stats().defense,
            min_hp: defender.hp(),
        }
    }

    /// The power per turn of the creature while it wears `opponent` down,
    /// and the number of turns that takes. Without an opponent the creature
    /// wears down one like itself, with its moves measured against
    /// `custom_types`. The opponent shields `num_shields` times. The draws
    /// for the changes of stat stages come from a generator with a fixed
    /// seed, so that the result is the same whenever it is reckoned. The
    /// power per turn is the sum of the power of all moves over the turns;
    /// its fraction is not reduced.
    pub fn calc_power_per_turn(
        &self,
        opponent: Option<&Pokemon>,
        custom_types: Option<Vec<Type>>,
        num_shields: i32,
    ) -> (r: (Ratio, i32))
        requires
            self.wf(),
            opponent is Some ==> opponent.unwrap().wf(),
            self.ppt_ready(
                match opponent {
                    Some(p) => Some(*p),
                    None => None,
                },
            ),
        ensures
            self.ppt_outcome(
                match opponent {
                    Some(p) => Some(*p),
                    None => None,
                },
                opt_types(custom_types),
                num_shields,
                r,
            ),
    {
        let ghost opp = match opponent {
            Some(p) => Some(*p),
            None => None,
        };
        let ghost custom = opt_types(custom_types);
        let setup = self.duel_setup(opponent, custom_types);
        let seed: [u8; 32] = [0u8; 32];
        proof {
            assert(seed@ =~= ppt_seed());
        }
        let mut rng = seeded_rng(seed);
        let mut w = WearState {
            total_damage: 0,
            num_turns: 0,
            sum_power: 0,
            energy: 0,
            num_shields,
            atk_buff: 0,
            def_buff: 0,
        };
        let ghost start = fresh_wear(num_shields as int);
        let ghost n: nat = 0;
        let ghost taken: nat = 0;
        while w.total_damage < setup.min_hp as i64
            invariant
                setup.wf(),
                0 <= setup.min_hp <= 65550,
                std_rng_seed(rng) == ppt_seed(),
                std_rng_drawn(rng) == taken,
                (w@, taken) == setup@.after(start, n),
                forall|k: nat| k < n ==> !setup@.done(#[trigger] setup@.after(start, k).0),
                0 <= w.energy <= 100,
                -4 <= w.atk_buff <= 4,
                -4 <= w.def_buff <= 4,
                n <= w.total_damage,
                n <= 65550,
                0 <= w.total_damage <= n * 0x7FFF_FFFF,
                0 <= w.num_turns <= n * 255,
                0 <= w.sum_power <= n * 3_145_680_000_000,
            decreases 65550 - n,
        {
            let takes = setup.draws(&w);
            let draw: u32 = if takes {
                seeded_draw(&mut rng)
            } else {
                0
            };
            w = setup.step(w, draw);
            proof {
                if takes {
                    taken = taken + 1;
                }
                n = n + 1;
            }
        }
        let r = (Ratio { num: w.sum_power, den: POWER_UNIT * (w.num_turns as u64) }, w.num_turns as i32);
        proof {
            assert(setup@.ends_after(start, n));
            assert(self.duel(opp, custom).ends_after(start, n));
            assert(ppt_of(self.duel(opp, custom).after(start, n).0, r));
        }
        r
    }

    /// ECP, the extended combat power: an index that beside the stats
    /// weighs the power of the moves, as `ecp_spec` says.
    pub fn ecp(&self, opponent: Option<&Pokemon>, custom_types: Option<Vec<Type>>, num_shields: i32) -> (r:
        i32)
        requires
            self.wf(),
            opponent is Some ==> opponent.unwrap().wf(),
            self.ppt_ready(
                match opponent {
                    Some(p) => Some(*p),
                    None => None,
                },
            ),
        ensures
            self.ecp_outcome(
                match opponent {
                    Some(p) => Some(*p),
                    None => None,
                },
                opt_types(custom_types),
                num_shields,
                r as int,
            ),
            r >= 10,
    {
        let p = self.calc_power_per_turn(opponent, custom_types, num_shields);
        let stats = self.stats();
        ecp_of(&stats, p.0)
    }

    /// The mean of the ECP over all types, rounded down: for each type the
    /// ECP of the creature against itself, its moves measured against that type.
    pub fn avg_ecp(&self, num_shields: i32) -> (r: i32)
        requires
            self.wf(),
            self.ppt_ready(None),
        ensures
            exists|e: Seq<int>| #[trigger] self.ecps_by_type(num_shields, e) && r == sum_upto(e, 18) / 18,
    {
        let mut sum: i64 = 0;
        let ghost e: Seq<int> = Seq::empty();
        let mut i: usize = 0;
        while i < 18
            invariant
                i <= 18,
                self.wf(),
                self.ppt_ready(None),
                e.len() == i,
                forall|j: int|
                    0 <= j < i ==> self.ecp_outcome(
                        None,
                        Some(seq![TYPES[j]]),
                        num_shields,
                        #[trigger] e[j],
                    ),
                forall|j: int| 0 <= j < i ==> 10 <= #[trigger] e[j] <= 0x7FFF_FFFF,
                sum == sum_upto(e, i as nat),
                0 <= sum <= i * 0x7FFF_FFFF,
            decreases 18 - i,
        {
            let mut types: Vec<Type> = Vec::new();
            types.push(TYPES[i]);
            proof {
                assert(types@ =~= seq![TYPES[i as int]]);
            }
            let v = self.ecp(None, Some(types), num_shields);
            proof {
                let before = e;
                e = before.push(v as int);
                lemma_sum_frame(before, e, i as nat);
            }
            sum = sum + v as i64;
            i += 1;
        }
        proof {
            assert(self.ecps_by_type(num_shields, e));
        }
        (sum / 18) as i32
    }
}

/// The ECP is the same whenever it is reckoned: two outcomes for the same
/// creatures, types and shields are one.
pub proof fn lemma_ecp_reproducible(
    poke: Pokemon,
    opponent: Option<Pokemon>,
    custom_types: Option<Seq<Type>>,
    num_shields: i32,
    r1: int,
    r2: int,
)
    requires
        poke.ecp_outcome(opponent, custom_types, num_shields, r1),
        poke.ecp_outcome(opponent, custom_types, num_shields, r2),
    ensures
        r1 == r2,
{
    let p1 = choose|p: (Ratio, i32)|
        #[trigger] poke.ppt_outcome(opponent, custom_types, num_shields, p) && r1 == ecp_spec(
            poke.stats_spec(),
            p.0,
        );
    let p2 = choose|p: (Ratio, i32)|
        #[trigger] poke.ppt_outcome(opponent, custom_types, num_shields, p) && r2 == ecp_spec(
            poke.stats_spec(),
            p.0,
        );
    lemma_ppt_reproducible(poke, opponent, custom_types, num_shields, p1, p2);
}

/// The sum of the first `n` numbers depends on those numbers alone.
pub proof fn lemma_sum_frame(a: Seq<int>, b: Seq<int>, n: nat)
    requires
        n <= a.len(),
        n <= b.len(),
        forall|i: int| 0 <= i < n ==> a[i] == b[i],
    ensures
        sum_upto(a, n) == sum_upto(b, n),
    decreases n,
{
    if n > 0 {
        lemma_sum_frame(a, b, (n - 1) as nat);
    }
}

} // verus!
