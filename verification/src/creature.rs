//! A creature in a battle: its hit points, energy and stat stages, and what
//! its moves do to it and to its opponent.

use vstd::prelude::*;
use crate::chance::{thread_draw, triggers, triggers_spec};
use crate::damage::{calc_damage, Hit};
use crate::moves::{real_power_spec, ChargeMove, FastMove};
use crate::pokemon::{IVs, Pokemon, Stats};
use crate::pokepedia::Pokepedia;
use crate::ratio::Ratio;
use crate::types::{type_effect, Type};

verus! {

/// A creature in a battle.
#[derive(Debug, Clone, Copy)]
pub struct BattlePokemon {
    pub poke: Pokemon,
    /// Hit points left.
    pub hp: i32,
    /// Energy held, from 0 to 100.
    pub energy: i32,
    /// Attack stage and defense stage, each from -4 to 4.
    pub buff: (i32, i32),
    /// Type effectiveness is left out of this creature's damage.
    pub is_disable_type_effect: bool,
}

/// `v`, held to the range of the stat stages.
pub open spec fn clamp_rank(v: int) -> int {
    if v < -4 {
        -4
    } else if v > 4 {
        4
    } else {
        v
    }
}

/// The stages `buff` after a change by `atk` and `def`.
pub open spec fn add_buff_spec(buff: (i32, i32), atk: int, def: int) -> (i32, i32) {
    (clamp_rank(buff.0 + atk) as i32, clamp_rank(buff.1 + def) as i32)
}

impl BattlePokemon {
    /// The creature is well formed, its hit points lie between zero and
    /// those of the unhurt creature, its energy between 0 and 100, and its
    /// stat stages between -4 and 4.
    pub open spec fn wf(self) -> bool {
        &&& self.poke.wf()
        &&& 0 <= self.hp <= self.poke.hp_spec()
        &&& 0 <= self.energy <= 100
        &&& -4 <= self.buff.0 <= 4
        &&& -4 <= self.buff.1 <= 4
    }

    /// The multiplier of a move of type `mtype` of this creature against
    /// `opponent`.
    pub open spec fn effect_on(self, mtype: Type, opponent: BattlePokemon) -> Ratio {
        if self.is_disable_type_effect {
            Ratio { num: 1, den: 1 }
        } else {
            type_effect(mtype, opponent.poke.dict.types_spec())
        }
    }

    /// The hit of this creature's fast move on `opponent`.
    pub open spec fn fast_hit(self, opponent: BattlePokemon) -> Hit {
        let mv = self.poke.fast_move;
        Hit {
            power: real_power_spec(mv.power as int, mv.mtype, self.poke.dict.types_spec()),
            effect: self.effect_on(mv.mtype, opponent),
            cm_bonus: 100,
            attack: self.poke.stats_spec().attack,
            atk_rank: self.buff.0,
            defense: opponent.poke.stats_spec().defense,
            def_rank: opponent.buff.1,
        }
    }

    /// The hit of the charge move `mv` of this creature on `opponent`.
    pub open spec fn charge_hit(self, mv: ChargeMove, opponent: BattlePokemon, cm_bonus: u32) -> Hit {
        Hit {
            power: real_power_spec(mv.power as int, mv.mtype, self.poke.dict.types_spec()),
            effect: self.effect_on(mv.mtype, opponent),
            cm_bonus,
            attack: self.poke.stats_spec().attack,
            atk_rank: self.buff.0,
            defense: opponent.poke.stats_spec().defense,
            def_rank: opponent.buff.1,
        }
    }

    /// This creature after a hit of `damage`.
    pub open spec fn hurt(self, damage: int) -> BattlePokemon {
        BattlePokemon {
            hp: if self.hp - damage < 0 {
                0
            } else {
                (self.hp - damage) as i32
            },
            ..self
        }
    }

    /// This creature after its own fast move.
    pub open spec fn after_fast_move(self) -> BattlePokemon {
        BattlePokemon {
            energy: if self.energy + self.poke.fast_move.energy > 100 {
                100
            } else {
                (self.energy + self.poke.fast_move.energy) as i32
            },
            ..self
        }
    }

    /// This creature with its stages changed by `atk` and `def`.
    pub open spec fn with_buff(self, atk: int, def: int) -> BattlePokemon {
        BattlePokemon { buff: add_buff_spec(self.buff, atk, def), ..self }
    }

    /// Whether the creature can use the charge move of slot `i` now: the
    /// slot holds a move and the energy suffices.
    pub open spec fn can_charge_move_spec(self, i: int) -> bool {
        match self.poke.charge_move_spec(i) {
            Some(mv) => self.energy >= mv.energy,
            None => false,
        }
    }

    /// The damage of the charge move of slot `i` on `opponent`; 1 against a
    /// shield, 0 where the move does not take place.
    pub open spec fn charge_damage(self, i: int, opponent: BattlePokemon, cm_bonus: u32, shield: bool) -> int {
        if !self.can_charge_move_spec(i) {
            0
        } else if shield {
            1
        } else {
            self.charge_hit(self.poke.charge_move_spec(i).unwrap(), opponent, cm_bonus).damage()
        }
    }

    /// Whether the charge move of slot `i` changes stat stages on the draw
    /// `draw`.
    pub open spec fn charge_buffs(self, i: int, draw: u32) -> bool {
        &&& self.can_charge_move_spec(i)
        &&& self.poke.charge_move_spec(i).unwrap().buff is Some
        &&& triggers_spec(draw, self.poke.charge_move_spec(i).unwrap().buff_prob)
    }

    /// This creature after its charge move of slot `i`.
    pub open spec fn after_charge_move(self, i: int, draw: u32) -> BattlePokemon {
        if !self.can_charge_move_spec(i) {
            self
        } else {
            let mv = self.poke.charge_move_spec(i).unwrap();
            let staged = if self.charge_buffs(i, draw) {
                self.with_buff(mv.buff.unwrap().0 as int, mv.buff.unwrap().1 as int)
            } else {
                self
            };
            BattlePokemon { energy: (self.energy - mv.energy) as i32, ..staged }
        }
    }

    /// `opponent` after the charge move of slot `i` of this creature.
    pub open spec fn after_charge_move_on(
        self,
        i: int,
        opponent: BattlePokemon,
        cm_bonus: u32,
        shield: bool,
        draw: u32,
    ) -> BattlePokemon {
        if !self.can_charge_move_spec(i) {
            opponent
        } else {
            let mv = self.poke.charge_move_spec(i).unwrap();
            let staged = if self.charge_buffs(i, draw) {
                opponent.with_buff(mv.buff.unwrap().2 as int, mv.buff.unwrap().3 as int)
            } else {
                opponent
            };
            staged.hurt(self.charge_damage(i, opponent, cm_bonus, shield))
        }
    }

    /// The unhurt creature at the start of a battle.
    pub fn new(poke: Pokemon) -> (r: BattlePokemon)
        requires
            poke.wf(),
        ensures
            r == fresh_creature(poke),
            r.wf(),
    {
        let hp = poke.hp();
        BattlePokemon { poke, hp, energy: 0, buff: (0, 0), is_disable_type_effect: false }
    }

    pub fn dict(&self) -> (r: &'static Pokepedia)
        ensures
            r == self.poke.dict,
    {
        self.poke.dict
    }

    pub fn name(&self) -> (r: &'static str)
        ensures
            r == self.poke.dict.name,
    {
        self.poke.dict.name
    }

    pub fn types(&self) -> (r: Vec<Type>)
        ensures
            r@ == self.poke.dict.types_spec(),
    {
        self.poke.types()
    }

    pub fn base_stats(&self) -> (r: Stats)
        ensures
            r == self.poke.dict.base_stats_spec(),
    {
        self.poke.base_stats()
    }

    /// The level, in half-level steps.
    pub fn lv(&self) -> (r: u32)
        ensures
            r == self.poke.lv,
    {
        self.poke.lv
    }

    pub fn ivs(&self) -> (r: IVs)
        ensures
            r == self.poke.ivs,
    {
        self.poke.ivs
    }

    pub fn fast_move(&self) -> (r: FastMove)
        ensures
            r == self.poke.fast_move,
    {
        self.poke.fast_move
    }

    pub fn charge_move1(&self) -> (r: ChargeMove)
        ensures
            r == self.poke.charge_move1,
    {
        self.poke.charge_move1
    }

    pub fn charge_move2(&self) -> (r: Option<ChargeMove>)
        ensures
            r == self.poke.charge_move2,
    {
        self.poke.charge_move2
    }

    /// The charge move of slot `i`: the first for 0, the second for 1.
    pub fn charge_move(&self, i: usize) -> (r: Option<ChargeMove>)
        ensures
            r == self.poke.charge_move_spec(i as int),
    {
        if i == 0 {
            Some(self.poke.charge_move1)
        } else if i == 1 {
            self.poke.charge_move2
        } else {
            None
        }
    }

    pub fn cp(&self) -> (r: i32)
        requires
            self.poke.wf(),
        ensures
            r == self.poke.stats_spec().cp_spec(),
    {
        self.poke.cp()
    }

    pub fn scp(&self) -> (r: i32)
        requires
            self.poke.wf(),
        ensures
            r == self.poke.stats_spec().scp_spec(),
    {
        self.poke.scp()
    }

    pub fn dcp(&self) -> (r: i32)
        requires
            self.poke.wf(),
        ensures
            r == self.poke.stats_spec().dcp_spec(),
    {
        self.poke.dcp()
    }

    pub fn cpm(&self) -> (r: u64)
        requires
            self.poke.wf(),
        ensures
            r == crate::cpm::cpm_spec(self.poke.lv),
    {
        self.poke.cpm()
    }

    pub fn stats(&self) -> (r: Stats)
        requires
            self.poke.wf(),
        ensures
            r == self.poke.stats_spec(),
    {
        self.poke.stats()
    }

    /// The hit points of the unhurt creature.
    pub fn base_hp(&self) -> (r: i32)
        requires
            self.poke.wf(),
        ensures
            r == self.poke.hp_spec(),
    {
        self.poke.hp()
    }

    pub fn hp(&self) -> (r: i32)
        ensures
            r == self.hp,
    {
        self.hp
    }

    /// Whether the creature has fainted.
    pub fn is_faint(&self) -> (r: bool)
        ensures
            r == (self.hp <= 0),
    {
        self.hp <= 0
    }

    /// Leaves type effectiveness out of this creature's damage from now on.
    pub fn disable_type_effect(&mut self)
        ensures
            *final(self) == (BattlePokemon { is_disable_type_effect: true, ..*old(self) }),
    {
        self.is_disable_type_effect = true;
    }

    /// Changes the stat stages by `buff_atk` and `buff_def`, holding each to
    /// -4..=4, and returns by how much each has changed.
    pub fn add_buff(&mut self, buff_atk: i32, buff_def: i32) -> (r: (i32, i32))
        requires
            -4 <= old(self).buff.0 <= 4,
            -4 <= old(self).buff.1 <= 4,
        ensures
            *final(self) == old(self).with_buff(buff_atk as int, buff_def as int),
            -4 <= final(self).buff.0 <= 4,
            -4 <= final(self).buff.1 <= 4,
            r.0 == final(self).buff.0 - old(self).buff.0,
            r.1 == final(self).buff.1 - old(self).buff.1,
    {
        let prev = self.buff;
        let atk: i64 = prev.0 as i64 + buff_atk as i64;
        let def: i64 = prev.1 as i64 + buff_def as i64;
        let atk: i32 = if atk < -4 {
            -4
        } else if atk > 4 {
            4
        } else {
            atk as i32
        };
        let def: i32 = if def < -4 {
            -4
        } else if def > 4 {
            4
        } else {
            def as i32
        };
        self.buff = (atk, def);
        (atk - prev.0, def - prev.1)
    }

    /// Whether the creature has the energy for the charge move of slot `i`.
    pub fn can_charge_move(&self, i: usize) -> (r: bool)
        ensures
            r == self.can_charge_move_spec(i as int),
    {
        if i == 0 {
            self.can_charge_move1()
        } else if i == 1 {
            self.can_charge_move2()
        } else {
            false
        }
    }

    pub fn can_charge_move1(&self) -> (r: bool)
        ensures
            r == self.can_charge_move_spec(0),
    {
        self.energy >= self.poke.charge_move1.energy
    }

    pub fn can_charge_move2(&self) -> (r: bool)
        ensures
            r == self.can_charge_move_spec(1),
    {
        match self.poke.charge_move2 {
            Some(mv) => self.energy >= mv.energy,
            None => false,
        }
    }

    /// The multiplier of a move of type `mtype` of this creature against
    /// `opponent`.
    pub fn effect(&self, mtype: Type, opponent: &BattlePokemon) -> (r: Ratio)
        ensures
            r == self.effect_on(mtype, *opponent),
    {
        if self.is_disable_type_effect {
            Ratio { num: 1, den: 1 }
        } else {
            let types = opponent.poke.types();
            mtype.type_effect_bonus(types.as_slice())
        }
    }

    /// Carries out the fast move on `opponent`: the opponent loses the
    /// damage, this creature gains the move's energy. Returns the damage.
    pub fn do_fast_move(&mut self, opponent: &mut BattlePokemon) -> (damage: i32)
        requires
            old(self).wf(),
            old(opponent).wf(),
        ensures
            damage == old(self).fast_hit(*old(opponent)).damage(),
            damage >= 1,
            *final(self) == old(self).after_fast_move(),
            *final(opponent) == old(opponent).hurt(damage as int),
            final(self).wf(),
            final(opponent).wf(),
    {
        let mv = self.poke.fast_move;
        let types = self.poke.types();
        let power = mv.real_power(types.as_slice());
        let hit = Hit {
            power,
            effect: self.effect(mv.mtype, opponent),
            cm_bonus: 100,
            attack: self.poke.stats().attack,
            atk_rank: self.buff.0,
            defense: opponent.poke.stats().defense,
            def_rank: opponent.buff.1,
        };
        let damage = calc_damage(&hit);
        opponent.hp = if opponent.hp <= damage {
            0
        } else {
            opponent.hp - damage
        };
        let energy: i64 = self.energy as i64 + mv.energy as i64;
        self.energy = if energy > 100 {
            100
        } else {
            energy as i32
        };
        damage
    }

    /// Carries out the charge move of slot `i` on `opponent` with a draw
    /// from the thread's random generator. Returns the damage.
    pub fn do_charge_move(&mut self, i: usize, opponent: &mut BattlePokemon, cm_bonus: u32, shield: bool) -> (damage: i32)
        requires
            old(self).wf(),
            old(opponent).wf(),
        ensures
            exists|draw: u32|
                {
                    &&& *final(self) == old(self).after_charge_move(i as int, draw)
                    &&& *final(opponent) == #[trigger] old(self).after_charge_move_on(
                        i as int,
                        *old(opponent),
                        cm_bonus,
                        shield,
                        draw,
                    )
                },
            damage == old(self).charge_damage(i as int, *old(opponent), cm_bonus, shield),
            final(self).wf(),
            final(opponent).wf(),
    {
        let draw = thread_draw();
        self.do_charge_move_drawn(i, opponent, cm_bonus, shield, draw)
    }

    /// Carries out the charge move of slot `i` on `opponent`. Nothing
    /// happens where the slot is empty or the energy does not suffice. Else
    /// the opponent loses the damage, which is 1 against a shield; the
    /// move's change of stat stages takes place where `draw` makes its
    /// chance come true; and this creature spends the move's energy. The
    /// damage is that of the stages before the change. Returns the damage.
    pub fn do_charge_move_drawn(
        &mut self,
        i: usize,
        opponent: &mut BattlePokemon,
        cm_bonus: u32,
        shield: bool,
        draw: u32,
    ) -> (damage: i32)
        requires
            old(self).wf(),
            old(opponent).wf(),
        ensures
            damage == old(self).charge_damage(i as int, *old(opponent), cm_bonus, shield),
            *final(self) == old(self).after_charge_move(i as int, draw),
            *final(opponent) == old(self).after_charge_move_on(
                i as int,
                *old(opponent),
                cm_bonus,
                shield,
                draw,
            ),
            final(self).wf(),
            final(opponent).wf(),
    {
        let mv = match self.charge_move(i) {
            Some(mv) => mv,
            None => {
                return 0;
            },
        };
        if self.energy < mv.energy {
            return 0;
        }
        let damage: i32;
        if shield {
            damage = 1;
        } else {
            let types = self.poke.types();
            let hit = Hit {
                power: mv.real_power(types.as_slice()),
                effect: self.effect(mv.mtype, opponent),
                cm_bonus,
                attack: self.poke.stats().attack,
                atk_rank: self.buff.0,
                defense: opponent.poke.stats().defense,
                def_rank: opponent.buff.1,
            };
            damage = calc_damage(&hit);
        }
        match mv.buff {
            Some(b) => {
                if triggers(draw, mv.buff_prob) {
                    self.add_buff(b.0 as i32, b.1 as i32);
                    opponent.add_buff(b.2 as i32, b.3 as i32);
                }
            },
            None => {},
        }
        opponent.hp = if opponent.hp <= damage {
            0
        } else {
            opponent.hp - damage
        };
        self.energy = self.energy - mv.energy;
        damage
    }
}

/// The unhurt creature at the start of a battle.
pub open spec fn fresh_creature(poke: Pokemon) -> BattlePokemon {
    BattlePokemon {
        poke,
        hp: poke.hp_spec() as i32,
        energy: 0,
        buff: (0, 0),
        is_disable_type_effect: false,
    }
}

/// The stages after each of the changes `steps` in turn.
pub open spec fn add_buffs_spec(buff: (i32, i32), steps: Seq<(i32, i32)>) -> (i32, i32)
    decreases steps.len(),
{
    if steps.len() == 0 {
        buff
    } else {
        add_buff_spec(
            add_buffs_spec(buff, steps.drop_last()),
            steps.last().0 as int,
            steps.last().1 as int,
        )
    }
}

/// Whatever changes are made to stat stages, one after the other, and
/// however far each would lead, both stages stay within -4 to 4.
pub proof fn lemma_buffs_stay_in_range(buff: (i32, i32), steps: Seq<(i32, i32)>)
    requires
        -4 <= buff.0 <= 4,
        -4 <= buff.1 <= 4,
    ensures
        -4 <= add_buffs_spec(buff, steps).0 <= 4,
        -4 <= add_buffs_spec(buff, steps).1 <= 4,
    decreases steps.len(),
{
    if steps.len() > 0 {
        lemma_buffs_stay_in_range(buff, steps.drop_last());
    }
}

} // verus!
