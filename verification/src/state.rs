//! A battle at one tick, what one tick makes of it, and the parts of a tick
//! one by one.

use vstd::prelude::*;
use crate::battle::{
    is_terminal, other, Action, Phase, Strategy, LIMIT_TURN, MAX_TICK_MS, MS_PER_TURN, SWITCH_MS,
};
use crate::chance::coin_flip;
use crate::player::{Player, PlayerView};

verus! {

/// A battle at one tick.
#[derive(Debug, Clone)]
pub struct State {
    pub player0: Player,
    pub player1: Player,
    pub phase: Phase,
    /// The number of the tick, from 1.
    pub turn: i32,
    /// Milliseconds since the start.
    pub elapsed_ms: i32,
    /// A line for each action that was turned down.
    pub logs: Vec<String>,
}

/// What a `State` holds, as plain values.
pub struct StateView {
    pub player0: PlayerView,
    pub player1: PlayerView,
    pub phase: Phase,
    pub turn: i32,
    pub elapsed_ms: i32,
    pub logs: Seq<Seq<char>>,
}

impl View for State {
    type V = StateView;

    open spec fn view(&self) -> StateView {
        StateView {
            player0: self.player0@,
            player1: self.player1@,
            phase: self.phase,
            turn: self.turn,
            elapsed_ms: self.elapsed_ms,
            logs: self.logs@.map_values(|l: String| l@),
        }
    }
}

/// What chance and the players decide in the charge moves of one tick.
#[derive(Debug, Clone, Copy)]
pub struct ChargeChoices {
    /// Of two charge moves of creatures of the same attack, that of player 0
    /// goes first.
    pub first: bool,
    /// Player 0 wants to shield; player 1 wants to shield.
    pub shield: (bool, bool),
    /// The draw for the charge move of player 0; of player 1.
    pub draw: (u32, u32),
    /// The slots that the players choose after a charge move.
    pub switch: (usize, usize),
}

/// What chance and the players decide in one tick. A part is read only
/// where the tick comes to it.
#[derive(Debug, Clone, Copy)]
pub struct Choices {
    /// Of two fast moves that take one tick, that of player 0 goes first.
    pub fast_first: bool,
    /// The slots that the players choose after the one-tick fast moves.
    pub switch_early: (usize, usize),
    /// What is decided in the charge moves.
    pub charge: ChargeChoices,
    /// The slots that the players choose at the end of the tick.
    pub switch_late: (usize, usize),
}

/// The order of the charge moves of slot `u0` of player 0 and of slot `u1`
/// of player 1, a slot of 2 standing for none, where the attack of the
/// creatures is `a0` and `a1`: the higher attack goes first, and `coin`
/// decides between equals, for player 0 where it is true.
pub open spec fn order_of(u0: usize, u1: usize, a0: int, a1: int, coin: bool) -> Seq<(usize, usize)> {
    if u0 < 2 && u1 < 2 {
        if a0 > a1 || (a0 == a1 && coin) {
            seq![(0usize, u0), (1usize, u1)]
        } else {
            seq![(1usize, u1), (0usize, u0)]
        }
    } else if u0 < 2 && u1 == 2 {
        seq![(0usize, u0)]
    } else if u0 == 2 && u1 < 2 {
        seq![(1usize, u1)]
    } else {
        Seq::empty()
    }
}

/// The order of two charge moves, as `order_of` says.
pub fn charge_order_of(u0: usize, u1: usize, a0: u128, a1: u128, coin: bool) -> (r: Vec<
    (usize, usize),
>)
    requires
        u0 <= 2,
        u1 <= 2,
    ensures
        r@ == order_of(u0, u1, a0 as int, a1 as int, coin),
        r@.len() <= 2,
        forall|k: int| 0 <= k < r@.len() ==> (#[trigger] r@[k]).0 < 2 && r@[k].1 < 2,
        r@.len() == 2 ==> r@[0].0 != r@[1].0,
{
    let mut v: Vec<(usize, usize)> = Vec::new();
    if u0 < 2 && u1 < 2 {
        if a0 > a1 || (a0 == a1 && coin) {
            v.push((0, u0));
            v.push((1, u1));
            proof {
                assert(v@ =~= seq![(0usize, u0), (1usize, u1)]);
            }
        } else {
            v.push((1, u1));
            v.push((0, u0));
            proof {
                assert(v@ =~= seq![(1usize, u1), (0usize, u0)]);
            }
        }
    } else if u0 < 2 {
        v.push((0, u0));
        proof {
            assert(v@ =~= seq![(0usize, u0)]);
        }
    } else if u1 < 2 {
        v.push((1, u1));
        proof {
            assert(v@ =~= seq![(1usize, u1)]);
        }
    } else {
        proof {
            assert(v@ =~= Seq::<(usize, usize)>::empty());
        }
    }
    v
}

impl StateView {
    pub open spec fn player(self, i: int) -> PlayerView {
        if i == 0 {
            self.player0
        } else {
            self.player1
        }
    }

    pub open spec fn with_player(self, i: int, p: PlayerView) -> StateView {
        if i == 0 {
            StateView { player0: p, ..self }
        } else {
            StateView { player1: p, ..self }
        }
    }

    /// Both players are well formed, the tick and the time are in their
    /// ranges, and a battle past its tick limit has ended.
    #[verifier::opaque]
    pub open spec fn wf(self) -> bool {
        &&& self.player0.wf()
        &&& self.player1.wf()
        &&& 1 <= self.turn <= LIMIT_TURN + 1
        &&& self.phase is Neutral ==> self.turn <= LIMIT_TURN
        &&& 0 <= self.elapsed_ms <= (self.turn - 1) * MAX_TICK_MS
    }

    /// This state comes after `before`: each player follows its former self.
    pub open spec fn follows(self, before: StateView) -> bool {
        &&& self.player0.follows(before.player0)
        &&& self.player1.follows(before.player1)
    }

    /// The state after the fast move of player `i` has hit: the opponent's
    /// creature is hurt, the player's creature gains energy, and the fast
    /// move is no longer under way.
    #[verifier::opaque]
    pub open spec fn fast_attack(self, i: int) -> StateView {
        let att = self.player(i);
        let def = self.player(other(i));
        let damage = att.active().fast_hit(def.active()).damage();
        self.with_player(
            i,
            PlayerView { in_fast_move: false, ..att.with_active(att.active().after_fast_move()) },
        ).with_player(other(i), def.with_active(def.active().hurt(damage)))
    }

    /// The state after the fast moves that take one tick. `use0` and `use1`
    /// say which player has started one in this tick. The player named by
    /// `first0` goes first; the other one's move is dropped without effect
    /// where its creature has fainted by then.
    #[verifier::opaque]
    pub open spec fn one_turn_moves(self, use0: bool, use1: bool, first0: bool) -> StateView {
        let a: int = if first0 {
            0
        } else {
            1
        };
        let b = other(a);
        let use_a = if first0 {
            use0
        } else {
            use1
        };
        let use_b = if first0 {
            use1
        } else {
            use0
        };
        let s1 = if use_a && self.player(a).fast_ready() {
            self.fast_attack(a)
        } else {
            self
        };
        if use_b && s1.player(b).fast_ready() && s1.player(b).active().hp > 0 {
            s1.fast_attack(b)
        } else {
            s1
        }
    }

    /// The state after the fast moves that are due: first that of player 0,
    /// then that of player 1.
    #[verifier::opaque]
    pub open spec fn fast_moves(self) -> StateView {
        let s1 = if self.player0.fast_ready() {
            self.fast_attack(0)
        } else {
            self
        };
        if s1.player1.fast_ready() {
            s1.fast_attack(1)
        } else {
            s1
        }
    }

    /// The state after each player whose creature has fainted has replaced
    /// it, with `c0` and `c1` as the slots that the players choose.
    #[verifier::opaque]
    pub open spec fn switch_if_faint(self, c0: usize, c1: usize) -> StateView {
        StateView {
            player0: self.player0.replaced(c0),
            player1: self.player1.replaced(c1),
            ..self
        }
    }

    /// The time that `switch_if_faint` costs: that of choosing, where a
    /// player has replaced its creature by choice.
    #[verifier::opaque]
    pub open spec fn switch_cost(self, c0: usize, c1: usize) -> int {
        if self.player0.replaces_by_choice(c0) || self.player1.replaces_by_choice(c1) {
            SWITCH_MS as int
        } else {
            0
        }
    }

    /// Whether two charge moves take place and the creatures' attacks, each
    /// at its stage, are equal, so that a coin has to decide which goes first.
    pub open spec fn charge_tie(self, use0: usize, use1: usize) -> bool {
        &&& use0 < 2
        &&& use1 < 2
        &&& self.player0.active().hp > 0
        &&& self.player1.active().hp > 0
        &&& self.player0.charge_priority(self.player1) == self.player1.charge_priority(
            self.player0,
        )
    }

    /// The charge moves that take place, in their order, each as the player
    /// and the slot. `use0` and `use1` are the slots asked for, or 2 for
    /// none. A player whose creature has fainted has none. Of two, the move
    /// of the creature with the higher attack at its stage goes first, the
    /// attacks being compared exactly; `coin` decides between equal ones
    /// only, for player 0 where it is true.
    #[verifier::opaque]
    pub open spec fn charge_order(self, use0: usize, use1: usize, coin: bool) -> Seq<
        (usize, usize),
    > {
        order_of(
            if self.player0.active().hp <= 0 {
                2
            } else {
                use0
            },
            if self.player1.active().hp <= 0 {
                2
            } else {
                use1
            },
            self.player0.charge_priority(self.player1),
            self.player1.charge_priority(self.player0),
            coin,
        )
    }

    /// Whether the charge move of player `i` meets a shield: the opponent
    /// has one left and wants to use it.
    pub open spec fn shielded(self, i: int, wanted: bool) -> bool {
        self.player(other(i)).num_shields > 0 && wanted
    }

    /// The state after the charge move of slot `slot` of player `i`. The
    /// creatures change as `BattlePokemon::after_charge_move` and
    /// `after_charge_move_on` say, at full charge; the opponent's lockout
    /// ends, and the shield, if there was one, is spent.
    #[verifier::opaque]
    pub open spec fn charge_attack(self, i: int, slot: usize, shield: bool, draw: u32) -> StateView {
        let att = self.player(i);
        let def = self.player(other(i));
        let a = att.active();
        let d = def.active();
        self.with_player(i, att.with_active(a.after_charge_move(slot as int, draw))).with_player(
            other(i),
            PlayerView {
                dur_turns: 0,
                num_shields: if shield {
                    if def.num_shields - 1 < 0 {
                        0
                    } else {
                        (def.num_shields - 1) as i32
                    }
                } else {
                    def.num_shields
                },
                ..def.with_active(a.after_charge_move_on(slot as int, d, 100, shield, draw))
            },
        )
    }

    /// Whether the shield answer of player `i`'s opponent is that of
    /// player 0 or of player 1 in `c`.
    pub open spec fn shield_against(self, i: int, c: ChargeChoices) -> bool {
        self.shielded(
            i,
            if i == 0 {
                c.shield.1
            } else {
                c.shield.0
            },
        )
    }

    /// The state after one charge move of the order, and whether the round
    /// of charge moves ends with it because the opponent's creature has
    /// fainted.
    pub open spec fn charge_turn(self, m: (usize, usize), c: ChargeChoices) -> StateView {
        let i = m.0 as int;
        self.charge_attack(
            i,
            m.1,
            self.shield_against(i, c),
            if i == 0 {
                c.draw.0
            } else {
                c.draw.1
            },
        )
    }

    /// The state after the charge moves of this tick. After a move that
    /// leaves the opponent's creature fainted, the fainted creatures are
    /// replaced and no further charge move takes place.
    #[verifier::opaque]
    pub open spec fn charge_moves(self, use0: usize, use1: usize, c: ChargeChoices) -> StateView {
        let order = self.charge_order(use0, use1, c.first);
        if order.len() == 0 {
            self
        } else {
            let s1 = self.charge_turn(order[0], c);
            if s1.player(other(order[0].0 as int)).active().hp <= 0 {
                s1.switch_if_faint(c.switch.0, c.switch.1)
            } else if order.len() == 1 {
                s1
            } else {
                let s2 = s1.charge_turn(order[1], c);
                if s2.player(other(order[1].0 as int)).active().hp <= 0 {
                    s2.switch_if_faint(c.switch.0, c.switch.1)
                } else {
                    s2
                }
            }
        }
    }

    /// The time that the charge moves of this tick cost.
    #[verifier::opaque]
    pub open spec fn charge_cost(self, use0: usize, use1: usize, c: ChargeChoices) -> int {
        let order = self.charge_order(use0, use1, c.first);
        if order.len() == 0 {
            0
        } else {
            let s1 = self.charge_turn(order[0], c);
            if s1.player(other(order[0].0 as int)).active().hp <= 0 {
                s1.switch_cost(c.switch.0, c.switch.1)
            } else if order.len() == 1 {
                0
            } else {
                let s2 = s1.charge_turn(order[1], c);
                if s2.player(other(order[1].0 as int)).active().hp <= 0 {
                    s2.switch_cost(c.switch.0, c.switch.1)
                } else {
                    0
                }
            }
        }
    }

    /// The phase after the check for the end of the battle: where one
    /// player's creatures have all fainted the other has won, where both
    /// players' have it is a draw.
    #[verifier::opaque]
    pub open spec fn game_over_phase(self) -> Phase {
        if self.player0.is_ended() && self.player1.is_ended() {
            Phase::GameOver(2)
        } else if self.player1.is_ended() {
            Phase::GameOver(0)
        } else if self.player0.is_ended() {
            Phase::GameOver(1)
        } else {
            self.phase
        }
    }

    /// The phase when the time is over: the player with more hit points
    /// left in all has won.
    pub open spec fn time_over_phase(self) -> Phase {
        if self.player0.sum_hp() < self.player1.sum_hp() {
            Phase::TimeOver(1)
        } else if self.player0.sum_hp() > self.player1.sum_hp() {
            Phase::TimeOver(0)
        } else {
            Phase::TimeOver(2)
        }
    }

    /// A player after the clock has gone on by `ms`: lockout and cooldown
    /// run down, not below zero.
    pub open spec fn tick_player(p: PlayerView, ms: int) -> PlayerView {
        PlayerView {
            dur_turns: if p.dur_turns - 1 < 0 {
                0
            } else {
                (p.dur_turns - 1) as i32
            },
            switch_ms: if p.switch_ms - ms < 0 {
                0
            } else {
                (p.switch_ms - ms) as i32
            },
            ..p
        }
    }

    /// The state after the clock has gone on by `incr_ms`, at least by one
    /// tick. A battle that has not ended and is past the tick limit ends
    /// with the time over.
    #[verifier::opaque]
    pub open spec fn advance_clock(self, incr_ms: int) -> StateView {
        let ms = if incr_ms < MS_PER_TURN {
            MS_PER_TURN as int
        } else {
            incr_ms
        };
        let s1 = StateView {
            player0: Self::tick_player(self.player0, ms),
            player1: Self::tick_player(self.player1, ms),
            turn: (self.turn + 1) as i32,
            elapsed_ms: (self.elapsed_ms + ms) as i32,
            ..self
        };
        if s1.turn > LIMIT_TURN && s1.phase is Neutral {
            StateView { phase: s1.time_over_phase(), ..s1 }
        } else {
            s1
        }
    }
}

/// The log with the line of an intake, if it has one.
pub open spec fn with_note(logs: Seq<Seq<char>>, note: Option<Seq<char>>) -> Seq<Seq<char>> {
    match note {
        Some(l) => logs.push(l),
        None => logs,
    }
}

impl StateView {
    /// The state after both players' actions were taken in.
    #[verifier::opaque]
    pub open spec fn intake(self, a0: Action, a1: Action) -> StateView {
        let i0 = self.player0.intake(a0);
        let i1 = self.player1.intake(a1);
        StateView {
            player0: i0.player,
            player1: i1.player,
            logs: with_note(with_note(self.logs, i0.note), i1.note),
            ..self
        }
    }

    /// The state one tick after this one, which has not ended, for the
    /// actions `a0` and `a1` and the choices `c`.
    ///
    /// The actions are taken in; the fast moves that take one tick hit;
    /// fainted creatures are replaced; the charge moves take place; the fast
    /// moves that are due hit; fainted creatures are replaced again; the end
    /// of the battle is looked for; and the clock goes on by one tick and
    /// the time of the switches that were chosen.
    #[verifier::opaque]
    pub open spec fn step(self, a0: Action, a1: Action, c: Choices) -> StateView {
        let i0 = self.player0.intake(a0);
        let i1 = self.player1.intake(a1);
        let s1 = self.intake(a0, a1);
        let s2 = s1.one_turn_moves(i0.one_turn, i1.one_turn, c.fast_first);
        let s3 = s2.switch_if_faint(c.switch_early.0, c.switch_early.1);
        let t3 = s2.switch_cost(c.switch_early.0, c.switch_early.1);
        let s4 = s3.charge_moves(i0.charge, i1.charge, c.charge);
        let t4 = s3.charge_cost(i0.charge, i1.charge, c.charge);
        let s5 = s4.fast_moves();
        let s6 = s5.switch_if_faint(c.switch_late.0, c.switch_late.1);
        let t6 = s5.switch_cost(c.switch_late.0, c.switch_late.1);
        let s7 = StateView { phase: s6.game_over_phase(), ..s6 };
        s7.advance_clock(MS_PER_TURN + t3 + t4 + t6)
    }
}

/// What a well-formed state holds: well-formed players, and a tick and a
/// time within their bounds.
pub proof fn lemma_wf_parts(s: StateView)
    requires
        s.wf(),
    ensures
        s.player0.wf(),
        s.player1.wf(),
        1 <= s.turn <= LIMIT_TURN + 1,
        0 <= s.elapsed_ms <= (LIMIT_TURN + 1) * MAX_TICK_MS,
{
    reveal(StateView::wf);
    assert(MAX_TICK_MS == 15500 && LIMIT_TURN == 540);
    assert((s.turn - 1) * MAX_TICK_MS == (s.turn - 1) * 15500);
}

/// What follows a state that follows another follows that one too.
pub proof fn lemma_follows_transitive(a: StateView, b: StateView, c: StateView)
    requires
        b.follows(a),
        c.follows(b),
    ensures
        c.follows(a),
{
    reveal(PlayerView::follows);
    assert forall|i: int| 0 <= i < c.player0.team.len() implies (#[trigger] c.player0.team[i]).poke
        == a.player0.team[i].poke && 0 <= c.player0.team[i].hp <= a.player0.team[i].hp by {
        assert(b.player0.team[i].poke == a.player0.team[i].poke);
    }
    assert forall|i: int| 0 <= i < c.player1.team.len() implies (#[trigger] c.player1.team[i]).poke
        == a.player1.team[i].poke && 0 <= c.player1.team[i].hp <= a.player1.team[i].hp by {
        assert(b.player1.team[i].poke == a.player1.team[i].poke);
    }
}

impl State {
    /// A copy of the state.
    pub fn snapshot(&self) -> (r: State)
        ensures
            r@ == self@,
    {
        let mut logs: Vec<String> = Vec::new();
        let mut i: usize = 0;
        while i < self.logs.len()
            invariant
                i <= self.logs.len(),
                logs@.len() == i,
                forall|j: int| 0 <= j < i ==> logs@[j]@ == self.logs@[j]@,
            decreases self.logs.len() - i,
        {
            logs.push(self.logs[i].clone());
            i += 1;
        }
        proof {
            assert(logs@.map_values(|l: String| l@) =~= self.logs@.map_values(|l: String| l@));
        }
        State {
            player0: self.player0.snapshot(),
            player1: self.player1.snapshot(),
            phase: self.phase,
            turn: self.turn,
            elapsed_ms: self.elapsed_ms,
            logs,
        }
    }

    /// The time of this state by the count of ticks, which has to fit in
    /// 32 bits.
    pub fn elapsed_ms(&self) -> (r: i32)
        requires
            i32::MIN <= self.turn * MS_PER_TURN <= i32::MAX,
        ensures
            r == self.turn * MS_PER_TURN,
    {
        self.turn * MS_PER_TURN
    }

    /// Player 0 for `i == 0`, else player 1.
    pub fn player(&self, i: usize) -> (r: &Player)
        ensures
            r@ == self@.player(i as int),
    {
        if i == 0 {
            &self.player0
        } else {
            &self.player1
        }
    }

    /// Takes in the two players' actions at the start of a tick. Returns
    /// which players have started a fast move of one tick, and for each
    /// player the slot of the charge move for this tick, or 2.
    pub fn accept_actions(&mut self, actions: [Action; 2]) -> (r: ([bool; 2], [usize; 2]))
        requires
            old(self)@.wf(),
        ensures
            final(self)@ == old(self)@.intake(actions[0], actions[1]),
            r.0[0] == old(self)@.player0.intake(actions[0]).one_turn,
            r.0[1] == old(self)@.player1.intake(actions[1]).one_turn,
            r.1[0] == old(self)@.player0.intake(actions[0]).charge,
            r.1[1] == old(self)@.player1.intake(actions[1]).charge,
            r.1[0] <= 2,
            r.1[1] <= 2,
            final(self)@.wf(),
            final(self)@.follows(old(self)@),
            final(self)@.turn == old(self)@.turn,
            final(self)@.phase == old(self)@.phase,
    {
        proof {
            reveal(StateView::wf);
            reveal(PlayerView::follows);
            reveal(StateView::intake);
        }
        let (one0, charge0, note0) = self.player0.accept(actions[0]);
        let (one1, charge1, note1) = self.player1.accept(actions[1]);
        let ghost logs0 = self@.logs;
        match note0 {
            Some(l) => {
                self.logs.push(l);
                proof {
                    assert(self@.logs =~= logs0.push(l@));
                }
            },
            None => {},
        }
        let ghost logs1 = self@.logs;
        match note1 {
            Some(l) => {
                self.logs.push(l);
                proof {
                    assert(self@.logs =~= logs1.push(l@));
                }
            },
            None => {},
        }
        ([one0, one1], [charge0, charge1])
    }

    /// Lets the fast move of player `i` hit, as `StateView::fast_attack` says.
    pub fn fast_attack(&mut self, i: usize)
        requires
            old(self)@.wf(),
            i < 2,
        ensures
            final(self)@ == old(self)@.fast_attack(i as int),
            final(self)@.wf(),
            final(self)@.follows(old(self)@),
            final(self)@.turn == old(self)@.turn,
            final(self)@.phase == old(self)@.phase,
    {
        proof {
            reveal(StateView::wf);
            reveal(PlayerView::follows);
            reveal(StateView::fast_attack);
        }
        if i == 0 {
            let mut a = *self.player0.poke();
            let mut d = *self.player1.poke();
            proof {
                assert(self@.player0.team[self.player0.cur_poke as int].wf());
                assert(self@.player1.team[self.player1.cur_poke as int].wf());
            }
            a.do_fast_move(&mut d);
            self.player0.set_poke(a);
            self.player1.set_poke(d);
            self.player0.in_fast_move = false;
        } else {
            let mut a = *self.player1.poke();
            let mut d = *self.player0.poke();
            proof {
                assert(self@.player0.team[self.player0.cur_poke as int].wf());
                assert(self@.player1.team[self.player1.cur_poke as int].wf());
            }
            a.do_fast_move(&mut d);
            self.player1.set_poke(a);
            self.player0.set_poke(d);
            self.player1.in_fast_move = false;
        }
    }

    /// Lets the fast moves of one tick hit, in an order that a coin decides.
    pub fn do_1turn_move(&mut self, use_1turn_move: [bool; 2])
        requires
            old(self)@.wf(),
        ensures
            exists|first0: bool| final(self)@ == #[trigger] old(self)@.one_turn_moves(
                use_1turn_move[0],
                use_1turn_move[1],
                first0,
            ),
            final(self)@.wf(),
            final(self)@.follows(old(self)@),
            final(self)@.turn == old(self)@.turn,
            final(self)@.phase == old(self)@.phase,
    {
        let first0 = coin_flip();
        self.do_1turn_move_with(use_1turn_move, first0);
    }

    /// Lets the fast moves of one tick hit, as `StateView::one_turn_moves`
    /// says: that of player 0 first where `first0` is true.
    pub fn do_1turn_move_with(&mut self, use_1turn_move: [bool; 2], first0: bool)
        requires
            old(self)@.wf(),
        ensures
            final(self)@ == old(self)@.one_turn_moves(use_1turn_move[0], use_1turn_move[1], first0),
            final(self)@.wf(),
            final(self)@.follows(old(self)@),
            final(self)@.turn == old(self)@.turn,
            final(self)@.phase == old(self)@.phase,
    {
        proof {
            reveal(StateView::wf);
            reveal(PlayerView::follows);
            reveal(StateView::one_turn_moves);
        }
        if first0 {
            if use_1turn_move[0] && self.player0.in_fast_move && self.player0.dur_turns == 0 {
                self.fast_attack(0);
            }
            let is_faint = self.player1.poke().is_faint();
            if use_1turn_move[1] && self.player1.in_fast_move && self.player1.dur_turns == 0
                && !is_faint {
                self.fast_attack(1);
            }
        } else {
            if use_1turn_move[1] && self.player1.in_fast_move && self.player1.dur_turns == 0 {
                self.fast_attack(1);
            }
            let is_faint = self.player0.poke().is_faint();
            if use_1turn_move[0] && self.player0.in_fast_move && self.player0.dur_turns == 0
                && !is_faint {
                self.fast_attack(0);
            }
        }
    }

    /// Lets the fast moves that are due hit: first that of player 0, then
    /// that of player 1.
    pub fn do_fast_move(&mut self)
        requires
            old(self)@.wf(),
        ensures
            final(self)@ == old(self)@.fast_moves(),
            final(self)@.wf(),
            final(self)@.follows(old(self)@),
            final(self)@.turn == old(self)@.turn,
            final(self)@.phase == old(self)@.phase,
    {
        proof {
            reveal(StateView::wf);
            reveal(PlayerView::follows);
            reveal(StateView::fast_moves);
        }
        if self.player0.in_fast_move && self.player0.dur_turns == 0 {
            self.fast_attack(0);
        }
        if self.player1.in_fast_move && self.player1.dur_turns == 0 {
            self.fast_attack(1);
        }
    }

    /// The charge moves that take place, in their order, with a coin
    /// between creatures of the same attack and nowhere else.
    pub fn sort_use_charge_move(&self, use_charge_move: [usize; 2]) -> (r: Vec<(usize, usize)>)
        requires
            self@.wf(),
            use_charge_move[0] <= 2,
            use_charge_move[1] <= 2,
        ensures
            exists|coin: bool| r@ == #[trigger] self@.charge_order(
                use_charge_move[0],
                use_charge_move[1],
                coin,
            ),
            !self@.charge_tie(use_charge_move[0], use_charge_move[1]) ==> r@ == self@.charge_order(
                use_charge_move[0],
                use_charge_move[1],
                true,
            ) && r@ == self@.charge_order(use_charge_move[0], use_charge_move[1], false),
            r@.len() <= 2,
            forall|k: int| 0 <= k < r@.len() ==> (#[trigger] r@[k]).0 < 2 && r@[k].1 < 2,
            r@.len() == 2 ==> r@[0].0 != r@[1].0,
    {
        proof {
            reveal(StateView::wf);
            reveal(StateView::charge_order);
        }
        let tie = use_charge_move[0] < 2 && use_charge_move[1] < 2 && !self.player0.poke().is_faint()
            && !self.player1.poke().is_faint() && self.player0.charge_priority(&self.player1)
            == self.player1.charge_priority(&self.player0);
        if tie {
            let coin = coin_flip();
            self.sort_use_charge_move_with(use_charge_move, coin)
        } else {
            let r = self.sort_use_charge_move_with(use_charge_move, true);
            proof {
                assert(r@ == self@.charge_order(use_charge_move[0], use_charge_move[1], true));
            }
            r
        }
    }

    /// The charge moves that take place, in their order, as
    /// `StateView::charge_order` says.
    pub fn sort_use_charge_move_with(&self, use_charge_move: [usize; 2], coin: bool) -> (r: Vec<
        (usize, usize),
    >)
        requires
            self@.wf(),
            use_charge_move[0] <= 2,
            use_charge_move[1] <= 2,
        ensures
            r@ == self@.charge_order(use_charge_move[0], use_charge_move[1], coin),
            r@.len() <= 2,
            forall|k: int| 0 <= k < r@.len() ==> (#[trigger] r@[k]).0 < 2 && r@[k].1 < 2,
            r@.len() == 2 ==> r@[0].0 != r@[1].0,
    {
        proof {
            reveal(StateView::wf);
            reveal(StateView::charge_order);
        }
        let u0: usize = if self.player0.poke().is_faint() {
            2
        } else {
            use_charge_move[0]
        };
        let u1: usize = if self.player1.poke().is_faint() {
            2
        } else {
            use_charge_move[1]
        };
        let a0 = self.player0.charge_priority(&self.player1);
        let a1 = self.player1.charge_priority(&self.player0);
        charge_order_of(u0, u1, a0, a1, coin)
    }

    /// Carries out the charge move of slot `slot` of player `i`, as
    /// `StateView::charge_attack` says.
    pub fn charge_attack(&mut self, i: usize, slot: usize, shield: bool, draw: u32)
        requires
            old(self)@.wf(),
            i < 2,
        ensures
            final(self)@ == old(self)@.charge_attack(i as int, slot, shield, draw),
            final(self)@.wf(),
            final(self)@.follows(old(self)@),
            final(self)@.turn == old(self)@.turn,
            final(self)@.phase == old(self)@.phase,
    {
        proof {
            reveal(StateView::wf);
            reveal(PlayerView::follows);
            reveal(StateView::charge_attack);
        }
        proof {
            assert(self@.player0.team[self.player0.cur_poke as int].wf());
            assert(self@.player1.team[self.player1.cur_poke as int].wf());
        }
        if i == 0 {
            let mut a = *self.player0.poke();
            let mut d = *self.player1.poke();
            a.do_charge_move_drawn(slot, &mut d, 100, shield, draw);
            self.player0.set_poke(a);
            self.player1.set_poke(d);
            self.player1.dur_turns = 0;
            if shield {
                self.player1.num_shields = if self.player1.num_shields - 1 < 0 {
                    0
                } else {
                    self.player1.num_shields - 1
                };
            }
        } else {
            let mut a = *self.player1.poke();
            let mut d = *self.player0.poke();
            a.do_charge_move_drawn(slot, &mut d, 100, shield, draw);
            self.player1.set_poke(a);
            self.player0.set_poke(d);
            self.player0.dur_turns = 0;
            if shield {
                self.player0.num_shields = if self.player0.num_shields - 1 < 0 {
                    0
                } else {
                    self.player0.num_shields - 1
                };
            }
        }
    }

    /// Replaces the fainted creatures, as `StateView::switch_if_faint` says,
    /// with `choices` as the slots that the players choose. Returns the time
    /// that it costs.
    pub fn switch_if_faint_with(&mut self, choices: [usize; 2]) -> (incr_ms: i32)
        requires
            old(self)@.wf(),
        ensures
            final(self)@ == old(self)@.switch_if_faint(choices[0], choices[1]),
            incr_ms == old(self)@.switch_cost(choices[0], choices[1]),
            incr_ms == 0 || incr_ms == SWITCH_MS,
            final(self)@.wf(),
            final(self)@.follows(old(self)@),
            old(self)@.player0.needs_switch() ==> final(self)@.player0.active().hp > 0,
            old(self)@.player1.needs_switch() ==> final(self)@.player1.active().hp > 0,
            final(self)@.turn == old(self)@.turn,
            final(self)@.phase == old(self)@.phase,
    {
        proof {
            reveal(StateView::wf);
            reveal(PlayerView::follows);
            reveal(StateView::switch_if_faint);
            reveal(StateView::switch_cost);
            reveal(PlayerView::replaces_by_choice);
        }
        let by_choice0 = self.player0.replace_fainted(choices[0]);
        let by_choice1 = self.player1.replace_fainted(choices[1]);
        if by_choice0 || by_choice1 {
            SWITCH_MS
        } else {
            0
        }
    }

    /// `w` holds the slots that the players choose: for a player that has
    /// to replace its creature the answer of its strategy for the player as
    /// it stands, and for the other, who is not asked, slot 0.
    pub open spec fn switch_answers<S0: Strategy, S1: Strategy>(
        &self,
        s0: &S0,
        s1: &S1,
        w: (usize, usize),
    ) -> bool {
        &&& if self@.player0.needs_switch() {
            call_ensures(S0::switch, (s0, &self.player0), w.0)
        } else {
            w.0 == 0
        }
        &&& if self@.player1.needs_switch() {
            call_ensures(S1::switch, (s1, &self.player1), w.1)
        } else {
            w.1 == 0
        }
    }

    /// Replaces the fainted creatures, asking each player that has to
    /// replace one for the slot. Returns the time that it costs.
    pub fn switch_if_faint<S0: Strategy, S1: Strategy>(&mut self, s0: &S0, s1: &S1) -> (incr_ms: i32)
        requires
            old(self)@.wf(),
        ensures
            exists|w: (usize, usize)|
                {
                    &&& final(self)@ == #[trigger] old(self)@.switch_if_faint(w.0, w.1)
                    &&& incr_ms == old(self)@.switch_cost(w.0, w.1)
                    &&& old(self).switch_answers(s0, s1, w)
                },
            incr_ms == 0 || incr_ms == SWITCH_MS,
            final(self)@.wf(),
            final(self)@.follows(old(self)@),
            old(self)@.player0.needs_switch() ==> final(self)@.player0.active().hp > 0,
            old(self)@.player1.needs_switch() ==> final(self)@.player1.active().hp > 0,
            final(self)@.turn == old(self)@.turn,
            final(self)@.phase == old(self)@.phase,
    {
        proof {
            reveal(StateView::wf);
        }
        let c0: usize = if self.player0.needs_switch() {
            s0.switch(&self.player0)
        } else {
            0
        };
        let c1: usize = if self.player1.needs_switch() {
            s1.switch(&self.player1)
        } else {
            0
        };
        let incr_ms = self.switch_if_faint_with([c0, c1]);
        proof {
            let w = (c0, c1);
            assert(self@ == old(self)@.switch_if_faint(w.0, w.1));
            assert(old(self).switch_answers(s0, s1, w));
        }
        incr_ms
    }

    /// Looks for the end of the battle, as `StateView::game_over_phase` says.
    pub fn set_gameover_phase(&mut self)
        ensures
            final(self)@ == (StateView { phase: old(self)@.game_over_phase(), ..old(self)@ }),
            final(self)@.turn == old(self)@.turn,
            old(self)@.wf() ==> final(self)@.wf() && final(self)@.follows(old(self)@),
    {
        proof {
            reveal(StateView::wf);
            reveal(PlayerView::follows);
            reveal(StateView::game_over_phase);
        }
        let p0_ended = self.player0.is_ended();
        let p1_ended = self.player1.is_ended();
        if p0_ended && p1_ended {
            self.phase = Phase::GameOver(2);
        } else if p1_ended {
            self.phase = Phase::GameOver(0);
        } else if p0_ended {
            self.phase = Phase::GameOver(1);
        }
    }

    /// Lets the clock go on, as `StateView::advance_clock` says, by any
    /// time with which the tick and the elapsed time still fit in 32 bits.
    /// A well-formed state within the tick limit stays well formed where the
    /// time is at most `MAX_TICK_MS`.
    pub fn increment_turns(&mut self, incr_ms: i32)
        requires
            old(self)@.player0.wf(),
            old(self)@.player1.wf(),
            old(self).turn < i32::MAX,
            old(self).elapsed_ms + incr_ms <= i32::MAX,
            old(self).elapsed_ms + MS_PER_TURN <= i32::MAX,
        ensures
            final(self)@ == old(self)@.advance_clock(incr_ms as int),
            final(self)@.turn == old(self)@.turn + 1,
            final(self)@.player0.wf(),
            final(self)@.player1.wf(),
            final(self)@.follows(old(self)@),
            old(self)@.wf() && old(self).turn <= LIMIT_TURN && incr_ms <= MAX_TICK_MS
                ==> final(self)@.wf(),
    {
        proof {
            reveal(StateView::wf);
            reveal(PlayerView::follows);
            reveal(StateView::advance_clock);
            assert forall|j: int| 0 <= j < self@.player0.team.len() implies 0 <= (
            #[trigger] self@.player0.team[j]).hp by {
                assert(self@.player0.team[j].wf());
            }
            assert forall|j: int| 0 <= j < self@.player1.team.len() implies 0 <= (
            #[trigger] self@.player1.team[j]).hp by {
                assert(self@.player1.team[j].wf());
            }
        }
        let ms = if incr_ms < MS_PER_TURN {
            MS_PER_TURN
        } else {
            incr_ms
        };
        proof {
            assert(MAX_TICK_MS == 15500 && LIMIT_TURN == 540 && MS_PER_TURN == 500);
            assert((self.turn - 1) * MAX_TICK_MS == (self.turn - 1) * 15500);
            assert((self.turn + 1 - 1) * MAX_TICK_MS == (self.turn - 1) * 15500 + 15500);
        }
        self.player0.dur_turns = if self.player0.dur_turns - 1 < 0 {
            0
        } else {
            self.player0.dur_turns - 1
        };
        self.player0.switch_ms = if self.player0.switch_ms - ms < 0 {
            0
        } else {
            self.player0.switch_ms - ms
        };
        self.player1.dur_turns = if self.player1.dur_turns - 1 < 0 {
            0
        } else {
            self.player1.dur_turns - 1
        };
        self.player1.switch_ms = if self.player1.switch_ms - ms < 0 {
            0
        } else {
            self.player1.switch_ms - ms
        };
        self.turn = self.turn + 1;
        self.elapsed_ms = self.elapsed_ms + ms;
        if self.turn > LIMIT_TURN {
            match self.phase {
                Phase::Neutral => {
                    let hp0 = self.player0.sum_hp();
                    let hp1 = self.player1.sum_hp();
                    self.phase = if hp0 < hp1 {
                        Phase::TimeOver(1)
                    } else if hp0 > hp1 {
                        Phase::TimeOver(0)
                    } else {
                        Phase::TimeOver(2)
                    };
                },
                _ => {},
            }
        }
    }
}

} // verus!
