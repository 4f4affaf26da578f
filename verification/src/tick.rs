//! One tick of a battle, with what chance and the players decide.

use vstd::prelude::*;
use crate::battle::{other, Action, Strategy, LIMIT_TURN, MAX_TICK_MS, MS_PER_TURN, SWITCH_MS};
use crate::player::PlayerView;
use crate::state::{
    lemma_follows_transitive, lemma_wf_parts, ChargeChoices, Choices, State, StateView,
};
use crate::chance::thread_draw;

verus! {

impl State {
    /// `wanted` is the answer to the charge move of player `i`: that of
    /// the opponent's strategy for the opponent as it stands, where the
    /// opponent has a shield left, and else a no without asking.
    pub open spec fn shield_answer<S0: Strategy, S1: Strategy>(
        &self,
        i: usize,
        s0: &S0,
        s1: &S1,
        wanted: bool,
    ) -> bool {
        if i == 0 {
            if self.player1.num_shields > 0 {
                call_ensures(S1::shield, (s1, &self.player1), wanted)
            } else {
                !wanted
            }
        } else {
            if self.player0.num_shields > 0 {
                call_ensures(S0::shield, (s0, &self.player0), wanted)
            } else {
                !wanted
            }
        }
    }

    /// Asks the opponent of player `i` whether to shield, where it has a
    /// shield left, takes a draw, and carries out the charge move of slot
    /// `slot` of player `i`. Returns the opponent's answer and the draw.
    pub fn charge_attack_asked<S0: Strategy, S1: Strategy>(
        &mut self,
        i: usize,
        slot: usize,
        s0: &S0,
        s1: &S1,
    ) -> (r: (bool, u32))
        requires
            old(self)@.wf(),
            i < 2,
        ensures
            final(self)@ == old(self)@.charge_attack(
                i as int,
                slot,
                old(self)@.shielded(i as int, r.0),
                r.1,
            ),
            old(self).shield_answer(i, s0, s1, r.0),
            final(self)@.wf(),
            final(self)@.follows(old(self)@),
            final(self)@.turn == old(self)@.turn,
            final(self)@.phase == old(self)@.phase,
    {
        proof {
            reveal(StateView::wf);
        }
        let wanted: bool = if i == 0 {
            if self.player1.num_shields > 0 {
                s1.shield(&self.player1)
            } else {
                false
            }
        } else {
            if self.player0.num_shields > 0 {
                s0.shield(&self.player0)
            } else {
                false
            }
        };
        let shield = if i == 0 {
            self.player1.num_shields > 0 && wanted
        } else {
            self.player0.num_shields > 0 && wanted
        };
        let draw = thread_draw();
        self.charge_attack(i, slot, shield, draw);
        (wanted, draw)
    }

    /// Whether the creature in the field of the opponent of player `i` has
    /// fainted.
    pub fn opponent_fainted(&self, i: usize) -> (r: bool)
        requires
            self@.wf(),
            i < 2,
        ensures
            r == (self@.player(other(i as int)).active().hp <= 0),
    {
        proof {
            reveal(StateView::wf);
        }
        if i == 0 {
            self.player1.poke().is_faint()
        } else {
            self.player0.poke().is_faint()
        }
    }
}

/// `w` holds the slots that the players choose where the battle stands as
/// `s`: the answers of their strategies, as `State::switch_answers` says.
pub open spec fn switch_answered<S0: Strategy, S1: Strategy>(
    s: StateView,
    s0: &S0,
    s1: &S1,
    w: (usize, usize),
) -> bool {
    exists|st: State| st@ == s && #[trigger] st.switch_answers(s0, s1, w)
}

/// `wanted` is the answer to the charge move of player `i` where the
/// battle stands as `s`, as `State::shield_answer` says.
pub open spec fn shield_answered<S0: Strategy, S1: Strategy>(
    s: StateView,
    i: usize,
    s0: &S0,
    s1: &S1,
    wanted: bool,
) -> bool {
    exists|st: State| st@ == s && #[trigger] st.shield_answer(i, s0, s1, wanted)
}

/// The answer that `c` holds to the charge move of player `i`.
pub open spec fn wanted_in(c: ChargeChoices, i: usize) -> bool {
    if i == 0 {
        c.shield.1
    } else {
        c.shield.0
    }
}

impl StateView {
    /// What `c` holds of the players' decisions in the charge moves of this
    /// tick is what their strategies answer, each where the round comes to
    /// it and for the player as it stands then.
    #[verifier::opaque]
    pub open spec fn charge_answered<S0: Strategy, S1: Strategy>(
        self,
        use0: usize,
        use1: usize,
        c: ChargeChoices,
        s0: &S0,
        s1: &S1,
    ) -> bool {
        let order = self.charge_order(use0, use1, c.first);
        if order.len() == 0 {
            true
        } else {
            let v1 = self.charge_turn(order[0], c);
            &&& shield_answered(self, order[0].0, s0, s1, wanted_in(c, order[0].0))
            &&& if v1.player(other(order[0].0 as int)).active().hp <= 0 {
                switch_answered(v1, s0, s1, c.switch)
            } else if order.len() == 1 {
                true
            } else {
                let v2 = v1.charge_turn(order[1], c);
                &&& shield_answered(v1, order[1].0, s0, s1, wanted_in(c, order[1].0))
                &&& v2.player(other(order[1].0 as int)).active().hp <= 0 ==> switch_answered(
                    v2,
                    s0,
                    s1,
                    c.switch,
                )
            }
        }
    }

    /// What `c` holds of the players' decisions in the tick from this state
    /// is what their strategies answer, each where the tick comes to it and
    /// for the player as it stands then.
    #[verifier::opaque]
    pub open spec fn step_answered<S0: Strategy, S1: Strategy>(
        self,
        a0: Action,
        a1: Action,
        c: Choices,
        s0: &S0,
        s1: &S1,
    ) -> bool {
        let i0 = self.player0.intake(a0);
        let i1 = self.player1.intake(a1);
        let v2 = self.intake(a0, a1).one_turn_moves(i0.one_turn, i1.one_turn, c.fast_first);
        let v3 = v2.switch_if_faint(c.switch_early.0, c.switch_early.1);
        let v5 = v3.charge_moves(i0.charge, i1.charge, c.charge).fast_moves();
        &&& switch_answered(v2, s0, s1, c.switch_early)
        &&& v3.charge_answered(i0.charge, i1.charge, c.charge, s0, s1)
        &&& switch_answered(v5, s0, s1, c.switch_late)
    }
}

/// The choices of a round of charge moves in which player `i0` went first
/// with the answer `wa` and the draw `da`, and the other player second with
/// `wb` and `db`.
pub open spec fn charge_choices(
    first: bool,
    i0: usize,
    wa: bool,
    da: u32,
    wb: bool,
    db: u32,
    switch: (usize, usize),
) -> ChargeChoices {
    if i0 == 0 {
        ChargeChoices { first, shield: (wb, wa), draw: (da, db), switch }
    } else {
        ChargeChoices { first, shield: (wa, wb), draw: (db, da), switch }
    }
}

impl State {
    /// Carries out the charge moves of this tick, as
    /// `StateView::charge_moves` says, with what chance and the players
    /// decide. `use_charge_move` holds for each player the slot asked for,
    /// or 2. Returns the time that the switches after a charge move cost.
    pub fn do_charge_move<S0: Strategy, S1: Strategy>(
        &mut self,
        use_charge_move: [usize; 2],
        s0: &S0,
        s1: &S1,
    ) -> (incr_ms: i32)
        requires
            old(self)@.wf(),
            use_charge_move[0] <= 2,
            use_charge_move[1] <= 2,
        ensures
            exists|c: ChargeChoices|
                {
                    &&& final(self)@ == #[trigger] old(self)@.charge_moves(
                        use_charge_move[0],
                        use_charge_move[1],
                        c,
                    )
                    &&& incr_ms == old(self)@.charge_cost(use_charge_move[0], use_charge_move[1], c)
                    &&& old(self)@.charge_answered(
                        use_charge_move[0],
                        use_charge_move[1],
                        c,
                        s0,
                        s1,
                    )
                },
            incr_ms == 0 || incr_ms == SWITCH_MS,
            final(self)@.wf(),
            final(self)@.follows(old(self)@),
            final(self)@.turn == old(self)@.turn,
            final(self)@.phase == old(self)@.phase,
    {
        let ghost s_old = self@;
        let ghost st0 = *self;
        let ghost u0 = use_charge_move[0];
        let ghost u1 = use_charge_move[1];
        let v = self.sort_use_charge_move(use_charge_move);
        let ghost coin = choose|coin: bool| v@ == #[trigger] s_old.charge_order(u0, u1, coin);
        if v.len() == 0 {
            proof {
                let c = charge_choices(coin, 0, false, 0, false, 0, (0, 0));
                assert(self@ == s_old.charge_moves(u0, u1, c) && 0 == s_old.charge_cost(u0, u1, c))
                    by {
                    reveal(StateView::charge_moves);
                    reveal(StateView::charge_cost);
                }
                assert(s_old.charge_answered(u0, u1, c, s0, s1)) by {
                    reveal(StateView::charge_answered);
                }
                assert(self@.follows(s_old)) by {
                    reveal(StateView::wf);
                    reveal(PlayerView::follows);
                }
            }
            return 0;
        }
        let (i0, slot0) = v[0];
        let (wa, da) = self.charge_attack_asked(i0, slot0, s0, s1);
        let ghost s1_view = self@;
        let ghost st1 = *self;
        proof {
            assert(shield_answered(s_old, i0, s0, s1, wa)) by {
                assert(st0@ == s_old && st0.shield_answer(i0, s0, s1, wa));
            }
        }
        if self.opponent_fainted(i0) {
            let incr = self.switch_if_faint(s0, s1);
            proof {
                let w = choose|w: (usize, usize)|
                    {
                        &&& self@ == #[trigger] s1_view.switch_if_faint(w.0, w.1)
                        &&& incr == s1_view.switch_cost(w.0, w.1)
                        &&& st1.switch_answers(s0, s1, w)
                    };
                let c = charge_choices(coin, i0, wa, da, false, 0, w);
                assert(s1_view == s_old.charge_turn(v@[0], c));
                assert(s_old.charge_answered(u0, u1, c, s0, s1)) by {
                    reveal(StateView::charge_answered);
                    assert(st1@ == s1_view && st1.switch_answers(s0, s1, c.switch));
                }
                assert(self@ == s_old.charge_moves(u0, u1, c) && incr == s_old.charge_cost(
                    u0,
                    u1,
                    c,
                )) by {
                    reveal(StateView::charge_moves);
                    reveal(StateView::charge_cost);
                }
                lemma_follows_transitive(s_old, s1_view, self@);
            }
            return incr;
        }
        if v.len() == 1 {
            proof {
                let c = charge_choices(coin, i0, wa, da, false, 0, (0, 0));
                assert(s1_view == s_old.charge_turn(v@[0], c));
                assert(self@ == s_old.charge_moves(u0, u1, c) && 0 == s_old.charge_cost(u0, u1, c))
                    by {
                    reveal(StateView::charge_moves);
                    reveal(StateView::charge_cost);
                }
                assert(s_old.charge_answered(u0, u1, c, s0, s1)) by {
                    reveal(StateView::charge_answered);
                }
            }
            return 0;
        }
        let (i1, slot1) = v[1];
        let (wb, db) = self.charge_attack_asked(i1, slot1, s0, s1);
        let ghost s2_view = self@;
        let ghost st2 = *self;
        proof {
            lemma_follows_transitive(s_old, s1_view, s2_view);
            assert(shield_answered(s1_view, i1, s0, s1, wb)) by {
                assert(st1@ == s1_view && st1.shield_answer(i1, s0, s1, wb));
            }
        }
        if self.opponent_fainted(i1) {
            let incr = self.switch_if_faint(s0, s1);
            proof {
                let w = choose|w: (usize, usize)|
                    {
                        &&& self@ == #[trigger] s2_view.switch_if_faint(w.0, w.1)
                        &&& incr == s2_view.switch_cost(w.0, w.1)
                        &&& st2.switch_answers(s0, s1, w)
                    };
                let c = charge_choices(coin, i0, wa, da, wb, db, w);
                assert(s1_view == s_old.charge_turn(v@[0], c));
                assert(s2_view == s1_view.charge_turn(v@[1], c));
                assert(s_old.charge_answered(u0, u1, c, s0, s1)) by {
                    reveal(StateView::charge_answered);
                    assert(st2@ == s2_view && st2.switch_answers(s0, s1, c.switch));
                }
                assert(self@ == s_old.charge_moves(u0, u1, c) && incr == s_old.charge_cost(
                    u0,
                    u1,
                    c,
                )) by {
                    reveal(StateView::charge_moves);
                    reveal(StateView::charge_cost);
                }
                lemma_follows_transitive(s_old, s2_view, self@);
            }
            return incr;
        }
        proof {
            let c = charge_choices(coin, i0, wa, da, wb, db, (0, 0));
            assert(s1_view == s_old.charge_turn(v@[0], c));
            assert(s2_view == s1_view.charge_turn(v@[1], c));
            assert(self@ == s_old.charge_moves(u0, u1, c) && 0 == s_old.charge_cost(u0, u1, c)) by {
                reveal(StateView::charge_moves);
                reveal(StateView::charge_cost);
            }
            assert(s_old.charge_answered(u0, u1, c, s0, s1)) by {
                reveal(StateView::charge_answered);
            }
        }
        0
    }
}

impl State {
    /// Carries the state one tick on, as `StateView::step` says, with what
    /// chance and the players decide.
    pub fn advance<S0: Strategy, S1: Strategy>(&mut self, actions: [Action; 2], s0: &S0, s1: &S1)
        requires
            old(self)@.wf(),
            old(self)@.phase is Neutral,
        ensures
            exists|c: Choices|
                {
                    &&& final(self)@ == #[trigger] old(self)@.step(actions[0], actions[1], c)
                    &&& old(self)@.step_answered(actions[0], actions[1], c, s0, s1)
                },
            final(self)@.wf(),
            final(self)@.follows(old(self)@),
            final(self)@.turn == old(self)@.turn + 1,
    {
        let ghost v0 = self@;
        let ghost a0 = actions[0];
        let ghost a1 = actions[1];
        proof {
            assert(v0.turn <= LIMIT_TURN) by {
                reveal(StateView::wf);
            }
        }
        let (use_1turn_move, use_charge_move) = self.accept_actions(actions);
        let ghost v1 = self@;
        self.do_1turn_move(use_1turn_move);
        let ghost v2 = self@;
        let ghost st2 = *self;
        let ghost first0 = choose|first0: bool|
            v2 == #[trigger] v1.one_turn_moves(use_1turn_move[0], use_1turn_move[1], first0);
        let t3 = self.switch_if_faint(s0, s1);
        let ghost v3 = self@;
        let ghost early = choose|w: (usize, usize)|
            {
                &&& v3 == #[trigger] v2.switch_if_faint(w.0, w.1)
                &&& t3 == v2.switch_cost(w.0, w.1)
                &&& st2.switch_answers(s0, s1, w)
            };
        let t4 = self.do_charge_move(use_charge_move, s0, s1);
        let ghost v4 = self@;
        let ghost cc = choose|c: ChargeChoices|
            {
                &&& v4 == #[trigger] v3.charge_moves(use_charge_move[0], use_charge_move[1], c)
                &&& t4 == v3.charge_cost(use_charge_move[0], use_charge_move[1], c)
                &&& v3.charge_answered(use_charge_move[0], use_charge_move[1], c, s0, s1)
            };
        self.do_fast_move();
        let ghost v5 = self@;
        let ghost st5 = *self;
        let t6 = self.switch_if_faint(s0, s1);
        let ghost v6 = self@;
        let ghost late = choose|w: (usize, usize)|
            {
                &&& v6 == #[trigger] v5.switch_if_faint(w.0, w.1)
                &&& t6 == v5.switch_cost(w.0, w.1)
                &&& st5.switch_answers(s0, s1, w)
            };
        self.set_gameover_phase();
        let ghost v7 = self@;
        proof {
            lemma_follows_transitive(v0, v1, v2);
            lemma_follows_transitive(v0, v2, v3);
            lemma_follows_transitive(v0, v3, v4);
            lemma_follows_transitive(v0, v4, v5);
            lemma_follows_transitive(v0, v5, v6);
            lemma_follows_transitive(v0, v6, v7);
            assert(MS_PER_TURN == 500 && SWITCH_MS == 5000 && MAX_TICK_MS == 15500 && LIMIT_TURN
                == 540);
            lemma_wf_parts(v7);
        }
        let incr_ms: i32 = MS_PER_TURN + t3 + t4 + t6;
        self.increment_turns(incr_ms);
        proof {
            lemma_follows_transitive(v0, v7, self@);
            let c = Choices { fast_first: first0, switch_early: early, charge: cc, switch_late: late };
            assert(self@ == v0.step(a0, a1, c)) by {
                reveal(StateView::step);
            }
            assert(v0.step_answered(a0, a1, c, s0, s1)) by {
                reveal(StateView::step_answered);
                assert(st2@ == v2 && st2.switch_answers(s0, s1, c.switch_early));
                assert(st5@ == v5 && st5.switch_answers(s0, s1, c.switch_late));
            }
        }
    }
}

impl State {
    /// Carries out one charge move of the order, as `StateView::charge_turn`
    /// says, with the shield answer and the draw that `c` holds for it.
    pub fn charge_turn_with(&mut self, i: usize, slot: usize, c: &ChargeChoices)
        requires
            old(self)@.wf(),
            i < 2,
        ensures
            final(self)@ == old(self)@.charge_turn((i, slot), *c),
            final(self)@.wf(),
            final(self)@.follows(old(self)@),
            final(self)@.turn == old(self)@.turn,
            final(self)@.phase == old(self)@.phase,
    {
        let shield = if i == 0 {
            self.player1.num_shields > 0 && c.shield.1
        } else {
            self.player0.num_shields > 0 && c.shield.0
        };
        let draw = if i == 0 {
            c.draw.0
        } else {
            c.draw.1
        };
        self.charge_attack(i, slot, shield, draw);
    }

    /// Carries out the charge moves of this tick for given choices, as
    /// `StateView::charge_moves` says. `use_charge_move` holds for each
    /// player the slot asked for, or 2. Returns the time that the switches
    /// after a charge move cost.
    pub fn do_charge_move_with(&mut self, use_charge_move: [usize; 2], c: &ChargeChoices) -> (incr_ms:
        i32)
        requires
            old(self)@.wf(),
            use_charge_move[0] <= 2,
            use_charge_move[1] <= 2,
        ensures
            final(self)@ == old(self)@.charge_moves(use_charge_move[0], use_charge_move[1], *c),
            incr_ms == old(self)@.charge_cost(use_charge_move[0], use_charge_move[1], *c),
            incr_ms == 0 || incr_ms == SWITCH_MS,
            final(self)@.wf(),
            final(self)@.follows(old(self)@),
            final(self)@.turn == old(self)@.turn,
            final(self)@.phase == old(self)@.phase,
    {
        let ghost s_old = self@;
        proof {
            reveal(StateView::charge_moves);
            reveal(StateView::charge_cost);
        }
        let v = self.sort_use_charge_move_with(use_charge_move, c.first);
        if v.len() == 0 {
            proof {
                assert(self@.follows(s_old)) by {
                    reveal(StateView::wf);
                    reveal(PlayerView::follows);
                }
            }
            return 0;
        }
        let (i0, slot0) = v[0];
        self.charge_turn_with(i0, slot0, c);
        let ghost s1_view = self@;
        if self.opponent_fainted(i0) {
            let incr = self.switch_if_faint_with([c.switch.0, c.switch.1]);
            proof {
                lemma_follows_transitive(s_old, s1_view, self@);
            }
            return incr;
        }
        if v.len() == 1 {
            return 0;
        }
        let (i1, slot1) = v[1];
        self.charge_turn_with(i1, slot1, c);
        let ghost s2_view = self@;
        proof {
            lemma_follows_transitive(s_old, s1_view, s2_view);
        }
        if self.opponent_fainted(i1) {
            let incr = self.switch_if_faint_with([c.switch.0, c.switch.1]);
            proof {
                lemma_follows_transitive(s_old, s2_view, self@);
            }
            return incr;
        }
        0
    }

    /// Carries the state one tick on for given choices, as
    /// `StateView::step` says: nothing is drawn and nobody is asked.
    pub fn advance_with(&mut self, actions: [Action; 2], c: &Choices)
        requires
            old(self)@.wf(),
            old(self)@.phase is Neutral,
        ensures
            final(self)@ == old(self)@.step(actions[0], actions[1], *c),
            final(self)@.wf(),
            final(self)@.follows(old(self)@),
            final(self)@.turn == old(self)@.turn + 1,
    {
        let ghost v0 = self@;
        proof {
            assert(v0.turn <= LIMIT_TURN) by {
                reveal(StateView::wf);
            }
        }
        let (use_1turn_move, use_charge_move) = self.accept_actions(actions);
        let ghost v1 = self@;
        self.do_1turn_move_with(use_1turn_move, c.fast_first);
        let ghost v2 = self@;
        let t3 = self.switch_if_faint_with([c.switch_early.0, c.switch_early.1]);
        let ghost v3 = self@;
        let t4 = self.do_charge_move_with(use_charge_move, &c.charge);
        let ghost v4 = self@;
        self.do_fast_move();
        let ghost v5 = self@;
        let t6 = self.switch_if_faint_with([c.switch_late.0, c.switch_late.1]);
        let ghost v6 = self@;
        self.set_gameover_phase();
        let ghost v7 = self@;
        proof {
            lemma_follows_transitive(v0, v1, v2);
            lemma_follows_transitive(v0, v2, v3);
            lemma_follows_transitive(v0, v3, v4);
            lemma_follows_transitive(v0, v4, v5);
            lemma_follows_transitive(v0, v5, v6);
            lemma_follows_transitive(v0, v6, v7);
            assert(MS_PER_TURN == 500 && SWITCH_MS == 5000 && MAX_TICK_MS == 15500 && LIMIT_TURN
                == 540);
            lemma_wf_parts(v7);
        }
        let incr_ms: i32 = MS_PER_TURN + t3 + t4 + t6;
        self.increment_turns(incr_ms);
        proof {
            lemma_follows_transitive(v0, v7, self@);
            assert(self@ == v0.step(actions[0], actions[1], *c)) by {
                reveal(StateView::step);
            }
        }
    }
}

} // verus!
