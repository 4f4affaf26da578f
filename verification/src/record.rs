//! Running a battle and recording it.

use vstd::prelude::*;
use crate::battle::{
    follows_at, is_record, is_run, is_terminal, start_state, step_holds, Action, Battle,
    DefaultStrategy, Phase, Strategy,
};
use crate::player::{team_fits, Player, PlayerView};
use crate::state::{lemma_follows_transitive, Choices, State, StateView};
use crate::pokemon::Pokemon;

verus! {

/// Runs from the same first state under the same actions and choices are
/// the same: a battle is decided by where it starts, what the players do
/// and what chance and the strategies decide.
pub proof fn lemma_run_deterministic(
    h1: Seq<StateView>,
    h2: Seq<StateView>,
    actions: Seq<[Action; 2]>,
    choices: Seq<Choices>,
)
    requires
        is_run(h1, actions, choices),
        is_run(h2, actions, choices),
        h1[0] == h2[0],
    ensures
        h1 == h2,
{
    lemma_run_prefix(h1, h2, actions, choices, actions.len() as int);
    assert(h1 =~= h2);
}

/// Two runs from the same first state agree on their first `n + 1` states.
pub proof fn lemma_run_prefix(
    h1: Seq<StateView>,
    h2: Seq<StateView>,
    actions: Seq<[Action; 2]>,
    choices: Seq<Choices>,
    n: int,
)
    requires
        is_run(h1, actions, choices),
        is_run(h2, actions, choices),
        h1[0] == h2[0],
        0 <= n <= actions.len(),
    ensures
        forall|t: int| 0 <= t <= n ==> h1[t] == h2[t],
    decreases n,
{
    if n > 0 {
        lemma_run_prefix(h1, h2, actions, choices, n - 1);
        assert(step_holds(h1, actions, choices, n - 1));
        assert(step_holds(h2, actions, choices, n - 1));
    }
}

/// In the record of a battle no creature ever gains hit points, and none
/// has less than zero: a later state follows every earlier one.
pub proof fn lemma_hp_never_rises(history: Seq<StateView>, actions: Seq<[Action; 2]>, t: int, u: int)
    requires
        is_record(history, actions),
        0 <= t <= u < history.len(),
    ensures
        history[u].follows(history[t]),
        forall|i: int|
            0 <= i < history[u].player0.team.len() ==> 0 <= (#[trigger] history[u].player0.team[i]).hp
                <= history[t].player0.team[i].hp,
        forall|i: int|
            0 <= i < history[u].player1.team.len() ==> 0 <= (#[trigger] history[u].player1.team[i]).hp
                <= history[t].player1.team[i].hp,
    decreases u - t,
{
    reveal(PlayerView::follows);
    if t == u {
        assert(history[t].wf());
        reveal(StateView::wf);
        assert forall|i: int| 0 <= i < history[u].player0.team.len() implies 0 <= (
        #[trigger] history[u].player0.team[i]).hp by {
            assert(history[u].player0.team[i].wf());
        }
        assert forall|i: int| 0 <= i < history[u].player1.team.len() implies 0 <= (
        #[trigger] history[u].player1.team[i]).hp by {
            assert(history[u].player1.team[i].wf());
        }
    } else {
        lemma_hp_never_rises(history, actions, t, u - 1);
        assert(follows_at(history, u - 1));
        lemma_follows_transitive(history[t], history[u - 1], history[u]);
    }
}

/// In the record of a battle every creature, at every tick, holds an
/// energy from 0 to 100 and stat stages from -4 to 4, and has hit points
/// from zero to those of the unhurt creature.
pub proof fn lemma_creatures_in_bounds(
    history: Seq<StateView>,
    actions: Seq<[Action; 2]>,
    t: int,
    player: int,
    slot: int,
)
    requires
        is_record(history, actions),
        0 <= t < history.len(),
        0 <= slot < history[t].player(player).team.len(),
    ensures
        0 <= history[t].player(player).team[slot].energy <= 100,
        -4 <= history[t].player(player).team[slot].buff.0 <= 4,
        -4 <= history[t].player(player).team[slot].buff.1 <= 4,
        0 <= history[t].player(player).team[slot].hp <= history[t].player(player).team[slot].poke.hp_spec(),
{
    assert(history[t].wf());
    reveal(StateView::wf);
    assert(history[t].player(player).team[slot].wf());
}

impl Battle<DefaultStrategy, DefaultStrategy> {
    /// A battle between two players with the given names and rosters, each
    /// deciding by the default strategy.
    pub fn new(name0: String, team0: Vec<Pokemon>, name1: String, team1: Vec<Pokemon>) -> (r:
        Self)
        requires
            team_fits(team0@),
            team_fits(team1@),
        ensures
            r.history() == seq![start_state(name0@, team0@, name1@, team1@)],
            r.actions@.len() == 0,
            r.wf(),
    {
        Battle::with_strategies(name0, team0, DefaultStrategy, name1, team1, DefaultStrategy)
    }
}

impl<S0: Strategy, S1: Strategy> Battle<S0, S1> {
    /// A battle between two players with the given names, rosters and
    /// strategies.
    pub fn with_strategies(
        name0: String,
        team0: Vec<Pokemon>,
        strategy0: S0,
        name1: String,
        team1: Vec<Pokemon>,
        strategy1: S1,
    ) -> (r: Self)
        requires
            team_fits(team0@),
            team_fits(team1@),
        ensures
            r.history() == seq![start_state(name0@, team0@, name1@, team1@)],
            r.actions@.len() == 0,
            r.strategy0 == strategy0,
            r.strategy1 == strategy1,
            r.wf(),
    {
        let player0 = Player::new(name0, team0);
        let player1 = Player::new(name1, team1);
        let start = State {
            player0,
            player1,
            phase: Phase::Neutral,
            turn: 1,
            elapsed_ms: 0,
            logs: Vec::new(),
        };
        let mut states: Vec<State> = Vec::new();
        proof {
            assert(start@.logs =~= Seq::empty());
            assert(start@.wf()) by {
                reveal(StateView::wf);
            }
        }
        states.push(start);
        let r = Battle { states, actions: Vec::new(), strategy0, strategy1 };
        proof {
            assert(r.history() =~= seq![start_state(name0@, team0@, name1@, team1@)]);
            assert(is_run(r.history(), r.actions@, Seq::empty()));
        }
        r
    }

    /// The latest state.
    pub fn state(&self) -> (r: &State)
        requires
            self.states@.len() > 0,
        ensures
            r@ == self.last(),
            *r == self.states@.last(),
    {
        &self.states[self.states.len() - 1]
    }

    /// Whether all creatures of a player have fainted in the latest state.
    pub fn is_ended(&self) -> (r: bool)
        requires
            self.states@.len() > 0,
        ensures
            r == (self.last().player0.is_ended() || self.last().player1.is_ended()),
    {
        let state = self.state();
        state.player0.is_ended() || state.player1.is_ended()
    }

    /// Carries the battle one tick on with the two players' actions and says
    /// whether it goes on. In a battle that has ended nothing happens. The
    /// strategies stay as they are.
    pub fn do_action(&mut self, actions: [Action; 2]) -> (r: bool)
        requires
            old(self).wf(),
        ensures
            final(self).wf(),
            final(self).strategy0 == old(self).strategy0,
            final(self).strategy1 == old(self).strategy1,
            is_terminal(old(self).last().phase) ==> {
                &&& !r
                &&& final(self).states@ == old(self).states@
                &&& final(self).history() == old(self).history()
                &&& final(self).actions@ == old(self).actions@
            },
            !is_terminal(old(self).last().phase) ==> {
                &&& final(self).states@.len() == old(self).states@.len() + 1
                &&& final(self).states@.drop_last() == old(self).states@
                &&& exists|c: Choices|
                    {
                        &&& final(self).history() == old(self).history().push(
                            #[trigger] old(self).last().step(actions[0], actions[1], c),
                        )
                        &&& old(self).last().step_answered(
                            actions[0],
                            actions[1],
                            c,
                            &old(self).strategy0,
                            &old(self).strategy1,
                        )
                    }
                &&& final(self).actions@ == old(self).actions@.push(actions)
                &&& r == !is_terminal(final(self).last().phase)
                &&& final(self).last().follows(old(self).last())
            },
    {
        let ghost h0 = self.history();
        let ghost acts0 = self.actions@;
        let n = self.states.len();
        let mut state = self.states[n - 1].snapshot();
        match state.phase {
            Phase::GameOver(_) => {
                return false;
            },
            Phase::TimeOver(_) => {
                return false;
            },
            Phase::Neutral => {},
        }
        proof {
            assert(h0[n - 1].wf());
        }
        state.advance(actions, &self.strategy0, &self.strategy1);
        let r = match state.phase {
            Phase::Neutral => true,
            _ => false,
        };
        let ghost next = state@;
        self.states.push(state);
        self.actions.push(actions);
        proof {
            assert(self.states@.drop_last() =~= old(self).states@);
            let c = choose|c: Choices|
                {
                    &&& next == #[trigger] h0[n - 1].step(actions[0], actions[1], c)
                    &&& h0[n - 1].step_answered(
                        actions[0],
                        actions[1],
                        c,
                        &self.strategy0,
                        &self.strategy1,
                    )
                };
            let h1 = self.history();
            let acts1 = self.actions@;
            assert(h1 =~= h0.push(next));
            let cs0 = choose|cs: Seq<Choices>| is_run(h0, acts0, cs);
            let cs1 = cs0.push(c);
            assert forall|t: int| 0 <= t < acts1.len() implies #[trigger] step_holds(
                h1,
                acts1,
                cs1,
                t,
            ) by {
                if t < acts0.len() {
                    assert(step_holds(h0, acts0, cs0, t));
                }
            }
            assert(is_run(h1, acts1, cs1));
            assert forall|t: int| 0 <= t < h1.len() - 1 implies #[trigger] follows_at(h1, t) by {
                if t < h0.len() - 1 {
                    assert(follows_at(h0, t));
                }
            }
            assert forall|t: int| 0 <= t < h1.len() implies (#[trigger] h1[t]).wf() by {
                if t < h0.len() {
                    assert(h0[t].wf());
                }
            }
        }
        r
    }

    /// Lets the two strategies play the battle: each tick with the actions
    /// that they give for the latest state, until the battle has ended or
    /// 101 ticks have been played. What was recorded before stays, and the
    /// actions of every tick that is added are the strategies' own.
    pub fn start(&mut self)
        requires
            old(self).wf(),
        ensures
            final(self).wf(),
            final(self).strategy0 == old(self).strategy0,
            final(self).strategy1 == old(self).strategy1,
            old(self).states@.is_prefix_of(final(self).states@),
            old(self).history().is_prefix_of(final(self).history()),
            old(self).actions@.is_prefix_of(final(self).actions@),
            final(self).actions@.len() <= old(self).actions@.len() + 101,
            is_terminal(final(self).last().phase) || final(self).actions@.len() == old(
                self,
            ).actions@.len() + 101,
            forall|t: int|
                old(self).actions@.len() <= t < final(self).actions@.len()
                    ==> #[trigger] final(self).played_by_strategies(t),
    {
        let mut i: usize = 0;
        loop
            invariant_except_break
                self.actions@.len() == old(self).actions@.len() + i,
            invariant
                self.wf(),
                self.strategy0 == old(self).strategy0,
                self.strategy1 == old(self).strategy1,
                i <= 101,
                old(self).states@.is_prefix_of(self.states@),
                old(self).history().is_prefix_of(self.history()),
                old(self).actions@.is_prefix_of(self.actions@),
                forall|t: int|
                    old(self).actions@.len() <= t < self.actions@.len()
                        ==> #[trigger] self.played_by_strategies(t),
            ensures
                self.actions@.len() <= old(self).actions@.len() + 101,
                is_terminal(self.last().phase) || self.actions@.len() == old(self).actions@.len()
                    + 101,
            decreases 101 - i,
        {
            if i > 100 {
                break;
            }
            let acts = self.next_actions();
            let ghost before = *self;
            let ghost h = self.history();
            let ghost a = self.actions@;
            let ghost st = self.states@;
            proof {
                lemma_record_lengths(h, a);
            }
            let goes_on = self.do_action([acts.0, acts.1]);
            proof {
                assert(h.is_prefix_of(self.history()));
                assert(a.is_prefix_of(self.actions@));
                assert(st.is_prefix_of(self.states@)) by {
                    if self.states@.len() == st.len() + 1 {
                        assert(self.states@.drop_last() == st);
                        assert forall|k: int| 0 <= k < st.len() implies st[k] == self.states@[k] by {
                            assert(self.states@.drop_last()[k] == self.states@[k]);
                        }
                    }
                }
                assert forall|t: int|
                    old(self).actions@.len() <= t < self.actions@.len() implies #[trigger] self.played_by_strategies(
                    t,
                ) by {
                    assert(self.states@[t] == st[t]);
                    if t < a.len() {
                        assert(before.played_by_strategies(t));
                        assert(self.actions@[t] == a[t]);
                    } else {
                        assert(st[t] == st.last());
                    }
                }
            }
            if !goes_on {
                break;
            }
            i += 1;
        }
    }

    /// The actions that the two strategies give for the latest state.
    pub fn next_actions(&self) -> (r: (Action, Action))
        requires
            self.wf(),
        ensures
            call_ensures(S0::action, (&self.strategy0, &self.states@.last().player0), r.0),
            call_ensures(S1::action, (&self.strategy1, &self.states@.last().player1), r.1),
    {
        let state = self.state();
        proof {
            assert(self.history()[self.states@.len() - 1].wf());
            reveal(StateView::wf);
        }
        (self.strategy0.action(&state.player0), self.strategy1.action(&state.player1))
    }
}

/// A record holds one state more than it holds actions.
pub proof fn lemma_record_lengths(history: Seq<StateView>, actions: Seq<[Action; 2]>)
    requires
        is_record(history, actions),
    ensures
        history.len() == actions.len() + 1,
{
    let cs = choose|cs: Seq<Choices>| is_run(history, actions, cs);
    assert(is_run(history, actions, cs));
}

} // verus!
