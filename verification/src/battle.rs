//! The battle engine: two players, each with a roster of creatures, advanced
//! one tick at a time. Here are its constants, the actions and phases, the
//! decisions that it asks of the players, and the record of a battle.

use vstd::prelude::*;
pub use crate::creature::BattlePokemon;
pub use crate::player::Player;
use crate::player::fresh_player;
use crate::pokemon::Pokemon;
pub use crate::state::State;
use crate::state::{Choices, StateView};

verus! {

/// Milliseconds in a tick.
pub const MS_PER_TURN: i32 = 500;

/// Ticks in a second.
pub const TURN_PER_SEC: i32 = 2;

/// The tick limit of a battle: four minutes and thirty seconds.
pub const LIMIT_TURN: i32 = (4 * 60 + 30) * TURN_PER_SEC;

pub const CHARGE_MOVE_MS: i32 = 20 * MS_PER_TURN;

/// The time a player is taken to need for choosing the next creature.
pub const SWITCH_MS: i32 = 10 * MS_PER_TURN;

/// The time after a switch during which the player cannot switch again.
pub const SWITCH_COOLDOWN_MS: i32 = 60 * TURN_PER_SEC * MS_PER_TURN;

/// What a player can do in a tick.
#[derive(Debug, Clone, Copy, PartialEq, Eq, Structural)]
pub enum Action {
    /// Start the fast move.
    FastMove,
    /// Use a charge move: 0 for the first, 1 for the second.
    ChargeMove(u8),
    /// Bring in the creature of this roster slot.
    SwitchPokemon(u8),
    /// Do nothing.
    Idle,
}

/// Where a battle stands. The number is 0 where player 0 has won, 1 where
/// player 1 has won and 2 for a draw.
#[derive(Debug, Clone, Copy, PartialEq, Eq, Structural)]
pub enum Phase {
    Neutral,
    TimeOver(u8),
    GameOver(u8),
}

/// The most that one tick can add to the elapsed time: the tick itself and
/// three chosen switches.
pub const MAX_TICK_MS: i32 = MS_PER_TURN + 3 * SWITCH_MS;

/// The other player.
pub open spec fn other(i: int) -> int {
    if i == 0 {
        1
    } else {
        0
    }
}

/// Whether the phase ends the battle.
pub open spec fn is_terminal(phase: Phase) -> bool {
    !(phase is Neutral)
}

/// The decisions that a battle asks of a player. They are taken from the
/// player's own state; the engine takes whatever comes back.
pub trait Strategy {
    /// The action for the next tick.
    fn action(&self, player: &Player) -> Action
        requires
            player@.wf(),
    ;

    /// Whether to spend a shield on the charge move that is coming.
    fn shield(&self, player: &Player) -> bool
        requires
            player@.wf(),
    ;

    /// The roster slot of the creature that replaces the fainted one.
    fn switch(&self, player: &Player) -> usize
        requires
            player@.wf(),
    ;
}

/// The first charge move where its energy is there, else the fast move.
pub fn strategy(player: &Player) -> (r: Action)
    requires
        player@.wf(),
    ensures
        r == if player@.active().can_charge_move_spec(0) {
            Action::ChargeMove(0)
        } else {
            Action::FastMove
        },
{
    if player.poke().can_charge_move1() {
        Action::ChargeMove(0)
    } else {
        Action::FastMove
    }
}

/// Always shield.
pub fn shield_strategy(_player: &Player) -> (r: bool)
    ensures
        r,
{
    true
}

/// Always ask for the first roster slot.
pub fn switch_strategy(_player: &Player) -> (r: usize)
    ensures
        r == 0,
{
    0
}

/// The strategy that a battle starts with: `strategy`, `shield_strategy`
/// and `switch_strategy`.
#[derive(Debug, Clone, Copy)]
pub struct DefaultStrategy;

impl Strategy for DefaultStrategy {
    fn action(&self, player: &Player) -> (r: Action)
        ensures
            r == if player@.active().can_charge_move_spec(0) {
                Action::ChargeMove(0)
            } else {
                Action::FastMove
            },
    {
        strategy(player)
    }

    fn shield(&self, player: &Player) -> (r: bool)
        ensures
            r,
    {
        shield_strategy(player)
    }

    fn switch(&self, player: &Player) -> (r: usize)
        ensures
            r == 0,
    {
        switch_strategy(player)
    }
}

/// A battle: every state so far, the first being the start, and the actions
/// that led from each state to the next. Nothing that was recorded changes.
pub struct Battle<S0: Strategy, S1: Strategy> {
    pub states: Vec<State>,
    pub actions: Vec<[Action; 2]>,
    /// What decides for player 0.
    pub strategy0: S0,
    /// What decides for player 1.
    pub strategy1: S1,
}

/// The state at the start of a battle.
pub open spec fn start_state(
    name0: Seq<char>,
    team0: Seq<Pokemon>,
    name1: Seq<char>,
    team1: Seq<Pokemon>,
) -> StateView {
    StateView {
        player0: fresh_player(name0, team0),
        player1: fresh_player(name1, team1),
        phase: Phase::Neutral,
        turn: 1,
        elapsed_ms: 0,
        logs: Seq::empty(),
    }
}

/// State `t` of `history` had not ended, and the next one is what `step`
/// gives for the actions and the choices of tick `t`.
pub open spec fn step_holds(
    history: Seq<StateView>,
    actions: Seq<[Action; 2]>,
    choices: Seq<Choices>,
    t: int,
) -> bool {
    &&& history[t].phase is Neutral
    &&& history[t + 1] == history[t].step(actions[t][0], actions[t][1], choices[t])
}

/// `history` is what the actions and the choices lead to, tick by tick,
/// from its first state.
pub open spec fn is_run(
    history: Seq<StateView>,
    actions: Seq<[Action; 2]>,
    choices: Seq<Choices>,
) -> bool {
    &&& history.len() == actions.len() + 1
    &&& choices.len() == actions.len()
    &&& forall|t: int| 0 <= t < actions.len() ==> #[trigger] step_holds(history, actions, choices, t)
}

/// State `t + 1` of `history` follows state `t`.
pub open spec fn follows_at(history: Seq<StateView>, t: int) -> bool {
    history[t + 1].follows(history[t])
}

/// `history` is a record of a battle under `actions`: for some choices it
/// is their run; every state is well formed; and every state follows the
/// one before it.
pub open spec fn is_record(history: Seq<StateView>, actions: Seq<[Action; 2]>) -> bool {
    &&& exists|choices: Seq<Choices>| is_run(history, actions, choices)
    &&& forall|t: int| 0 <= t < history.len() ==> (#[trigger] history[t]).wf()
    &&& forall|t: int| 0 <= t < history.len() - 1 ==> #[trigger] follows_at(history, t)
}

impl<S0: Strategy, S1: Strategy> Battle<S0, S1> {
    /// The states so far, as plain values.
    pub open spec fn history(&self) -> Seq<StateView> {
        self.states@.map_values(|s: State| s@)
    }

    /// The states and actions are a record of a battle.
    pub open spec fn wf(&self) -> bool {
        is_record(self.history(), self.actions@)
    }

    /// The latest state.
    pub open spec fn last(&self) -> StateView {
        self.history().last()
    }

    /// The actions of tick `t` are what the two strategies give, each for
    /// its player as it stood in the state before the tick.
    pub open spec fn played_by_strategies(&self, t: int) -> bool {
        &&& call_ensures(
            S0::action,
            (&self.strategy0, &self.states@[t].player0),
            self.actions@[t][0],
        )
        &&& call_ensures(
            S1::action,
            (&self.strategy1, &self.states@[t].player1),
            self.actions@[t][1],
        )
    }
}

} // verus!
