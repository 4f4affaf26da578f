//! A player in a battle: the roster, the creature in the field, and the
//! counters that say what the player may do.

use vstd::prelude::*;
use vstd::string::*;
use crate::battle::{Action, SWITCH_COOLDOWN_MS};
use crate::creature::{fresh_creature, BattlePokemon};
use crate::damage::rank_mul;
use crate::pokemon::Pokemon;

verus! {

/// A player in a battle.
#[derive(Debug, Clone)]
pub struct Player {
    pub name: String,
    /// The roster; its order is the order in which a forced switch looks
    /// for the next creature.
    pub team: Vec<BattlePokemon>,
    /// The roster slot of the creature in the field.
    pub cur_poke: usize,
    /// Shields left.
    pub num_shields: i32,
    /// Milliseconds until the player can switch again; 0 where it can.
    pub switch_ms: i32,
    /// The action that was asked for while a fast move was under way.
    pub pending: Action,
    /// A fast move is under way.
    pub in_fast_move: bool,
    /// Ticks until the fast move under way is carried out.
    pub dur_turns: i32,
}

/// What a `Player` holds, as plain values.
pub struct PlayerView {
    pub name: Seq<char>,
    pub team: Seq<BattlePokemon>,
    pub cur_poke: usize,
    pub num_shields: i32,
    pub switch_ms: i32,
    pub pending: Action,
    pub in_fast_move: bool,
    pub dur_turns: i32,
}

impl View for Player {
    type V = PlayerView;

    open spec fn view(&self) -> PlayerView {
        PlayerView {
            name: self.name@,
            team: self.team@,
            cur_poke: self.cur_poke,
            num_shields: self.num_shields,
            switch_ms: self.switch_ms,
            pending: self.pending,
            in_fast_move: self.in_fast_move,
            dur_turns: self.dur_turns,
        }
    }
}

/// How many of the first `n` creatures of `team` have hit points left.
pub open spec fn remains_upto(team: Seq<BattlePokemon>, n: nat) -> int
    decreases n,
{
    if n == 0 {
        0
    } else {
        remains_upto(team, (n - 1) as nat) + if n <= team.len() && team[n - 1].hp > 0 {
            1int
        } else {
            0int
        }
    }
}

/// The hit points of the first `n` creatures of `team` together.
pub open spec fn hp_upto(team: Seq<BattlePokemon>, n: nat) -> int
    decreases n,
{
    if n == 0 {
        0
    } else {
        hp_upto(team, (n - 1) as nat) + if n <= team.len() {
            team[n - 1].hp as int
        } else {
            0int
        }
    }
}

/// The roster at the start of a battle.
pub open spec fn fresh_team(team: Seq<Pokemon>) -> Seq<BattlePokemon> {
    Seq::new(team.len(), |i: int| fresh_creature(team[i]))
}

/// The player at the start of a battle.
pub open spec fn fresh_player(name: Seq<char>, team: Seq<Pokemon>) -> PlayerView {
    PlayerView {
        name,
        team: fresh_team(team),
        cur_poke: 0,
        num_shields: 2,
        switch_ms: 0,
        pending: Action::Idle,
        in_fast_move: false,
        dur_turns: 0,
    }
}

/// A roster that a player can hold: it is not empty, its creatures are well
/// formed, and their number and their hit points together fit in 32 bits.
pub open spec fn team_fits(team: Seq<Pokemon>) -> bool {
    &&& 1 <= team.len() <= i32::MAX
    &&& forall|i: int| 0 <= i < team.len() ==> (#[trigger] team[i]).wf()
    &&& hp_upto(fresh_team(team), team.len()) <= i32::MAX
}

impl PlayerView {
    /// The roster is not empty, the slot in the field exists, every creature
    /// is well formed, and the counters are in their ranges.
    pub open spec fn wf(self) -> bool {
        &&& 1 <= self.team.len() <= i32::MAX
        &&& self.cur_poke < self.team.len()
        &&& forall|i: int| 0 <= i < self.team.len() ==> (#[trigger] self.team[i]).wf()
        &&& hp_upto(self.team, self.team.len()) <= i32::MAX
        &&& self.num_shields >= 0
        &&& 0 <= self.switch_ms <= SWITCH_COOLDOWN_MS
        &&& self.dur_turns >= -1
    }

    /// The creature in the field.
    pub open spec fn active(self) -> BattlePokemon {
        self.team[self.cur_poke as int]
    }

    /// The player with `poke` in place of the creature in the field.
    pub open spec fn with_active(self, poke: BattlePokemon) -> PlayerView {
        PlayerView { team: self.team.update(self.cur_poke as int, poke), ..self }
    }

    /// How many creatures have hit points left.
    pub open spec fn num_remains(self) -> int {
        remains_upto(self.team, self.team.len())
    }

    /// The hit points of all creatures together.
    pub open spec fn sum_hp(self) -> int {
        hp_upto(self.team, self.team.len())
    }

    /// Every creature has fainted.
    pub open spec fn is_ended(self) -> bool {
        forall|i: int| 0 <= i < self.team.len() ==> self.team[i].hp <= 0
    }

    /// The player after `action` was asked for during a fast move. A charge
    /// move replaces neither a switch nor a charge move that is waiting: once
    /// a charge move waits, only a switch takes its place. A fast move is
    /// never kept. A switch replaces whatever is waiting.
    pub open spec fn queue(self, action: Action) -> PlayerView {
        match action {
            Action::ChargeMove(_) => match self.pending {
                Action::SwitchPokemon(_) => self,
                Action::ChargeMove(_) => self,
                _ => PlayerView { pending: action, ..self },
            },
            Action::FastMove => self,
            _ => PlayerView { pending: action, ..self },
        }
    }

    /// Whether the player can bring in the creature of slot `i` by choice:
    /// no cooldown runs, the slot exists and its creature has hit points left.
    pub open spec fn can_switch_to(self, i: usize) -> bool {
        &&& self.switch_ms <= 0
        &&& i < self.team.len()
        &&& self.team[i as int].hp > 0
    }

    /// The player after bringing in the creature of slot `i` by choice: the
    /// creature that leaves loses its stat stages, the cooldown starts, and
    /// the fast move under way and the waiting action are dropped.
    pub open spec fn switched_to(self, i: usize) -> PlayerView {
        PlayerView {
            team: self.team.update(
                self.cur_poke as int,
                BattlePokemon { buff: (0, 0), ..self.active() },
            ),
            cur_poke: i,
            switch_ms: SWITCH_COOLDOWN_MS,
            in_fast_move: false,
            dur_turns: 0,
            pending: Action::Idle,
            ..self
        }
    }

    /// The `k`-th slot that a forced switch looks at: 1, 2, … and at last 0.
    pub open spec fn slot_in_order(self, k: int) -> int {
        if k + 1 < self.team.len() {
            k + 1
        } else {
            0
        }
    }

    /// Whether a forced switch may bring in the creature of slot `i`: it is
    /// not the one in the field and has hit points left.
    pub open spec fn eligible(self, i: int) -> bool {
        &&& 0 <= i < self.team.len()
        &&& i != self.cur_poke
        &&& self.team[i].hp > 0
    }

    /// The first eligible slot among those that a forced switch looks at
    /// from the `k`-th on.
    pub open spec fn force_target_from(self, k: int) -> Option<usize>
        decreases self.team.len() - k,
    {
        if k < 0 || k >= self.team.len() {
            None
        } else if self.eligible(self.slot_in_order(k)) {
            Some(self.slot_in_order(k) as usize)
        } else {
            self.force_target_from(k + 1)
        }
    }

    /// The slot that a forced switch brings in: the first eligible one in
    /// the order 1, 2, …, 0.
    pub open spec fn force_target(self) -> Option<usize> {
        self.force_target_from(0)
    }

    /// The player after a forced switch to slot `i`: the creature that
    /// leaves loses its stat stages, and the fast move under way and the
    /// waiting action are dropped; no cooldown starts.
    pub open spec fn forced_to(self, i: usize) -> PlayerView {
        PlayerView {
            team: self.team.update(
                self.cur_poke as int,
                BattlePokemon { buff: (0, 0), ..self.active() },
            ),
            cur_poke: i,
            in_fast_move: false,
            dur_turns: 0,
            pending: Action::Idle,
            ..self
        }
    }

    /// The player after a forced switch, if there is a slot for it.
    pub open spec fn force_switched(self) -> PlayerView {
        match self.force_target() {
            Some(i) => self.forced_to(i),
            None => self,
        }
    }

    /// This player comes after `before` in a battle: the same name and
    /// creatures, and no creature has more hit points than it had.
    #[verifier::opaque]
    pub open spec fn follows(self, before: PlayerView) -> bool {
        &&& self.name == before.name
        &&& self.team.len() == before.team.len()
        &&& forall|i: int|
            0 <= i < self.team.len() ==> {
                &&& (#[trigger] self.team[i]).poke == before.team[i].poke
                &&& 0 <= self.team[i].hp <= before.team[i].hp
            }
    }
}

impl PlayerView {
    /// A fast move is under way and due.
    pub open spec fn fast_ready(self) -> bool {
        self.in_fast_move && self.dur_turns == 0
    }

    /// The creature in the field has fainted and another has hit points left.
    pub open spec fn needs_switch(self) -> bool {
        self.active().hp <= 0 && self.num_remains() > 0
    }

    /// Whether the player, asked to replace the fainted creature with that
    /// of slot `choice`, does so by choice.
    #[verifier::opaque]
    pub open spec fn replaces_by_choice(self, choice: usize) -> bool {
        self.needs_switch() && self.can_switch_to(choice)
    }

    /// The player after replacing a fainted creature: with the creature of
    /// slot `choice` where the player can switch to it, else by a forced
    /// switch. A player that needs no switch is left as it is.
    #[verifier::opaque]
    pub open spec fn replaced(self, choice: usize) -> PlayerView {
        if !self.needs_switch() {
            self
        } else if self.can_switch_to(choice) {
            self.switched_to(choice)
        } else {
            self.force_switched()
        }
    }

    /// The attack that decides which charge move goes first, to be compared
    /// with that of `opponent`: the attack of the creature in the field at
    /// its stage, which is the attack times the fraction of the stage,
    /// brought to the denominator that it shares with the opponent's. Of
    /// two players the one with the greater number has the higher attack at
    /// its stage, and the numbers are equal exactly where the attacks are.
    #[verifier::opaque]
    pub open spec fn charge_priority(self, opponent: PlayerView) -> int {
        let a = self.active();
        let m = crate::damage::rank_mul_spec(a.buff.0 as int);
        let n = crate::damage::rank_mul_spec(opponent.active().buff.0 as int);
        a.poke.stats_spec().attack * m.num * n.den
    }
}

/// The line for a charge move that was turned down for want of energy.
pub open spec fn note_no_energy(name: Seq<char>, mv: Seq<char>) -> Seq<char> {
    "["@ + name + "] "@ + mv + "に必要なエネルギーが足りない"@
}

/// The line for a charge move of an empty slot.
pub open spec fn note_no_slot(name: Seq<char>, i: u8) -> Seq<char> {
    "["@ + name + "] スペシャルアタック"@ + crate::text::decimal_spec(i as nat) + "が存在しない"@
}

/// The line for a charge move of a slot that is neither 0 nor 1.
pub open spec fn note_bad_slot(name: Seq<char>, i: u8) -> Seq<char> {
    "["@ + name + "] 不正な値 Action::ChargeMove("@ + crate::text::decimal_spec(i as nat) + ")"@
}

/// The line for a switch that was turned down.
pub open spec fn note_no_switch(name: Seq<char>, i: u8) -> Seq<char> {
    "["@ + name + "] ポケモン"@ + crate::text::decimal_spec(i as nat) + "に交代できない"@
}

/// What becomes of a player's action at the start of a tick.
pub struct Intake {
    /// The player after the action was taken in.
    pub player: PlayerView,
    /// The player has started a fast move that takes one tick.
    pub one_turn: bool,
    /// The slot of the charge move that the player uses in this tick, or 2.
    pub charge: usize,
    /// The line for the action, where it was turned down.
    pub note: Option<Seq<char>>,
}

impl PlayerView {
    /// The player after starting its fast move.
    pub open spec fn started_fast_move(self) -> PlayerView {
        PlayerView {
            in_fast_move: true,
            dur_turns: (self.active().poke.fast_move.turns - 1) as i32,
            ..self
        }
    }

    /// What becomes of `action` at the start of a tick.
    ///
    /// While a fast move is under way, a switch or a charge move that the
    /// creature has the energy for is kept as `queue` says, and a fast move
    /// is dropped. Else a switch takes place where `can_switch_to` allows
    /// it; a fast move starts, with a lockout of its duration less one; a
    /// charge move is taken up for this tick where its slot, 0 or 1, holds
    /// a move and the energy suffices. An action that cannot take place is
    /// turned down with a line for the log.
    #[verifier::opaque]
    pub open spec fn intake(self, action: Action) -> Intake {
        let same = Intake { player: self, one_turn: false, charge: 2, note: None };
        match action {
            Action::Idle => same,
            Action::SwitchPokemon(k) => if self.in_fast_move {
                Intake { player: self.queue(action), ..same }
            } else if self.can_switch_to(k as usize) {
                Intake { player: self.switched_to(k as usize), ..same }
            } else {
                Intake { note: Some(note_no_switch(self.name, k)), ..same }
            },
            Action::FastMove => if self.in_fast_move {
                same
            } else {
                Intake {
                    player: self.started_fast_move(),
                    one_turn: self.active().poke.fast_move.turns - 1 == 0,
                    ..same
                }
            },
            Action::ChargeMove(i) => if i > 1 {
                Intake { note: Some(note_bad_slot(self.name, i)), ..same }
            } else {
                match self.active().poke.charge_move_spec(i as int) {
                    None => Intake { note: Some(note_no_slot(self.name, i)), ..same },
                    Some(mv) => if !self.active().can_charge_move_spec(i as int) {
                        Intake { note: Some(note_no_energy(self.name, mv.name@)), ..same }
                    } else if self.in_fast_move {
                        Intake { player: self.queue(action), ..same }
                    } else {
                        Intake { charge: i as usize, ..same }
                    },
                }
            },
        }
    }
}

/// As long as no creature has negative hit points, the sum of some is at
/// most the sum of more.
pub proof fn lemma_hp_upto_monotone(team: Seq<BattlePokemon>, m: nat, n: nat)
    requires
        m <= n,
        forall|i: int| 0 <= i < team.len() ==> team[i].hp >= 0,
    ensures
        0 <= hp_upto(team, m) <= hp_upto(team, n),
    decreases n,
{
    if m < n {
        lemma_hp_upto_monotone(team, m, (n - 1) as nat);
    } else if n > 0 {
        lemma_hp_upto_monotone(team, (m - 1) as nat, (n - 1) as nat);
    }
}

/// Where no slot has more hit points in `b` than in `a`, the sum of `b` is
/// at most that of `a`.
pub proof fn lemma_hp_upto_le(a: Seq<BattlePokemon>, b: Seq<BattlePokemon>, n: nat)
    requires
        a.len() == b.len(),
        forall|i: int| 0 <= i < a.len() ==> b[i].hp <= a[i].hp,
    ensures
        hp_upto(b, n) <= hp_upto(a, n),
    decreases n,
{
    if n > 0 {
        lemma_hp_upto_le(a, b, (n - 1) as nat);
    }
}

/// The count of creatures with hit points left lies between zero and the
/// number of creatures counted.
pub proof fn lemma_remains_bound(team: Seq<BattlePokemon>, n: nat)
    ensures
        0 <= remains_upto(team, n) <= n,
    decreases n,
{
    if n > 0 {
        lemma_remains_bound(team, (n - 1) as nat);
    }
}

/// None of the first `n` creatures has hit points left exactly where their
/// count is zero.
pub proof fn lemma_remains_zero(team: Seq<BattlePokemon>, n: nat)
    requires
        n <= team.len(),
    ensures
        (remains_upto(team, n) == 0) == (forall|i: int| 0 <= i < n ==> team[i].hp <= 0),
    decreases n,
{
    if n > 0 {
        lemma_remains_zero(team, (n - 1) as nat);
        lemma_remains_bound(team, (n - 1) as nat);
        if remains_upto(team, n) == 0 {
            assert forall|i: int| 0 <= i < n implies team[i].hp <= 0 by {
                if i < n - 1 {
                }
            }
        }
    }
}

/// `q` is the player `p` after a switch: by choice to some slot that the
/// player could switch to, or forced.
pub open spec fn is_after_switch(p: PlayerView, q: PlayerView) -> bool {
    ||| exists|i: usize| p.can_switch_to(i) && q == #[trigger] p.switched_to(i)
    ||| p.force_target() is Some && q == p.force_switched()
}

/// Every switch, by choice or forced, takes the stat stages from the
/// creature that leaves, brings in another slot's creature with hit points
/// left, and ends the fast move under way.
pub proof fn lemma_switch_resets(p: PlayerView, q: PlayerView)
    requires
        p.cur_poke < p.team.len(),
        p.team.len() <= usize::MAX,
        is_after_switch(p, q),
    ensures
        q.team[p.cur_poke as int].buff == (0i32, 0i32),
        q.cur_poke < q.team.len(),
        q.active().hp > 0,
        !q.in_fast_move,
        q.dur_turns == 0,
        q.pending == Action::Idle,
{
    if p.force_target() is Some && q == p.force_switched() {
        lemma_force_target_eligible(p, 0);
    }
}

/// Right after a switch by choice the player cannot switch by choice
/// again, neither back nor to any other slot: the cooldown runs. After a
/// forced switch the creature that has left cannot come back while it has
/// no hit points.
pub proof fn lemma_no_switch_back(p: PlayerView, i: usize, j: usize)
    requires
        p.cur_poke < p.team.len(),
    ensures
        p.can_switch_to(i) ==> !p.switched_to(i).can_switch_to(j),
        p.force_target() is Some && p.active().hp <= 0 ==> !p.force_switched().can_switch_to(
            p.cur_poke,
        ),
{
}

/// A well-formed player stays well formed, and follows its former self,
/// where the creature in its field is replaced by the same creature with
/// no more hit points, and counters within their ranges are set.
pub proof fn lemma_slot_replaced(p: PlayerView, q: PlayerView, poke: BattlePokemon)
    requires
        p.wf(),
        poke.wf(),
        poke.poke == p.active().poke,
        poke.hp <= p.active().hp,
        q.name == p.name,
        q.team == p.team.update(p.cur_poke as int, poke),
        q.cur_poke < q.team.len(),
        q.num_shields >= 0,
        0 <= q.switch_ms <= SWITCH_COOLDOWN_MS,
        q.dur_turns >= -1,
    ensures
        q.wf(),
        q.follows(p),
{
    reveal(PlayerView::follows);
    lemma_hp_upto_le(p.team, q.team, q.team.len());
    assert forall|j: int| 0 <= j < q.team.len() implies (#[trigger] q.team[j]).wf() && q.team[j].poke
        == p.team[j].poke && 0 <= q.team[j].hp <= p.team[j].hp by {
        assert(p.team[j].wf());
    }
}

/// A forced switch finds a slot where a creature other than the one in the
/// field has hit points left.
pub proof fn lemma_force_target_exists(p: PlayerView, k: int, i: int)
    requires
        0 <= k <= p.team.len(),
        p.eligible(i),
        forall|j: int| 0 <= j < k ==> !p.eligible(p.slot_in_order(j)),
    ensures
        p.force_target_from(k) is Some,
    decreases p.team.len() - k,
{
    if k >= p.team.len() {
        let j = if i == 0 {
            p.team.len() - 1
        } else {
            i - 1
        };
        assert(p.slot_in_order(j) == i);
    } else if !p.eligible(p.slot_in_order(k)) {
        lemma_force_target_exists(p, k + 1, i);
    }
}

/// The slot that a forced switch finds is eligible.
pub proof fn lemma_force_target_eligible(p: PlayerView, k: int)
    requires
        0 <= k,
        p.team.len() <= usize::MAX,
    ensures
        p.force_target_from(k) is Some ==> p.eligible(p.force_target_from(k).unwrap() as int),
    decreases p.team.len() - k,
{
    if k < p.team.len() && !p.eligible(p.slot_in_order(k)) {
        lemma_force_target_eligible(p, k + 1);
    }
}

/// Whether a player can hold the roster, as `team_fits` says.
pub fn team_is_fit(team: &Vec<Pokemon>) -> (r: bool)
    ensures
        r == team_fits(team@),
{
    if team.len() == 0 || team.len() > 0x7FFF_FFFF {
        return false;
    }
    let ghost fresh = fresh_team(team@);
    let mut sum: i64 = 0;
    let mut i: usize = 0;
    while i < team.len()
        invariant
            i <= team.len(),
            1 <= team.len() <= i32::MAX,
            fresh == fresh_team(team@),
            forall|j: int| 0 <= j < i ==> (#[trigger] team@[j]).wf(),
            sum == hp_upto(fresh, i as nat),
            0 <= sum <= i32::MAX,
        decreases team.len() - i,
    {
        if !team[i].is_valid() {
            proof {
                assert(!team@[i as int].wf());
            }
            return false;
        }
        let hp = team[i].hp();
        proof {
            assert(fresh[i as int] == fresh_creature(team@[i as int]));
            assert(fresh[i as int].hp == hp);
        }
        sum = sum + hp as i64;
        if sum > 0x7FFF_FFFF {
            proof {
                assert forall|j: int| 0 <= j < fresh.len() implies fresh[j].hp >= 0 by {
                    if j >= 0 && j < team@.len() {
                        assert(fresh[j] == fresh_creature(team@[j]));
                        let st = team@[j].stats_spec();
                        assert(st.hp_spec() >= 0);
                    }
                }
                lemma_hp_upto_monotone(fresh, (i + 1) as nat, team@.len());
            }
            return false;
        }
        i += 1;
    }
    true
}

impl Player {
    /// A player with the given creatures, unhurt, the first of them in the
    /// field, and two shields.
    pub fn new(name: String, poke_team: Vec<Pokemon>) -> (r: Player)
        requires
            forall|i: int| 0 <= i < poke_team@.len() ==> (#[trigger] poke_team@[i]).wf(),
        ensures
            r@ == fresh_player(name@, poke_team@),
            team_fits(poke_team@) ==> r@.wf(),
    {
        let mut team: Vec<BattlePokemon> = Vec::new();
        let mut i: usize = 0;
        while i < poke_team.len()
            invariant
                i <= poke_team.len(),
                team@.len() == i,
                forall|j: int| 0 <= j < poke_team@.len() ==> (#[trigger] poke_team@[j]).wf(),
                forall|j: int|
                    0 <= j < i ==> (#[trigger] team@[j]) == fresh_creature(poke_team@[j])
                        && team@[j].wf(),
            decreases poke_team.len() - i,
        {
            team.push(BattlePokemon::new(poke_team[i]));
            i += 1;
        }
        proof {
            assert(team@ =~= fresh_team(poke_team@));
        }
        Player {
            name,
            team,
            cur_poke: 0,
            num_shields: 2,
            switch_ms: 0,
            pending: Action::Idle,
            in_fast_move: false,
            dur_turns: 0,
        }
    }

    /// The creature in the field, to be changed.
    pub fn poke_mut(&mut self) -> (r: &mut BattlePokemon)
        requires
            old(self).cur_poke < old(self).team@.len(),
        ensures
            *r == old(self)@.active(),
            final(self)@ == old(self)@.with_active(*final(r)),
    {
        &mut self.team[self.cur_poke]
    }

    /// The creature in the field.
    pub fn poke(&self) -> (r: &BattlePokemon)
        requires
            self.cur_poke < self.team@.len(),
        ensures
            *r == self@.active(),
    {
        &self.team[self.cur_poke]
    }

    pub fn poke_name(&self) -> (r: &'static str)
        requires
            self.cur_poke < self.team@.len(),
        ensures
            r == self@.active().poke.dict.name,
    {
        self.team[self.cur_poke].name()
    }

    /// How many creatures have hit points left.
    pub fn num_remains(&self) -> (r: i32)
        requires
            self.team@.len() <= i32::MAX,
        ensures
            r == self@.num_remains(),
            (r == 0) == self@.is_ended(),
    {
        let mut n: i32 = 0;
        let mut i: usize = 0;
        while i < self.team.len()
            invariant
                i <= self.team.len(),
                self.team@.len() <= i32::MAX,
                n == remains_upto(self.team@, i as nat),
                0 <= n <= i,
            decreases self.team.len() - i,
        {
            if self.team[i].hp > 0 {
                n += 1;
            }
            i += 1;
        }
        proof {
            lemma_remains_zero(self.team@, self.team@.len());
        }
        n
    }

    /// The hit points of all creatures together.
    pub fn sum_hp(&self) -> (r: i32)
        requires
            self@.wf(),
        ensures
            r == self@.sum_hp(),
    {
        let mut sum: i32 = 0;
        let mut i: usize = 0;
        while i < self.team.len()
            invariant
                i <= self.team.len(),
                self@.wf(),
                sum == hp_upto(self.team@, i as nat),
            decreases self.team.len() - i,
        {
            proof {
                assert forall|j: int| 0 <= j < self.team@.len() implies self.team@[j].hp >= 0 by {
                    assert(self@.team[j].wf());
                }
                lemma_hp_upto_monotone(self.team@, (i + 1) as nat, self.team@.len());
                lemma_hp_upto_monotone(self.team@, i as nat, (i + 1) as nat);
            }
            sum = sum + self.team[i].hp;
            i += 1;
        }
        sum
    }

    /// Whether every creature has fainted.
    pub fn is_ended(&self) -> (r: bool)
        ensures
            r == self@.is_ended(),
    {
        let mut i: usize = 0;
        while i < self.team.len()
            invariant
                i <= self.team.len(),
                forall|j: int| 0 <= j < i ==> self.team@[j].hp <= 0,
            decreases self.team.len() - i,
        {
            if self.team[i].hp > 0 {
                return false;
            }
            i += 1;
        }
        true
    }

    /// Keeps `action` for later, as `PlayerView::queue` says.
    pub fn set_pending(&mut self, action: Action)
        ensures
            final(self)@ == old(self)@.queue(action),
    {
        match action {
            Action::ChargeMove(_) => {
                match self.pending {
                    Action::SwitchPokemon(_) => {},
                    Action::ChargeMove(_) => {},
                    _ => {
                        self.pending = action;
                    },
                }
            },
            Action::FastMove => {},
            _ => {
                self.pending = action;
            },
        }
    }

    /// Brings in the creature of slot `i` by the player's choice, where
    /// `PlayerView::can_switch_to` allows it, and says whether it did.
    pub fn switch_pokemon(&mut self, i: usize) -> (r: bool)
        requires
            old(self).cur_poke < old(self).team@.len(),
        ensures
            r == old(self)@.can_switch_to(i),
            r ==> final(self)@ == old(self)@.switched_to(i),
            !r ==> final(self)@ == old(self)@,
            old(self)@.wf() ==> final(self)@.wf() && final(self)@.follows(old(self)@),
    {
        proof {
            reveal(PlayerView::follows);
        }
        if self.switch_ms > 0 {
            return false;
        }
        if i >= self.team.len() {
            return false;
        }
        if self.team[i].hp <= 0 {
            return false;
        }
        let mut cur = self.team[self.cur_poke];
        cur.buff = (0, 0);
        self.team.set(self.cur_poke, cur);
        self.cur_poke = i;
        self.switch_ms = SWITCH_COOLDOWN_MS;
        self.in_fast_move = false;
        self.dur_turns = 0;
        self.pending = Action::Idle;
        proof {
            if old(self)@.wf() {
                lemma_slot_replaced(old(self)@, self@, cur);
            }
        }
        true
    }

    /// Brings in the next creature after the one in the field has fainted
    /// and the player has not chosen: the first in the order 1, 2, …, 0 that
    /// is not in the field and has hit points left. There has to be one.
    /// Returns `true`.
    pub fn force_switch(&mut self) -> (r: bool)
        requires
            old(self).cur_poke < old(self).team@.len(),
            old(self)@.force_target() is Some,
        ensures
            r,
            final(self)@ == old(self)@.forced_to(old(self)@.force_target().unwrap()),
            final(self)@ == old(self)@.force_switched(),
            final(self)@.active().hp > 0,
            old(self)@.wf() ==> final(self)@.wf() && final(self)@.follows(old(self)@),
    {
        let n = self.team.len();
        let mut i: usize = 1;
        while i < n && (i == self.cur_poke || self.team[i].hp <= 0)
            invariant
                1 <= i <= n,
                n == self.team@.len(),
                *self == *old(self),
                self@.force_target() == self@.force_target_from(i - 1),
            decreases n - i,
        {
            i += 1;
        }
        let target: usize = if i < n {
            i
        } else {
            0
        };
        proof {
            let p = self@;
            if i < n {
                assert(p.slot_in_order(i - 1) == i);
                assert(p.eligible(i as int));
            } else {
                assert(p.slot_in_order(n - 1) == 0);
                assert(p.force_target_from(n as int) is None);
                assert(p.eligible(0));
            }
            assert(p.force_target_from(i - 1) == Some(target));
        }
        let mut out = self.team[self.cur_poke];
        out.buff = (0, 0);
        self.team.set(self.cur_poke, out);
        self.cur_poke = target;
        self.in_fast_move = false;
        self.dur_turns = 0;
        self.pending = Action::Idle;
        proof {
            if old(self)@.wf() {
                lemma_slot_replaced(old(self)@, self@, out);
            }
        }
        true
    }
}

impl Player {
    /// Puts `poke` in place of the creature in the field, which it is with
    /// no more hit points than before.
    pub fn set_poke(&mut self, poke: BattlePokemon)
        requires
            old(self)@.wf(),
            poke.wf(),
            poke.poke == old(self)@.active().poke,
            poke.hp <= old(self)@.active().hp,
        ensures
            final(self)@ == old(self)@.with_active(poke),
            final(self)@.wf(),
            final(self)@.follows(old(self)@),
    {
        self.team.set(self.cur_poke, poke);
        proof {
            lemma_slot_replaced(old(self)@, self@, poke);
        }
    }

    /// A copy of the player.
    pub fn snapshot(&self) -> (r: Player)
        ensures
            r@ == self@,
    {
        let mut team: Vec<BattlePokemon> = Vec::new();
        let mut i: usize = 0;
        while i < self.team.len()
            invariant
                i <= self.team.len(),
                team@ == self.team@.take(i as int),
            decreases self.team.len() - i,
        {
            team.push(self.team[i]);
            proof {
                assert(team@ =~= self.team@.take(i as int + 1));
            }
            i += 1;
        }
        proof {
            assert(team@ =~= self.team@);
        }
        Player {
            name: self.name.clone(),
            team,
            cur_poke: self.cur_poke,
            num_shields: self.num_shields,
            switch_ms: self.switch_ms,
            pending: self.pending,
            in_fast_move: self.in_fast_move,
            dur_turns: self.dur_turns,
        }
    }
}

impl Player {
    /// Whether the creature in the field has fainted while another has hit
    /// points left.
    pub fn needs_switch(&self) -> (r: bool)
        requires
            self@.wf(),
        ensures
            r == self@.needs_switch(),
    {
        self.poke().is_faint() && self.num_remains() > 0
    }

    /// Replaces the fainted creature in the field, if the player needs to:
    /// with the creature of slot `choice` where the player can switch to it,
    /// else by a forced switch. Says whether a creature came in by choice.
    pub fn replace_fainted(&mut self, choice: usize) -> (r: bool)
        requires
            old(self)@.wf(),
        ensures
            final(self)@ == old(self)@.replaced(choice),
            r == old(self)@.replaces_by_choice(choice),
            final(self)@.wf(),
            final(self)@.follows(old(self)@),
            old(self)@.needs_switch() ==> final(self)@.active().hp > 0,
    {
        proof {
            reveal(PlayerView::replaced);
            reveal(PlayerView::replaces_by_choice);
            reveal(PlayerView::follows);
        }
        if !self.needs_switch() {
            return false;
        }
        if self.switch_pokemon(choice) {
            return true;
        }
        proof {
            let p = self@;
            lemma_remains_zero(p.team, p.team.len());
            let i = choose|i: int| 0 <= i < p.team.len() && p.team[i].hp > 0;
            lemma_force_target_exists(p, 0, i);
            lemma_force_target_eligible(p, 0);
        }
        self.force_switch();
        false
    }

    /// The attack that decides which charge move goes first, to be compared
    /// with that of `opponent`, as `PlayerView::charge_priority` says.
    pub fn charge_priority(&self, opponent: &Player) -> (r: u128)
        requires
            self@.wf(),
            opponent@.wf(),
        ensures
            r == self@.charge_priority(opponent@),
    {
        proof {
            reveal(PlayerView::charge_priority);
        }
        let a = self.poke();
        let m = rank_mul(a.buff.0);
        let n = rank_mul(opponent.poke().buff.0);
        let attack = a.poke.stats().attack;
        assert(0 <= attack * m.num <= 0xFFFF_FFFF_FFFF_FFFF * 7 && 0 <= attack * m.num * n.den
            <= 0xFFFF_FFFF_FFFF_FFFF * 7 * 7) by (nonlinear_arith)
            requires
                0 <= attack <= 0xFFFF_FFFF_FFFF_FFFF,
                0 <= m.num <= 7,
                0 <= n.den <= 7,
        ;
        (attack as u128) * (m.num as u128) * (n.den as u128)
    }

    /// Takes in `action` at the start of a tick, as `PlayerView::intake`
    /// says. Returns whether a fast move of one tick has started, the slot of
    /// the charge move for this tick or 2, and the line for an action that
    /// was turned down.
    pub fn accept(&mut self, action: Action) -> (r: (bool, usize, Option<String>))
        requires
            old(self)@.wf(),
        ensures
            final(self)@ == old(self)@.intake(action).player,
            r.0 == old(self)@.intake(action).one_turn,
            r.1 == old(self)@.intake(action).charge,
            r.1 <= 2,
            match r.2 {
                Some(l) => old(self)@.intake(action).note == Some(l@),
                None => old(self)@.intake(action).note is None,
            },
            final(self)@.wf(),
            final(self)@.follows(old(self)@),
    {
        proof {
            reveal(PlayerView::intake);
            reveal(PlayerView::follows);
        }
        match action {
            Action::Idle => (false, 2, None),
            Action::SwitchPokemon(k) => {
                if self.in_fast_move {
                    self.set_pending(action);
                    (false, 2, None)
                } else if self.switch_pokemon(k as usize) {
                    (false, 2, None)
                } else {
                    let mut l = String::new();
                    l.append("[");
                    l.append(self.name.as_str());
                    l.append("] ポケモン");
                    crate::text::push_decimal(&mut l, k as u64);
                    l.append("に交代できない");
                    proof {
                        assert(l@ =~= note_no_switch(self@.name, k));
                    }
                    (false, 2, Some(l))
                }
            },
            Action::FastMove => {
                if !self.in_fast_move {
                    let turns = self.poke().poke.fast_move.turns;
                    proof {
                        assert(self@.active().wf());
                    }
                    self.in_fast_move = true;
                    self.dur_turns = turns - 1;
                    (turns - 1 == 0, 2, None)
                } else {
                    (false, 2, None)
                }
            },
            Action::ChargeMove(i) => {
                if i > 1 {
                    let mut l = String::new();
                    l.append("[");
                    l.append(self.name.as_str());
                    l.append("] 不正な値 Action::ChargeMove(");
                    crate::text::push_decimal(&mut l, i as u64);
                    l.append(")");
                    proof {
                        assert(l@ =~= note_bad_slot(self@.name, i));
                    }
                    return (false, 2, Some(l));
                }
                match self.poke().charge_move(i as usize) {
                    None => {
                        let mut l = String::new();
                        l.append("[");
                        l.append(self.name.as_str());
                        l.append("] スペシャルアタック");
                        crate::text::push_decimal(&mut l, i as u64);
                        l.append("が存在しない");
                        proof {
                            assert(l@ =~= note_no_slot(self@.name, i));
                        }
                        (false, 2, Some(l))
                    },
                    Some(mv) => {
                        if !self.poke().can_charge_move(i as usize) {
                            let mut l = String::new();
                            l.append("[");
                            l.append(self.name.as_str());
                            l.append("] ");
                            l.append(mv.name);
                            l.append("に必要なエネルギーが足りない");
                            proof {
                                assert(l@ =~= note_no_energy(self@.name, mv.name@));
                            }
                            (false, 2, Some(l))
                        } else if self.in_fast_move {
                            self.set_pending(action);
                            (false, 2, None)
                        } else {
                            (false, i as usize, None)
                        }
                    },
                }
            },
        }
    }
}

} // verus!
