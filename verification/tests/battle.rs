use pokebattle::battle::{
    Action, Battle, BattlePokemon, DefaultStrategy, Phase, Player, State, Strategy, LIMIT_TURN,
    MS_PER_TURN, SWITCH_COOLDOWN_MS, SWITCH_MS,
};
use pokebattle::chance::triggers;
use pokebattle::damage::{calc_damage, rank_mul, Hit};
use pokebattle::pokemon::Pokemon;
use pokebattle::pokepedia::Pokepedia;
use pokebattle::state::{ChargeChoices, Choices};
use pokebattle::ratio::{Ratio, SCALE};
use pokebattle::types::Type;

fn species(no: &'static str, name: &'static str, t1: Type, t2: Option<Type>, a: u16, d: u16, s: u16) -> Pokepedia {
    Pokepedia {
        no,
        name,
        s_name: "",
        type1: t1,
        type2: t2,
        attack_st: a,
        defense_st: d,
        stamina_st: s,
        fast_moves: Vec::new(),
        charge_moves: Vec::new(),
    }
}

fn catalog() -> &'static [Pokepedia] {
    Box::leak(
        vec![
            species("0528", "ココロモリ", Type::Psychic, Some(Type::Flying), 161, 119, 167),
            species("0197", "ブラッキー", Type::Dark, None, 126, 240, 216),
            species("0340", "ナマズン", Type::Water, Some(Type::Ground), 151, 141, 242),
            species("0488", "クレセリア", Type::Psychic, None, 152, 258, 260),
            species("0065", "フーディン", Type::Psychic, None, 271, 167, 146),
        ]
        .into_boxed_slice(),
    )
}

fn swoobat() -> Pokemon {
    Pokemon::new(catalog(), "ココロモリ", None, (10, 9, 12), "エアスラッシュ", "サイコファング", None, 1489).unwrap()
}

fn umbreon() -> Pokemon {
    Pokemon::new(catalog(), "ブラッキー", None, (2, 14, 0), "バークアウト", "あくのはどう", None, 1498).unwrap()
}

fn whiscash() -> Pokemon {
    Pokemon::new(catalog(), "ナマズン", None, (8, 15, 14), "みずでっぽう", "どろばくだん", None, 1474).unwrap()
}

fn cresselia() -> Pokemon {
    Pokemon::new(catalog(), "クレセリア", Some(40), (2, 15, 13), "ねんりき", "みらいよち", None, 0).unwrap()
}

fn alakazam() -> Pokemon {
    Pokemon::new(catalog(), "フーディン", Some(36), (1, 15, 15), "ねんりき", "みらいよち", None, 0).unwrap()
}

fn team() -> Vec<Pokemon> {
    vec![swoobat(), umbreon(), whiscash()]
}

#[test]
fn test_player() {
    let mut p = Player::new(String::from("test"), team());

    assert_eq!(p.poke_name(), "ココロモリ");
    assert_eq!(p.poke().fast_move().name(), "エアスラッシュ");
    assert_eq!(p.poke().charge_move1().name(), "サイコファング");
    assert_eq!(p.poke().charge_move2().is_none(), true);

    p.team[0].add_buff(1, 1);
    assert_eq!(p.poke().buff, (1, 1));

    p.switch_pokemon(2);
    assert_eq!(p.poke_name(), "ナマズン");
    assert_eq!(p.team[0].buff, (0, 0));

    p.force_switch();
    assert_eq!(p.poke_name(), "ブラッキー");

    assert_eq!(p.num_remains(), 3);
    assert_eq!(p.is_ended(), false);
}

#[test]
fn test_battle_pokemon() {
    let mut p = BattlePokemon::new(swoobat());

    assert_eq!(p.can_charge_move1(), false);
    assert_eq!(p.can_charge_move2(), false);
    p.energy = p.charge_move1().energy();
    assert_eq!(p.can_charge_move1(), true);
}

#[test]
fn damage_of_a_known_hit() {
    // Power 3, attack 130.0, defense 97.0, no bonus but that of the trainer
    // battle: floor(0.5 * 1.3 * 3 * 130 / 97) + 1 = 3.
    let hit = Hit {
        power: Ratio::new(3, 1),
        effect: Ratio::new(1, 1),
        cm_bonus: 100,
        attack: 130 * SCALE,
        atk_rank: 0,
        defense: 97 * SCALE,
        def_rank: 0,
    };
    assert_eq!(calc_damage(&hit), 3);
}

#[test]
fn damage_values() {
    let base = Hit {
        power: Ratio::new(100, 1),
        effect: Ratio::new(1, 1),
        cm_bonus: 100,
        attack: 100 * SCALE,
        atk_rank: 0,
        defense: 100 * SCALE,
        def_rank: 0,
    };
    // floor(0.5 * 1.3 * 100) + 1
    assert_eq!(calc_damage(&base), 66);
    // attack at stage 4 counts double: floor(130) + 1
    assert_eq!(calc_damage(&Hit { atk_rank: 4, ..base }), 131);
    // defense at stage 4 counts double: floor(32.5) + 1
    assert_eq!(calc_damage(&Hit { def_rank: 4, ..base }), 33);
    // attack at stage -3 counts 4/7: floor(37.14) + 1
    assert_eq!(calc_damage(&Hit { atk_rank: -3, ..base }), 38);
    // super effective and same type: floor(65 * 1.2 * 1.6) + 1
    assert_eq!(calc_damage(&Hit { power: Ratio::new(600, 5), effect: Ratio::new(8, 5), ..base }), 125);
    // half the charge: floor(32.5) + 1
    assert_eq!(calc_damage(&Hit { cm_bonus: 50, ..base }), 33);
    // more than the full charge counts as the full charge
    assert_eq!(calc_damage(&Hit { cm_bonus: 250, ..base }), 66);
    assert_eq!(calc_damage(&Hit { cm_bonus: 0, ..base }), 1);
    assert_eq!(calc_damage(&Hit { power: Ratio::new(0, 1), ..base }), 1);
    assert_eq!(calc_damage(&Hit { defense: 0, ..base }), i32::MAX);
    assert_eq!(calc_damage(&Hit { attack: u64::MAX, defense: 1, ..base }), i32::MAX);
}

#[test]
fn rank_mul_table() {
    let expected = [(1, 2), (4, 7), (2, 3), (4, 5), (1, 1), (5, 4), (3, 2), (7, 4), (2, 1)];
    for (i, (n, d)) in expected.iter().enumerate() {
        assert_eq!(rank_mul(i as i32 - 4), Ratio::new(*n, *d));
    }
}

#[test]
fn add_buff_stays_in_range() {
    let mut p = BattlePokemon::new(swoobat());
    assert_eq!(p.add_buff(3, -3), (3, -3));
    assert_eq!(p.buff, (3, -3));
    assert_eq!(p.add_buff(3, -3), (1, -1));
    assert_eq!(p.buff, (4, -4));
    assert_eq!(p.add_buff(i32::MAX, i32::MIN), (0, 0));
    assert_eq!(p.buff, (4, -4));
    assert_eq!(p.add_buff(-9, 9), (-8, 8));
    assert_eq!(p.buff, (-4, 4));
    for step in [5, -2, 7, -11, 1, 1, 1, -1] {
        p.add_buff(step, -step);
        assert!((-4..=4).contains(&p.buff.0) && (-4..=4).contains(&p.buff.1));
    }
}

#[test]
fn fast_move_hurts_and_fills_energy() {
    let mut a = BattlePokemon::new(swoobat());
    let mut d = BattlePokemon::new(umbreon());
    let hp = d.hp();
    let damage = a.do_fast_move(&mut d);
    assert!(damage >= 1);
    assert_eq!(d.hp(), hp - damage);
    assert_eq!(a.energy, a.fast_move().energy());
    a.energy = 95;
    a.do_fast_move(&mut d);
    assert_eq!(a.energy, 100);
    d.hp = 1;
    a.do_fast_move(&mut d);
    assert_eq!(d.hp(), 0);
    assert!(d.is_faint());
}

#[test]
fn charge_move_needs_slot_and_energy() {
    let mut a = BattlePokemon::new(swoobat());
    let mut d = BattlePokemon::new(umbreon());
    let hp = d.hp();
    assert_eq!(a.do_charge_move_drawn(0, &mut d, 100, false, 0), 0);
    assert_eq!(a.do_charge_move_drawn(1, &mut d, 100, false, 0), 0);
    assert_eq!(a.do_charge_move_drawn(2, &mut d, 100, false, 0), 0);
    assert_eq!(d.hp(), hp);
    a.energy = 100;
    assert_eq!(a.do_charge_move_drawn(1, &mut d, 100, false, 0), 0);
    assert_eq!(a.energy, 100);
    let damage = a.do_charge_move_drawn(0, &mut d, 100, false, 0);
    assert!(damage > 1);
    assert_eq!(d.hp(), hp - damage);
    assert_eq!(a.energy, 100 - a.charge_move1().energy());
}

#[test]
fn charge_move_changes_stages_by_the_draw() {
    // サイコファング lowers the opponent's defense by one stage, always.
    let mut a = BattlePokemon::new(swoobat());
    let mut d = BattlePokemon::new(umbreon());
    let mv = a.charge_move1();
    assert_eq!(mv.buff_prob(), 1000);
    a.energy = 100;
    a.do_charge_move_drawn(0, &mut d, 100, true, u32::MAX);
    assert_eq!(d.buff, (0, -1));
    assert_eq!(a.buff, (0, 0));

    // どろばくだん has no change of stages: the draw does not matter.
    let mut w = BattlePokemon::new(whiscash());
    let mut e = BattlePokemon::new(umbreon());
    w.energy = 100;
    let dmg0 = w.do_charge_move_drawn(0, &mut e, 100, false, 0);
    let mut w2 = BattlePokemon::new(whiscash());
    let mut e2 = BattlePokemon::new(umbreon());
    w2.energy = 100;
    let dmg1 = w2.do_charge_move_drawn(0, &mut e2, 100, false, u32::MAX);
    assert_eq!(dmg0, dmg1);
    assert_eq!(e.buff, (0, 0));
    assert_eq!(e2.buff, (0, 0));
}

#[test]
fn chance_comes_true_below_its_share() {
    // 12.5 percent: the upper 24 bits of the draw below an eighth.
    assert!(triggers(0, 125));
    assert!(triggers((1 << 29) - 1, 125));
    assert!(!triggers(1 << 29, 125));
    assert!(!triggers(u32::MAX, 999));
    assert!(triggers(u32::MAX, 1000));
    assert!(!triggers(0, 0));
}

#[test]
fn shield_takes_the_damage_and_is_spent() {
    let mut battle = Battle::new(String::from("a"), vec![whiscash()], String::from("b"), vec![umbreon()]);
    battle.states[0].player0.team[0].energy = 100;
    battle.states[0].player1.num_shields = 1;
    let hp = battle.state().player1.poke().hp();
    assert!(battle.do_action([Action::ChargeMove(0), Action::Idle]));
    let state = battle.state();
    assert_eq!(state.player1.poke().hp(), hp - 1);
    assert_eq!(state.player1.num_shields, 0);
    assert_eq!(state.player0.poke().energy, 100 - whiscash().charge_move1().energy());

    // With no shield left the same move takes its full damage.
    battle.states[1].player0.team[0].energy = 100;
    assert!(battle.do_action([Action::ChargeMove(0), Action::Idle]));
    let state = battle.state();
    assert!(state.player1.poke().hp() < hp - 2);
    assert_eq!(state.player1.num_shields, 0);
}

#[test]
fn charge_attack_with_given_choices() {
    let battle = Battle::new(String::from("a"), vec![whiscash()], String::from("b"), vec![umbreon()]);
    let mut s: State = battle.state().snapshot();
    s.player0.team[0].energy = 100;
    s.player1.in_fast_move = true;
    s.player1.dur_turns = 2;
    let hp = s.player1.poke().hp();
    s.charge_attack(0, 0, true, 0);
    assert_eq!(s.player1.poke().hp(), hp - 1);
    assert_eq!(s.player1.num_shields, 1);
    // The charge move cuts the opponent's lockout short.
    assert_eq!(s.player1.dur_turns, 0);
    assert!(s.player1.in_fast_move);
}

#[test]
fn forced_switch_goes_by_the_roster_order() {
    let mut p = Player::new(String::from("test"), team());
    p.team[0].hp = 0;
    p.team[1].hp = 0;
    assert!(p.force_switch());
    assert_eq!(p.cur_poke, 2);
    assert_eq!(p.switch_ms, 0);

    // From slot 2 the search goes on to slot 1 and then to slot 0.
    let mut p = Player::new(String::from("test"), team());
    p.cur_poke = 2;
    p.team[2].hp = 0;
    p.team[1].hp = 0;
    assert!(p.force_switch());
    assert_eq!(p.cur_poke, 0);

    let mut p = Player::new(String::from("test"), team());
    p.cur_poke = 2;
    p.team[2].hp = 0;
    assert!(p.force_switch());
    assert_eq!(p.cur_poke, 1);

    // The creature that is forced out loses its stat stages; no cooldown starts.
    let mut p = Player::new(String::from("test"), team());
    p.team[0].add_buff(3, -2);
    p.team[1].add_buff(1, 1);
    p.in_fast_move = true;
    p.dur_turns = 2;
    p.pending = Action::ChargeMove(0);
    p.team[0].hp = 0;
    assert!(p.force_switch());
    assert_eq!(p.cur_poke, 1);
    assert_eq!(p.team[0].buff, (0, 0));
    assert_eq!(p.team[1].buff, (1, 1));
    assert!(!p.in_fast_move);
    assert_eq!(p.dur_turns, 0);
    assert_eq!(p.pending, Action::Idle);
    assert_eq!(p.switch_ms, 0);
}

#[test]
fn switch_resets_and_starts_the_cooldown() {
    let mut p = Player::new(String::from("test"), team());
    p.team[0].add_buff(2, -3);
    p.in_fast_move = true;
    p.dur_turns = 3;
    p.pending = Action::ChargeMove(0);
    assert!(p.switch_pokemon(1));
    assert_eq!(p.cur_poke, 1);
    assert_eq!(p.team[0].buff, (0, 0));
    assert!(!p.in_fast_move);
    assert_eq!(p.dur_turns, 0);
    assert_eq!(p.pending, Action::Idle);
    assert_eq!(p.switch_ms, SWITCH_COOLDOWN_MS);
    // Going back at once is held up by the cooldown.
    assert!(!p.switch_pokemon(0));
    assert_eq!(p.cur_poke, 1);
    assert!(!p.switch_pokemon(2));
    p.switch_ms = 0;
    assert!(!p.switch_pokemon(3));
    p.team[2].hp = 0;
    assert!(!p.switch_pokemon(2));
    assert!(p.switch_pokemon(0));
}

#[test]
fn pending_keeps_a_switch_before_a_charge_move() {
    let mut p = Player::new(String::from("test"), team());
    p.set_pending(Action::FastMove);
    assert_eq!(p.pending, Action::Idle);
    p.set_pending(Action::ChargeMove(0));
    assert_eq!(p.pending, Action::ChargeMove(0));
    // A charge move that waits is not replaced by another charge move.
    p.set_pending(Action::ChargeMove(1));
    assert_eq!(p.pending, Action::ChargeMove(0));
    p.set_pending(Action::FastMove);
    assert_eq!(p.pending, Action::ChargeMove(0));
    p.set_pending(Action::SwitchPokemon(2));
    assert_eq!(p.pending, Action::SwitchPokemon(2));
    p.set_pending(Action::ChargeMove(0));
    assert_eq!(p.pending, Action::SwitchPokemon(2));
    p.set_pending(Action::SwitchPokemon(1));
    assert_eq!(p.pending, Action::SwitchPokemon(1));
    p.set_pending(Action::Idle);
    assert_eq!(p.pending, Action::Idle);
}

#[test]
fn terminal_phase_is_left_alone() {
    let mut battle = Battle::new(String::from("a"), team(), String::from("b"), team());
    battle.states[0].phase = Phase::GameOver(1);
    assert!(!battle.do_action([Action::FastMove, Action::FastMove]));
    assert_eq!(battle.states.len(), 1);
    assert_eq!(battle.actions.len(), 0);
    battle.states[0].phase = Phase::TimeOver(2);
    assert!(!battle.do_action([Action::FastMove, Action::FastMove]));
    assert_eq!(battle.states.len(), 1);
    assert_eq!(battle.actions.len(), 0);
}

#[test]
fn fast_move_of_several_ticks() {
    // エアスラッシュ takes three ticks, バークアウト takes three ticks.
    let mut battle = Battle::new(String::from("a"), vec![swoobat()], String::from("b"), vec![umbreon()]);
    assert_eq!(swoobat().fast_move().turns(), 3);
    let hp1 = battle.state().player1.poke().hp();
    assert!(battle.do_action([Action::FastMove, Action::Idle]));
    assert!(battle.state().player0.in_fast_move);
    assert_eq!(battle.state().player0.dur_turns, 1);
    assert_eq!(battle.state().player1.poke().hp(), hp1);
    assert_eq!(battle.state().turn, 2);
    assert_eq!(battle.state().elapsed_ms, MS_PER_TURN);
    // A fast move asked for during the lockout is dropped.
    assert!(battle.do_action([Action::FastMove, Action::Idle]));
    assert_eq!(battle.state().player0.dur_turns, 0);
    assert_eq!(battle.state().player1.poke().hp(), hp1);
    assert!(battle.do_action([Action::Idle, Action::Idle]));
    assert!(!battle.state().player0.in_fast_move);
    assert!(battle.state().player1.poke().hp() < hp1);
    assert_eq!(battle.state().player0.poke().energy, swoobat().fast_move().energy());
    assert_eq!(battle.states.len(), 4);
    assert_eq!(battle.actions.len(), 3);
}

#[test]
fn fast_move_of_one_tick_hits_at_once() {
    let mut battle = Battle::new(String::from("a"), vec![whiscash()], String::from("b"), vec![umbreon()]);
    assert_eq!(whiscash().fast_move().turns(), 1);
    let hp1 = battle.state().player1.poke().hp();
    assert!(battle.do_action([Action::FastMove, Action::Idle]));
    assert!(!battle.state().player0.in_fast_move);
    assert!(battle.state().player1.poke().hp() < hp1);
}

#[test]
fn requests_during_a_fast_move_are_kept() {
    let mut battle = Battle::new(String::from("a"), team(), String::from("b"), team());
    battle.states[0].player0.team[0].energy = 100;
    assert!(battle.do_action([Action::FastMove, Action::Idle]));
    assert!(battle.do_action([Action::ChargeMove(0), Action::Idle]));
    assert_eq!(battle.state().player0.pending, Action::ChargeMove(0));
    assert_eq!(battle.state().player0.poke().energy, 100);
}

#[test]
fn rejected_actions_are_logged() {
    let mut battle = Battle::new(String::from("a"), team(), String::from("b"), team());
    assert!(battle.do_action([Action::ChargeMove(0), Action::ChargeMove(1)]));
    assert_eq!(
        battle.state().logs,
        vec!["[a] サイコファングに必要なエネルギーが足りない", "[b] スペシャルアタック1が存在しない"]
    );
    assert!(battle.do_action([Action::ChargeMove(7), Action::SwitchPokemon(9)]));
    assert_eq!(battle.state().logs.len(), 4);
    assert_eq!(battle.state().logs[2], "[a] 不正な値 Action::ChargeMove(7)");
    assert_eq!(battle.state().logs[3], "[b] ポケモン9に交代できない");
    // The earlier state keeps its own log.
    assert_eq!(battle.states[1].logs.len(), 2);
    assert!(battle.states[0].logs.is_empty());
}

#[test]
fn chosen_switch_takes_place_and_is_held_up_afterwards() {
    let mut battle = Battle::new(String::from("a"), team(), String::from("b"), team());
    assert!(battle.do_action([Action::SwitchPokemon(2), Action::Idle]));
    assert_eq!(battle.state().player0.cur_poke, 2);
    assert_eq!(battle.state().player0.switch_ms, SWITCH_COOLDOWN_MS - MS_PER_TURN);
    assert!(battle.do_action([Action::SwitchPokemon(0), Action::Idle]));
    assert_eq!(battle.state().player0.cur_poke, 2);
}

#[test]
fn fainted_creature_is_replaced_and_the_time_goes_on() {
    let mut battle = Battle::new(String::from("a"), vec![whiscash()], String::from("b"), team());
    battle.states[0].player1.team[0].hp = 1;
    assert!(battle.do_action([Action::FastMove, Action::Idle]));
    let state = battle.state();
    // The default strategy asks for slot 0, which has fainted: the switch is forced.
    assert_eq!(state.player1.team[0].hp, 0);
    assert_eq!(state.player1.cur_poke, 1);
    assert_eq!(state.player1.switch_ms, 0);
    assert_eq!(state.elapsed_ms, MS_PER_TURN);
    assert!(matches!(state.phase, Phase::Neutral));
}

struct Chooser {
    action: Action,
    shield: bool,
    slot: usize,
}

impl Strategy for Chooser {
    fn action(&self, _player: &Player) -> Action {
        self.action
    }

    fn shield(&self, _player: &Player) -> bool {
        self.shield
    }

    fn switch(&self, _player: &Player) -> usize {
        self.slot
    }
}

#[test]
fn charge_moves_go_by_the_exact_attack() {
    let c = catalog();
    // Attacks of 93.19 and 93.79: the same whole number, not the same attack.
    let low = Pokemon::new(c, "クレセリア", Some(40), (4, 15, 13), "ねんりき", "みらいよち", None, 0).unwrap();
    let high = Pokemon::new(c, "クレセリア", Some(40), (5, 15, 13), "ねんりき", "みらいよち", None, 0).unwrap();
    assert_eq!(low.stats().attack / SCALE, high.stats().attack / SCALE);
    let battle = Battle::new(String::from("a"), vec![low], String::from("b"), vec![high]);
    let mut s: State = battle.state().snapshot();
    for coin in [true, false] {
        assert_eq!(s.sort_use_charge_move_with([0, 0], coin), vec![(1, 0), (0, 0)]);
    }
    for _ in 0..20 {
        assert_eq!(s.sort_use_charge_move([0, 0]), vec![(1, 0), (0, 0)]);
    }
    // The stage counts: 93.19 * 5/4 is above 93.79.
    s.player0.team[0].add_buff(1, 0);
    for coin in [true, false] {
        assert_eq!(s.sort_use_charge_move_with([0, 1], coin), vec![(0, 0), (1, 1)]);
    }
    // 93.19 * 5/4 against 93.79 * 3/2.
    s.player1.team[0].add_buff(2, 0);
    assert_eq!(s.sort_use_charge_move_with([0, 0], true), vec![(1, 0), (0, 0)]);
    // Between equal attacks the coin decides.
    let battle = Battle::new(String::from("a"), vec![low], String::from("b"), vec![low]);
    let s: State = battle.state().snapshot();
    assert_eq!(s.sort_use_charge_move_with([0, 0], true), vec![(0, 0), (1, 0)]);
    assert_eq!(s.sort_use_charge_move_with([0, 0], false), vec![(1, 0), (0, 0)]);
    // One move, or none.
    assert_eq!(s.sort_use_charge_move_with([2, 1], true), vec![(1, 1)]);
    assert_eq!(s.sort_use_charge_move_with([0, 2], false), vec![(0, 0)]);
    assert!(s.sort_use_charge_move_with([2, 2], true).is_empty());
    // A fainted creature has no move.
    let mut s: State = battle.state().snapshot();
    s.player0.team[0].hp = 0;
    assert_eq!(s.sort_use_charge_move_with([0, 0], true), vec![(1, 0)]);
}

#[test]
fn clock_goes_on_by_any_time() {
    let battle = Battle::new(String::from("a"), team(), String::from("b"), team());
    let mut s: State = battle.state().snapshot();
    s.player0.switch_ms = 60000;
    s.player0.dur_turns = 3;
    s.increment_turns(100_000);
    assert_eq!(s.turn, 2);
    assert_eq!(s.elapsed_ms, 100_000);
    assert_eq!(s.player0.switch_ms, 0);
    assert_eq!(s.player0.dur_turns, 2);
    s.player1.switch_ms = 700;
    s.increment_turns(-5);
    assert_eq!(s.turn, 3);
    assert_eq!(s.elapsed_ms, 100_500);
    assert_eq!(s.player1.switch_ms, 200);
    assert_eq!(s.player0.dur_turns, 1);
}

#[test]
fn chosen_replacement_costs_time() {
    let mut battle = Battle::with_strategies(
        String::from("a"),
        vec![whiscash()],
        DefaultStrategy,
        String::from("b"),
        team(),
        Chooser { action: Action::Idle, shield: false, slot: 2 },
    );
    battle.states[0].player1.team[0].hp = 1;
    assert!(battle.do_action([Action::FastMove, Action::Idle]));
    let state = battle.state();
    assert_eq!(state.player1.cur_poke, 2);
    assert_eq!(state.elapsed_ms, MS_PER_TURN + SWITCH_MS);
    assert_eq!(state.player1.switch_ms, SWITCH_COOLDOWN_MS - MS_PER_TURN - SWITCH_MS);
}

#[test]
fn strategy_that_does_not_shield() {
    let mut battle = Battle::with_strategies(
        String::from("a"),
        vec![whiscash()],
        DefaultStrategy,
        String::from("b"),
        vec![umbreon()],
        Chooser { action: Action::Idle, shield: false, slot: 0 },
    );
    battle.states[0].player0.team[0].energy = 100;
    let hp = battle.state().player1.poke().hp();
    assert!(battle.do_action([Action::ChargeMove(0), Action::Idle]));
    assert!(battle.state().player1.poke().hp() < hp - 1);
    assert_eq!(battle.state().player1.num_shields, 2);
}

#[test]
fn game_over_when_a_roster_has_fainted() {
    let mut battle = Battle::new(String::from("a"), vec![whiscash()], String::from("b"), vec![umbreon()]);
    battle.states[0].player1.team[0].hp = 1;
    assert!(!battle.do_action([Action::FastMove, Action::Idle]));
    assert!(matches!(battle.state().phase, Phase::GameOver(0)));
    assert!(battle.is_ended());
    assert!(!battle.do_action([Action::FastMove, Action::Idle]));
    assert_eq!(battle.states.len(), 2);

    let mut battle = Battle::new(String::from("a"), vec![whiscash()], String::from("b"), vec![umbreon()]);
    battle.states[0].player0.team[0].hp = 0;
    assert!(!battle.do_action([Action::Idle, Action::Idle]));
    assert!(matches!(battle.state().phase, Phase::GameOver(1)));

    let mut battle = Battle::new(String::from("a"), vec![whiscash()], String::from("b"), vec![umbreon()]);
    battle.states[0].player0.team[0].hp = 0;
    battle.states[0].player1.team[0].hp = 0;
    assert!(!battle.do_action([Action::Idle, Action::Idle]));
    assert!(matches!(battle.state().phase, Phase::GameOver(2)));
}

#[test]
fn time_over_goes_to_the_side_with_more_hit_points() {
    let mut battle = Battle::new(String::from("a"), vec![whiscash()], String::from("b"), vec![umbreon()]);
    battle.states[0].turn = LIMIT_TURN;
    battle.states[0].player0.team[0].hp = 5;
    battle.states[0].player1.team[0].hp = 9;
    assert!(!battle.do_action([Action::Idle, Action::Idle]));
    assert!(matches!(battle.state().phase, Phase::TimeOver(1)));

    let mut battle = Battle::new(String::from("a"), vec![whiscash()], String::from("b"), vec![umbreon()]);
    battle.states[0].turn = LIMIT_TURN;
    battle.states[0].player0.team[0].hp = 9;
    battle.states[0].player1.team[0].hp = 9;
    assert!(!battle.do_action([Action::Idle, Action::Idle]));
    assert!(matches!(battle.state().phase, Phase::TimeOver(2)));

    let mut battle = Battle::new(String::from("a"), vec![whiscash()], String::from("b"), vec![umbreon()]);
    battle.states[0].turn = LIMIT_TURN - 1;
    assert!(battle.do_action([Action::Idle, Action::Idle]));
    assert!(matches!(battle.state().phase, Phase::Neutral));
}

#[test]
fn battle_keeps_its_bounds_at_every_tick() {
    let mut battle = Battle::new(String::from("a"), team(), String::from("b"), vec![cresselia(), alakazam()]);
    for _ in 0..8 {
        battle.start();
    }
    assert_eq!(battle.states.len(), battle.actions.len() + 1);
    assert!(battle.states.len() > 20);
    for w in battle.states.windows(2) {
        assert_eq!(w[1].turn, w[0].turn + 1);
        assert!(w[1].elapsed_ms >= w[0].elapsed_ms + MS_PER_TURN);
        assert!(matches!(w[0].phase, Phase::Neutral));
        for (before, after) in [(&w[0].player0, &w[1].player0), (&w[0].player1, &w[1].player1)] {
            assert_eq!(before.team.len(), after.team.len());
            for (b, a) in before.team.iter().zip(after.team.iter()) {
                assert!(0 <= a.hp && a.hp <= b.hp);
                assert!(0 <= a.energy && a.energy <= 100);
                assert!((-4..=4).contains(&a.buff.0) && (-4..=4).contains(&a.buff.1));
            }
            assert!(after.cur_poke < after.team.len());
            assert!(after.num_shields >= 0 && after.num_shields <= before.num_shields);
        }
    }
    let last = battle.state();
    assert!(!matches!(last.phase, Phase::Neutral));
    assert!(last.player0.is_ended() || last.player1.is_ended() || last.turn > LIMIT_TURN);
}

#[test]
fn start_stops_after_its_ceiling() {
    let mut battle = Battle::with_strategies(
        String::from("a"),
        team(),
        Chooser { action: Action::Idle, shield: false, slot: 0 },
        String::from("b"),
        team(),
        Chooser { action: Action::Idle, shield: false, slot: 0 },
    );
    battle.start();
    assert_eq!(battle.actions.len(), 101);
    assert_eq!(battle.states.len(), 102);
}

fn choices(tick: u32) -> Choices {
    Choices {
        fast_first: tick % 2 == 0,
        switch_early: (1, 1),
        charge: ChargeChoices {
            first: tick % 3 == 0,
            shield: (tick % 4 == 0, tick % 5 == 0),
            draw: (tick.wrapping_mul(0x9E37_79B9), tick.wrapping_mul(0x85EB_CA6B)),
            switch: (2, 0),
        },
        switch_late: (0, 1),
    }
}

fn actions(tick: u32) -> [Action; 2] {
    [
        if tick % 7 == 6 { Action::ChargeMove(0) } else { Action::FastMove },
        if tick % 5 == 4 { Action::ChargeMove(0) } else { Action::FastMove },
    ]
}

#[test]
fn same_choices_give_the_same_states() {
    let run = || {
        let start = Battle::new(String::from("a"), team(), String::from("b"), vec![cresselia(), alakazam()]);
        let mut s: State = start.state().snapshot();
        let mut history = vec![format!("{:?}", s)];
        for tick in 0..60u32 {
            if !matches!(s.phase, Phase::Neutral) {
                break;
            }
            s.advance_with(actions(tick), &choices(tick));
            history.push(format!("{:?}", s));
        }
        history
    };
    let first = run();
    assert!(first.len() > 30);
    assert_eq!(first, run());
}

#[test]
fn a_tick_for_given_choices_is_its_parts_in_turn() {
    let start = Battle::new(String::from("a"), team(), String::from("b"), vec![cresselia(), alakazam()]);
    let mut whole: State = start.state().snapshot();
    let mut parts: State = start.state().snapshot();
    for tick in 0..60u32 {
        if !matches!(whole.phase, Phase::Neutral) {
            break;
        }
        let c = choices(tick);
        whole.advance_with(actions(tick), &c);

        let (one, charge) = parts.accept_actions(actions(tick));
        parts.do_1turn_move_with(one, c.fast_first);
        let mut ms = MS_PER_TURN + parts.switch_if_faint_with([c.switch_early.0, c.switch_early.1]);
        ms += parts.do_charge_move_with(charge, &c.charge);
        parts.do_fast_move();
        ms += parts.switch_if_faint_with([c.switch_late.0, c.switch_late.1]);
        parts.set_gameover_phase();
        parts.increment_turns(ms);
        assert_eq!(format!("{:?}", whole), format!("{:?}", parts));
    }
    assert!(whole.turn > 30);
}

#[test]
fn charge_round_for_given_choices() {
    let battle = Battle::new(String::from("a"), vec![whiscash()], String::from("b"), vec![umbreon(), swoobat()]);
    let mut s: State = battle.state().snapshot();
    s.player0.team[0].energy = 100;
    s.player1.team[0].energy = 100;
    s.player1.team[0].hp = 1;
    let c = ChargeChoices { first: true, shield: (true, false), draw: (0, 0), switch: (0, 1) };
    // The creature with the higher attack goes first, faints its opponent,
    // and the round ends with the replacement that player 1 chose.
    let first = s.sort_use_charge_move_with([0, 0], true)[0].0;
    let cost = s.do_charge_move_with([0, 0], &c);
    if first == 0 {
        assert_eq!(s.player1.team[0].hp, 0);
        assert_eq!(s.player1.cur_poke, 1);
        assert_eq!(cost, SWITCH_MS);
        assert_eq!(s.player1.team[0].energy, 100);
        assert_eq!(s.player0.num_shields, 2);
    } else {
        // Player 1 went first against a shield, then fainted to player 0.
        assert_eq!(s.player0.num_shields, 1);
        assert_eq!(s.player1.team[0].hp, 0);
        assert_eq!(s.player1.cur_poke, 1);
        assert_eq!(cost, SWITCH_MS);
    }
}

struct ByEnergy;

impl Strategy for ByEnergy {
    fn action(&self, player: &Player) -> Action {
        if player.poke().energy >= 50 {
            Action::ChargeMove(0)
        } else if player.in_fast_move {
            Action::Idle
        } else {
            Action::FastMove
        }
    }

    fn shield(&self, player: &Player) -> bool {
        player.num_shields == 2
    }

    fn switch(&self, player: &Player) -> usize {
        player.team.len() - 1
    }
}

#[test]
fn start_plays_what_the_strategies_give() {
    let mut battle =
        Battle::with_strategies(String::from("a"), team(), ByEnergy, String::from("b"), team(), DefaultStrategy);
    battle.start();
    assert!(battle.actions.len() > 10);
    for (t, acts) in battle.actions.iter().enumerate() {
        assert_eq!(acts[0], ByEnergy.action(&battle.states[t].player0));
        assert_eq!(acts[1], DefaultStrategy.action(&battle.states[t].player1));
        assert_eq!(acts[1], pokebattle::battle::strategy(&battle.states[t].player1));
    }
    assert!(DefaultStrategy.shield(&battle.states[0].player0));
    assert_eq!(DefaultStrategy.switch(&battle.states[0].player0), 0);
    let (a0, a1) = battle.next_actions();
    assert_eq!(a0, ByEnergy.action(&battle.state().player0));
    assert_eq!(a1, DefaultStrategy.action(&battle.state().player1));
}
