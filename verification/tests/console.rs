use pokebattle::battle::{Battle, Player};
use pokebattle::player::team_is_fit;
use pokebattle::command::{is_yes, parse_command, parse_edit_command, Command, EditCommand};
use pokebattle::input::{parse_cp, parse_ivs, CpError, IvsError};
use pokebattle::moves::{charge_move_by_name, fast_move_by_name};
use pokebattle::pokemon::{IVs, Pokemon};
use pokebattle::pokepedia::Pokepedia;
use pokebattle::ranking::order_desc;
use pokebattle::types::{effect_cross, effect_cross_of, type_advantage, CrossKind, Type, TYPES, TYPE_EFFECT_MATRIX};

#[test]
fn cp_is_read_from_a_line() {
    assert_eq!(parse_cp("1500\n"), Ok(1500));
    assert_eq!(parse_cp("  10 "), Ok(10));
    assert_eq!(parse_cp("9999"), Ok(9999));
    assert_eq!(parse_cp("+0042"), Ok(42));
    assert_eq!(parse_cp("\u{3000}1500\u{3000}"), Ok(1500));
    assert_eq!(parse_cp("9"), Err(CpError::OutOfRange));
    assert_eq!(parse_cp("10000"), Err(CpError::OutOfRange));
    assert_eq!(parse_cp("-20"), Err(CpError::OutOfRange));
    assert_eq!(parse_cp(""), Err(CpError::NotANumber));
    assert_eq!(parse_cp("   "), Err(CpError::NotANumber));
    assert_eq!(parse_cp("15 00"), Err(CpError::NotANumber));
    assert_eq!(parse_cp("1500x"), Err(CpError::NotANumber));
    assert_eq!(parse_cp("+"), Err(CpError::NotANumber));
    assert_eq!(parse_cp("--5"), Err(CpError::NotANumber));
    assert_eq!(parse_cp("１５００"), Err(CpError::NotANumber));
    assert_eq!(parse_cp("99999999999999999999"), Err(CpError::NotANumber));
    assert_eq!(parse_cp("2147483648"), Err(CpError::NotANumber));
    assert_eq!(parse_cp("2147483647"), Err(CpError::OutOfRange));
    assert_eq!(parse_cp("-2147483648"), Err(CpError::OutOfRange));
    assert_eq!(parse_cp("-2147483649"), Err(CpError::NotANumber));
}

#[test]
fn ivs_are_read_from_a_line() {
    assert_eq!(parse_ivs("1 2 3\n"), Ok(IVs { attack: 1, defense: 2, stamina: 3 }));
    assert_eq!(parse_ivs("  15\t0   +7  "), Ok(IVs { attack: 15, defense: 0, stamina: 7 }));
    assert_eq!(parse_ivs("1 2"), Err(IvsError::Count));
    assert_eq!(parse_ivs("1 2 3 4"), Err(IvsError::Count));
    assert_eq!(parse_ivs(""), Err(IvsError::Count));
    assert_eq!(parse_ivs("1 x 3"), Err(IvsError::NotANumber));
    assert_eq!(parse_ivs("1 2 16"), Err(IvsError::OutOfRange));
    assert_eq!(parse_ivs("-1 2 3"), Err(IvsError::OutOfRange));
    // The first word that is wrong decides.
    assert_eq!(parse_ivs("16 x 3"), Err(IvsError::OutOfRange));
    assert_eq!(parse_ivs("x 16 3"), Err(IvsError::NotANumber));
}

#[test]
fn commands_go_by_the_first_word() {
    assert_eq!(parse_command(""), (Command::Empty, None));
    assert_eq!(parse_command("   "), (Command::Empty, None));
    for line in ["q", "quit", " exit "] {
        assert_eq!(parse_command(line), (Command::Quit, None));
    }
    assert_eq!(parse_command("ls"), (Command::Ls, None));
    assert_eq!(parse_command("ls main"), (Command::LsDir, Some("main".to_string())));
    assert_eq!(parse_command("ls /"), (Command::LsDir, Some("/".to_string())));
    assert_eq!(parse_command("ls a b"), (Command::Ls, None));
    assert_eq!(parse_command("ecp"), (Command::Ecp, None));
    assert_eq!(parse_command("top_scp"), (Command::TopScp, None));
    assert_eq!(parse_command("ls_moves"), (Command::LsMoves, None));
    assert_eq!(parse_command("top"), (Command::Top, None));
    assert_eq!(parse_command("cd"), (Command::CdHome, None));
    assert_eq!(parse_command("cd  リーグ"), (Command::Cd, Some("リーグ".to_string())));
    assert_eq!(parse_command("cd a b"), (Command::CdTooMany, None));
    assert_eq!(parse_command("mkdir x"), (Command::Mkdir, Some("x".to_string())));
    assert_eq!(parse_command("mkdir"), (Command::MkdirUsage, None));
    assert_eq!(parse_command("mkdir a b"), (Command::MkdirUsage, None));
    assert_eq!(parse_command("a"), (Command::Add, None));
    assert_eq!(parse_command("add"), (Command::Add, None));
    assert_eq!(parse_command("e"), (Command::Edit, None));
    assert_eq!(parse_command("edit"), (Command::Edit, None));
    assert_eq!(parse_command("rm"), (Command::Rm, None));
    assert_eq!(parse_command("save"), (Command::Save, None));
    assert_eq!(parse_command("sim"), (Command::Sim, None));
    assert_eq!(parse_command("sim1"), (Command::Sim1, None));
    assert_eq!(parse_command("effect"), (Command::Effect, None));
    assert_eq!(parse_command("Quit now"), (Command::Unknown, Some("Quit".to_string())));
}

#[test]
fn edit_commands_and_yes() {
    assert_eq!(parse_edit_command("c\n"), EditCommand::Cp);
    assert_eq!(parse_edit_command(" f "), EditCommand::FastMove);
    assert_eq!(parse_edit_command("1"), EditCommand::ChargeMove1);
    assert_eq!(parse_edit_command("2"), EditCommand::ChargeMove2);
    assert_eq!(parse_edit_command("r"), EditCommand::RemoveChargeMove2);
    assert_eq!(parse_edit_command("q"), EditCommand::Quit);
    assert_eq!(parse_edit_command("q q"), EditCommand::Other);
    assert_eq!(parse_edit_command(""), EditCommand::Other);
    assert_eq!(parse_edit_command("x"), EditCommand::Other);
    assert!(is_yes("y\n"));
    assert!(is_yes("  y"));
    assert!(!is_yes("Y"));
    assert!(!is_yes("yes"));
    assert!(!is_yes("y y"));
    assert!(!is_yes(""));
}

#[test]
fn type_pairs_are_told_apart() {
    let all = effect_cross();
    let mut expected = 0;
    for i in 0..18 {
        for k in 0..i {
            let (e, b) = (TYPE_EFFECT_MATRIX[i][k], TYPE_EFFECT_MATRIX[k][i]);
            assert_eq!(type_advantage(TYPES[i], TYPES[k]), e);
            let c = effect_cross_of(i, k);
            if e == 0 && b == 0 {
                assert!(c.is_none());
                continue;
            }
            expected += 1;
            let c = c.unwrap();
            assert_eq!(c.effect, TYPE_EFFECT_MATRIX[c.from.index()][c.to.index()]);
            assert_eq!(c.back, TYPE_EFFECT_MATRIX[c.to.index()][c.from.index()]);
            match c.kind {
                CrossKind::OneSided => assert!(c.effect != 0 && c.back == 0),
                CrossKind::Equal => assert!(c.effect == c.back),
                CrossKind::Symmetric => assert!(c.effect > 0 && c.effect == -c.back),
                CrossKind::Lopsided => assert!(c.effect.abs() < c.back.abs() && c.effect != 0),
            }
        }
    }
    assert_eq!(all.len(), expected);
    // Fire over water: water has the advantage, fire the disadvantage.
    assert_eq!(
        effect_cross_of(Type::Water.index(), Type::Flare.index()).unwrap().kind,
        CrossKind::Symmetric
    );
    let c = effect_cross_of(Type::Flare.index(), Type::Water.index()).unwrap();
    assert_eq!((c.from, c.to, c.effect, c.back), (Type::Water, Type::Flare, 1, -1));
    // Normal over ghost: both are without effect on each other.
    let c = effect_cross_of(Type::Spectre.index(), Type::Normal.index()).unwrap();
    assert_eq!((c.kind, c.effect, c.back), (CrossKind::Equal, -2, -2));
    // Ground over electric: 1 one way, -2 the other.
    let c = effect_cross_of(Type::Ground.index(), Type::Electric.index()).unwrap();
    assert_eq!((c.kind, c.from, c.effect, c.back), (CrossKind::Lopsided, Type::Ground, 1, -2));
    // Fighting over normal: only fighting has an advantage.
    let c = effect_cross_of(Type::Fighting.index(), Type::Normal.index()).unwrap();
    assert_eq!((c.kind, c.from, c.effect, c.back), (CrossKind::OneSided, Type::Fighting, 1, 0));
}

#[test]
fn order_by_key_is_stable() {
    assert_eq!(order_desc(&vec![]), Vec::<usize>::new());
    assert_eq!(order_desc(&vec![5]), vec![0]);
    assert_eq!(order_desc(&vec![1, 3, 2]), vec![1, 2, 0]);
    assert_eq!(order_desc(&vec![2, 2, 3, 2, 3, 1]), vec![2, 4, 0, 1, 3, 5]);
    assert_eq!(order_desc(&vec![i32::MIN, i32::MAX, 0]), vec![1, 2, 0]);
}

fn species(a: u16, d: u16, s: u16) -> &'static Pokepedia {
    Box::leak(Box::new(Pokepedia {
        no: "0001",
        name: "test",
        s_name: "test",
        type1: Type::Normal,
        type2: None,
        attack_st: a,
        defense_st: d,
        stamina_st: s,
        fast_moves: Vec::new(),
        charge_moves: Vec::new(),
    }))
}

fn creature(dict: &'static Pokepedia, lv: u32) -> Pokemon {
    Pokemon::raw_new(
        dict,
        lv,
        IVs { attack: 0, defense: 0, stamina: 0 },
        fast_move_by_name("たいあたり").unwrap(),
        charge_move_by_name("のしかかり").unwrap(),
        None,
    )
}

#[test]
fn rosters_that_fit() {
    let d = species(100, 100, 100);
    assert!(team_is_fit(&vec![creature(d, 40)]));
    assert!(!team_is_fit(&vec![]));
    assert!(!team_is_fit(&vec![creature(d, 40), creature(d, 1)]));
    assert!(!team_is_fit(&vec![creature(d, 103)]));
    let mut bad = creature(d, 40);
    bad.ivs.attack = 16;
    assert!(!bad.is_valid());
    assert!(!team_is_fit(&vec![bad]));
    assert!(creature(d, 2).is_valid());
    assert!(creature(d, 102).is_valid());
}

#[test]
fn active_creature_can_be_changed_in_place() {
    let d = species(100, 100, 100);
    let mut p = Player::new("p".to_string(), vec![creature(d, 40), creature(d, 50)]);
    p.poke_mut().energy = 33;
    assert_eq!(p.team[0].energy, 33);
    assert_eq!(p.sum_hp(), p.team[0].hp + p.team[1].hp);
    p.cur_poke = 1;
    p.poke_mut().disable_type_effect();
    assert!(p.team[1].is_disable_type_effect);
    assert!(!p.team[0].is_disable_type_effect);
    let battle = Battle::new("a".to_string(), vec![creature(d, 40)], "b".to_string(), vec![creature(d, 40)]);
    assert_eq!(battle.state().elapsed_ms(), 500);
    assert_eq!(battle.state().player(0).name, "a");
    assert_eq!(battle.state().player(1).name, "b");
    assert_eq!(battle.state().player0.num_shields, 2);
    assert_eq!(battle.state().player0.poke().hp(), battle.state().player0.poke().base_hp());
}
