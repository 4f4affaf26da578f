use pokebattle::matchup::{count_wins, matchup, matchups, ratio_to_rank, Matchup};
use pokebattle::moves::{charge_move_by_name, fast_move_by_name};
use pokebattle::pokemon::{ErrorKind, IVs, Pokemon};
use pokebattle::pokemon_lv::{get_pokemon_lv, POKEMON_LV};
use pokebattle::pokepedia::{pokepedia_by_name, pokepedia_by_no, Pokepedia};
use pokebattle::power::{ecp_of, WearState, POWER_UNIT};
use rand::rngs::StdRng;
use rand::{Rng, SeedableRng};
use pokebattle::ranking::scp_ranking;
use pokebattle::ratio::Ratio;
use pokebattle::records::{load_record, load_records, to_record, PokemonRecord};
use pokebattle::types::Type;
use pokebattle::utils::{jp_fixed_width_string, jp_width};

fn species(
    no: &'static str,
    name: &'static str,
    t1: Type,
    t2: Option<Type>,
    stats: (u16, u16, u16),
    fast: &[&str],
    charge: &[&str],
) -> Pokepedia {
    Pokepedia {
        no,
        name,
        s_name: "",
        type1: t1,
        type2: t2,
        attack_st: stats.0,
        defense_st: stats.1,
        stamina_st: stats.2,
        fast_moves: fast.iter().map(|n| fast_move_by_name(n).unwrap()).collect(),
        charge_moves: charge.iter().map(|n| charge_move_by_name(n).unwrap()).collect(),
    }
}

fn catalog() -> &'static [Pokepedia] {
    Box::leak(
        vec![
            species(
                "0528",
                "ココロモリ",
                Type::Psychic,
                Some(Type::Flying),
                (161, 119, 167),
                &["エアスラッシュ", "ねんりき"],
                &["サイコファング", "みらいよち", "つばめがえし"],
            ),
            species("0182", "キレイハナ", Type::Grass, None, (169, 186, 181), &["はっぱカッター"], &["リーフブレード"]),
            species("0340", "ナマズン", Type::Water, Some(Type::Ground), (151, 141, 242), &["みずでっぽう"], &["どろばくだん"]),
            species("0488", "クレセリア", Type::Psychic, None, (152, 258, 260), &["ねんりき"], &["みらいよち"]),
            species("0065", "フーディン", Type::Psychic, None, (271, 167, 146), &["ねんりき"], &["みらいよち"]),
            species("0242", "ハピナス", Type::Normal, None, (129, 169, 496), &["はたく"], &["はかいこうせん"]),
        ]
        .into_boxed_slice(),
    )
}

fn kure() -> Pokemon {
    Pokemon::new(catalog(), "クレセリア", Some(40), (2, 15, 13), "ねんりき", "みらいよち", None, 0).unwrap()
}

fn fude() -> Pokemon {
    Pokemon::new(catalog(), "フーディン", Some(36), (1, 15, 15), "ねんりき", "みらいよち", None, 0).unwrap()
}

#[test]
fn pokemon_new_gives_the_indices() {
    let kure = kure();
    assert_eq!(kure.cp(), 1500);
    assert_eq!(kure.scp(), 1815);
    assert_eq!(kure.dcp(), 2115);

    let fude = fude();
    assert_eq!(fude.cp(), 1495);
    assert_eq!(fude.scp(), 1279);
    assert_eq!(fude.dcp(), 1132);
}

#[test]
fn test_calc_power_per_turn() {
    let kure = kure();
    let fude = fude();

    let (ppt0, num_turns0) = kure.calc_power_per_turn(Some(&fude), None, 1);
    assert_eq!(ppt0.num as f64 / ppt0.den as f64, 4.8478260869565215);
    assert_eq!(num_turns0, 46);
    assert!(ppt0.eq_value(&Ratio::new(223, 46)));
    assert_eq!(ppt0.den, POWER_UNIT * 46);

    let (ppt1, num_turns1) = fude.calc_power_per_turn(Some(&kure), None, 1);
    assert_eq!(ppt1.num as f64 / ppt1.den as f64, 4.4655172413793105);
    assert_eq!(num_turns1, 58);
}

#[test]
fn power_per_turn_is_the_same_each_time() {
    let koko = Pokemon::new(catalog(), "ココロモリ", None, (10, 9, 12), "エアスラッシュ", "サイコファング", Some("みらいよち".to_string()), 1489).unwrap();
    let a = koko.calc_power_per_turn(None, None, 0);
    let b = koko.calc_power_per_turn(None, None, 0);
    assert_eq!(a, b);
    assert!(a.1 > 0);
    let c = koko.calc_power_per_turn(None, Some(vec![Type::Dark]), 2);
    assert!(c.1 > 0);
    assert!(koko.ecp(None, None, 1) >= 10);
    let avg = koko.avg_ecp(1);
    let sum: i64 = pokebattle::types::TYPES.iter().map(|t| koko.ecp(None, Some(vec![*t]), 1) as i64).sum();
    assert_eq!(avg as i64, sum / 18);
}

#[test]
fn ecp_of_round_numbers() {
    let s = pokebattle::pokemon::Stats::new(100 * 10_000_000_000, 100 * 10_000_000_000, 100 * 10_000_000_000);
    // sqrt(16 * 4 * 100 * 100 * 100) / 10 = 800
    assert_eq!(ecp_of(&s, Ratio::new(4, 1)), 800);
    assert_eq!(ecp_of(&s, Ratio::new(8, 2)), 800);
    assert_eq!(ecp_of(&s, Ratio::new(0, 0)), 10);
    assert_eq!(ecp_of(&s, Ratio::new(0, 5)), 10);
    assert_eq!(ecp_of(&s, Ratio::new(1, 0)), i32::MAX);
}

#[test]
fn pokemon_new_tells_what_is_wrong() {
    let c = catalog();
    let e = Pokemon::new(c, "ミュウ", None, (1, 2, 3), "ねんりき", "みらいよち", None, 1500).unwrap_err();
    assert_eq!(e.kind, ErrorKind::UnknownSpecies);
    assert_eq!(e.message(), "存在しないポケモン: ミュウ");

    let e = Pokemon::new(c, "クレセリア", None, (1, 16, 3), "ねんりき", "みらいよち", None, 1500).unwrap_err();
    assert_eq!(e.kind, ErrorKind::DefenseIv);

    let e = Pokemon::new(c, "クレセリア", Some(1), (2, 15, 13), "ねんりき", "みらいよち", None, 1500).unwrap_err();
    assert_eq!(e.kind, ErrorKind::LevelOutOfRange);
    assert_eq!(e.message(), "クレセリア: pokemon_lvが1.0から50.0の間でない。: 0.5");
    let e = Pokemon::new(c, "クレセリア", Some(102), (2, 15, 13), "ねんりき", "みらいよち", None, 1500).unwrap_err();
    assert_eq!(e.kind, ErrorKind::LevelOutOfRange);
    assert_eq!(e.message(), "クレセリア: pokemon_lvが1.0から50.0の間でない。: 51");
    assert!(Pokemon::new(c, "クレセリア", Some(2), (2, 15, 13), "ねんりき", "みらいよち", None, 0).is_ok());
    assert!(Pokemon::new(c, "クレセリア", Some(100), (2, 15, 13), "ねんりき", "みらいよち", None, 0).is_ok());

    let e = Pokemon::new(c, "クレセリア", None, (3, 15, 13), "ねんりき", "みらいよち", None, 1500).unwrap_err();
    assert_eq!(e.kind, ErrorKind::LevelNotFound);
    assert_eq!(
        e.near_ivs,
        vec![IVs { attack: 2, defense: 14, stamina: 14 }, IVs { attack: 2, defense: 15, stamina: 13 }]
    );
    assert_eq!(
        e.message(),
        "クレセリア: ポケモンレベルの取得に失敗(CPか個体値が間違っている)\nもしかして、この値?\nIVs { attack: 2, defense: 14, stamina: 14 }\nIVs { attack: 2, defense: 15, stamina: 13 }"
    );
    let mut expected = String::from("クレセリア: ポケモンレベルの取得に失敗(CPか個体値が間違っている)\nもしかして、この値?");
    for v in &e.near_ivs {
        expected += &format!("\n{:?}", v);
    }
    assert_eq!(e.message(), expected);
    let e = Pokemon::new(c, "クレセリア", None, (2, 15, 13), "ねんりき", "みらいよち", None, 9).unwrap_err();
    assert_eq!(e.kind, ErrorKind::LevelNotFound);
    assert!(e.near_ivs.is_empty());
    assert_eq!(e.message(), "クレセリア: ポケモンレベルの取得に失敗(CPか個体値が間違っている)");

    let e = Pokemon::new(c, "クレセリア", Some(40), (2, 15, 13), "ウェザーボール", "みらいよち", None, 0).unwrap_err();
    assert_eq!(e.kind, ErrorKind::UnknownFastMove);
    assert_eq!(
        e.message(),
        "クレセリア: 存在しないノーマルアタック: ウェザーボール\n'ウェザーボール(ノーマル)', 'ウェザーボール(ほのお)'\n'ウェザーボール(こおり)', 'ウェザーボール(いわ)'\n'ウェザーボール(みず)' のどれか。"
    );
    let e = Pokemon::new(c, "クレセリア", Some(40), (2, 15, 13), "なし", "みらいよち", None, 0).unwrap_err();
    assert_eq!(e.message(), "クレセリア: 存在しないノーマルアタック: なし");
    let e = Pokemon::new(c, "クレセリア", Some(40), (2, 15, 13), "ねんりき", "なし", None, 0).unwrap_err();
    assert_eq!(e.kind, ErrorKind::UnknownChargeMove1);
    assert_eq!(e.message(), "クレセリア: 存在しないスペシャルアタック1: なし");
    let e = Pokemon::new(c, "クレセリア", Some(40), (2, 15, 13), "ねんりき", "みらいよち", Some("なし".to_string()), 0).unwrap_err();
    assert_eq!(e.kind, ErrorKind::UnknownChargeMove2);
    assert_eq!(e.message(), "クレセリア: 存在しないスペシャルアタック2: なし");
}

#[test]
fn pokemon_new_by_no() {
    let c = catalog();
    let p = Pokemon::new_by_no(c, "0528", None, (10, 9, 12), "255", "353", Some("275".to_string()), 1489).unwrap();
    assert_eq!(p.name(), "ココロモリ");
    assert_eq!(p.lv(), 69);
    assert_eq!(p.fast_move().name(), "エアスラッシュ");
    assert_eq!(p.charge_move1().name(), "サイコファング");
    assert_eq!(p.charge_move2().unwrap().name(), "みらいよち");

    let e = Pokemon::new_by_no(c, "9999", None, (10, 9, 12), "255", "353", None, 1489).unwrap_err();
    assert_eq!(e.kind, ErrorKind::UnknownSpecies);
    assert_eq!(e.message(), "存在しないポケモン: no = 9999");
    let e = Pokemon::new_by_no(c, "0528", None, (10, 9, 12), "000", "353", None, 1489).unwrap_err();
    assert_eq!(e.kind, ErrorKind::UnknownFastMove);
    assert_eq!(e.message(), "ココロモリ: 存在しないノーマルアタック: no = 000");
    let e = Pokemon::new_by_no(c, "0528", None, (10, 9, 12), "255", "xyz", None, 1489).unwrap_err();
    assert_eq!(e.message(), "ココロモリ: 存在しないスペシャルアタック1: no = xyz");
    let e = Pokemon::new_by_no(c, "0528", None, (10, 9, 12), "255", "353", Some("xyz".to_string()), 1489).unwrap_err();
    assert_eq!(e.message(), "ココロモリ: 存在しないスペシャルアタック2: no = xyz");
    let e = Pokemon::new_by_no(c, "0528", None, (10, 9, 12), "255", "353", None, 1490).unwrap_err();
    assert_eq!(e.kind, ErrorKind::LevelNotFound);
}

fn record(no: &str, cp: i32, hp: Option<i32>, ivs: (i32, i32, i32), fm: &str, c1: &str, c2: Option<&str>) -> PokemonRecord {
    PokemonRecord {
        no: no.to_string(),
        cp,
        hp,
        ivs: IVs { attack: ivs.0, defense: ivs.1, stamina: ivs.2 },
        fast_move: fm.to_string(),
        charge_move1: c1.to_string(),
        charge_move2: c2.map(|s| s.to_string()),
    }
}

#[test]
fn test_load_pokemon() {
    let records = vec![
        record("0528", 1489, Some(135), (10, 9, 12), "255", "353", Some("275")),
        record("0182", 1479, Some(124), (2, 15, 6), "357", "117", None),
        record("0340", 1474, Some(174), (8, 15, 14), "230", "096", None),
    ];
    let (pokemons, errors) = load_records(catalog(), &records);
    for e in &errors {
        println!("{}", e.message());
    }
    assert_eq!(pokemons.len(), 3);

    let p = &pokemons[0];

    assert_eq!(p.name(), "ココロモリ");
    assert_eq!(p.cp(), 1489);
    assert_eq!(p.lv(), 69);

    let ivs = p.ivs();
    assert_eq!(ivs.attack, 10);
    assert_eq!(ivs.defense, 9);
    assert_eq!(ivs.stamina, 12);

    assert_eq!(p.cpm() as f64 / 1e10, 0.7586303702);

    let stats = p.stats();
    assert_eq!(stats.attack as f64 / 1e10, 129.7257933042);
    assert_eq!(stats.defense as f64 / 1e10, 97.1046873856);
    assert_eq!(stats.stamina as f64 / 1e10, 135.7948362658);

    assert_eq!(p.hp(), 135);
    assert_eq!(p.fast_move().name(), "エアスラッシュ");
    assert_eq!(p.charge_move1().name(), "サイコファング");
    assert_eq!(p.charge_move2().unwrap().name(), "みらいよち");
}

#[test]
fn records_with_wrong_hit_points_are_left_out() {
    let records = vec![
        record("0528", 1489, Some(136), (10, 9, 12), "255", "353", None),
        record("0340", 1474, None, (8, 15, 14), "230", "096", None),
        record("0340", 1474, Some(174), (8, 15, 14), "230", "nope", None),
    ];
    let (pokemons, errors) = load_records(catalog(), &records);
    assert_eq!(pokemons.len(), 1);
    assert_eq!(pokemons[0].name(), "ナマズン");
    assert_eq!(errors.len(), 2);
    assert_eq!(errors[0].kind, ErrorKind::HpMismatch);
    assert_eq!(errors[0].message(), "ココロモリ HPが一致しない, データ: 136, 計算結果: 135");
    assert_eq!(errors[1].kind, ErrorKind::UnknownChargeMove1);
    let e = load_record(catalog(), &records[0]).unwrap_err();
    assert_eq!(e.kind, ErrorKind::HpMismatch);
}

#[test]
fn record_round_trip() {
    let p = Pokemon::new_by_no(catalog(), "0528", None, (10, 9, 12), "255", "353", Some("275".to_string()), 1489).unwrap();
    let r = to_record(&p);
    assert_eq!(r.no, "0528");
    assert_eq!(r.cp, 1489);
    assert_eq!(r.hp, Some(135));
    assert_eq!(r.fast_move, "255");
    assert_eq!(r.charge_move1, "353");
    assert_eq!(r.charge_move2.as_deref(), Some("275"));
    let q = load_record(catalog(), &r).unwrap();
    assert_eq!(q.lv(), p.lv());
    assert_eq!(q.ivs(), p.ivs());
    assert_eq!(q.no(), p.no());
}

#[test]
fn catalog_lookups() {
    let c = catalog();
    assert_eq!(pokepedia_by_name(c, "ナマズン").unwrap().no(), "0340");
    assert_eq!(pokepedia_by_no(c, "0340").unwrap().name(), "ナマズン");
    assert!(pokepedia_by_name(c, "nobody").is_none());
    assert!(pokepedia_by_no(c, "").is_none());
    assert_eq!(c[0].types(), vec![Type::Psychic, Type::Flying]);
    assert_eq!(c[1].types(), vec![Type::Grass]);
    assert_eq!(c[1].base_stats().attack, 169 * 10_000_000_000);
}

#[test]
fn setters_and_set_cp() {
    let mut p = kure();
    assert!(p.set_cp(1500));
    assert_eq!(p.lv(), 40);
    assert!(!p.set_cp(1501));
    assert_eq!(p.lv(), 40);
    *p.lv_mut() = 50;
    assert_eq!(p.lv(), 50);
    p.ivs_mut().attack = 3;
    assert_eq!(p.ivs().attack, 3);
    p.set_fast_move(fast_move_by_name("エアスラッシュ").unwrap());
    assert_eq!(p.fast_move().name(), "エアスラッシュ");
    p.set_charge_move1(charge_move_by_name("サイコファング").unwrap());
    p.set_charge_move2(Some(charge_move_by_name("みらいよち").unwrap()));
    assert_eq!(p.charge_move1().name(), "サイコファング");
    assert_eq!(p.charge_move2().unwrap().name(), "みらいよち");
    p.set_charge_move2(None);
    assert!(p.charge_move2().is_none());
}

#[test]
fn move_perm_counts_each_pair_once() {
    let koko = Pokemon::new(catalog(), "ココロモリ", None, (10, 9, 12), "エアスラッシュ", "サイコファング", None, 1489).unwrap();
    let perm = koko.move_perm();
    // Two fast moves, three pairs of the three charge moves.
    assert_eq!(perm.len(), 6);
    let names: Vec<(&str, &str, &str)> =
        perm.iter().map(|p| (p.fast_move().name(), p.charge_move1().name(), p.charge_move2().unwrap().name())).collect();
    assert_eq!(
        names,
        vec![
            ("エアスラッシュ", "サイコファング", "みらいよち"),
            ("エアスラッシュ", "サイコファング", "つばめがえし"),
            ("エアスラッシュ", "みらいよち", "つばめがえし"),
            ("ねんりき", "サイコファング", "みらいよち"),
            ("ねんりき", "サイコファング", "つばめがえし"),
            ("ねんりき", "みらいよち", "つばめがえし"),
        ]
    );
    for p in &perm {
        assert_eq!(p.lv(), koko.lv());
        assert_eq!(p.ivs(), koko.ivs());
    }
    assert!(kure().move_perm().is_empty());
}

#[test]
fn scp_ranking_orders_the_catalog() {
    let ranking = scp_ranking(catalog(), 1500, 80);
    assert_eq!(ranking.len(), 6);
    let scps: Vec<i32> = ranking.iter().map(|p| p.scp()).collect();
    for w in scps.windows(2) {
        assert!(w[0] >= w[1]);
    }
    for p in &ranking {
        assert!(p.cp() <= 1500);
        assert!(p.charge_move2().is_none());
    }
    let koko = ranking.iter().find(|p| p.name() == "ココロモリ").unwrap();
    assert_eq!(koko.scp(), 1476);
    assert_eq!(koko.lv(), 76);
    assert_eq!(koko.ivs(), IVs { attack: 0, defense: 15, stamina: 9 });
    assert_eq!(koko.fast_move().name(), "エアスラッシュ");
    // Nothing fits under a limit of 9 CP.
    assert!(scp_ranking(catalog(), 9, 80).is_empty());
}

#[test]
fn marks_for_ratios() {
    assert_eq!(ratio_to_rank(Ratio::new(13, 10)), "oooo");
    assert_eq!(ratio_to_rank(Ratio::new(129, 100)), "ooo ");
    assert_eq!(ratio_to_rank(Ratio::new(12, 10)), "ooo ");
    assert_eq!(ratio_to_rank(Ratio::new(11, 10)), "oo  ");
    assert_eq!(ratio_to_rank(Ratio::new(103, 100)), "o   ");
    assert_eq!(ratio_to_rank(Ratio::new(1, 1)), "-   ");
    assert_eq!(ratio_to_rank(Ratio::new(97, 100)), "-   ");
    assert_eq!(ratio_to_rank(Ratio::new(96, 100)), "x   ");
    assert_eq!(ratio_to_rank(Ratio::new(8, 10)), "xx  ");
    assert_eq!(ratio_to_rank(Ratio::new(7, 10)), "xxx ");
    assert_eq!(ratio_to_rank(Ratio::new(69, 100)), "xxxx");
    assert_eq!(ratio_to_rank(Ratio::new(5, 0)), "oooo");
    assert_eq!(ratio_to_rank(Ratio::new(0, 0)), "xxxx");
    assert_eq!(ratio_to_rank(Ratio::new(u64::MAX, 1)), "oooo");
}

#[test]
fn matchups_count_the_wins() {
    let kure = kure();
    let fude = fude();
    let m = matchup(&kure, &fude);
    assert_eq!(m.turns0[1], 46);
    assert_eq!(m.turns1[1], 58);
    assert!(m.wins(1));
    assert_eq!(m.ratio(1), Ratio::new(58, 46));
    let all = matchups(&kure, &vec![fude, kure]);
    assert_eq!(all.len(), 2);
    let wins = count_wins(&all);
    for i in 0..3 {
        let expected = all.iter().filter(|m| m.turns0[i] < m.turns1[i]).count() as i32;
        assert_eq!(wins[i], expected);
    }
    let fixed = vec![
        Matchup { turns0: [1, 5, 9], turns1: [2, 5, 8] },
        Matchup { turns0: [3, 3, 3], turns1: [4, 4, 4] },
    ];
    assert_eq!(count_wins(&fixed), [2, 1, 1]);
    assert_eq!(Matchup { turns0: [-1, 0, 0], turns1: [-3, 0, 0] }.ratio(0), Ratio::new(0, 0));
}

#[test]
fn widths() {
    assert_eq!(jp_width("abc"), 3);
    assert_eq!(jp_width("ナマズン"), 8);
    assert_eq!(jp_width("みずa"), 5);
    assert_eq!(jp_width(""), 0);
    // Characters beyond hiragana and katakana count one.
    assert_eq!(jp_width("漢字"), 2);
    assert_eq!(jp_fixed_width_string("ナマズン", 10), "ナマズン  ");
    assert_eq!(jp_fixed_width_string("ナマズン", 8), "ナマズン");
    assert_eq!(jp_fixed_width_string("ナマズン", 3), "ナマズン");
    assert_eq!(jp_fixed_width_string("", 2), "  ");
}

#[test]
fn pokemon_lv_test_calc_pokemon_lv() {
    let saza = Pokepedia {
        no: "0635",
        name: "サザンドラ",
        s_name: "",
        type1: Type::Dark,
        type2: Some(Type::Dragon),
        attack_st: 256,
        defense_st: 188,
        stamina_st: 211,
        fast_moves: Vec::new(),
        charge_moves: Vec::new(),
    };
    assert_eq!(pokebattle::pokemon_lv::calc_pokemon_lv(&saza, 2276, 10, 14, 14), 45);
}

#[test]
fn level_table() {
    let row = get_pokemon_lv(2);
    assert_eq!((row.lv, row.cpm, row.powerup_stardust, row.powerup_candies), (2, 939_999_967, 200, 1));
    let row = get_pokemon_lv(80);
    assert_eq!((row.lv, row.powerup_stardust, row.powerup_candies), (80, 10000, 10));
    assert_eq!(get_pokemon_lv(102).cpm, 8_452_999_900);
    for (i, r) in POKEMON_LV.iter().enumerate() {
        assert_eq!(r.0 as usize, i + 2);
        assert_eq!(r.1, pokebattle::cpm::get_cpm(r.0));
    }
}

fn wear_down(p: &Pokemon, shields: i32, mut next: impl FnMut() -> u32) -> (Ratio, i32) {
    let setup = p.duel_setup(None, None);
    let mut w = WearState {
        total_damage: 0,
        num_turns: 0,
        sum_power: 0,
        energy: 0,
        num_shields: shields,
        atk_buff: 0,
        def_buff: 0,
    };
    while w.total_damage < setup.min_hp as i64 {
        let draw = if setup.draws(&w) { next() } else { 0 };
        w = setup.step(w, draw);
    }
    (Ratio::new(w.sum_power, POWER_UNIT * w.num_turns as u64), w.num_turns as i32)
}

#[test]
fn power_per_turn_takes_the_draws_of_the_seeded_generator() {
    // つじぎり raises the own attack by two stages, one time in eight.
    let p = Pokemon::new(catalog(), "ココロモリ", None, (10, 9, 12), "エアスラッシュ", "つじぎり", None, 1489).unwrap();
    assert_eq!(p.charge_move1().buff_prob(), 125);
    assert!(p.is_ppt_ready(None));
    for shields in 0..3 {
        let mut rng = StdRng::from_seed([0u8; 32]);
        let expected = wear_down(&p, shields, || rng.gen::<u32>());
        assert_eq!(p.calc_power_per_turn(None, None, shields), expected);
        assert_eq!(p.calc_power_per_turn(None, None, shields), expected);
    }
    // The draws matter: with no change of stages ever, or one every time,
    // the wearing down ends differently.
    let never = wear_down(&p, 0, || u32::MAX);
    let always = wear_down(&p, 0, || 0);
    assert_ne!(never, always);
    let seeded = p.calc_power_per_turn(None, None, 0);
    assert!(seeded != never || seeded != always);
}
