use pokebattle::evolution::{evolutions, rev_evolutions, EVOLUTION};
use pokebattle::moves::{
    charge_move_at, charge_move_by_name, charge_move_by_no, fast_move_at, fast_move_by_name,
    fast_move_by_no, stab, NUM_CHARGE_MOVES, NUM_FAST_MOVES,
};
use pokebattle::ratio::Ratio;
use pokebattle::types::{Type, TYPES, TYPE_NAMES};
use std::collections::HashSet;

#[test]
fn test_real_power() {
    let m = fast_move_by_name("マッドショット").unwrap();
    assert_eq!(m.mtype(), Type::Ground);
    assert_eq!(m.power(), 3);
    assert_eq!(m.real_power(&vec![Type::Normal, Type::Flare]), Ratio::new(3, 1));
    let boosted = m.real_power(&vec![Type::Ground]);
    assert_eq!(boosted, Ratio::new(18, 5));
    assert!(boosted.eq_value(&Ratio::new(3 * stab().num, stab().den)));
}

#[test]
fn test_fast_move_by_no() {
    let m = fast_move_by_no("216").unwrap();
    assert_eq!(m.name, "マッドショット");
}

#[test]
fn test_fast_move_by_name() {
    let m = fast_move_by_name("マッドショット").unwrap();
    assert_eq!(m.no, "216");
}

#[test]
fn test_charge_move_by_no() {
    let m = charge_move_by_no("090").unwrap();
    assert_eq!(m.name, "ヘドロばくだん");
}

#[test]
fn test_charge_move_by_name() {
    let m = charge_move_by_name("ヘドロばくだん").unwrap();
    assert_eq!(m.no, "090");
}

#[test]
fn test_fast_move_uniq() {
    let mut no_set = HashSet::with_capacity(NUM_FAST_MOVES);
    let mut name_set = HashSet::with_capacity(NUM_FAST_MOVES);
    for i in 0..NUM_FAST_MOVES {
        let mv = fast_move_at(i);
        if mv.no == "000" {
            continue;
        }
        if !no_set.insert(mv.no.to_string()) {
            panic!("fast move number twice: {}", mv.no);
        }
        if !name_set.insert(mv.name.to_string()) {
            panic!("fast move name twice: {}", mv.name);
        }
    }
}

#[test]
fn test_charge_move_uniq() {
    let mut no_set = HashSet::with_capacity(NUM_CHARGE_MOVES);
    let mut name_set = HashSet::with_capacity(NUM_CHARGE_MOVES);
    for i in 0..NUM_CHARGE_MOVES {
        let mv = charge_move_at(i);
        if mv.no == "000" {
            continue;
        }
        if !no_set.insert(mv.no.to_string()) {
            panic!("charge move number twice: {}", mv.no);
        }
        if !name_set.insert(mv.name.to_string()) {
            panic!("charge move name twice: {}", mv.name);
        }
    }
}

#[test]
fn lookups_miss_what_is_not_there() {
    assert!(fast_move_by_no("000").is_none());
    assert!(fast_move_by_name("dummy fast move").is_none());
    assert!(charge_move_by_no("000").is_none());
    assert!(charge_move_by_name("dummy charge move").is_none());
    assert!(fast_move_by_no("999").is_none());
    assert!(charge_move_by_name("").is_none());
}

#[test]
fn lookups_find_every_entry() {
    for i in 0..NUM_FAST_MOVES {
        let mv = fast_move_at(i);
        if mv.no != "000" {
            assert_eq!(fast_move_by_no(mv.no).unwrap().name, mv.name);
            assert_eq!(fast_move_by_name(mv.name).unwrap().no, mv.no);
        }
    }
    for i in 0..NUM_CHARGE_MOVES {
        let mv = charge_move_at(i);
        if mv.no != "000" {
            assert_eq!(charge_move_by_no(mv.no).unwrap().name, mv.name);
            assert_eq!(charge_move_by_name(mv.name).unwrap().no, mv.no);
        }
    }
}

#[test]
fn charge_move_fields() {
    let m = charge_move_by_name("どくどくのキバ").unwrap();
    assert_eq!(m.power(), 45);
    assert_eq!(m.energy(), 40);
    assert_eq!(m.buff_prob(), 1000);
    let b = m.buff().unwrap();
    assert_eq!((b.0, b.1, b.2, b.3), (0, 0, 0, -1));
    assert_eq!(m.pte(), Ratio::new(45, 40));
    let plain = charge_move_by_name("みらいよち").unwrap();
    assert!(plain.buff().is_none());
    assert_eq!(plain.real_power(&[Type::Psychic]), Ratio::new(720, 5));
    // 120 * 6/5 against a Psychic creature, which resists Psychic: * 5/8.
    assert_eq!(plain.real_power2(&[Type::Psychic], &[Type::Psychic]), Ratio::new(3600, 40));
    assert_eq!(plain.ppe(&[Type::Psychic], &[Type::Psychic]), Ratio::new(3600, 40 * 65));
}

#[test]
fn test_type_effect_bonus() {
    let effects = vec![
        Ratio::new(125, 512),
        Ratio::new(25, 64),
        Ratio::new(5, 8),
        Ratio::new(1, 1),
        Ratio::new(8, 5),
        Ratio::new(64, 25),
    ];
    for t in TYPES {
        for t1 in TYPES {
            for t2 in TYPES {
                if t1 == t2 {
                    continue;
                }
                let v = t.type_effect_bonus(&vec![t1, t2]);
                assert!(effects.contains(&v));
            }
        }
    }
}

#[test]
fn type_effect_values() {
    assert_eq!(Type::Water.type_effect_bonus(&[Type::Flare]), Ratio::new(8, 5));
    assert_eq!(Type::Water.type_effect_bonus(&[Type::Flare, Type::Rock]), Ratio::new(64, 25));
    assert_eq!(Type::Normal.type_effect_bonus(&[Type::Spectre]), Ratio::new(25, 64));
    assert_eq!(Type::Normal.type_effect_bonus(&[Type::Spectre, Type::Rock]), Ratio::new(125, 512));
    assert_eq!(Type::Normal.type_effect_bonus(&[]), Ratio::new(1, 1));
    // The sum is held to the table: -2 - 1 - 1 counts as -3.
    assert_eq!(
        Type::Normal.type_effect_bonus(&[Type::Spectre, Type::Rock, Type::Steel]),
        Ratio::new(125, 512)
    );
    assert_eq!(
        Type::Water.type_effect_bonus(&[Type::Flare, Type::Rock, Type::Ground]),
        Ratio::new(64, 25)
    );
}

#[test]
fn type_names() {
    for (i, t) in TYPES.iter().enumerate() {
        assert_eq!(t.index(), i);
        assert_eq!(t.name(), TYPE_NAMES[i]);
        assert_eq!(Type::from_name(TYPE_NAMES[i]), Some(*t));
        assert_eq!(String::from(*t), TYPE_NAMES[i]);
    }
    assert_eq!(Type::from_name("ゴースト"), Some(Type::Spectre));
    assert_eq!(Type::from_name("no such type"), None);
}

#[test]
fn test_evolutions_by_no() {
    // The species 0909 evolves into 0910.
    let v = evolutions("0909");
    assert_eq!(v[0], "0910");
}

#[test]
fn test_rev_evolutions_by_no() {
    let v = rev_evolutions("0910");
    assert_eq!(v[0], "0909");
}

#[test]
fn evolutions_follow_the_table() {
    assert_eq!(evolutions("0006"), vec!["0006MX", "0006MY"]);
    assert_eq!(rev_evolutions("0003M"), vec!["0003"]);
    assert!(evolutions("no such species").is_empty());
    // A row that stands twice in the table counts twice.
    let twice = EVOLUTION.iter().filter(|r| r.0 == "0694" && r.1 == "0695").count();
    assert_eq!(evolutions("0694").len(), twice);
    for row in EVOLUTION.iter() {
        assert!(evolutions(row.0).contains(&row.1));
        assert!(rev_evolutions(row.1).contains(&row.0));
    }
}

#[test]
fn first_turn_of_a_charge_move() {
    let fast = fast_move_by_name("マッドショット").unwrap();
    let charge = charge_move_by_name("ヘドロばくだん").unwrap();
    // Energy 9 a hit in 2 turns, and 50 to fill: 6 hits, 12 turns.
    assert_eq!((fast.energy(), fast.turns(), charge.energy()), (9, 2, 50));
    assert_eq!(charge.first_enable_turn(&fast), 12);
    let exact = charge_move_by_name("どくどくのキバ").unwrap();
    // Energy 40 with 4 a hit in 1 turn: 10 hits.
    let quick = fast_move_by_name("れんぞくぎり").unwrap();
    assert_eq!(exact.first_enable_turn(&quick), 10);
    let mut none = quick;
    none.energy = 0;
    assert_eq!(exact.first_enable_turn(&none), 0);
    let mut huge = quick;
    huge.energy = 1;
    huge.turns = i32::MAX;
    let mut far = exact;
    far.energy = i32::MAX;
    assert_eq!(far.first_enable_turn(&huge), i32::MAX as i64 * i32::MAX as i64);
}

#[test]
fn moves_well_formed_and_bounded() {
    for i in 0..NUM_FAST_MOVES {
        assert!(fast_move_at(i).is_valid() && fast_move_at(i).is_bounded());
    }
    for i in 0..NUM_CHARGE_MOVES {
        assert!(charge_move_at(i).is_valid() && charge_move_at(i).is_bounded());
    }
    let mut mv = fast_move_by_name("マッドショット").unwrap();
    mv.power = 65536;
    assert!(mv.is_valid() && !mv.is_bounded());
    mv.power = -1;
    assert!(!mv.is_valid());
    let mut cm = charge_move_by_name("ヘドロばくだん").unwrap();
    cm.energy = 500;
    assert!(cm.is_valid() && cm.is_bounded());
    cm.power = 70000;
    assert!(cm.is_valid() && !cm.is_bounded());
}
