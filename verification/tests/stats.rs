use pokebattle::cpm::{calc_pokemon_lv, get_cpm};
use pokebattle::index::{calc_lv_limited_by_cp, calc_max_scp_iv_limited_by_cp};
use pokebattle::pokemon::{calc_lv, search_near_iv, ErrorKind, IVs, Stats};
use pokebattle::pokepedia::Pokepedia;
use pokebattle::ratio::SCALE;
use pokebattle::types::Type;

fn species(no: &'static str, name: &'static str, t1: Type, t2: Option<Type>, a: u16, d: u16, s: u16) -> Pokepedia {
    Pokepedia {
        no,
        name,
        s_name: "",
        type1: t1,
        type2: t2,
        attack_st: a,
        defense_st: d,
        stamina_st: s,
        fast_moves: Vec::new(),
        charge_moves: Vec::new(),
    }
}

fn cresselia() -> Pokepedia {
    species("0488", "クレセリア", Type::Psychic, None, 152, 258, 260)
}

fn alakazam() -> Pokepedia {
    species("0065", "フーディン", Type::Psychic, None, 271, 167, 146)
}

fn hydreigon() -> Pokepedia {
    species("0635", "サザンドラ", Type::Dark, Some(Type::Dragon), 256, 188, 211)
}

fn blissey() -> Pokepedia {
    species("0242", "ハピナス", Type::Normal, None, 129, 169, 496)
}

fn swoobat() -> Pokepedia {
    species("0528", "ココロモリ", Type::Psychic, Some(Type::Flying), 161, 119, 167)
}

#[test]
fn test_get_cpm() {
    assert_eq!(get_cpm(2) as f64 / 1e10, 0.0939999967);
    assert_eq!(get_cpm(23) as f64 / 1e10, 0.4530599481);
    assert_eq!(get_cpm(102) as f64 / 1e10, 0.84529999);
}

#[test]
fn get_cpm_is_exact() {
    assert_eq!(get_cpm(2), 939_999_967);
    assert_eq!(get_cpm(69), 7_586_303_702);
    assert_eq!(get_cpm(102), 8_452_999_900);
}

#[test]
fn test_calc_index() {
    let kure = cresselia().base_stats().stats(40, IVs { attack: 2, defense: 15, stamina: 13 });
    assert_eq!(kure.calc_cp(), 1500);
    assert_eq!(kure.calc_scp(), 1815);
    assert_eq!(kure.calc_dcp(), 2115);

    let fude = alakazam().base_stats().stats(36, IVs { attack: 1, defense: 15, stamina: 15 });
    assert_eq!(fude.calc_cp(), 1495);
    assert_eq!(fude.calc_scp(), 1279);
    assert_eq!(fude.calc_dcp(), 1132);
}

#[test]
fn index_is_at_least_ten() {
    let tiny = Stats::new(SCALE, SCALE, SCALE);
    assert_eq!(tiny.calc_cp(), 10);
    assert_eq!(tiny.calc_scp(), 10);
    assert_eq!(tiny.calc_dcp(), 10);
    assert_eq!(Stats::new(0, 0, 0).calc_cp(), 10);
}

#[test]
fn index_of_round_stats() {
    // attack 100, defense 100, stamina 100: 100 * sqrt(100 * 100) / 10 = 1000.
    let s = Stats::new(100 * SCALE, 100 * SCALE, 100 * SCALE);
    assert_eq!(s.calc_cp(), 1000);
    // (100 * 100 * 100)^(2/3) / 10 = 1000.
    assert_eq!(s.calc_scp(), 1000);
    // (100 * 100^2 * 100^2)^(2/5) / 10 = 1000.
    assert_eq!(s.calc_dcp(), 1000);
    assert_eq!(s.hp(), 100);
}

#[test]
fn index_holds_at_the_largest_value() {
    let s = Stats::new(u64::MAX, u64::MAX, u64::MAX);
    assert_eq!(s.calc_dcp(), i32::MAX);
    assert!(s.cp_exceeds(1_000_000));
}

#[test]
fn cp_exceeds_agrees_with_calc_cp() {
    let kure = cresselia().base_stats().stats(40, IVs { attack: 2, defense: 15, stamina: 13 });
    assert!(kure.cp_exceeds(1499));
    assert!(!kure.cp_exceeds(1500));
    assert!(kure.cp_exceeds(-5));
    assert!(!kure.cp_exceeds(i32::MAX));
}

#[test]
fn stats_are_exact() {
    let s = swoobat().base_stats().stats(69, IVs { attack: 10, defense: 9, stamina: 12 });
    assert_eq!(s.attack, 1_297_257_933_042);
    assert_eq!(s.defense, 971_046_873_856);
    assert_eq!(s.stamina, 1_357_948_362_658);
    assert_eq!(s.attack as f64 / 1e10, 129.7257933042);
    assert_eq!(s.defense as f64 / 1e10, 97.1046873856);
    assert_eq!(s.stamina as f64 / 1e10, 135.7948362658);
    assert_eq!(s.hp(), 135);
}

#[test]
fn test_calc_lv() {
    let saza = hydreigon();
    let ivs = IVs::new(10, 14, 14).unwrap();
    assert_eq!(calc_lv(&saza, 2276, ivs), Some(45));
    assert_eq!(calc_lv(&saza, 2277, ivs), None);
}

#[test]
fn cpm_test_calc_pokemon_lv() {
    let saza = hydreigon();
    assert_eq!(calc_pokemon_lv(&saza, 2276, 10, 14, 14), Some(45));
    assert_eq!(calc_pokemon_lv(&saza, 2277, 10, 14, 14), None);
}

#[test]
fn level_from_cp_of_a_known_creature() {
    let kure = cresselia();
    let ivs = IVs::new(2, 15, 13).unwrap();
    assert_eq!(calc_lv(&kure, 1500, ivs), Some(40));
}

#[test]
fn cp_round_trip_on_every_level() {
    let kure = cresselia();
    let ivs = IVs::new(2, 15, 13).unwrap();
    let cps: Vec<i32> = (2..=100u32).map(|lv| kure.base_stats().stats(lv, ivs).calc_cp()).collect();
    for lv in 2..=100u32 {
        let cp = cps[(lv - 2) as usize];
        if cps.iter().filter(|c| **c == cp).count() == 1 {
            assert_eq!(calc_lv(&kure, cp, ivs), Some(lv));
        } else {
            let first = cps.iter().position(|c| *c == cp).unwrap() as u32 + 2;
            assert_eq!(calc_lv(&kure, cp, ivs), Some(first));
        }
    }
}

#[test]
fn ivs_new_names_the_first_value_out_of_range() {
    assert_eq!(IVs::new(0, 0, 0).unwrap().to_tuple(), (0, 0, 0));
    assert_eq!(IVs::new(15, 15, 15).unwrap().to_tuple(), (15, 15, 15));
    let e = IVs::new(16, -1, 99).unwrap_err();
    assert_eq!(e.kind, ErrorKind::AttackIv);
    assert_eq!(e.message(), "[IVs::new] 攻撃の個体値(attack_iv)が範囲外(0～15が正常): 16");
    let e = IVs::new(3, -1, 99).unwrap_err();
    assert_eq!(e.kind, ErrorKind::DefenseIv);
    assert_eq!(e.message(), "[IVs::new] 防御の個体値(defense_iv)が範囲外(0～15が正常): -1");
    let e = IVs::new(3, 4, 99).unwrap_err();
    assert_eq!(e.kind, ErrorKind::StaminaIv);
    assert_eq!(e.message(), "[IVs::new] 耐久の個体値(stamina_iv)が範囲外(0～15が正常): 99");
    let e = IVs::new(3, 4, i32::MIN).unwrap_err();
    assert_eq!(e.message(), "[IVs::new] 耐久の個体値(stamina_iv)が範囲外(0～15が正常): -2147483648");
}

#[test]
fn search_near_iv_finds_the_neighbours() {
    let saza = hydreigon();
    let ivs = IVs::new(10, 14, 14).unwrap();
    let near = search_near_iv(&saza, 2276, ivs);
    assert!(near.contains(&ivs));
    for v in &near {
        assert!((v.attack - 10).abs() <= 1 && (v.defense - 14).abs() <= 1 && (v.stamina - 14).abs() <= 1);
        assert!(calc_lv(&saza, 2276, *v).is_some());
    }
    let mut expected = Vec::new();
    for a in 9..=11 {
        for d in 13..=15 {
            for s in 13..=15 {
                let v = IVs::new(a, d, s).unwrap();
                if calc_lv(&saza, 2276, v).is_some() {
                    expected.push(v);
                }
            }
        }
    }
    assert_eq!(near, expected);
    // At the edge of the range only the values within it are looked at.
    let corner = search_near_iv(&saza, 2276, IVs::new(15, 15, 15).unwrap());
    assert!(corner.iter().all(|v| v.attack <= 15 && v.defense <= 15 && v.stamina <= 15));
}

#[test]
fn test_calc_lv_limited_by_cp() {
    let kure = cresselia();
    let ivs = IVs::new(2, 15, 13).unwrap();
    assert_eq!(calc_lv_limited_by_cp(1500, 100, &kure, ivs), Some(40));
    assert_eq!(calc_lv_limited_by_cp(5000, 100, &kure, ivs), Some(100));

    let hapi = blissey();
    let ivs = IVs::new(15, 15, 15).unwrap();
    assert_eq!(calc_lv_limited_by_cp(39, 80, &hapi, ivs), Some(2));
    assert_eq!(calc_lv_limited_by_cp(38, 80, &hapi, ivs), None);
}

#[test]
fn test_calc_max_scp_iv_limited_by_cp() {
    let koko = swoobat();
    let ivs = IVs::new(0, 15, 9).unwrap();
    assert_eq!(calc_max_scp_iv_limited_by_cp(1500, 80, &koko), Some((1476, 76, ivs)));
}
