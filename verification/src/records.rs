//! Creatures as they are stored: by the numbers of the species and of the
//! moves, with the CP in place of the level.

use vstd::prelude::*;
use vstd::string::*;
use crate::pokemon::{
    by_no_result, opt_view, ErrorKind, IVs, Pokemon, PokemonError,
};
use crate::pokepedia::Pokepedia;
use crate::text::{push_signed, signed_decimal_spec};

verus! {

/// A stored creature.
#[derive(Debug, Clone)]
pub struct PokemonRecord {
    /// The number of the species.
    pub no: String,
    pub cp: i32,
    /// The hit points, where they were stored.
    pub hp: Option<i32>,
    pub ivs: IVs,
    /// The numbers of the moves.
    pub fast_move: String,
    pub charge_move1: String,
    pub charge_move2: Option<String>,
}

/// The message for hit points that are not those of the creature.
pub open spec fn hp_mismatch_text(name: Seq<char>, stored: int, computed: int) -> Seq<char> {
    name + " HPが一致しない, データ: "@ + signed_decimal_spec(stored) + ", 計算結果: "@
        + signed_decimal_spec(computed)
}

/// `r` is what loading `record` gives: the creature that
/// `Pokemon::new_by_no` makes of the record with the level found from the
/// CP, unless hit points are stored that the creature does not have.
pub open spec fn load_result(
    catalog: Seq<Pokepedia>,
    record: PokemonRecord,
    r: Result<Pokemon, PokemonError>,
) -> bool {
    exists|made: Result<Pokemon, PokemonError>|
        {
            &&& #[trigger] by_no_result(
                catalog,
                record.no@,
                None,
                (record.ivs.attack, record.ivs.defense, record.ivs.stamina),
                record.fast_move@,
                record.charge_move1@,
                opt_view(record.charge_move2),
                record.cp,
                made,
            )
            &&& match made {
                Err(e) => r is Err && r->Err_0.kind == e.kind && r->Err_0.message@ == e.message@
                    && r->Err_0.near_ivs@ == e.near_ivs@,
                Ok(p) => if record.hp is Some && record.hp.unwrap() != p.hp_spec() {
                    r is Err && r->Err_0.kind == ErrorKind::HpMismatch && r->Err_0.message@
                        == hp_mismatch_text(p.dict.name@, record.hp.unwrap() as int, p.hp_spec())
                } else {
                    r == Ok::<Pokemon, PokemonError>(p)
                },
            }
        }
}

/// The creature of a record, as `load_result` says.
pub fn load_record(catalog: &'static [Pokepedia], record: &PokemonRecord) -> (r: Result<
    Pokemon,
    PokemonError,
>)
    ensures
        load_result(catalog@, *record, r),
        r is Ok ==> r.unwrap().wf(),
{
    let charge_move2 = match &record.charge_move2 {
        Some(s) => Some(s.clone()),
        None => None,
    };
    let made = Pokemon::new_by_no(
        catalog,
        record.no.as_str(),
        None,
        (record.ivs.attack, record.ivs.defense, record.ivs.stamina),
        record.fast_move.as_str(),
        record.charge_move1.as_str(),
        charge_move2,
        record.cp,
    );
    match made {
        Err(e) => {
            let r = Err(e);
            proof {
                assert(load_result(catalog@, *record, r)) by {
                    assert(by_no_result(
                        catalog@,
                        record.no@,
                        None,
                        (record.ivs.attack, record.ivs.defense, record.ivs.stamina),
                        record.fast_move@,
                        record.charge_move1@,
                        opt_view(record.charge_move2),
                        record.cp,
                        made,
                    ));
                }
            }
            r
        },
        Ok(p) => {
            let hp = p.hp();
            let mismatch = match record.hp {
                Some(stored) => stored != hp,
                None => false,
            };
            if mismatch {
                let stored = record.hp.unwrap();
                let mut message = String::from_str(p.dict.name);
                message.append(" HPが一致しない, データ: ");
                push_signed(&mut message, stored as i64);
                message.append(", 計算結果: ");
                push_signed(&mut message, hp as i64);
                proof {
                    assert(message@ =~= hp_mismatch_text(p.dict.name@, stored as int, hp as int));
                }
                let r = Err(
                    PokemonError { kind: ErrorKind::HpMismatch, message, near_ivs: Vec::new() },
                );
                proof {
                    assert(by_no_result(
                        catalog@,
                        record.no@,
                        None,
                        (record.ivs.attack, record.ivs.defense, record.ivs.stamina),
                        record.fast_move@,
                        record.charge_move1@,
                        opt_view(record.charge_move2),
                        record.cp,
                        made,
                    ));
                }
                r
            } else {
                let r = Ok(p);
                proof {
                    assert(by_no_result(
                        catalog@,
                        record.no@,
                        None,
                        (record.ivs.attack, record.ivs.defense, record.ivs.stamina),
                        record.fast_move@,
                        record.charge_move1@,
                        opt_view(record.charge_move2),
                        record.cp,
                        made,
                    ));
                }
                r
            }
        },
    }
}

/// The creatures among the first `n` results, in their order.
pub open spec fn oks_upto(results: Seq<Result<Pokemon, PokemonError>>, n: nat) -> Seq<Pokemon>
    decreases n,
{
    if n == 0 || n > results.len() {
        Seq::empty()
    } else {
        match results[n - 1] {
            Ok(p) => oks_upto(results, (n - 1) as nat).push(p),
            Err(_) => oks_upto(results, (n - 1) as nat),
        }
    }
}

/// The messages of the errors among the first `n` results, in their order.
pub open spec fn errors_upto(results: Seq<Result<Pokemon, PokemonError>>, n: nat) -> Seq<Seq<char>>
    decreases n,
{
    if n == 0 || n > results.len() {
        Seq::empty()
    } else {
        match results[n - 1] {
            Ok(_) => errors_upto(results, (n - 1) as nat),
            Err(e) => errors_upto(results, (n - 1) as nat).push(e.message@),
        }
    }
}

/// `results` holds, record by record, what loading gives.
pub open spec fn load_results(
    catalog: Seq<Pokepedia>,
    records: Seq<PokemonRecord>,
    results: Seq<Result<Pokemon, PokemonError>>,
) -> bool {
    &&& results.len() == records.len()
    &&& forall|i: int| 0 <= i < records.len() ==> load_result(catalog, records[i], #[trigger] results[i])
}

/// The creatures of the records that can be loaded, in the order of the
/// records, and the errors of the others in theirs.
pub fn load_records(catalog: &'static [Pokepedia], records: &Vec<PokemonRecord>) -> (r: (
    Vec<Pokemon>,
    Vec<PokemonError>,
))
    ensures
        exists|results: Seq<Result<Pokemon, PokemonError>>|
            {
                &&& #[trigger] load_results(catalog@, records@, results)
                &&& r.0@ == oks_upto(results, results.len())
                &&& r.1@.map_values(|e: PokemonError| e.message@) == errors_upto(
                    results,
                    results.len(),
                )
            },
        forall|i: int| 0 <= i < r.0@.len() ==> (#[trigger] r.0@[i]).wf(),
{
    let mut pokemons: Vec<Pokemon> = Vec::new();
    let mut errors: Vec<PokemonError> = Vec::new();
    let ghost results: Seq<Result<Pokemon, PokemonError>> = Seq::empty();
    let mut i: usize = 0;
    while i < records.len()
        invariant
            i <= records.len(),
            results.len() == i,
            forall|j: int| 0 <= j < i ==> load_result(catalog@, records@[j], #[trigger] results[j]),
            pokemons@ == oks_upto(results, i as nat),
            errors@.map_values(|e: PokemonError| e.message@) == errors_upto(results, i as nat),
            forall|j: int| 0 <= j < pokemons@.len() ==> (#[trigger] pokemons@[j]).wf(),
        decreases records.len() - i,
    {
        let one = load_record(catalog, &records[i]);
        let ghost before = results;
        proof {
            results = before.push(one);
            lemma_upto_frame(before, results, i as nat);
        }
        match one {
            Ok(p) => {
                pokemons.push(p);
            },
            Err(e) => {
                let ghost errors_before = errors@;
                errors.push(e);
                proof {
                    assert(errors@.map_values(|e: PokemonError| e.message@)
                        =~= errors_before.map_values(|e: PokemonError| e.message@).push(e.message@));
                }
            },
        }
        i += 1;
    }
    proof {
        assert(load_results(catalog@, records@, results));
    }
    (pokemons, errors)
}

/// What is gathered from the first `n` results depends on those alone.
pub proof fn lemma_upto_frame(
    a: Seq<Result<Pokemon, PokemonError>>,
    b: Seq<Result<Pokemon, PokemonError>>,
    n: nat,
)
    requires
        n <= a.len(),
        n <= b.len(),
        forall|i: int| 0 <= i < n ==> a[i] == b[i],
    ensures
        oks_upto(a, n) == oks_upto(b, n),
        errors_upto(a, n) == errors_upto(b, n),
    decreases n,
{
    if n > 0 {
        lemma_upto_frame(a, b, (n - 1) as nat);
    }
}

/// The record of a creature: the numbers of its species and moves, its CP,
/// its hit points and its individual values.
pub fn to_record(p: &Pokemon) -> (r: PokemonRecord)
    requires
        p.wf(),
    ensures
        r.no@ == p.dict.no@,
        r.cp == p.stats_spec().cp_spec(),
        r.hp == Some(p.hp_spec() as i32),
        r.ivs == p.ivs,
        r.fast_move@ == p.fast_move.no@,
        r.charge_move1@ == p.charge_move1.no@,
        opt_view(r.charge_move2) == match p.charge_move2 {
            Some(mv) => Some(mv.no@),
            None => None,
        },
{
    PokemonRecord {
        no: String::from_str(p.dict.no),
        cp: p.cp(),
        hp: Some(p.hp()),
        ivs: p.ivs,
        fast_move: String::from_str(p.fast_move.no),
        charge_move1: String::from_str(p.charge_move1.no),
        charge_move2: match p.charge_move2 {
            Some(mv) => Some(String::from_str(mv.no)),
            None => None,
        },
    }
}

} // verus!
