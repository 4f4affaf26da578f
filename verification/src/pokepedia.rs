//! Species descriptors. The catalog of species is supplied by the caller.

use vstd::prelude::*;
use crate::moves::{ChargeMove, FastMove};
use crate::pokemon::Stats;
use crate::ratio::SCALE;
use crate::text::str_eq;
use crate::types::Type;

verus! {

/// A species: its names, its one or two types, its base stats and the moves
/// it can learn.
#[derive(Debug)]
pub struct Pokepedia {
    pub no: &'static str,
    pub name: &'static str,
    pub s_name: &'static str,
    pub type1: Type,
    pub type2: Option<Type>,
    pub attack_st: u16,
    pub defense_st: u16,
    pub stamina_st: u16,
    pub fast_moves: Vec<FastMove>,
    pub charge_moves: Vec<ChargeMove>,
}

impl Pokepedia {
    /// The types of the species: one, or two in their order.
    pub open spec fn types_spec(&self) -> Seq<Type> {
        match self.type2 {
            Some(t) => seq![self.type1, t],
            None => seq![self.type1],
        }
    }

    /// The base stats as fixed-point numbers.
    pub open spec fn base_stats_spec(&self) -> Stats {
        Stats {
            attack: (self.attack_st * SCALE) as u64,
            defense: (self.defense_st * SCALE) as u64,
            stamina: (self.stamina_st * SCALE) as u64,
        }
    }

    pub fn no(&self) -> (r: &'static str)
        ensures
            r == self.no,
    {
        self.no
    }

    pub fn name(&self) -> (r: &'static str)
        ensures
            r == self.name,
    {
        self.name
    }

    pub fn s_name(&self) -> (r: &'static str)
        ensures
            r == self.s_name,
    {
        self.s_name
    }

    pub fn types(&self) -> (r: Vec<Type>)
        ensures
            r@ == self.types_spec(),
            1 <= r@.len() <= 2,
    {
        let mut v: Vec<Type> = Vec::new();
        v.push(self.type1);
        match self.type2 {
            Some(t) => {
                v.push(t);
            },
            None => {},
        }
        proof {
            assert(v@ =~= self.types_spec());
        }
        v
    }

    pub fn base_stats(&self) -> (r: Stats)
        ensures
            r == self.base_stats_spec(),
            r.attack == self.attack_st * SCALE,
            r.defense == self.defense_st * SCALE,
            r.stamina == self.stamina_st * SCALE,
    {
        Stats {
            attack: (self.attack_st as u64) * SCALE,
            defense: (self.defense_st as u64) * SCALE,
            stamina: (self.stamina_st as u64) * SCALE,
        }
    }

    pub fn fast_moves(&self) -> (r: &Vec<FastMove>)
        ensures
            r == &self.fast_moves,
    {
        &self.fast_moves
    }

    pub fn charge_moves(&self) -> (r: &Vec<ChargeMove>)
        ensures
            r == &self.charge_moves,
    {
        &self.charge_moves
    }
}

/// The last of the first `n` species of `catalog` with the number `no`.
pub open spec fn species_no_upto(catalog: Seq<Pokepedia>, no: Seq<char>, n: nat) -> Option<int>
    decreases n,
{
    if n == 0 {
        None
    } else if n <= catalog.len() && catalog[n - 1].no@ == no {
        Some(n - 1)
    } else {
        species_no_upto(catalog, no, (n - 1) as nat)
    }
}

/// The last of the first `n` species of `catalog` with the name `name`.
pub open spec fn species_name_upto(catalog: Seq<Pokepedia>, name: Seq<char>, n: nat) -> Option<
    int,
>
    decreases n,
{
    if n == 0 {
        None
    } else if n <= catalog.len() && catalog[n - 1].name@ == name {
        Some(n - 1)
    } else {
        species_name_upto(catalog, name, (n - 1) as nat)
    }
}

/// The species of `catalog` with the number `no`; the last one, where
/// several have it.
pub fn pokepedia_by_no(catalog: &'static [Pokepedia], no: &str) -> (r: Option<&'static Pokepedia>)
    ensures
        match species_no_upto(catalog@, no@, catalog@.len()) {
            Some(i) => 0 <= i < catalog@.len() && r == Some(&catalog@[i]),
            None => r is None,
        },
        r is Some ==> r.unwrap().no@ == no@,
{
    let mut i: usize = catalog.len();
    while i > 0
        invariant
            i <= catalog.len(),
            species_no_upto(catalog@, no@, catalog@.len()) == species_no_upto(
                catalog@,
                no@,
                i as nat,
            ),
        decreases i,
    {
        if str_eq(catalog[i - 1].no, no) {
            return Some(&catalog[i - 1]);
        }
        i -= 1;
    }
    None
}

/// The species of `catalog` with the name `name`; the last one, where
/// several have it.
pub fn pokepedia_by_name(catalog: &'static [Pokepedia], name: &str) -> (r: Option<
    &'static Pokepedia,
>)
    ensures
        match species_name_upto(catalog@, name@, catalog@.len()) {
            Some(i) => 0 <= i < catalog@.len() && r == Some(&catalog@[i]),
            None => r is None,
        },
        r is Some ==> r.unwrap().name@ == name@,
{
    let mut i: usize = catalog.len();
    while i > 0
        invariant
            i <= catalog.len(),
            species_name_upto(catalog@, name@, catalog@.len()) == species_name_upto(
                catalog@,
                name@,
                i as nat,
            ),
        decreases i,
    {
        if str_eq(catalog[i - 1].name, name) {
            return Some(&catalog[i - 1]);
        }
        i -= 1;
    }
    None
}

} // verus!
