//! The sets of moves that a creature could have.

use vstd::prelude::*;
use vstd::string::*;
use crate::moves::{ChargeMove, FastMove};
use crate::pokemon::Pokemon;
use crate::text::str_eq;

verus! {

/// The creatures found so far and the keys of the pairs of charge moves
/// that need not be looked at again.
pub struct Perms {
    pub found: Seq<Pokemon>,
    pub seen: Seq<Seq<char>>,
}

impl Pokemon {
    /// The state after the pair of the charge moves `i` and `j` was looked
    /// at for the fast move `f`. A pair of moves of the same number is
    /// passed over, and so is one whose numbers, written in a row, are a
    /// key seen before. Else the creature with these moves is found, and
    /// the numbers in the opposite order become a key.
    pub open spec fn perm_step(self, p: Perms, f: int, i: int, j: int) -> Perms {
        let fast = self.dict.fast_moves@[f];
        let c1 = self.dict.charge_moves@[i];
        let c2 = self.dict.charge_moves@[j];
        if c1.no@ == c2.no@ || p.seen.contains(c1.no@ + c2.no@) {
            p
        } else {
            Perms {
                found: p.found.push(
                    Pokemon { fast_move: fast, charge_move1: c1, charge_move2: Some(c2), ..self },
                ),
                seen: p.seen.push(c2.no@ + c1.no@),
            }
        }
    }

    /// The state before the fast move `f` is looked at.
    pub open spec fn perm_fast(self, f: int) -> Perms
        decreases f, 0int, 0int,
    {
        if f <= 0 {
            Perms { found: Seq::empty(), seen: Seq::empty() }
        } else {
            self.perm_first(f - 1, self.dict.charge_moves@.len() as int)
        }
    }

    /// The state before the first charge move `i` is looked at for the fast
    /// move `f`.
    pub open spec fn perm_first(self, f: int, i: int) -> Perms
        decreases f, i + 1, 0int,
    {
        if f < 0 || i < 0 {
            Perms { found: Seq::empty(), seen: Seq::empty() }
        } else if i == 0 {
            self.perm_fast(f)
        } else {
            self.perm_second(f, i - 1, self.dict.charge_moves@.len() as int)
        }
    }

    /// The state before the second charge move `j` is looked at for the
    /// fast move `f` and the first charge move `i`.
    pub open spec fn perm_second(self, f: int, i: int, j: int) -> Perms
        decreases f, i + 1, j + 1,
    {
        if f < 0 || i < 0 || j < 0 {
            Perms { found: Seq::empty(), seen: Seq::empty() }
        } else if j == 0 {
            self.perm_first(f, i)
        } else {
            self.perm_step(self.perm_second(f, i, j - 1), f, i, j - 1)
        }
    }

    /// The creatures like this one with each fast move of the species and
    /// each pair of different charge moves of the species, a pair counting
    /// once whatever its order: the fast moves, the first and the second
    /// charge moves are gone through in the order of the species' lists, as
    /// `perm_step` says.
    pub fn move_perm(&self) -> (r: Vec<Pokemon>)
        ensures
            r@ == self.perm_fast(self.dict.fast_moves@.len() as int).found,
    {
        let fast_moves = &self.dict.fast_moves;
        let charge_moves = &self.dict.charge_moves;
        let nf = fast_moves.len();
        let nc = charge_moves.len();
        let mut v: Vec<Pokemon> = Vec::new();
        let mut seen: Vec<String> = Vec::new();
        let mut f: usize = 0;
        while f < nf
            invariant
                f <= nf,
                nf == self.dict.fast_moves@.len(),
                nc == self.dict.charge_moves@.len(),
                fast_moves == &self.dict.fast_moves,
                charge_moves == &self.dict.charge_moves,
                v@ == self.perm_fast(f as int).found,
                seen@.map_values(|s: String| s@) == self.perm_fast(f as int).seen,
            decreases nf - f,
        {
            let mut i: usize = 0;
            while i < nc
                invariant
                    f < nf,
                    i <= nc,
                    nf == self.dict.fast_moves@.len(),
                    nc == self.dict.charge_moves@.len(),
                    fast_moves == &self.dict.fast_moves,
                    charge_moves == &self.dict.charge_moves,
                    v@ == self.perm_first(f as int, i as int).found,
                    seen@.map_values(|s: String| s@) == self.perm_first(f as int, i as int).seen,
                decreases nc - i,
            {
                let mut j: usize = 0;
                while j < nc
                    invariant
                        f < nf,
                        i < nc,
                        j <= nc,
                        nf == self.dict.fast_moves@.len(),
                        nc == self.dict.charge_moves@.len(),
                        fast_moves == &self.dict.fast_moves,
                        charge_moves == &self.dict.charge_moves,
                        v@ == self.perm_second(f as int, i as int, j as int).found,
                        seen@.map_values(|s: String| s@) == self.perm_second(
                            f as int,
                            i as int,
                            j as int,
                        ).seen,
                    decreases nc - j,
                {
                    let c1 = charge_moves[i];
                    let c2 = charge_moves[j];
                    if !str_eq(c1.no, c2.no) {
                        let key = String::from_str(c1.no).concat(c2.no);
                        if !contains_key(&seen, &key) {
                            v.push(
                                Pokemon {
                                    dict: self.dict,
                                    lv: self.lv,
                                    ivs: self.ivs,
                                    fast_move: fast_moves[f],
                                    charge_move1: c1,
                                    charge_move2: Some(c2),
                                },
                            );
                            let back = String::from_str(c2.no).concat(c1.no);
                            let ghost before = seen@;
                            seen.push(back);
                            proof {
                                assert(seen@.map_values(|s: String| s@) =~= before.map_values(
                                    |s: String| s@,
                                ).push(c2.no@ + c1.no@));
                            }
                        }
                    }
                    j += 1;
                }
                i += 1;
            }
            f += 1;
        }
        v
    }
}

/// Whether `key` is among `seen`.
pub fn contains_key(seen: &Vec<String>, key: &String) -> (r: bool)
    ensures
        r == seen@.map_values(|s: String| s@).contains(key@),
{
    let ghost views = seen@.map_values(|s: String| s@);
    let mut k: usize = 0;
    while k < seen.len()
        invariant
            k <= seen.len(),
            views == seen@.map_values(|s: String| s@),
            forall|m: int| 0 <= m < k ==> views[m] != key@,
        decreases seen.len() - k,
    {
        if str_eq(seen[k].as_str(), key.as_str()) {
            proof {
                assert(views[k as int] == key@);
            }
            return true;
        }
        k += 1;
    }
    false
}

} // verus!
