//! Rankings of the species of a catalog.

use vstd::prelude::*;
use crate::cpm::is_level;
use crate::index::{best_upto, calc_max_scp_iv_limited_by_cp};
use crate::pokemon::Pokemon;
use crate::pokepedia::Pokepedia;

verus! {

/// The SCP by which a creature is ranked.
pub open spec fn rank_key(p: Pokemon) -> int {
    p.stats_spec().scp_spec()
}

/// The creature that stands for the species `dict` in a ranking: at the
/// level and with the individual values of its highest SCP within the
/// limits, with the first fast move and the first charge move of the
/// species; none where the species is above the CP limit at every level.
pub open spec fn contender(limit_cp: i32, limit_lv: u32, dict: &Pokepedia) -> Option<Pokemon> {
    match best_upto(limit_cp, limit_lv, dict, 4096) {
        Some(b) => Some(
            Pokemon {
                dict,
                lv: b.1,
                ivs: b.2,
                fast_move: dict.fast_moves@[0],
                charge_move1: dict.charge_moves@[0],
                charge_move2: None,
            },
        ),
        None => None,
    }
}

/// Where a creature of the SCP `key` goes into `ranked`: behind every
/// creature of the same or a higher SCP.
pub open spec fn rank_position(ranked: Seq<Pokemon>, key: int) -> int
    decreases ranked.len(),
{
    if ranked.len() == 0 {
        0
    } else if rank_key(ranked.last()) >= key {
        ranked.len() as int
    } else {
        rank_position(ranked.drop_last(), key)
    }
}

/// The ranking of the contenders of the first `n` species of `catalog`:
/// by SCP, the highest first, and among equals in the order of the catalog.
pub open spec fn ranked_upto(limit_cp: i32, limit_lv: u32, catalog: Seq<Pokepedia>, n: nat) -> Seq<
    Pokemon,
>
    decreases n,
{
    if n == 0 || n > catalog.len() {
        Seq::empty()
    } else {
        let rest = ranked_upto(limit_cp, limit_lv, catalog, (n - 1) as nat);
        match contender(limit_cp, limit_lv, &catalog[n - 1]) {
            Some(p) => rest.insert(rank_position(rest, rank_key(p)), p),
            None => rest,
        }
    }
}

/// Each creature of `s` has at least the SCP of the next.
pub open spec fn is_ranked(s: Seq<Pokemon>) -> bool {
    forall|i: int, j: int| 0 <= i < j < s.len() ==> rank_key(s[i]) >= rank_key(s[j])
}

/// The contenders of the first `n` species of `catalog`, in its order.
pub open spec fn contenders_upto(limit_cp: i32, limit_lv: u32, catalog: Seq<Pokepedia>, n: nat) -> Seq<
    Pokemon,
>
    decreases n,
{
    if n == 0 || n > catalog.len() {
        Seq::empty()
    } else {
        let rest = contenders_upto(limit_cp, limit_lv, catalog, (n - 1) as nat);
        match contender(limit_cp, limit_lv, &catalog[n - 1]) {
            Some(p) => rest.push(p),
            None => rest,
        }
    }
}

/// The position for a key lies within the ranking; before it stand
/// creatures of at least that SCP, from it on creatures of less.
pub proof fn lemma_rank_position(ranked: Seq<Pokemon>, key: int)
    requires
        is_ranked(ranked),
    ensures
        0 <= rank_position(ranked, key) <= ranked.len(),
        forall|i: int| 0 <= i < rank_position(ranked, key) ==> rank_key(ranked[i]) >= key,
        forall|i: int| rank_position(ranked, key) <= i < ranked.len() ==> rank_key(ranked[i]) < key,
    decreases ranked.len(),
{
    if ranked.len() > 0 {
        if rank_key(ranked.last()) >= key {
            assert forall|i: int| 0 <= i < ranked.len() implies rank_key(ranked[i]) >= key by {
                if i < ranked.len() - 1 {
                    assert(rank_key(ranked[i]) >= rank_key(ranked[ranked.len() - 1]));
                }
            }
        } else {
            let front = ranked.drop_last();
            assert(is_ranked(front)) by {
                assert forall|i: int, j: int| 0 <= i < j < front.len() implies rank_key(front[i])
                    >= rank_key(front[j]) by {
                    assert(front[i] == ranked[i] && front[j] == ranked[j]);
                }
            }
            lemma_rank_position(front, key);
            assert forall|i: int| 0 <= i < rank_position(ranked, key) implies rank_key(ranked[i])
                >= key by {
                assert(front[i] == ranked[i]);
            }
            assert forall|i: int| rank_position(ranked, key) <= i < ranked.len() implies rank_key(
                ranked[i],
            ) < key by {
                if i < front.len() {
                    assert(front[i] == ranked[i]);
                }
            }
        }
    }
}

/// The ranking is ranked, and it holds the contenders, each as often as
/// they hold it.
pub proof fn lemma_ranking(limit_cp: i32, limit_lv: u32, catalog: Seq<Pokepedia>, n: nat)
    requires
        n <= catalog.len(),
    ensures
        is_ranked(ranked_upto(limit_cp, limit_lv, catalog, n)),
        ranked_upto(limit_cp, limit_lv, catalog, n).to_multiset() == contenders_upto(
            limit_cp,
            limit_lv,
            catalog,
            n,
        ).to_multiset(),
    decreases n,
{
    if n > 0 {
        lemma_ranking(limit_cp, limit_lv, catalog, (n - 1) as nat);
        let rest = ranked_upto(limit_cp, limit_lv, catalog, (n - 1) as nat);
        let plain = contenders_upto(limit_cp, limit_lv, catalog, (n - 1) as nat);
        match contender(limit_cp, limit_lv, &catalog[n - 1]) {
            Some(p) => {
                let k = rank_position(rest, rank_key(p));
                lemma_rank_position(rest, rank_key(p));
                let next = rest.insert(k, p);
                vstd::seq_lib::to_multiset_insert(rest, k, p);
                vstd::seq_lib::to_multiset_build(plain, p);
                assert forall|i: int, j: int| 0 <= i < j < next.len() implies rank_key(next[i])
                    >= rank_key(next[j]) by {
                    if i < k && j == k {
                        assert(next[i] == rest[i]);
                    } else if i < k && j > k {
                        assert(next[i] == rest[i] && next[j] == rest[j - 1]);
                    } else if i == k {
                        assert(next[j] == rest[j - 1]);
                    } else if i > k {
                        assert(next[i] == rest[i - 1] && next[j] == rest[j - 1]);
                    } else {
                        assert(next[i] == rest[i] && next[j] == rest[j]);
                    }
                }
            },
            None => {},
        }
    }
}

/// The ranking of the species of `catalog` by the highest SCP that each can
/// have within `limit_cp` CP and up to level `limit_lv`: the highest first,
/// and species of the same SCP in the order of the catalog. Each species
/// has to know a fast move and a charge move.
pub fn scp_ranking(catalog: &'static [Pokepedia], limit_cp: i32, limit_lv: u32) -> (r: Vec<Pokemon>)
    requires
        is_level(limit_lv),
        forall|i: int|
            0 <= i < catalog@.len() ==> (#[trigger] catalog@[i]).fast_moves@.len() > 0
                && catalog@[i].charge_moves@.len() > 0,
    ensures
        r@ == ranked_upto(limit_cp, limit_lv, catalog@, catalog@.len()),
        is_ranked(r@),
        r@.to_multiset() == contenders_upto(limit_cp, limit_lv, catalog@, catalog@.len()).to_multiset(),
{
    let mut v: Vec<Pokemon> = Vec::new();
    let mut keys: Vec<i32> = Vec::new();
    let mut n: usize = 0;
    while n < catalog.len()
        invariant
            n <= catalog.len(),
            is_level(limit_lv),
            forall|i: int|
                0 <= i < catalog@.len() ==> (#[trigger] catalog@[i]).fast_moves@.len() > 0
                    && catalog@[i].charge_moves@.len() > 0,
            v@ == ranked_upto(limit_cp, limit_lv, catalog@, n as nat),
            keys@.len() == v@.len(),
            forall|i: int| 0 <= i < v@.len() ==> #[trigger] keys@[i] == rank_key(v@[i]),
        decreases catalog.len() - n,
    {
        let dict: &'static Pokepedia = &catalog[n];
        proof {
            assert(catalog@[n as int].fast_moves@.len() > 0);
        }
        match calc_max_scp_iv_limited_by_cp(limit_cp, limit_lv, dict) {
            Some(b) => {
                let p = Pokemon::raw_new(
                    dict,
                    b.1,
                    b.2,
                    dict.fast_moves[0],
                    dict.charge_moves[0],
                    None,
                );
                proof {
                    lemma_best_level(limit_cp, limit_lv, dict, 4096);
                }
                let key = p.scp();
                let mut k: usize = v.len();
                proof {
                    assert(v@.take(k as int) =~= v@);
                }
                while k > 0 && keys[k - 1] < key
                    invariant
                        k <= v@.len(),
                        keys@.len() == v@.len(),
                        forall|i: int| 0 <= i < v@.len() ==> #[trigger] keys@[i] == rank_key(v@[i]),
                        rank_position(v@, key as int) == rank_position(v@.take(k as int), key as int),
                    decreases k,
                {
                    proof {
                        assert(v@.take(k as int).drop_last() =~= v@.take(k - 1));
                    }
                    k -= 1;
                }
                proof {
                    if k > 0 {
                        assert(v@.take(k as int).last() == v@[k - 1]);
                    }
                    assert(rank_position(v@, key as int) == k);
                }
                let ghost before = v@;
                let ghost keys_before = keys@;
                v.insert(k, p);
                keys.insert(k, key);
                proof {
                    assert forall|i: int| 0 <= i < v@.len() implies #[trigger] keys@[i] == rank_key(
                        v@[i],
                    ) by {
                        if i < k {
                            assert(keys@[i] == keys_before[i] && v@[i] == before[i]);
                        } else if i > k {
                            assert(keys@[i] == keys_before[i - 1] && v@[i] == before[i - 1]);
                        }
                    }
                }
            },
            None => {},
        }
        n += 1;
    }
    proof {
        lemma_ranking(limit_cp, limit_lv, catalog@, catalog@.len());
    }
    v
}

/// The best combination comes with a level of the table and with
/// individual values in range.
pub proof fn lemma_best_level(limit_cp: i32, limit_lv: u32, dict: &Pokepedia, n: nat)
    requires
        is_level(limit_lv),
    ensures
        best_upto(limit_cp, limit_lv, dict, n) is Some ==> is_level(
            best_upto(limit_cp, limit_lv, dict, n).unwrap().1,
        ) && best_upto(limit_cp, limit_lv, dict, n).unwrap().2.wf(),
    decreases n,
{
    if n > 0 {
        lemma_best_level(limit_cp, limit_lv, dict, (n - 1) as nat);
        crate::index::lemma_lv_limited_range(limit_cp, limit_lv, dict, crate::index::i2ivs_spec(n - 1));
    }
}

/// Where the index of the key `key` goes into `order`: behind every index
/// of the same or a higher key.
pub open spec fn order_position(keys: Seq<i32>, order: Seq<usize>, key: int) -> int
    decreases order.len(),
{
    if order.len() == 0 {
        0
    } else if keys[order.last() as int] >= key {
        order.len() as int
    } else {
        order_position(keys, order.drop_last(), key)
    }
}

/// The first `n` indices of `keys` in the order of their keys, the highest
/// first, and indices of the same key in their own order.
pub open spec fn order_upto(keys: Seq<i32>, n: nat) -> Seq<usize>
    decreases n,
{
    if n == 0 || n > keys.len() {
        Seq::empty()
    } else {
        let rest = order_upto(keys, (n - 1) as nat);
        rest.insert(order_position(keys, rest, keys[n - 1] as int), (n - 1) as usize)
    }
}

/// The indices below `n`, in their order.
pub open spec fn indices(n: nat) -> Seq<usize> {
    Seq::new(n, |i: int| i as usize)
}

/// Each index of `order` is one of `keys`, and has at least the key of the
/// next.
pub open spec fn is_ordered(keys: Seq<i32>, order: Seq<usize>) -> bool {
    &&& forall|i: int| 0 <= i < order.len() ==> (#[trigger] order[i]) < keys.len()
    &&& forall|i: int, j: int|
        0 <= i < j < order.len() ==> keys[order[i] as int] >= keys[order[j] as int]
}

/// The position for a key lies within the order; before it stand indices
/// of at least that key, from it on indices of less.
pub proof fn lemma_order_position(keys: Seq<i32>, order: Seq<usize>, key: int)
    requires
        is_ordered(keys, order),
    ensures
        0 <= order_position(keys, order, key) <= order.len(),
        forall|i: int|
            0 <= i < order_position(keys, order, key) ==> keys[order[i] as int] >= key,
        forall|i: int|
            order_position(keys, order, key) <= i < order.len() ==> keys[order[i] as int] < key,
    decreases order.len(),
{
    if order.len() > 0 {
        if keys[order.last() as int] >= key {
            assert forall|i: int| 0 <= i < order.len() implies keys[order[i] as int] >= key by {
                if i < order.len() - 1 {
                    assert(keys[order[i] as int] >= keys[order[order.len() - 1] as int]);
                }
            }
        } else {
            let front = order.drop_last();
            assert(is_ordered(keys, front)) by {
                assert forall|i: int| 0 <= i < front.len() implies (#[trigger] front[i]) < keys.len() by {
                    assert(front[i] == order[i]);
                }
                assert forall|i: int, j: int| 0 <= i < j < front.len() implies keys[front[i] as int]
                    >= keys[front[j] as int] by {
                    assert(front[i] == order[i] && front[j] == order[j]);
                }
            }
            lemma_order_position(keys, front, key);
            assert forall|i: int| 0 <= i < order_position(keys, order, key) implies keys[order[i] as int]
                >= key by {
                assert(front[i] == order[i]);
            }
            assert forall|i: int| order_position(keys, order, key) <= i < order.len() implies keys[order[i] as int]
                < key by {
                if i < front.len() {
                    assert(front[i] == order[i]);
                }
            }
        }
    }
}

/// The order of the first `n` indices is ordered, and it holds each of
/// them once.
pub proof fn lemma_order(keys: Seq<i32>, n: nat)
    requires
        n <= keys.len(),
        keys.len() <= usize::MAX,
    ensures
        is_ordered(keys, order_upto(keys, n)),
        order_upto(keys, n).len() == n,
        order_upto(keys, n).to_multiset() == indices(n).to_multiset(),
    decreases n,
{
    if n == 0 {
        assert(order_upto(keys, n) =~= indices(n));
    } else {
        let m = (n - 1) as nat;
        lemma_order(keys, m);
        let rest = order_upto(keys, m);
        let key = keys[n - 1] as int;
        let k = order_position(keys, rest, key);
        lemma_order_position(keys, rest, key);
        let next = rest.insert(k, m as usize);
        vstd::seq_lib::to_multiset_insert(rest, k, m as usize);
        let plain = indices(m);
        vstd::seq_lib::to_multiset_build(plain, m as usize);
        assert(plain.push(m as usize) =~= indices(n));
        assert forall|i: int| 0 <= i < next.len() implies (#[trigger] next[i]) < keys.len() by {
            if i < k {
                assert(next[i] == rest[i]);
            } else if i > k {
                assert(next[i] == rest[i - 1]);
            }
        }
        assert forall|i: int, j: int| 0 <= i < j < next.len() implies keys[next[i] as int]
            >= keys[next[j] as int] by {
            if i < k && j == k {
                assert(next[i] == rest[i]);
            } else if i < k && j > k {
                assert(next[i] == rest[i] && next[j] == rest[j - 1]);
            } else if i == k {
                assert(next[j] == rest[j - 1]);
            } else if i > k {
                assert(next[i] == rest[i - 1] && next[j] == rest[j - 1]);
            } else {
                assert(next[i] == rest[i] && next[j] == rest[j]);
            }
        }
    }
}

/// The indices of `keys` in the order of their keys, the highest first,
/// and indices of the same key in their own order.
pub fn order_desc(keys: &Vec<i32>) -> (r: Vec<usize>)
    ensures
        r@ == order_upto(keys@, keys@.len()),
        is_ordered(keys@, r@),
        r@.len() == keys@.len(),
        r@.to_multiset() == indices(keys@.len()).to_multiset(),
{
    let mut order: Vec<usize> = Vec::new();
    let mut n: usize = 0;
    while n < keys.len()
        invariant
            n <= keys.len(),
            order@ == order_upto(keys@, n as nat),
            is_ordered(keys@, order@),
        decreases keys.len() - n,
    {
        let key = keys[n];
        let mut k: usize = order.len();
        proof {
            assert(order@.take(k as int) =~= order@);
        }
        while k > 0 && keys[order[k - 1]] < key
            invariant
                k <= order@.len(),
                is_ordered(keys@, order@),
                order_position(keys@, order@, key as int) == order_position(
                    keys@,
                    order@.take(k as int),
                    key as int,
                ),
            decreases k,
        {
            proof {
                assert(order@.take(k as int).drop_last() =~= order@.take(k - 1));
                assert(order@.take(k as int).last() == order@[k - 1]);
            }
            k -= 1;
        }
        proof {
            if k > 0 {
                assert(order@.take(k as int).last() == order@[k - 1]);
            }
            lemma_order(keys@, (n + 1) as nat);
        }
        order.insert(k, n);
        n += 1;
    }
    proof {
        lemma_order(keys@, keys@.len());
    }
    order
}

} // verus!
