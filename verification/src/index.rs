//! Searches over levels and individual values under a CP limit.

use vstd::prelude::*;
use crate::cpm::is_level;
use crate::pokemon::{IVs, Stats};
use crate::pokepedia::Pokepedia;

verus! {

/// Whether the species has more than `limit_cp` CP at level `lv`.
pub open spec fn over_limit(dict: &Pokepedia, limit_cp: i32, ivs: IVs, lv: u32) -> bool {
    dict.base_stats_spec().stats_spec(lv, ivs).cp_spec() > limit_cp
}

/// The first level from `from` to `to` at which the CP is above the limit.
pub open spec fn first_over(dict: &Pokepedia, limit_cp: i32, ivs: IVs, from: int, to: int) -> Option<
    u32,
>
    decreases to + 1 - from,
{
    if from > to {
        None
    } else if over_limit(dict, limit_cp, ivs, from as u32) {
        Some(from as u32)
    } else {
        first_over(dict, limit_cp, ivs, from + 1, to)
    }
}

/// The level below the first one, from 1.0 to `limit_lv`, at which the CP is
/// above `limit_cp`; `limit_lv` where the CP stays within the limit; none
/// where it is above the limit at level 1.0 already.
pub open spec fn lv_limited_spec(limit_cp: i32, limit_lv: u32, dict: &Pokepedia, ivs: IVs) -> Option<
    u32,
> {
    match first_over(dict, limit_cp, ivs, 2, limit_lv as int) {
        None => Some(limit_lv),
        Some(lv) => if lv == 2 {
            None
        } else {
            Some((lv - 1) as u32)
        },
    }
}

/// The first level above the limit lies within the range that was looked at.
pub proof fn lemma_first_over_range(dict: &Pokepedia, limit_cp: i32, ivs: IVs, from: int, to: int)
    requires
        0 <= from,
        to <= 102,
    ensures
        first_over(dict, limit_cp, ivs, from, to) is Some ==> from <= first_over(
            dict,
            limit_cp,
            ivs,
            from,
            to,
        ).unwrap() <= to,
    decreases to + 1 - from,
{
    if from <= to && !over_limit(dict, limit_cp, ivs, from as u32) {
        lemma_first_over_range(dict, limit_cp, ivs, from + 1, to);
    }
}

/// The level under a CP limit is one of the table up to `limit_lv`.
pub proof fn lemma_lv_limited_range(limit_cp: i32, limit_lv: u32, dict: &Pokepedia, ivs: IVs)
    requires
        is_level(limit_lv),
    ensures
        lv_limited_spec(limit_cp, limit_lv, dict, ivs) is Some ==> 2 <= lv_limited_spec(
            limit_cp,
            limit_lv,
            dict,
            ivs,
        ).unwrap() <= limit_lv,
{
    lemma_first_over_range(dict, limit_cp, ivs, 2, limit_lv as int);
}

/// The highest level up to `limit_lv`, in half-level steps, below which the
/// species stays within `limit_cp` CP, as `lv_limited_spec` says.
pub fn calc_lv_limited_by_cp(limit_cp: i32, limit_lv: u32, dict: &Pokepedia, ivs: IVs) -> (r:
    Option<u32>)
    requires
        is_level(limit_lv),
        ivs.wf(),
    ensures
        r == lv_limited_spec(limit_cp, limit_lv, dict, ivs),
        r is Some ==> 2 <= r.unwrap() <= limit_lv,
{
    let base = dict.base_stats();
    let mut lv: u32 = 2;
    while lv <= limit_lv
        invariant
            2 <= lv <= limit_lv + 1,
            is_level(limit_lv),
            ivs.wf(),
            base == dict.base_stats_spec(),
            first_over(dict, limit_cp, ivs, 2, limit_lv as int) == first_over(
                dict,
                limit_cp,
                ivs,
                lv as int,
                limit_lv as int,
            ),
        decreases limit_lv + 1 - lv,
    {
        let stats = base.stats(lv, ivs);
        if stats.cp_exceeds(limit_cp) {
            if lv == 2 {
                return None;
            }
            return Some(lv - 1);
        }
        lv += 1;
    }
    Some(limit_lv)
}

/// The individual values with the number `i`: the attack counts 256, the
/// defense 16 and the stamina 1, each from 0 to 15.
pub open spec fn i2ivs_spec(i: int) -> IVs {
    IVs {
        attack: ((i / 256) % 16) as i32,
        defense: ((i / 16) % 16) as i32,
        stamina: (i % 16) as i32,
    }
}

/// The individual values with the number `i`; the numbers 0 to 4095 give
/// every combination once.
pub fn i2ivs(i: usize) -> (r: IVs)
    ensures
        r == i2ivs_spec(i as int),
        r.wf(),
{
    IVs {
        attack: ((i / 256) % 16) as i32,
        defense: ((i / 16) % 16) as i32,
        stamina: (i % 16) as i32,
    }
}

/// The SCP, the level and the individual values of the combination with the
/// number `i`, where the species stays within the CP limit at some level.
pub open spec fn candidate(limit_cp: i32, limit_lv: u32, dict: &Pokepedia, i: int) -> Option<
    (i32, u32, IVs),
> {
    match lv_limited_spec(limit_cp, limit_lv, dict, i2ivs_spec(i)) {
        None => None,
        Some(lv) => Some(
            (
                dict.base_stats_spec().stats_spec(lv, i2ivs_spec(i)).scp_spec() as i32,
                lv,
                i2ivs_spec(i),
            ),
        ),
    }
}

/// The best of the first `n` combinations: the first among those of the
/// highest SCP.
pub open spec fn best_upto(limit_cp: i32, limit_lv: u32, dict: &Pokepedia, n: nat) -> Option<
    (i32, u32, IVs),
>
    decreases n,
{
    if n == 0 {
        None
    } else {
        let prev = best_upto(limit_cp, limit_lv, dict, (n - 1) as nat);
        match candidate(limit_cp, limit_lv, dict, n - 1) {
            None => prev,
            Some(c) => if c.0 > (match prev {
                Some(p) => p.0,
                None => 0,
            }) {
                Some(c)
            } else {
                prev
            },
        }
    }
}

/// The SCP of a combination is at least 10.
pub proof fn lemma_candidate_positive(limit_cp: i32, limit_lv: u32, dict: &Pokepedia, i: int)
    requires
        candidate(limit_cp, limit_lv, dict, i) is Some,
    ensures
        candidate(limit_cp, limit_lv, dict, i).unwrap().0 >= 10,
{
    let lv = lv_limited_spec(limit_cp, limit_lv, dict, i2ivs_spec(i)).unwrap();
    let st = dict.base_stats_spec().stats_spec(lv, i2ivs_spec(i));
    let hp = st.hp_spec();
    let n = st.attack * st.attack * st.defense * st.defense * hp * hp;
    assert(n >= 0) by (nonlinear_arith)
        requires
            n == st.attack * st.attack * st.defense * st.defense * hp * hp,
            st.attack >= 0,
            st.defense >= 0,
            hp >= 0,
    ;
    crate::wide::lemma_floor_root_exists(n, crate::pokemon::scp_scale(), 3);
}

/// No combination among the first `n` has a higher SCP than the best of them.
pub proof fn lemma_best_is_highest(limit_cp: i32, limit_lv: u32, dict: &Pokepedia, n: nat, i: int)
    requires
        0 <= i < n,
        candidate(limit_cp, limit_lv, dict, i) is Some,
        candidate(limit_cp, limit_lv, dict, i).unwrap().0 > 0,
    ensures
        best_upto(limit_cp, limit_lv, dict, n) is Some,
        candidate(limit_cp, limit_lv, dict, i).unwrap().0 <= best_upto(
            limit_cp,
            limit_lv,
            dict,
            n,
        ).unwrap().0,
    decreases n,
{
    if i < n - 1 {
        lemma_best_is_highest(limit_cp, limit_lv, dict, (n - 1) as nat, i);
    }
}

/// The combination of individual values that gives the species the highest
/// SCP within `limit_cp` CP and up to level `limit_lv`: its SCP, its level
/// and the values; of several, the first by number.
pub fn calc_max_scp_iv_limited_by_cp(limit_cp: i32, limit_lv: u32, dict: &Pokepedia) -> (r: Option<
    (i32, u32, IVs),
>)
    requires
        is_level(limit_lv),
    ensures
        r == best_upto(limit_cp, limit_lv, dict, 4096),
        forall|i: int|
            0 <= i < 4096 && (#[trigger] candidate(limit_cp, limit_lv, dict, i)) is Some ==> r is Some
                && candidate(limit_cp, limit_lv, dict, i).unwrap().0 <= r.unwrap().0,
{
    proof {
        assert forall|i: int|
            0 <= i < 4096 && (#[trigger] candidate(limit_cp, limit_lv, dict, i)) is Some implies best_upto(
            limit_cp,
            limit_lv,
            dict,
            4096,
        ) is Some && candidate(limit_cp, limit_lv, dict, i).unwrap().0 <= best_upto(
            limit_cp,
            limit_lv,
            dict,
            4096,
        ).unwrap().0 by {
            lemma_candidate_positive(limit_cp, limit_lv, dict, i);
            lemma_best_is_highest(limit_cp, limit_lv, dict, 4096, i);
        }
    }
    let base = dict.base_stats();
    let mut max_scp: i32 = 0;
    let mut max_scp_ivs: Option<(i32, u32, IVs)> = None;
    let mut i: usize = 0;
    while i < 4096
        invariant
            i <= 4096,
            is_level(limit_lv),
            base == dict.base_stats_spec(),
            max_scp_ivs == best_upto(limit_cp, limit_lv, dict, i as nat),
            max_scp == (match max_scp_ivs {
                Some(p) => p.0,
                None => 0,
            }),
        decreases 4096 - i,
    {
        let ivs = i2ivs(i);
        match calc_lv_limited_by_cp(limit_cp, limit_lv, dict, ivs) {
            Some(lv) => {
                let scp = base.stats(lv, ivs).calc_scp();
                if scp > max_scp {
                    max_scp = scp;
                    max_scp_ivs = Some((scp, lv, ivs));
                }
            },
            None => {},
        }
        i += 1;
    }
    max_scp_ivs
}

} // verus!
