//! How a creature fares against another: the turns each needs to wear the
//! other down, and the mark for their ratio.

use vstd::prelude::*;
use crate::pokemon::Pokemon;
use crate::ratio::Ratio;

verus! {

/// The number of the mark for a ratio, from 0 for the best to 8 for the
/// worst: 0 from 1.3 on, 1 from 1.2, 2 from 1.1, 3 from 1.03, 4 from 0.97,
/// 5 from 0.9, 6 from 0.8, 7 from 0.7, and 8 below. A positive number over
/// zero counts as beyond every bound, zero over zero as below every bound.
pub open spec fn mark_number(ratio: Ratio) -> int {
    if ratio.den == 0 {
        if ratio.num > 0 {
            0
        } else {
            8
        }
    } else if ratio.num * 100 >= 130 * ratio.den {
        0
    } else if ratio.num * 100 >= 120 * ratio.den {
        1
    } else if ratio.num * 100 >= 110 * ratio.den {
        2
    } else if ratio.num * 100 >= 103 * ratio.den {
        3
    } else if ratio.num * 100 >= 97 * ratio.den {
        4
    } else if ratio.num * 100 >= 90 * ratio.den {
        5
    } else if ratio.num * 100 >= 80 * ratio.den {
        6
    } else if ratio.num * 100 >= 70 * ratio.den {
        7
    } else {
        8
    }
}

/// The marks, from the best to the worst.
pub const MARKS: [&'static str; 9] = [
    "oooo",
    "ooo ",
    "oo  ",
    "o   ",
    "-   ",
    "x   ",
    "xx  ",
    "xxx ",
    "xxxx",
];

/// The mark for the ratio of the turns that the opponent needs to the turns
/// that the creature needs: circles where the creature is faster, crosses
/// where it is slower.
pub fn ratio_to_rank(ratio: Ratio) -> (r: &'static str)
    ensures
        r == MARKS[mark_number(ratio)],
{
    let n: u128 = (ratio.num as u128) * 100;
    let d: u128 = ratio.den as u128;
    if ratio.den == 0 {
        if ratio.num > 0 {
            MARKS[0]
        } else {
            MARKS[8]
        }
    } else if n >= 130 * d {
        MARKS[0]
    } else if n >= 120 * d {
        MARKS[1]
    } else if n >= 110 * d {
        MARKS[2]
    } else if n >= 103 * d {
        MARKS[3]
    } else if n >= 97 * d {
        MARKS[4]
    } else if n >= 90 * d {
        MARKS[5]
    } else if n >= 80 * d {
        MARKS[6]
    } else if n >= 70 * d {
        MARKS[7]
    } else {
        MARKS[8]
    }
}

/// The turns that two creatures need to wear each other down, with the
/// defender shielding no time, once and twice.
#[derive(Debug, Clone, Copy)]
pub struct Matchup {
    /// The turns that the creature needs.
    pub turns0: [i32; 3],
    /// The turns that the opponent needs.
    pub turns1: [i32; 3],
}

impl Matchup {
    /// Whether the creature wins with `i` shields on each side: it needs
    /// fewer turns than the opponent.
    pub open spec fn wins_spec(self, i: int) -> bool {
        self.turns0[i] < self.turns1[i]
    }

    pub fn wins(&self, i: usize) -> (r: bool)
        requires
            i < 3,
        ensures
            r == self.wins_spec(i as int),
    {
        self.turns0[i] < self.turns1[i]
    }

    /// The ratio of the opponent's turns to the creature's turns with `i`
    /// shields; turns below zero count as zero.
    pub fn ratio(&self, i: usize) -> (r: Ratio)
        requires
            i < 3,
        ensures
            r.num == if self.turns1[i as int] < 0 {
                0
            } else {
                self.turns1[i as int] as int
            },
            r.den == if self.turns0[i as int] < 0 {
                0
            } else {
                self.turns0[i as int] as int
            },
    {
        let n = self.turns1[i];
        let d = self.turns0[i];
        Ratio {
            num: if n < 0 {
                0
            } else {
                n as u64
            },
            den: if d < 0 {
                0
            } else {
                d as u64
            },
        }
    }
}

/// `turns` is the number of turns in which `poke` wears `opponent` down
/// while that shields `shields` times.
pub open spec fn can_take(poke: Pokemon, opponent: Pokemon, shields: i32, turns: i32) -> bool {
    exists|p: Ratio| #[trigger] poke.ppt_outcome(Some(opponent), None, shields, (p, turns))
}

/// `m` holds the turns that `poke` and `opponent` need for each other.
pub open spec fn is_matchup(poke: Pokemon, opponent: Pokemon, m: Matchup) -> bool {
    &&& can_take(poke, opponent, 0, m.turns0[0])
    &&& can_take(poke, opponent, 1, m.turns0[1])
    &&& can_take(poke, opponent, 2, m.turns0[2])
    &&& can_take(opponent, poke, 0, m.turns1[0])
    &&& can_take(opponent, poke, 1, m.turns1[1])
    &&& can_take(opponent, poke, 2, m.turns1[2])
}

/// The turns that `poke` and `opponent` need to wear each other down.
pub fn matchup(poke: &Pokemon, opponent: &Pokemon) -> (m: Matchup)
    requires
        poke.wf(),
        opponent.wf(),
        poke.ppt_ready(Some(*opponent)),
        opponent.ppt_ready(Some(*poke)),
    ensures
        is_matchup(*poke, *opponent, m),
{
    let a0 = poke.calc_power_per_turn(Some(opponent), None, 0);
    let b0 = opponent.calc_power_per_turn(Some(poke), None, 0);
    let a1 = poke.calc_power_per_turn(Some(opponent), None, 1);
    let b1 = opponent.calc_power_per_turn(Some(poke), None, 1);
    let a2 = poke.calc_power_per_turn(Some(opponent), None, 2);
    let b2 = opponent.calc_power_per_turn(Some(poke), None, 2);
    let m = Matchup { turns0: [a0.1, a1.1, a2.1], turns1: [b0.1, b1.1, b2.1] };
    proof {
        assert(poke.ppt_outcome(Some(*opponent), None, 0, (a0.0, m.turns0[0])));
        assert(poke.ppt_outcome(Some(*opponent), None, 1, (a1.0, m.turns0[1])));
        assert(poke.ppt_outcome(Some(*opponent), None, 2, (a2.0, m.turns0[2])));
        assert(opponent.ppt_outcome(Some(*poke), None, 0, (b0.0, m.turns1[0])));
        assert(opponent.ppt_outcome(Some(*poke), None, 1, (b1.0, m.turns1[1])));
        assert(opponent.ppt_outcome(Some(*poke), None, 2, (b2.0, m.turns1[2])));
    }
    m
}

/// How many of the first `n` matchups the creature wins with `i` shields.
pub open spec fn wins_upto(ms: Seq<Matchup>, i: int, n: nat) -> int
    decreases n,
{
    if n == 0 || n > ms.len() {
        0
    } else {
        wins_upto(ms, i, (n - 1) as nat) + if ms[n - 1].wins_spec(i) {
            1int
        } else {
            0int
        }
    }
}

/// How many of the matchups the creature wins with no, one and two shields.
pub fn count_wins(ms: &Vec<Matchup>) -> (r: [i32; 3])
    requires
        ms@.len() <= i32::MAX,
    ensures
        forall|i: int| 0 <= i < 3 ==> #[trigger] r[i] == wins_upto(ms@, i, ms@.len()),
{
    let mut w0: i32 = 0;
    let mut w1: i32 = 0;
    let mut w2: i32 = 0;
    let mut n: usize = 0;
    while n < ms.len()
        invariant
            n <= ms.len(),
            ms@.len() <= i32::MAX,
            w0 == wins_upto(ms@, 0, n as nat),
            w1 == wins_upto(ms@, 1, n as nat),
            w2 == wins_upto(ms@, 2, n as nat),
            0 <= w0 <= n,
            0 <= w1 <= n,
            0 <= w2 <= n,
        decreases ms.len() - n,
    {
        if ms[n].wins(0) {
            w0 += 1;
        }
        if ms[n].wins(1) {
            w1 += 1;
        }
        if ms[n].wins(2) {
            w2 += 1;
        }
        n += 1;
    }
    [w0, w1, w2]
}

/// The matchups of `poke` with each of `opponents`, in their order.
pub fn matchups(poke: &Pokemon, opponents: &Vec<Pokemon>) -> (r: Vec<Matchup>)
    requires
        poke.wf(),
        forall|i: int|
            0 <= i < opponents@.len() ==> (#[trigger] opponents@[i]).wf() && poke.ppt_ready(
                Some(opponents@[i]),
            ) && opponents@[i].ppt_ready(Some(*poke)),
    ensures
        r@.len() == opponents@.len(),
        forall|i: int| 0 <= i < r@.len() ==> is_matchup(*poke, opponents@[i], #[trigger] r@[i]),
{
    let mut v: Vec<Matchup> = Vec::new();
    let mut i: usize = 0;
    while i < opponents.len()
        invariant
            i <= opponents.len(),
            poke.wf(),
            forall|j: int|
                0 <= j < opponents@.len() ==> (#[trigger] opponents@[j]).wf() && poke.ppt_ready(
                    Some(opponents@[j]),
                ) && opponents@[j].ppt_ready(Some(*poke)),
            v@.len() == i,
            forall|j: int| 0 <= j < i ==> is_matchup(*poke, opponents@[j], #[trigger] v@[j]),
        decreases opponents.len() - i,
    {
        v.push(matchup(poke, &opponents[i]));
        i += 1;
    }
    v
}

} // verus!
