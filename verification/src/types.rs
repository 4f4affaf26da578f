//! Elemental types and the effectiveness of one type against others.

use vstd::prelude::*;
use vstd::string::*;
use crate::ratio::Ratio;
use crate::text::str_eq;

verus! {

/// The element of a move or of a creature.
#[derive(Debug, Clone, Copy, PartialEq, Eq, Structural)]
pub enum Type {
    Normal,
    Flare,
    Water,
    Electric,
    Grass,
    Ice,
    Fighting,
    Poison,
    Ground,
    Flying,
    Psychic,
    Bug,
    Rock,
    Spectre,
    Dragon,
    Dark,
    Steel,
    Fairy,
}

pub const NUM_TYPES: usize = 18;

/// Advantage of the attacking type (row) over the defending type (column).
pub const TYPE_EFFECT_MATRIX: [[i8; 18]; 18] = [
    [0, 0, 0, 0, 0, 0, 0, 0, 0, 0, 0, 0, -1, -2, 0, 0, -1, 0],
    [0, -1, -1, 0, 1, 1, 0, 0, 0, 0, 0, 1, -1, 0, -1, 0, 1, 0],
    [0, 1, -1, 0, -1, 0, 0, 0, 1, 0, 0, 0, 1, 0, -1, 0, 0, 0],
    [0, 0, 1, -1, -1, 0, 0, 0, -2, 1, 0, 0, 0, 0, -1, 0, 0, 0],
    [0, -1, 1, 0, -1, 0, 0, -1, 1, -1, 0, -1, 1, 0, -1, 0, -1, 0],
    [0, -1, -1, 0, 1, -1, 0, 0, 1, 1, 0, 0, 0, 0, 1, 0, -1, 0],
    [1, 0, 0, 0, 0, 1, 0, -1, 0, -1, -1, -1, 1, -2, 0, 1, 1, -1],
    [0, 0, 0, 0, 1, 0, 0, -1, -1, 0, 0, 0, -1, -1, 0, 0, -2, 1],
    [0, 1, 0, 1, -1, 0, 0, 1, 0, -2, 0, -1, 1, 0, 0, 0, 1, 0],
    [0, 0, 0, -1, 1, 0, 1, 0, 0, 0, 0, 1, -1, 0, 0, 0, -1, 0],
    [0, 0, 0, 0, 0, 0, 1, 1, 0, 0, -1, 0, 0, 0, 0, -2, -1, 0],
    [0, -1, 0, 0, 1, 0, -1, -1, 0, -1, 1, 0, 0, -1, 0, 1, -1, -1],
    [0, 1, 0, 0, 0, 1, -1, 0, -1, 1, 0, 1, 0, 0, 0, 0, -1, 0],
    [-2, 0, 0, 0, 0, 0, 0, 0, 0, 0, 1, 0, 0, 1, 0, -1, 0, 0],
    [0, 0, 0, 0, 0, 0, 0, 0, 0, 0, 0, 0, 0, 0, 1, 0, -1, -2],
    [0, 0, 0, 0, 0, 0, -1, 0, 0, 0, 1, 0, 0, 1, 0, -1, 0, -1],
    [0, -1, -1, -1, 0, 1, 0, 0, 0, 0, 0, 0, 1, 0, 0, 0, -1, 1],
    [0, -1, 0, 0, 0, 0, 1, -1, 0, 0, 0, 0, 0, 0, 1, 1, -1, 0],
];

/// Every type, in the order of the matrix.
pub const TYPES: [Type; 18] = [
    Type::Normal,
    Type::Flare,
    Type::Water,
    Type::Electric,
    Type::Grass,
    Type::Ice,
    Type::Fighting,
    Type::Poison,
    Type::Ground,
    Type::Flying,
    Type::Psychic,
    Type::Bug,
    Type::Rock,
    Type::Spectre,
    Type::Dragon,
    Type::Dark,
    Type::Steel,
    Type::Fairy,
];

/// The display name of every type, in the order of the matrix.
pub const TYPE_NAMES: [&'static str; 18] = [
    "ノーマル",
    "ほのお",
    "みず",
    "でんき",
    "くさ",
    "こおり",
    "かくとう",
    "どく",
    "じめん",
    "ひこう",
    "エスパー",
    "むし",
    "いわ",
    "ゴースト",
    "ドラゴン",
    "あく",
    "はがね",
    "フェアリー",
];

/// The multiplier for a summed advantage: `(8/5)^k`.
pub open spec fn effect_ratio(k: int) -> Ratio {
    if k <= -3 {
        Ratio { num: 125, den: 512 }
    } else if k == -2 {
        Ratio { num: 25, den: 64 }
    } else if k == -1 {
        Ratio { num: 5, den: 8 }
    } else if k == 0 {
        Ratio { num: 1, den: 1 }
    } else if k == 1 {
        Ratio { num: 8, den: 5 }
    } else {
        Ratio { num: 64, den: 25 }
    }
}

/// The six multipliers, for the advantages -3 to 2.
pub fn type_effect_arr() -> (r: [Ratio; 6])
    ensures
        forall|k: int| 0 <= k < 6 ==> r[k] == effect_ratio(k - 3),
{
    [
        Ratio { num: 125, den: 512 },
        Ratio { num: 25, den: 64 },
        Ratio { num: 5, den: 8 },
        Ratio { num: 1, den: 1 },
        Ratio { num: 8, den: 5 },
        Ratio { num: 64, den: 25 },
    ]
}

/// `v` held to the range from `lo` to `hi`.
pub open spec fn clamp(v: int, lo: int, hi: int) -> int {
    if v < lo {
        lo
    } else if v > hi {
        hi
    } else {
        v
    }
}

/// The matrix entry for an attacking and a defending type.
pub open spec fn advantage(attacker: Type, defender: Type) -> int {
    TYPE_EFFECT_MATRIX[attacker.index_spec()][defender.index_spec()] as int
}

/// Sum of the advantages of an attacking type over each of the given types.
pub open spec fn effect_sum(attacker: Type, defenders: Seq<Type>) -> int
    decreases defenders.len(),
{
    if defenders.len() == 0 {
        0
    } else {
        effect_sum(attacker, defenders.drop_last()) + advantage(attacker, defenders.last())
    }
}

/// The multiplier of an attacking type against a creature of the given types:
/// the advantages are added, the sum is held to -3..=2 and looked up.
pub open spec fn type_effect(attacker: Type, defenders: Seq<Type>) -> Ratio {
    effect_ratio(clamp(effect_sum(attacker, defenders), -3, 2))
}

impl Type {
    /// The type's row and column in the matrix.
    pub open spec fn index_spec(self) -> int {
        match self {
            Type::Normal => 0,
            Type::Flare => 1,
            Type::Water => 2,
            Type::Electric => 3,
            Type::Grass => 4,
            Type::Ice => 5,
            Type::Fighting => 6,
            Type::Poison => 7,
            Type::Ground => 8,
            Type::Flying => 9,
            Type::Psychic => 10,
            Type::Bug => 11,
            Type::Rock => 12,
            Type::Spectre => 13,
            Type::Dragon => 14,
            Type::Dark => 15,
            Type::Steel => 16,
            Type::Fairy => 17,
        }
    }

    pub fn index(self) -> (i: usize)
        ensures
            i == self.index_spec(),
            i < 18,
            TYPES[i as int] == self,
    {
        match self {
            Type::Normal => 0,
            Type::Flare => 1,
            Type::Water => 2,
            Type::Electric => 3,
            Type::Grass => 4,
            Type::Ice => 5,
            Type::Fighting => 6,
            Type::Poison => 7,
            Type::Ground => 8,
            Type::Flying => 9,
            Type::Psychic => 10,
            Type::Bug => 11,
            Type::Rock => 12,
            Type::Spectre => 13,
            Type::Dragon => 14,
            Type::Dark => 15,
            Type::Steel => 16,
            Type::Fairy => 17,
        }
    }

    /// The type's display name.
    pub fn name(self) -> (s: &'static str)
        ensures
            s@ == TYPE_NAMES[self.index_spec()]@,
    {
        TYPE_NAMES[self.index()]
    }

    /// The type with the given display name, if there is one.
    pub fn from_name(s: &str) -> (r: Option<Type>)
        ensures
            match r {
                Some(t) => TYPE_NAMES[t.index_spec()]@ == s@ && forall|j: int|
                    0 <= j < t.index_spec() ==> TYPE_NAMES[j]@ != s@,
                None => forall|j: int| 0 <= j < 18 ==> TYPE_NAMES[j]@ != s@,
            },
    {
        let mut i: usize = 0;
        while i < 18
            invariant
                i <= 18,
                forall|j: int| 0 <= j < i ==> TYPE_NAMES[j]@ != s@,
            decreases 18 - i,
        {
            if str_eq(TYPE_NAMES[i], s) {
                let t = TYPES[i];
                return Some(t);
            }
            i += 1;
        }
        None
    }

    /// The multiplier of a move of this type against a creature of the given
    /// types.
    pub fn type_effect_bonus(&self, types: &[Type]) -> (r: Ratio)
        ensures
            r == type_effect(*self, types@),
            r.wf(),
            1 <= r.num <= 125,
            1 <= r.den <= 512,
    {
        let row: usize = self.index();
        let mut sum: i128 = 0;
        let mut i: usize = 0;
        while i < types.len()
            invariant
                i <= types.len(),
                row == self.index_spec(),
                sum == effect_sum(*self, types@.take(i as int)),
                -2 * i <= sum <= 2 * i,
            decreases types.len() - i,
        {
            let col: usize = types[i].index();
            let e: i8 = TYPE_EFFECT_MATRIX[row][col];
            proof {
                assert(types@.take(i as int + 1).drop_last() =~= types@.take(i as int));
                lemma_matrix_bound(row as int, col as int);
            }
            sum = sum + (e as i128);
            i += 1;
        }
        proof {
            assert(types@.take(i as int) =~= types@);
        }
        let k: i128 = if sum < -3 {
            -3
        } else if sum > 2 {
            2
        } else {
            sum
        };
        let arr = type_effect_arr();
        arr[(k + 3) as usize]
    }
}

impl From<Type> for String {
    fn from(val: Type) -> (r: String)
        ensures
            r@ == TYPE_NAMES[val.index_spec()]@,
    {
        String::from_str(val.name())
    }
}

impl vstd::std_specs::convert::FromSpecImpl<Type> for String {
    open spec fn obeys_from_spec() -> bool {
        false
    }

    open spec fn from_spec(val: Type) -> String {
        arbitrary()
    }
}

/// Every entry of the matrix lies between -2 and 2.
pub proof fn lemma_matrix_bound(i: int, j: int)
    requires
        0 <= i < 18,
        0 <= j < 18,
    ensures
        -2 <= TYPE_EFFECT_MATRIX[i][j] <= 2,
{
}

/// How two types stand to each other.
#[derive(Debug, Clone, Copy, PartialEq, Eq, Structural)]
pub enum CrossKind {
    /// Each has over the other what the other lacks: the advantages are
    /// opposite and of the same size.
    Symmetric,
    /// The advantages differ in size, and neither is zero.
    Lopsided,
    /// Only one of them has an advantage or a disadvantage.
    OneSided,
    /// Both have the same advantage over each other.
    Equal,
}

/// Two types that stand to each other in some way: the advantage of the
/// first over the second, and of the second over the first.
#[derive(Debug, Clone, Copy, PartialEq, Eq, Structural)]
pub struct Cross {
    pub kind: CrossKind,
    pub from: Type,
    pub to: Type,
    pub effect: i8,
    pub back: i8,
}

/// How the types with the numbers `i` and `k` stand to each other; none
/// where neither has an advantage over the other. The pair is told from
/// the side of `i`, or from the side of `k`: where only one has an
/// advantage from its side; where the advantages are opposite from the
/// side of the positive one; and where they differ in size from the side
/// of the smaller one.
pub open spec fn cross_of(i: int, k: int) -> Option<Cross> {
    let effect = TYPE_EFFECT_MATRIX[i][k];
    let back = TYPE_EFFECT_MATRIX[k][i];
    let ahead = Cross { kind: CrossKind::Equal, from: TYPES[i], to: TYPES[k], effect, back };
    let behind = Cross {
        kind: CrossKind::Equal,
        from: TYPES[k],
        to: TYPES[i],
        effect: back,
        back: effect,
    };
    if effect == 0 && back == 0 {
        None
    } else if effect == 0 || back == 0 {
        if back == 0 {
            Some(Cross { kind: CrossKind::OneSided, ..ahead })
        } else {
            Some(Cross { kind: CrossKind::OneSided, ..behind })
        }
    } else if effect == back {
        Some(ahead)
    } else if effect == -back {
        if effect > 0 {
            Some(Cross { kind: CrossKind::Symmetric, ..ahead })
        } else {
            Some(Cross { kind: CrossKind::Symmetric, ..behind })
        }
    } else if back > 1 || back < -1 {
        Some(Cross { kind: CrossKind::Lopsided, ..ahead })
    } else {
        Some(Cross { kind: CrossKind::Lopsided, ..behind })
    }
}

/// The pairs among the first `n` of all pairs of types, counted row by
/// row, in which the second type comes before the first and the two stand
/// to each other in some way.
pub open spec fn crosses_upto(n: nat) -> Seq<Cross>
    decreases n,
{
    if n == 0 || n > 324 {
        Seq::empty()
    } else {
        let i = (n - 1) / 18;
        let k = (n - 1) % 18;
        let rest = crosses_upto((n - 1) as nat);
        if k < i && cross_of(i, k) is Some {
            rest.push(cross_of(i, k).unwrap())
        } else {
            rest
        }
    }
}

/// How the types with the numbers `i` and `k` stand to each other, as
/// `cross_of` says.
pub fn effect_cross_of(i: usize, k: usize) -> (r: Option<Cross>)
    requires
        i < 18,
        k < 18,
    ensures
        r == cross_of(i as int, k as int),
{
    let effect = TYPE_EFFECT_MATRIX[i][k];
    let back = TYPE_EFFECT_MATRIX[k][i];
    proof {
        lemma_matrix_bound(i as int, k as int);
        lemma_matrix_bound(k as int, i as int);
    }
    let ahead = Cross { kind: CrossKind::Equal, from: TYPES[i], to: TYPES[k], effect, back };
    let behind = Cross {
        kind: CrossKind::Equal,
        from: TYPES[k],
        to: TYPES[i],
        effect: back,
        back: effect,
    };
    if effect == 0 && back == 0 {
        None
    } else if effect == 0 || back == 0 {
        if back == 0 {
            Some(Cross { kind: CrossKind::OneSided, ..ahead })
        } else {
            Some(Cross { kind: CrossKind::OneSided, ..behind })
        }
    } else if effect == back {
        Some(ahead)
    } else if effect == -back {
        if effect > 0 {
            Some(Cross { kind: CrossKind::Symmetric, ..ahead })
        } else {
            Some(Cross { kind: CrossKind::Symmetric, ..behind })
        }
    } else if back > 1 || back < -1 {
        Some(Cross { kind: CrossKind::Lopsided, ..ahead })
    } else {
        Some(Cross { kind: CrossKind::Lopsided, ..behind })
    }
}

/// Every pair of types that stand to each other in some way, each pair
/// once, row by row of the matrix.
pub fn effect_cross() -> (r: Vec<Cross>)
    ensures
        r@ == crosses_upto(324),
{
    let mut v: Vec<Cross> = Vec::new();
    let mut n: usize = 0;
    while n < 324
        invariant
            n <= 324,
            v@ == crosses_upto(n as nat),
        decreases 324 - n,
    {
        let i = n / 18;
        let k = n % 18;
        if k < i {
            match effect_cross_of(i, k) {
                Some(c) => {
                    v.push(c);
                },
                None => {},
            }
        }
        n += 1;
    }
    v
}

/// The advantage of the attacking type over a defending type.
pub fn type_advantage(attacker: Type, defender: Type) -> (r: i8)
    ensures
        r == advantage(attacker, defender),
        -2 <= r <= 2,
{
    let i = attacker.index();
    let k = defender.index();
    proof {
        lemma_matrix_bound(i as int, k as int);
    }
    TYPE_EFFECT_MATRIX[i][k]
}

} // verus!
