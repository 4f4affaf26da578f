//! Fast moves and charge moves, and the catalog of each.

use vstd::prelude::*;
use crate::ratio::Ratio;
use crate::text::str_eq;
use crate::types::Type;

verus! {

/// Same-type attack bonus: a move of one of its user's own types is
/// stronger by this factor.
pub open spec fn stab_spec() -> Ratio {
    Ratio { num: 6, den: 5 }
}

/// The same-type attack bonus.
pub fn stab() -> (r: Ratio)
    ensures
        r == stab_spec(),
{
    Ratio { num: 6, den: 5 }
}

/// The highest power of a move for which the sums of power over a whole
/// wearing down of an opponent are sure to fit in 64 bits.
pub const MAX_POWER: i32 = 65535;

/// The longest duration of a fast move, in ticks, for which the sum of the
/// turns of a whole wearing down of an opponent is sure to fit in 32 bits.
pub const MAX_TURNS: i32 = 255;

/// A move that costs nothing and fills the energy.
#[derive(Debug, Clone, Copy)]
pub struct FastMove {
    pub no: &'static str,
    pub name: &'static str,
    pub s_name: &'static str,
    pub mtype: Type,
    /// Power of one hit.
    pub power: i32,
    /// Energy gained by one hit.
    pub energy: i32,
    /// Ticks from the start of the move until the next action may begin.
    pub turns: i32,
}

/// A change of stat stages: own attack, own defense, the opponent's attack,
/// the opponent's defense.
#[derive(Debug, Clone, Copy)]
pub struct Buff(pub i8, pub i8, pub i8, pub i8);

/// A move that spends energy.
#[derive(Debug, Clone, Copy)]
pub struct ChargeMove {
    pub no: &'static str,
    pub name: &'static str,
    pub s_name: &'static str,
    pub mtype: Type,
    pub power: i32,
    /// Energy spent by one use.
    pub energy: i32,
    /// The change of stat stages that the move may bring.
    pub buff: Option<Buff>,
    /// Chance of that change, in tenths of a percent.
    pub buff_prob: u32,
}

/// The power of a move of type `mtype` and base power `power` in the hands
/// of a creature of the given types.
pub open spec fn real_power_spec(power: int, mtype: Type, types: Seq<Type>) -> Ratio {
    if types.contains(mtype) {
        Ratio { num: (power * 6) as u64, den: 5 }
    } else {
        Ratio { num: power as u64, den: 1 }
    }
}

/// The power of a move in the hands of a creature of the types `types`
/// against a creature of the types `opponent`: the power with the same-type
/// bonus, times the multiplier of the move's type against the opponent.
pub open spec fn real_power2_spec(power: int, mtype: Type, types: Seq<Type>, opponent: Seq<Type>) -> Ratio {
    let p = real_power_spec(power, mtype, types);
    let e = crate::types::type_effect(mtype, opponent);
    Ratio { num: (p.num * e.num) as u64, den: (p.den * e.den) as u64 }
}

/// `real_power2_spec` as a function that runs.
pub fn real_power2_of(power: i32, mtype: Type, types: &[Type], opponent: &[Type]) -> (r: Ratio)
    requires
        0 <= power,
    ensures
        r == real_power2_spec(power as int, mtype, types@, opponent@),
        r.den > 0,
        r.den <= 2560,
        power <= MAX_POWER ==> r.num <= 65535 * 6 * 125,
{
    let p = if has_type(types, mtype) {
        Ratio { num: (power as u64) * 6, den: 5 }
    } else {
        Ratio { num: power as u64, den: 1 }
    };
    let e = mtype.type_effect_bonus(opponent);
    assert(p.num * e.num <= 0x7FFF_FFFF * 6 * 125 && 0 < p.den * e.den <= 2560) by (nonlinear_arith)
        requires
            p.num <= 0x7FFF_FFFF * 6,
            e.num <= 125,
            1 <= p.den <= 5,
            1 <= e.den <= 512,
    ;
    if power <= MAX_POWER {
        assert(p.num * e.num <= 65535 * 6 * 125) by (nonlinear_arith)
            requires
                p.num <= 65535 * 6,
                e.num <= 125,
        ;
    }
    Ratio { num: p.num * e.num, den: p.den * e.den }
}

/// Whether `t` is one of `types`.
pub fn has_type(types: &[Type], t: Type) -> (r: bool)
    ensures
        r == types@.contains(t),
{
    let mut i: usize = 0;
    while i < types.len()
        invariant
            i <= types.len(),
            forall|j: int| 0 <= j < i ==> types@[j] != t,
        decreases types.len() - i,
    {
        if types[i] == t {
            return true;
        }
        i += 1;
    }
    false
}

/// The power of a charge move for a user of the types `types` against a
/// creature of the types `opponent`, per unit of energy.
pub open spec fn ppe_spec(mv: ChargeMove, types: Seq<Type>, opponent: Seq<Type>) -> Ratio {
    let p = real_power2_spec(mv.power as int, mv.mtype, types, opponent);
    Ratio { num: p.num, den: (p.den * mv.energy) as u64 }
}

impl FastMove {
    /// Power, energy and duration are not negative.
    pub open spec fn wf(self) -> bool {
        &&& 0 <= self.power
        &&& 0 <= self.energy
        &&& 0 <= self.turns
    }

    /// Power and duration are within `MAX_POWER` and `MAX_TURNS`.
    pub open spec fn bounded(self) -> bool {
        &&& self.power <= MAX_POWER
        &&& self.turns <= MAX_TURNS
    }

    /// A placeholder of the catalog, which no lookup returns.
    pub open spec fn is_dummy(self) -> bool {
        self.no@ == "000"@
    }

    /// Whether the move is well formed.
    pub fn is_valid(&self) -> (r: bool)
        ensures
            r == self.wf(),
    {
        0 <= self.power && 0 <= self.energy && 0 <= self.turns
    }

    /// Whether power and duration are within `MAX_POWER` and `MAX_TURNS`.
    pub fn is_bounded(&self) -> (r: bool)
        ensures
            r == self.bounded(),
    {
        self.power <= MAX_POWER && self.turns <= MAX_TURNS
    }

    pub fn no(&self) -> (r: &'static str)
        ensures
            r == self.no,
    {
        self.no
    }

    pub fn name(&self) -> (r: &'static str)
        ensures
            r == self.name,
    {
        self.name
    }

    pub fn s_name(&self) -> (r: &'static str)
        ensures
            r == self.s_name,
    {
        self.s_name
    }

    pub fn mtype(&self) -> (r: Type)
        ensures
            r == self.mtype,
    {
        self.mtype
    }

    pub fn power(&self) -> (r: i32)
        ensures
            r == self.power,
    {
        self.power
    }

    pub fn energy(&self) -> (r: i32)
        ensures
            r == self.energy,
    {
        self.energy
    }

    pub fn turns(&self) -> (r: i32)
        ensures
            r == self.turns,
    {
        self.turns
    }

    /// The power of the move for a user of the given types: the same-type
    /// bonus applies where the move's type is among them.
    pub fn real_power(&self, types: &[Type]) -> (r: Ratio)
        requires
            self.power >= 0,
        ensures
            r == real_power_spec(self.power as int, self.mtype, types@),
            r.wf(),
    {
        if has_type(types, self.mtype) {
            Ratio { num: (self.power as u64) * 6, den: 5 }
        } else {
            Ratio { num: self.power as u64, den: 1 }
        }
    }
}

impl FastMove {
    /// The power of the move for a user of the types `types` against a
    /// creature of the types `opponent`.
    pub fn real_power2(&self, types: &[Type], opponent: &[Type]) -> (r: Ratio)
        requires
            self.wf(),
        ensures
            r == real_power2_spec(self.power as int, self.mtype, types@, opponent@),
            0 < r.den <= 2560,
            self.bounded() ==> r.num <= 65535 * 6 * 125,
    {
        real_power2_of(self.power, self.mtype, types, opponent)
    }
}

impl ChargeMove {
    /// Power and energy are not negative.
    pub open spec fn wf(self) -> bool {
        &&& 0 <= self.power
        &&& 0 <= self.energy
    }

    /// The power is within `MAX_POWER`.
    pub open spec fn bounded(self) -> bool {
        self.power <= MAX_POWER
    }

    /// A placeholder of the catalog, which no lookup returns.
    pub open spec fn is_dummy(self) -> bool {
        self.no@ == "000"@
    }

    /// Whether the move is well formed.
    pub fn is_valid(&self) -> (r: bool)
        ensures
            r == self.wf(),
    {
        0 <= self.power && 0 <= self.energy
    }

    /// Whether the power is within `MAX_POWER`.
    pub fn is_bounded(&self) -> (r: bool)
        ensures
            r == self.bounded(),
    {
        self.power <= MAX_POWER
    }

    pub fn no(&self) -> (r: &'static str)
        ensures
            r == self.no,
    {
        self.no
    }

    pub fn name(&self) -> (r: &'static str)
        ensures
            r == self.name,
    {
        self.name
    }

    pub fn s_name(&self) -> (r: &'static str)
        ensures
            r == self.s_name,
    {
        self.s_name
    }

    pub fn mtype(&self) -> (r: Type)
        ensures
            r == self.mtype,
    {
        self.mtype
    }

    pub fn power(&self) -> (r: i32)
        ensures
            r == self.power,
    {
        self.power
    }

    pub fn energy(&self) -> (r: i32)
        ensures
            r == self.energy,
    {
        self.energy
    }

    pub fn buff(&self) -> (r: Option<Buff>)
        ensures
            r == self.buff,
    {
        self.buff
    }

    pub fn buff_prob(&self) -> (r: u32)
        ensures
            r == self.buff_prob,
    {
        self.buff_prob
    }

    /// The power of the move for a user of the given types: the same-type
    /// bonus applies where the move's type is among them.
    pub fn real_power(&self, types: &[Type]) -> (r: Ratio)
        requires
            self.power >= 0,
        ensures
            r == real_power_spec(self.power as int, self.mtype, types@),
            r.wf(),
    {
        if has_type(types, self.mtype) {
            Ratio { num: (self.power as u64) * 6, den: 5 }
        } else {
            Ratio { num: self.power as u64, den: 1 }
        }
    }

    /// The power of the move for a user of the types `types` against a
    /// creature of the types `opponent`.
    pub fn real_power2(&self, types: &[Type], opponent: &[Type]) -> (r: Ratio)
        requires
            self.wf(),
        ensures
            r == real_power2_spec(self.power as int, self.mtype, types@, opponent@),
            0 < r.den <= 2560,
            self.bounded() ==> r.num <= 65535 * 6 * 125,
    {
        real_power2_of(self.power, self.mtype, types, opponent)
    }

    /// The power of the move, as `real_power2` gives it, per unit of energy.
    pub fn ppe(&self, types: &[Type], opponent: &[Type]) -> (r: Ratio)
        requires
            self.wf(),
        ensures
            r == ppe_spec(*self, types@, opponent@),
    {
        let p = real_power2_of(self.power, self.mtype, types, opponent);
        assert(p.den * self.energy <= 2560 * 0x7FFF_FFFF) by (nonlinear_arith)
            requires
                0 <= p.den <= 2560,
                0 <= self.energy <= 0x7FFF_FFFF,
        ;
        Ratio { num: p.num, den: p.den * (self.energy as u64) }
    }

    /// The turn in which the move can be used for the first time by a
    /// creature that starts without energy and uses `fast_move`: the turns of
    /// as many fast moves as fill the energy of this move; 0 where the fast
    /// move fills none.
    pub fn first_enable_turn(&self, fast_move: &FastMove) -> (r: i64)
        requires
            self.wf(),
            fast_move.wf(),
        ensures
            r == if fast_move.energy <= 0 {
                0
            } else {
                ((self.energy + fast_move.energy - 1) / fast_move.energy as int)
                    * fast_move.turns
            },
    {
        if fast_move.energy <= 0 {
            return 0;
        }
        let filled: i64 = self.energy as i64 + fast_move.energy as i64 - 1;
        let hits: i64 = filled / fast_move.energy as i64;
        assert(0 <= hits <= filled) by {
            vstd::arithmetic::div_mod::lemma_div_is_ordered_by_denominator(
                filled as int,
                1,
                fast_move.energy as int,
            );
            vstd::arithmetic::div_mod::lemma_div_pos_is_pos(filled as int, fast_move.energy as int);
        }
        assert(0 <= hits * fast_move.turns <= 0xFFFF_FFFF * 0x7FFF_FFFF) by (nonlinear_arith)
            requires
                0 <= hits <= 0xFFFF_FFFF,
                0 <= fast_move.turns <= 0x7FFF_FFFF,
        ;
        hits * fast_move.turns as i64
    }

    /// Power per unit of energy.
    pub fn pte(&self) -> (r: Ratio)
        requires
            self.wf(),
        ensures
            r == (Ratio { num: self.power as u64, den: self.energy as u64 }),
    {
        Ratio { num: self.power as u64, den: self.energy as u64 }
    }
}

/// The last of the first `n` fast moves of the catalog that has the number
/// `no` and is no placeholder.
pub open spec fn fast_move_no_upto(no: Seq<char>, n: nat) -> Option<FastMove>
    decreases n,
{
    if n == 0 {
        None
    } else if n <= 188 && fast_move_entry(n - 1).no@ == no && !fast_move_entry(n - 1).is_dummy() {
        Some(fast_move_entry(n - 1))
    } else {
        fast_move_no_upto(no, (n - 1) as nat)
    }
}

/// The same by name.
pub open spec fn fast_move_name_upto(name: Seq<char>, n: nat) -> Option<FastMove>
    decreases n,
{
    if n == 0 {
        None
    } else if n <= 188 && fast_move_entry(n - 1).name@ == name && !fast_move_entry(n - 1).is_dummy() {
        Some(fast_move_entry(n - 1))
    } else {
        fast_move_name_upto(name, (n - 1) as nat)
    }
}

/// The last of the first `n` charge moves of the catalog that has the
/// number `no` and is no placeholder.
pub open spec fn charge_move_no_upto(no: Seq<char>, n: nat) -> Option<ChargeMove>
    decreases n,
{
    if n == 0 {
        None
    } else if n <= 394 && charge_move_entry(n - 1).no@ == no && !charge_move_entry(n - 1).is_dummy() {
        Some(charge_move_entry(n - 1))
    } else {
        charge_move_no_upto(no, (n - 1) as nat)
    }
}

/// The same by name.
pub open spec fn charge_move_name_upto(name: Seq<char>, n: nat) -> Option<ChargeMove>
    decreases n,
{
    if n == 0 {
        None
    } else if n <= 394 && charge_move_entry(n - 1).name@ == name && !charge_move_entry(n - 1).is_dummy() {
        Some(charge_move_entry(n - 1))
    } else {
        charge_move_name_upto(name, (n - 1) as nat)
    }
}

/// The fast move with the number `no`. Where the catalog held the number
/// twice, the later entry would be found.
pub fn fast_move_by_no(no: &str) -> (r: Option<FastMove>)
    ensures
        r == fast_move_no_upto(no@, 188),
        r is Some ==> r.unwrap().wf() && r.unwrap().bounded() && r.unwrap().no@ == no@
            && !r.unwrap().is_dummy(),
{
    let mut i: usize = 188;
    while i > 0
        invariant
            i <= 188,
            fast_move_no_upto(no@, 188) == fast_move_no_upto(no@, i as nat),
        decreases i,
    {
        let mv = fast_move_at(i - 1);
        if !str_eq(mv.no, "000") && str_eq(mv.no, no) {
            proof {
                lemma_fast_moves_wf((i - 1) as int);
            }
            return Some(mv);
        }
        i -= 1;
    }
    None
}

/// The fast move with the name `name`.
pub fn fast_move_by_name(name: &str) -> (r: Option<FastMove>)
    ensures
        r == fast_move_name_upto(name@, 188),
        r is Some ==> r.unwrap().wf() && r.unwrap().bounded() && r.unwrap().name@ == name@
            && !r.unwrap().is_dummy(),
{
    let mut i: usize = 188;
    while i > 0
        invariant
            i <= 188,
            fast_move_name_upto(name@, 188) == fast_move_name_upto(name@, i as nat),
        decreases i,
    {
        let mv = fast_move_at(i - 1);
        if !str_eq(mv.no, "000") && str_eq(mv.name, name) {
            proof {
                lemma_fast_moves_wf((i - 1) as int);
            }
            return Some(mv);
        }
        i -= 1;
    }
    None
}

/// The charge move with the number `no`.
pub fn charge_move_by_no(no: &str) -> (r: Option<ChargeMove>)
    ensures
        r == charge_move_no_upto(no@, 394),
        r is Some ==> r.unwrap().wf() && r.unwrap().bounded() && r.unwrap().no@ == no@
            && !r.unwrap().is_dummy(),
{
    let mut i: usize = 394;
    while i > 0
        invariant
            i <= 394,
            charge_move_no_upto(no@, 394) == charge_move_no_upto(no@, i as nat),
        decreases i,
    {
        let mv = charge_move_at(i - 1);
        if !str_eq(mv.no, "000") && str_eq(mv.no, no) {
            proof {
                lemma_charge_moves_wf((i - 1) as int);
            }
            return Some(mv);
        }
        i -= 1;
    }
    None
}

/// The charge move with the name `name`.
pub fn charge_move_by_name(name: &str) -> (r: Option<ChargeMove>)
    ensures
        r == charge_move_name_upto(name@, 394),
        r is Some ==> r.unwrap().wf() && r.unwrap().bounded() && r.unwrap().name@ == name@
            && !r.unwrap().is_dummy(),
{
    let mut i: usize = 394;
    while i > 0
        invariant
            i <= 394,
            charge_move_name_upto(name@, 394) == charge_move_name_upto(name@, i as nat),
        decreases i,
    {
        let mv = charge_move_at(i - 1);
        if !str_eq(mv.no, "000") && str_eq(mv.name, name) {
            proof {
                lemma_charge_moves_wf((i - 1) as int);
            }
            return Some(mv);
        }
        i -= 1;
    }
    None
}

/// Every fast move of the catalog is well formed and bounded.
pub proof fn lemma_fast_moves_wf(i: int)
    requires
        0 <= i < 188,
    ensures
        fast_move_entry(i).wf(),
        fast_move_entry(i).bounded(),
{
}

/// Every charge move of the catalog is well formed and bounded.
pub proof fn lemma_charge_moves_wf(i: int)
    requires
        0 <= i < 394,
    ensures
        charge_move_entry(i).wf(),
        charge_move_entry(i).bounded(),
{
}

/// A row of the catalog of fast moves: number, name, name in Latin letters,
/// type, power, energy gained, duration in ticks.
pub type FastMoveRow = (&'static str, &'static str, &'static str, Type, i32, i32, i32);

/// A row of the catalog of charge moves: number, name, name in Latin
/// letters, type, power, energy spent, whether the move changes stat stages,
/// the change, and its chance in tenths of a percent.
pub type ChargeMoveRow = (
    &'static str,
    &'static str,
    &'static str,
    Type,
    i32,
    i32,
    bool,
    (i8, i8, i8, i8),
    u32,
);

/// Entry `i` of the catalog of fast moves.
pub open spec fn fast_move_entry(i: int) -> FastMove {
    let row = FAST_MOVES[i];
    FastMove {
        no: row.0,
        name: row.1,
        s_name: row.2,
        mtype: row.3,
        power: row.4,
        energy: row.5,
        turns: row.6,
    }
}

/// Entry `i` of the catalog of charge moves.
pub open spec fn charge_move_entry(i: int) -> ChargeMove {
    let row = CHARGE_MOVES[i];
    ChargeMove {
        no: row.0,
        name: row.1,
        s_name: row.2,
        mtype: row.3,
        power: row.4,
        energy: row.5,
        buff: if row.6 {
            Some(Buff(row.7.0, row.7.1, row.7.2, row.7.3))
        } else {
            None
        },
        buff_prob: row.8,
    }
}

/// Entry `i` of the catalog of fast moves.
pub fn fast_move_at(i: usize) -> (r: FastMove)
    requires
        i < 188,
    ensures
        r == fast_move_entry(i as int),
{
    let row = FAST_MOVES[i];
    FastMove {
        no: row.0,
        name: row.1,
        s_name: row.2,
        mtype: row.3,
        power: row.4,
        energy: row.5,
        turns: row.6,
    }
}

/// Entry `i` of the catalog of charge moves.
pub fn charge_move_at(i: usize) -> (r: ChargeMove)
    requires
        i < 394,
    ensures
        r == charge_move_entry(i as int),
{
    let row = CHARGE_MOVES[i];
    let buff = if row.6 {
        Some(Buff(row.7.0, row.7.1, row.7.2, row.7.3))
    } else {
        None
    };
    ChargeMove {
        no: row.0,
        name: row.1,
        s_name: row.2,
        mtype: row.3,
        power: row.4,
        energy: row.5,
        buff,
        buff_prob: row.8,
    }
}

pub const NUM_FAST_MOVES: usize = 188;

/// The placeholder among the fast moves.
pub const DUMMY_FM: FastMoveRow = ("000", "dummy fast move", "", Type::Normal, 0, 0, 0);

/// The catalog of fast moves.
pub const FAST_MOVES: [FastMoveRow; 188] = [
    ("200", "れんぞくぎり", "renzokugiri", Type::Bug, 2, 4, 1),
    ("201", "むしくい", "musikui", Type::Bug, 3, 3, 1),
    ("202", "かみつく", "kamituku", Type::Dark, 4, 2, 1),
    ("203", "ふいうち", "fuiuti", Type::Dark, 5, 7, 2),
    ("204", "りゅうのいぶき", "ryuunoibuki", Type::Dragon, 4, 3, 1),
    ("205", "でんきショック", "denkisyokku", Type::Electric, 3, 9, 2),
    ("206", "スパーク", "supa-ku", Type::Electric, 6, 7, 2),
    ("207", "けたぐり", "ketaguri", Type::Fighting, 4, 5, 2),
    ("208", "からてチョップ", "karatetyoppu", Type::Fighting, 5, 8, 2),
    ("209", "ひのこ", "hinoko", Type::Flare, 7, 6, 2),
    ("210", "つばさでうつ", "tubasadeutu", Type::Flying, 5, 8, 2),
    ("211", "つつく", "tutuku", Type::Flying, 6, 5, 2),
    ("212", "したでなめる", "sitadenameru", Type::Spectre, 3, 3, 1),
    ("213", "シャドークロー", "syado-kuro-", Type::Spectre, 6, 8, 2),
    ("214", "つるのムチ", "turunomuti", Type::Grass, 5, 8, 2),
    ("215", "はっぱカッター", "happakatta-", Type::Grass, 10, 4, 2),
    ("216", "マッドショット", "maddosyotto", Type::Ground, 3, 9, 2),
    ("217", "こおりのつぶて", "koorinotubute", Type::Ice, 9, 10, 3),
    ("218", "こおりのいぶき", "koorinoibuki", Type::Ice, 7, 5, 2),
    ("219", "でんこうせっか", "denkousekka", Type::Normal, 5, 8, 2),
    ("220", "ひっかく", "hikkaku", Type::Normal, 4, 2, 1),
    ("221", "たいあたり", "taiatari", Type::Normal, 3, 3, 1),
    ("222", "はたく", "hataku", Type::Normal, 4, 4, 2),
    ("223", "いあいぎり", "iaigiri", Type::Normal, 3, 2, 1),
    ("224", "どくづき", "dokuduki", Type::Poison, 7, 7, 2),
    ("225", "ようかいえき", "youkaieki", Type::Poison, 6, 5, 2),
    ("226", "サイコカッター", "saikokatta-", Type::Psychic, 3, 9, 2),
    ("227", "いわおとし", "iwaotosi", Type::Rock, 8, 5, 2),
    ("228", "メタルクロー", "metarukuro-", Type::Steel, 5, 6, 2),
    ("229", "バレットパンチ", "barettopanti", Type::Steel, 6, 7, 2),
    ("230", "みずでっぽう", "mizudeppou", Type::Water, 3, 3, 1),
    ("231", "はねる", "haneru", Type::Water, 0, 12, 4),
    ("232", "みずでっぽう(カメックス)", "mizudeppoukamekkusu", Type::Water, 6, 4, 2),
    ("233", "どろかけ", "dorokake", Type::Ground, 11, 8, 3),
    ("234", "しねんのずつき", "sinennnozutuki", Type::Psychic, 8, 6, 3),
    ("235", "ねんりき", "nenriki", Type::Psychic, 16, 12, 4),
    ("236", "どくばり", "dokubari", Type::Poison, 3, 9, 2),
    ("237", "あわ", "awa", Type::Water, 7, 11, 3),
    ("238", "だましうち", "damasiuti", Type::Dark, 6, 6, 2),
    ("239", "はがねのつばさ", "haganenotubasa", Type::Steel, 7, 5, 2),
    ("240", "ほのおのキバ", "honoonokiba", Type::Flare, 8, 5, 2),
    ("241", "いわくだき", "iwakudaki", Type::Fighting, 9, 7, 3),
    ("242", "へんしん", "hensinn", Type::Normal, 0, 0, 3),
    ("243", "カウンター", "kaunta-", Type::Fighting, 8, 7, 2),
    ("244", "こなゆき", "konayuki", Type::Ice, 5, 8, 2),
    DUMMY_FM,
    DUMMY_FM,
    DUMMY_FM,
    DUMMY_FM,
    ("249", "チャージビーム", "tya-jibi-mu", Type::Electric, 5, 11, 3),
    ("250", "ボルトチェンジ", "borutotyenji", Type::Electric, 12, 16, 4),
    DUMMY_FM,
    DUMMY_FM,
    ("253", "ドラゴンテール", "doragonte-ru", Type::Dragon, 13, 9, 3),
    DUMMY_FM,
    ("255", "エアスラッシュ", "easurassyu", Type::Flying, 9, 9, 3),
    DUMMY_FM,
    DUMMY_FM,
    DUMMY_FM,
    DUMMY_FM,
    ("260", "まとわりつく", "matowarituku", Type::Bug, 6, 12, 3),
    ("261", "むしのていこう", "musinoteikou", Type::Bug, 9, 8, 3),
    DUMMY_FM,
    ("263", "おどろかす", "odorokasu", Type::Spectre, 5, 10, 3),
    ("264", "たたりめ", "tatarime", Type::Spectre, 6, 12, 3),
    DUMMY_FM,
    ("266", "アイアンテール", "aiante-ru", Type::Steel, 9, 6, 3),
    DUMMY_FM,
    DUMMY_FM,
    ("269", "ほのおのうず", "honoonouzu", Type::Flare, 9, 10, 3),
    DUMMY_FM,
    ("271", "タネマシンガン", "tanemasingann", Type::Grass, 5, 13, 3),
    DUMMY_FM,
    DUMMY_FM,
    ("274", "じんつうりき", "jintuuriki", Type::Psychic, 8, 10, 3),
    DUMMY_FM,
    DUMMY_FM,
    DUMMY_FM,
    ("278", "バークアウト", "ba-kuauto", Type::Dark, 5, 13, 3),
    DUMMY_FM,
    DUMMY_FM,
    ("281", "めざめるパワー※", "mezamerupawa-", Type::Normal, 9, 8, 3),
    ("282", "とっしん", "tossinn", Type::Normal, 5, 8, 3),
    ("283", "たきのぼり", "takinobori", Type::Water, 12, 8, 3),
    DUMMY_FM,
    DUMMY_FM,
    DUMMY_FM,
    ("287", "あくび", "akubi", Type::Normal, 0, 12, 4),
    DUMMY_FM,
    DUMMY_FM,
    DUMMY_FM,
    ("291", "プレゼント", "purezento", Type::Normal, 3, 12, 3),
    DUMMY_FM,
    DUMMY_FM,
    DUMMY_FM,
    DUMMY_FM,
    DUMMY_FM,
    ("297", "うちおとす", "utiotosu", Type::Rock, 12, 8, 3),
    DUMMY_FM,
    DUMMY_FM,
    DUMMY_FM,
    DUMMY_FM,
    DUMMY_FM,
    DUMMY_FM,
    DUMMY_FM,
    DUMMY_FM,
    DUMMY_FM,
    DUMMY_FM,
    DUMMY_FM,
    DUMMY_FM,
    DUMMY_FM,
    DUMMY_FM,
    DUMMY_FM,
    DUMMY_FM,
    DUMMY_FM,
    DUMMY_FM,
    DUMMY_FM,
    DUMMY_FM,
    DUMMY_FM,
    DUMMY_FM,
    ("320", "あまえる", "amaeru", Type::Fairy, 15, 6, 3),
    DUMMY_FM,
    DUMMY_FM,
    DUMMY_FM,
    DUMMY_FM,
    ("325", "ロックオン", "rokkuonn", Type::Normal, 1, 5, 1),
    ("326", "かみなりのキバ", "kaminarinokiba", Type::Electric, 8, 5, 2),
    ("327", "こおりのキバ", "koorinokiba", Type::Ice, 8, 5, 2),
    DUMMY_FM,
    DUMMY_FM,
    DUMMY_FM,
    DUMMY_FM,
    DUMMY_FM,
    DUMMY_FM,
    DUMMY_FM,
    DUMMY_FM,
    DUMMY_FM,
    DUMMY_FM,
    DUMMY_FM,
    DUMMY_FM,
    DUMMY_FM,
    DUMMY_FM,
    DUMMY_FM,
    DUMMY_FM,
    DUMMY_FM,
    ("345", "かぜおこし", "kazeokosi", Type::Flying, 16, 12, 4),
    ("346", "やきつくす", "yakitukusu", Type::Flare, 15, 20, 5),
    DUMMY_FM,
    DUMMY_FM,
    DUMMY_FM,
    ("350", "ようせいのかぜ", "youseinokaze", Type::Fairy, 3, 9, 2),
    DUMMY_FM,
    DUMMY_FM,
    DUMMY_FM,
    DUMMY_FM,
    DUMMY_FM,
    ("356", "にどげり", "nidogeri", Type::Fighting, 8, 12, 3),
    ("357", "マジカルリーフ", "majikaruri-fu", Type::Grass, 10, 10, 3),
    DUMMY_FM,
    DUMMY_FM,
    DUMMY_FM,
    DUMMY_FM,
    DUMMY_FM,
    DUMMY_FM,
    DUMMY_FM,
    DUMMY_FM,
    DUMMY_FM,
    DUMMY_FM,
    ("368", "ころがる", "korogaru", Type::Rock, 5, 13, 3),
    DUMMY_FM,
    DUMMY_FM,
    DUMMY_FM,
    DUMMY_FM,
    ("373", "みずしゅりけん", "mizusyurikenn", Type::Water, 6, 14, 3),
    DUMMY_FM,
    DUMMY_FM,
    DUMMY_FM,
    DUMMY_FM,
    DUMMY_FM,
    DUMMY_FM,
    DUMMY_FM,
    DUMMY_FM,
    DUMMY_FM,
    DUMMY_FM,
    DUMMY_FM,
    ("385", "このは", "konoha", Type::Grass, 6, 7, 2),
    DUMMY_FM,
    ("387", "ジオコントロール", "jiokontoro-ru", Type::Fairy, 4, 13, 3),
];

pub const NUM_CHARGE_MOVES: usize = 394;

/// The placeholder among the charge moves.
pub const DUMMY_CM: ChargeMoveRow = (
    "000",
    "dummy charge move",
    "",
    Type::Normal,
    0,
    0,
    false,
    (0, 0, 0, 0),
    0,
);

/// The catalog of charge moves.
pub const CHARGE_MOVES: [ChargeMoveRow; 394] = [
    DUMMY_CM,
    DUMMY_CM,
    DUMMY_CM,
    DUMMY_CM,
    DUMMY_CM,
    DUMMY_CM,
    DUMMY_CM,
    DUMMY_CM,
    DUMMY_CM,
    DUMMY_CM,
    DUMMY_CM,
    DUMMY_CM,
    DUMMY_CM,
    ("013", "まきつく", "makituku", Type::Normal, 60, 45, false, (0, 0, 0, 0), 0),
    ("014", "はかいこうせん", "hakaikousenn", Type::Normal, 150, 80, false, (0, 0, 0, 0), 0),
    DUMMY_CM,
    ("016", "あくのはどう", "akunohadou", Type::Dark, 80, 50, false, (0, 0, 0, 0), 0),
    DUMMY_CM,
    ("018", "ヘドロこうげき", "hedorokougeki", Type::Poison, 50, 40, false, (0, 0, 0, 0), 0),
    DUMMY_CM,
    ("020", "はさむ", "hasamu", Type::Normal, 40, 40, false, (0, 0, 0, 0), 0),
    ("021", "かえんぐるま", "kaenguruma", Type::Flare, 60, 55, false, (0, 0, 0, 0), 0),
    ("022", "メガホーン", "megaho-nn", Type::Bug, 110, 55, false, (0, 0, 0, 0), 0),
    DUMMY_CM,
    ("024", "かえんほうしゃ", "kaenhousya", Type::Flare, 90, 55, false, (0, 0, 0, 0), 0),
    DUMMY_CM,
    ("026", "あなをほる", "anawohoru", Type::Ground, 80, 50, false, (0, 0, 0, 0), 0),
    DUMMY_CM,
    ("028", "クロスチョップ", "kurosutyoppu", Type::Fighting, 50, 35, false, (0, 0, 0, 0), 0),
    DUMMY_CM,
    ("030", "サイケこうせん", "saikekousenn", Type::Psychic, 70, 60, false, (0, 0, 0, 0), 0),
    ("031", "じしん", "jisinn", Type::Ground, 110, 65, false, (0, 0, 0, 0), 0),
    ("032", "ストーンエッジ", "suto-nnejji", Type::Rock, 100, 55, false, (0, 0, 0, 0), 0),
    ("033", "れいとうパンチ", "reitoupanti", Type::Ice, 55, 40, false, (0, 0, 0, 0), 0),
    ("034", "ハートスタンプ", "ha-tosutanpu", Type::Psychic, 40, 40, false, (0, 0, 0, 0), 0),
    ("035", "ほうでん", "houdenn", Type::Electric, 65, 45, false, (0, 0, 0, 0), 0),
    ("036", "ラスターカノン", "rasuta-kanonn", Type::Steel, 110, 70, false, (0, 0, 0, 0), 0),
    DUMMY_CM,
    ("038", "ドリルくちばし", "dorirukutibasi", Type::Flying, 65, 40, false, (0, 0, 0, 0), 0),
    ("039", "れいとうビーム", "reitoubi-mu", Type::Ice, 90, 55, false, (0, 0, 0, 0), 0),
    ("040", "ふぶき", "fubuki", Type::Ice, 140, 75, false, (0, 0, 0, 0), 0),
    DUMMY_CM,
    ("042", "ねっぷう", "neppuu", Type::Flare, 95, 75, false, (0, 0, 0, 0), 0),
    DUMMY_CM,
    DUMMY_CM,
    ("045", "つばめがえし", "tubamegaesi", Type::Flying, 55, 40, false, (0, 0, 0, 0), 0),
    ("046", "ドリルライナー", "doriruraina-", Type::Ground, 80, 45, false, (0, 0, 0, 0), 0),
    ("047", "はなふぶき", "hanafubuki", Type::Grass, 110, 65, false, (0, 0, 0, 0), 0),
    ("048", "メガドレイン", "megadoreinn", Type::Grass, 25, 55, false, (0, 0, 0, 0), 0),
    ("049", "むしのさざめき", "musinosazameki", Type::Bug, 100, 60, true, (0, 0, 0, -1), 300),
    ("050", "どくどくのキバ", "dokudokunokiba", Type::Poison, 45, 40, true, (0, 0, 0, -1), 1000),
    ("051", "つじぎり", "tujigiri", Type::Dark, 50, 35, true, (2, 0, 0, 0), 125),
    DUMMY_CM,
    ("053", "バブルこうせん", "baburukousenn", Type::Water, 25, 40, true, (0, 0, -1, 0), 1000),
    ("054", "じごくぐるま", "jigokuguruma", Type::Fighting, 60, 50, false, (0, 0, 0, 0), 0),
    DUMMY_CM,
    ("056", "ローキック", "ro-kikku", Type::Fighting, 40, 40, false, (0, 0, 0, 0), 0),
    ("057", "アクアジェット", "akuajetto", Type::Water, 45, 45, false, (0, 0, 0, 0), 0),
    ("058", "アクアテール", "akuate-ru", Type::Water, 50, 35, false, (0, 0, 0, 0), 0),
    ("059", "タネばくだん", "tanebakudann", Type::Grass, 60, 45, false, (0, 0, 0, 0), 0),
    ("060", "サイコショック", "saikosyokku", Type::Psychic, 70, 45, false, (0, 0, 0, 0), 0),
    DUMMY_CM,
    ("062", "げんしのちから", "gensinotikara", Type::Rock, 60, 45, true, (1, 1, 0, 0), 100),
    ("063", "がんせきふうじ", "gansekifuuji", Type::Rock, 70, 60, true, (0, 0, -1, 0), 1000),
    ("064", "いわなだれ", "iwanadare", Type::Rock, 75, 45, false, (0, 0, 0, 0), 0),
    ("065", "パワージェム", "pawa-jemu", Type::Rock, 80, 60, false, (0, 0, 0, 0), 0),
    ("066", "かげうち", "kageuti", Type::Spectre, 50, 45, false, (0, 0, 0, 0), 0),
    ("067", "シャドーパンチ", "syado-panti", Type::Spectre, 40, 35, false, (0, 0, 0, 0), 0),
    DUMMY_CM,
    ("069", "あやしいかぜ", "ayasiikaze", Type::Spectre, 45, 45, true, (1, 1, 0, 0), 100),
    ("070", "シャドーボール", "syado-bo-ru", Type::Spectre, 100, 55, false, (0, 0, 0, 0), 0),
    DUMMY_CM,
    ("072", "マグネットボム", "magunettobomu", Type::Steel, 70, 45, false, (0, 0, 0, 0), 0),
    DUMMY_CM,
    ("074", "アイアンヘッド", "aianheddo", Type::Steel, 70, 50, false, (0, 0, 0, 0), 0),
    ("075", "パラボラチャージ", "paraboratya-ji", Type::Electric, 65, 55, false, (0, 0, 0, 0), 0),
    DUMMY_CM,
    ("077", "かみなりパンチ", "kaminaripanti", Type::Electric, 55, 40, false, (0, 0, 0, 0), 0),
    ("078", "かみなり", "kaminari", Type::Electric, 100, 60, false, (0, 0, 0, 0), 0),
    ("079", "10まんボルト", "10manboruto", Type::Electric, 90, 55, false, (0, 0, 0, 0), 0),
    ("080", "たつまき", "tatumaki", Type::Dragon, 45, 45, false, (0, 0, 0, 0), 0),
    DUMMY_CM,
    ("082", "りゅうのはどう", "ryuunohadou", Type::Dragon, 90, 60, false, (0, 0, 0, 0), 0),
    ("083", "ドラゴンクロー", "doragonkuro-", Type::Dragon, 50, 35, false, (0, 0, 0, 0), 0),
    ("084", "チャームボイス", "tya-muboisu", Type::Fairy, 70, 45, false, (0, 0, 0, 0), 0),
    ("085", "ドレインキッス", "doreinnkissu", Type::Fairy, 60, 55, false, (0, 0, 0, 0), 0),
    ("086", "マジカルシャイン", "majikarusyainn", Type::Fairy, 110, 70, false, (0, 0, 0, 0), 0),
    ("087", "ムーンフォース", "mu-nfo-su", Type::Fairy, 110, 60, true, (0, 0, -1, 0), 100),
    ("088", "じゃれつく", "jaretuku", Type::Fairy, 90, 60, false, (0, 0, 0, 0), 0),
    ("089", "クロスポイズン", "kurosupoizunn", Type::Poison, 50, 35, true, (2, 0, 0, 0), 125),
    ("090", "ヘドロばくだん", "hedorobakudann", Type::Poison, 80, 50, false, (0, 0, 0, 0), 0),
    ("091", "ヘドロウェーブ", "hedorowe-bu", Type::Poison, 110, 65, false, (0, 0, 0, 0), 0),
    ("092", "ダストシュート", "dasutosyu-to", Type::Poison, 130, 75, false, (0, 0, 0, 0), 0),
    DUMMY_CM,
    ("094", "ホネこんぼう", "honekonbou", Type::Ground, 40, 35, false, (0, 0, 0, 0), 0),
    ("095", "じならし", "jinarasi", Type::Ground, 80, 60, false, (0, 0, 0, 0), 0),
    ("096", "どろばくだん", "dorobakudann", Type::Ground, 60, 40, false, (0, 0, 0, 0), 0),
    DUMMY_CM,
    DUMMY_CM,
    ("099", "シグナルビーム", "sigunarubi-mu", Type::Bug, 75, 55, true, (0, 0, -1, -1), 200),
    ("100", "シザークロス", "siza-kurosu", Type::Bug, 65, 40, false, (0, 0, 0, 0), 0),
    ("101", "ニトロチャージ", "nitorotya-ji", Type::Flare, 65, 50, true, (1, 0, 0, 0), 1000),
    ("102", "はじけるほのお", "hajikeruhonoo", Type::Flare, 70, 55, false, (0, 0, 0, 0), 0),
    ("103", "だいもんじ", "daimonji", Type::Flare, 140, 80, false, (0, 0, 0, 0), 0),
    ("104", "しおみず", "siomizu", Type::Water, 60, 50, false, (0, 0, 0, 0), 0),
    ("105", "みずのはどう", "mizunohadou", Type::Water, 70, 60, false, (0, 0, 0, 0), 0),
    ("106", "ねっとう", "nettou", Type::Water, 80, 50, true, (0, 0, 0, -1), 300),
    ("107", "ハイドロポンプ", "haidoroponpu", Type::Water, 130, 75, false, (0, 0, 0, 0), 0),
    ("108", "サイコキネシス", "saikokinesisu", Type::Psychic, 85, 55, true, (0, 0, 0, -1), 100),
    ("109", "サイコブレイク", "saikobureiku", Type::Psychic, 90, 45, false, (0, 0, 0, 0), 0),
    DUMMY_CM,
    ("111", "こごえるかぜ", "kogoerukaze", Type::Ice, 60, 45, true, (0, 0, -1, 0), 1000),
    DUMMY_CM,
    DUMMY_CM,
    ("114", "ギガドレイン", "gigadoreinn", Type::Grass, 50, 80, false, (0, 0, 0, 0), 0),
    ("115", "ほのおのパンチ", "honoonopannti", Type::Flare, 55, 40, false, (0, 0, 0, 0), 0),
    ("116", "ソーラービーム", "so-ra-bi-mu", Type::Grass, 150, 80, false, (0, 0, 0, 0), 0),
    ("117", "リーフブレード", "ri-fubure-do", Type::Grass, 70, 35, false, (0, 0, 0, 0), 0),
    ("118", "パワーウィップ", "pawa-whippu", Type::Grass, 90, 50, false, (0, 0, 0, 0), 0),
    DUMMY_CM,
    DUMMY_CM,
    ("121", "エアカッター", "eakatta-", Type::Flying, 60, 55, false, (0, 0, 0, 0), 0),
    ("122", "ぼうふう", "boufuu", Type::Flying, 110, 65, false, (0, 0, 0, 0), 0),
    ("123", "かわらわり", "kawarawari", Type::Fighting, 40, 35, false, (0, 0, 0, 0), 0),
    DUMMY_CM,
    ("125", "スピードスター", "supi-dosuta-", Type::Normal, 60, 55, false, (0, 0, 0, 0), 0),
    ("126", "つのでつく", "tunodetuku", Type::Normal, 40, 35, false, (0, 0, 0, 0), 0),
    ("127", "ふみつけ", "fumituke", Type::Normal, 55, 40, false, (0, 0, 0, 0), 0),
    DUMMY_CM,
    ("129", "ひっさつまえば", "hissatumaeba", Type::Normal, 80, 50, false, (0, 0, 0, 0), 0),
    DUMMY_CM,
    ("131", "のしかかり", "nosikakari", Type::Normal, 60, 35, false, (0, 0, 0, 0), 0),
    ("132", "ねむる", "nemuru", Type::Normal, 50, 35, false, (0, 0, 0, 0), 0),
    ("133", "わるあがき", "waruagaki", Type::Normal, 35, 100, false, (0, 0, 0, 0), 0),
    ("134", "ねっとう(カメックス)", "nettoukamekkusu", Type::Water, 50, 80, false, (0, 0, 0, 0), 0),
    ("135", "ハイドロポンプ(カメックス)", "haidoroponpu", Type::Water, 90, 80, false, (0, 0, 0, 0), 0),
    ("136", "まきつく(緑)", "makituku", Type::Normal, 25, 45, false, (0, 0, 0, 0), 0),
    ("137", "まきつく(ピンク)", "makituku", Type::Normal, 25, 45, false, (0, 0, 0, 0), 0),
    DUMMY_CM,
    DUMMY_CM,
    DUMMY_CM,
    DUMMY_CM,
    DUMMY_CM,
    DUMMY_CM,
    DUMMY_CM,
    DUMMY_CM,
    DUMMY_CM,
    DUMMY_CM,
    DUMMY_CM,
    DUMMY_CM,
    DUMMY_CM,
    DUMMY_CM,
    DUMMY_CM,
    DUMMY_CM,
    DUMMY_CM,
    DUMMY_CM,
    DUMMY_CM,
    DUMMY_CM,
    DUMMY_CM,
    DUMMY_CM,
    DUMMY_CM,
    DUMMY_CM,
    DUMMY_CM,
    DUMMY_CM,
    DUMMY_CM,
    DUMMY_CM,
    DUMMY_CM,
    DUMMY_CM,
    DUMMY_CM,
    DUMMY_CM,
    DUMMY_CM,
    DUMMY_CM,
    DUMMY_CM,
    DUMMY_CM,
    DUMMY_CM,
    DUMMY_CM,
    DUMMY_CM,
    DUMMY_CM,
    DUMMY_CM,
    DUMMY_CM,
    DUMMY_CM,
    DUMMY_CM,
    DUMMY_CM,
    DUMMY_CM,
    DUMMY_CM,
    DUMMY_CM,
    DUMMY_CM,
    DUMMY_CM,
    DUMMY_CM,
    DUMMY_CM,
    DUMMY_CM,
    DUMMY_CM,
    DUMMY_CM,
    DUMMY_CM,
    DUMMY_CM,
    DUMMY_CM,
    DUMMY_CM,
    DUMMY_CM,
    DUMMY_CM,
    DUMMY_CM,
    DUMMY_CM,
    DUMMY_CM,
    DUMMY_CM,
    DUMMY_CM,
    DUMMY_CM,
    DUMMY_CM,
    DUMMY_CM,
    DUMMY_CM,
    DUMMY_CM,
    DUMMY_CM,
    DUMMY_CM,
    DUMMY_CM,
    DUMMY_CM,
    DUMMY_CM,
    DUMMY_CM,
    DUMMY_CM,
    DUMMY_CM,
    DUMMY_CM,
    DUMMY_CM,
    DUMMY_CM,
    DUMMY_CM,
    DUMMY_CM,
    DUMMY_CM,
    DUMMY_CM,
    DUMMY_CM,
    DUMMY_CM,
    DUMMY_CM,
    DUMMY_CM,
    DUMMY_CM,
    DUMMY_CM,
    DUMMY_CM,
    DUMMY_CM,
    DUMMY_CM,
    DUMMY_CM,
    DUMMY_CM,
    DUMMY_CM,
    DUMMY_CM,
    DUMMY_CM,
    DUMMY_CM,
    DUMMY_CM,
    DUMMY_CM,
    DUMMY_CM,
    DUMMY_CM,
    DUMMY_CM,
    DUMMY_CM,
    ("245", "インファイト", "infaito", Type::Fighting, 100, 45, true, (0, -2, 0, 0), 1000),
    ("246", "ばくれつパンチ", "bakuretupanti", Type::Fighting, 90, 50, false, (0, 0, 0, 0), 0),
    ("247", "きあいだま", "kiaidama", Type::Fighting, 150, 75, false, (0, 0, 0, 0), 0),
    ("248", "オーロラビーム", "o-rorabi-mu", Type::Ice, 80, 60, false, (0, 0, 0, 0), 0),
    DUMMY_CM,
    DUMMY_CM,
    ("251", "ワイルドボルト", "wairudoboruto", Type::Electric, 100, 45, true, (0, -2, 0, 0), 1000),
    ("252", "でんじほう", "dennjihou", Type::Electric, 150, 80, true, (0, 0, -1, 0), 660),
    DUMMY_CM,
    ("254", "ゆきなだれ", "yukinadare", Type::Ice, 90, 45, false, (0, 0, 0, 0), 0),
    DUMMY_CM,
    ("256", "ブレイブバード", "bureibuba-do", Type::Flying, 130, 55, true, (0, -3, 0, 0), 1000),
    ("257", "ゴッドバード", "goddoba-do", Type::Flying, 75, 50, false, (0, 0, 0, 0), 0),
    ("258", "すなじごく", "sunajigoku", Type::Ground, 25, 40, true, (0, 0, 0, -1), 1000),
    ("259", "ロックブラスト", "rokkuburasuto", Type::Rock, 50, 40, false, (0, 0, 0, 0), 0),
    DUMMY_CM,
    DUMMY_CM,
    ("262", "ぎんいろのかぜ", "ginnironokaze", Type::Bug, 60, 45, true, (1, 1, 0, 0), 100),
    DUMMY_CM,
    DUMMY_CM,
    ("265", "ナイトヘッド", "naitoheddo", Type::Spectre, 60, 55, false, (0, 0, 0, 0), 0),
    DUMMY_CM,
    ("267", "ジャイロボール", "jairobo-ru", Type::Steel, 80, 60, false, (0, 0, 0, 0), 0),
    ("268", "ヘビーボンバー", "hebi-bonba-", Type::Steel, 70, 50, false, (0, 0, 0, 0), 0),
    DUMMY_CM,
    ("270", "オーバーヒート", "o-ba-hi-to", Type::Flare, 130, 55, true, (-2, 0, 0, 0), 1000),
    DUMMY_CM,
    ("272", "くさむすび", "kusamusubi", Type::Grass, 90, 50, false, (0, 0, 0, 0), 0),
    ("273", "エナジーボール", "enaji-bo-ru", Type::Grass, 90, 55, true, (0, 0, 0, -1), 100),
    DUMMY_CM,
    ("275", "みらいよち", "miraiyoti", Type::Psychic, 120, 65, false, (0, 0, 0, 0), 0),
    ("276", "ミラーコート", "mira-ko-to", Type::Psychic, 60, 55, false, (0, 0, 0, 0), 0),
    ("277", "げきりん", "gekirinn", Type::Dragon, 110, 60, false, (0, 0, 0, 0), 0),
    DUMMY_CM,
    ("279", "かみくだく", "kamikudaku", Type::Dark, 70, 45, true, (0, 0, 0, -1), 300),
    ("280", "イカサマ", "ikasama", Type::Dark, 70, 45, false, (0, 0, 0, 0), 0),
    DUMMY_CM,
    DUMMY_CM,
    DUMMY_CM,
    ("284", "なみのり", "naminori", Type::Water, 65, 40, false, (0, 0, 0, 0), 0),
    ("285", "りゅうせいぐん", "ryuuseigunn", Type::Dragon, 150, 65, true, (-2, 0, 0, 0), 1000),
    ("286", "はめつのねがい", "hametunonegai", Type::Steel, 75, 40, false, (0, 0, 0, 0), 0),
    DUMMY_CM,
    ("288", "サイコブースト", "saikobu-suto", Type::Psychic, 70, 35, true, (-2, 0, 0, 0), 1000),
    ("289", "こんげんのはどう", "kongennnohadou", Type::Water, 130, 60, false, (0, 0, 0, 0), 0),
    ("290", "だんがいのつるぎ", "dangainoturugi", Type::Ground, 130, 60, false, (0, 0, 0, 0), 0),
    DUMMY_CM,
    ("292", "ウェザーボール(ほのお)", "weza-bo-ruhonoo", Type::Flare, 55, 35, false, (0, 0, 0, 0), 0),
    ("293", "ウェザーボール(こおり)", "weza-bo-rukoori", Type::Ice, 55, 35, false, (0, 0, 0, 0), 0),
    ("294", "ウェザーボール(いわ)", "weza-bo-ruiwa", Type::Rock, 55, 35, false, (0, 0, 0, 0), 0),
    ("295", "ウェザーボール(みず)", "weza-bo-rumizu", Type::Water, 55, 35, false, (0, 0, 0, 0), 0),
    ("296", "ハードプラント", "ha-dopuranto", Type::Grass, 100, 45, false, (0, 0, 0, 0), 0),
    DUMMY_CM,
    ("298", "ブラストバーン", "burasutoba-nn", Type::Flare, 110, 50, false, (0, 0, 0, 0), 0),
    ("299", "ハイドロカノン", "haidorokanonn", Type::Water, 80, 40, false, (0, 0, 0, 0), 0),
    ("300", "とっておき", "totteoki", Type::Normal, 90, 55, false, (0, 0, 0, 0), 0),
    ("301", "コメットパンチ", "komettopanti", Type::Steel, 100, 50, false, (0, 0, 0, 0), 0),
    ("302", "ロケットずつき", "rokettozutuki", Type::Normal, 130, 75, true, (0, 1, 0, 0), 1000),
    ("303", "アシッドボム", "asiddobomu", Type::Poison, 20, 45, true, (0, 0, 0, -2), 1000),
    ("304", "だいちのちから", "daitinotikara", Type::Ground, 90, 55, true, (0, 0, 0, -1), 100),
    ("305", "クラブハンマー", "kurabuhanma-", Type::Water, 85, 50, true, (2, 0, 0, 0), 125),
    ("306", "とびかかる", "tobikakaru", Type::Bug, 60, 45, true, (0, 0, -1, 0), 1000),
    DUMMY_CM,
    ("308", "オクタンほう", "okutanhou", Type::Water, 50, 50, true, (0, 0, -2, 0), 500),
    ("309", "ミラーショット", "mira-syotto", Type::Steel, 35, 35, true, (0, 0, -1, 0), 300),
    ("310", "ばかぢから", "bakadikara", Type::Fighting, 85, 40, true, (-1, -1, 0, 0), 1000),
    ("311", "とどめばり", "todomebari", Type::Bug, 20, 35, true, (1, 0, 0, 0), 1000),
    ("312", "グラスミキサー", "gurasumikisa-", Type::Grass, 45, 40, true, (0, 0, -2, 0), 500),
    DUMMY_CM,
    ("314", "ドレインパンチ", "doreinpanti", Type::Fighting, 20, 40, true, (0, 1, 0, 0), 1000),
    ("315", "シャドーボーン", "syado-bo-nn", Type::Spectre, 75, 45, true, (0, 0, 0, -1), 200),
    ("316", "だくりゅう", "dakuryuu", Type::Water, 35, 35, true, (0, 0, -1, 0), 300),
    ("317", "ブレイズキック", "bureizukikku", Type::Flare, 55, 40, false, (0, 0, 0, 0), 0),
    ("318", "シェルブレード", "syerubure-do", Type::Water, 35, 35, true, (0, 0, 0, -1), 500),
    ("319", "グロウパンチ", "guroupanti", Type::Fighting, 20, 35, true, (1, 0, 0, 0), 1000),
    DUMMY_CM,
    ("321", "ギガインパクト", "gigainpakuto", Type::Normal, 150, 80, false, (0, 0, 0, 0), 0),
    ("322", "やつあたり", "yatuatari", Type::Normal, 10, 70, false, (0, 0, 0, 0), 0),
    ("323", "おんがえし", "ongaesi", Type::Normal, 130, 70, false, (0, 0, 0, 0), 0),
    ("324", "シンクロノイズ", "sinkuronoizu", Type::Psychic, 80, 50, false, (0, 0, 0, 0), 0),
    DUMMY_CM,
    DUMMY_CM,
    DUMMY_CM,
    DUMMY_CM,
    DUMMY_CM,
    ("330", "せいなるつるぎ", "seinaruturugi", Type::Fighting, 60, 35, false, (0, 0, 0, 0), 0),
    ("331", "フライングプレス", "furaingupuresu", Type::Fighting, 90, 40, false, (0, 0, 0, 0), 0),
    ("332", "はどうだん", "hadoudann", Type::Fighting, 100, 55, false, (0, 0, 0, 0), 0),
    ("333", "しっぺがえし", "sippegaesi", Type::Dark, 110, 60, false, (0, 0, 0, 0), 0),
    ("334", "がんせきほう", "gansekihou", Type::Rock, 110, 50, false, (0, 0, 0, 0), 0),
    ("335", "エアロブラスト", "earoburasuto", Type::Flying, 170, 75, true, (2, 0, 0, 0), 125),
    ("336", "テクノバスター(ノーマル)", "tekunobasuta-no-maru", Type::Normal, 120, 55, false, (0, 0, 0, 0), 0),
    ("337", "テクノバスター(ほのお)", "tekunobasuta-honoo", Type::Flare, 120, 55, false, (0, 0, 0, 0), 0),
    ("338", "テクノバスター(こおり)", "tekunobasuta-koori", Type::Ice, 120, 55, false, (0, 0, 0, 0), 0),
    ("339", "テクノバスター(みず)", "tekunobasuta-mizu", Type::Water, 120, 55, false, (0, 0, 0, 0), 0),
    ("340", "テクノバスター(でんき)", "tekunobasuta-denki", Type::Electric, 120, 55, false, (0, 0, 0, 0), 0),
    ("341", "そらをとぶ", "sorawotobu", Type::Flying, 80, 45, false, (0, 0, 0, 0), 0),
    ("342", "Vジェネレート", "vjenere-to", Type::Flare, 95, 40, true, (0, -3, 0, 0), 1000),
    ("343", "リーフストーム", "ri-fusuto-mu", Type::Grass, 130, 55, true, (-2, 0, 0, 0), 1000),
    ("344", "トライアタック", "toraiatakku", Type::Normal, 65, 50, true, (0, 0, -1, -1), 500),
    DUMMY_CM,
    DUMMY_CM,
    DUMMY_CM,
    ("348", "フェザーダンス", "feza-dansu", Type::Flying, 35, 50, true, (0, 0, -2, 0), 1000),
    DUMMY_CM,
    DUMMY_CM,
    DUMMY_CM,
    ("352", "ウェザーボール(ノーマル)", "weza-bo-runo-maru", Type::Normal, 55, 35, false, (0, 0, 0, 0), 0),
    ("353", "サイコファング", "saikofangu", Type::Psychic, 40, 35, true, (0, 0, 0, -1), 1000),
    DUMMY_CM,
    DUMMY_CM,
    DUMMY_CM,
    DUMMY_CM,
    ("358", "せいなるほのお", "seinaruhonoo", Type::Flare, 130, 65, true, (0, 0, -1, 0), 500),
    ("359", "つららばり", "turarabari", Type::Ice, 65, 40, false, (0, 0, 0, 0), 0),
    ("360", "エアロブラスト+", "earoburasuto+", Type::Flying, 170, 75, true, (2, 0, 0, 0), 125),
    ("361", "エアロブラスト++", "earoburasuto++", Type::Flying, 170, 75, true, (2, 0, 0, 0), 125),
    ("362", "せいなるほのお+", "seinaruhonoo+", Type::Flare, 130, 65, true, (0, 0, -1, 0), 500),
    ("363", "せいなるほのお++", "seinaruhonoo++", Type::Flare, 130, 65, true, (0, 0, -1, 0), 500),
    ("364", "アクロバット", "akurobatto", Type::Flying, 110, 60, false, (0, 0, 0, 0), 0),
    ("365", "ラスターパージ", "rasuta-pa-ji", Type::Psychic, 120, 60, true, (0, 0, 0, -1), 500),
    ("366", "ミストボール", "misutobo-ru", Type::Psychic, 120, 60, true, (0, 0, -1, 0), 500),
    ("367", "ぶんまわす", "bunmawasu", Type::Dark, 65, 40, false, (0, 0, 0, 0), 0),
    DUMMY_CM,
    ("369", "シードフレア", "si-dofurea", Type::Grass, 130, 75, true, (0, 0, 0, -2), 400),
    ("370", "ブロッキング", "burokkingu", Type::Dark, 15, 40, true, (0, 1, 0, -1), 1000),
    ("371", "シャドーダイブ", "syado-daibu", Type::Spectre, 120, 90, false, (0, 0, 0, 0), 0),
    ("372", "メテオビーム", "meteobi-mu", Type::Rock, 120, 60, true, (1, 0, 0, 0), 1000),
    DUMMY_CM,
    ("374", "クロスサンダー", "kurosusanda-", Type::Electric, 90, 45, false, (0, 0, 0, 0), 0),
    ("375", "クロスフレイム", "kurosufureimu", Type::Flare, 90, 45, false, (0, 0, 0, 0), 0),
    ("376", "ポルターガイスト", "poruta-gaisuto", Type::Spectre, 150, 75, false, (0, 0, 0, 0), 0),
    ("377", "10まんばりき", "10manbariki", Type::Ground, 100, 60, false, (0, 0, 0, 0), 0),
    ("378", "こごえるせかい", "kogoerusekai", Type::Ice, 60, 40, true, (0, 0, -1, 0), 1000),
    ("379", "ワイドブレイカー", "waidobureika-", Type::Dragon, 50, 35, true, (0, 0, -1, 0), 1000),
    ("380", "ばくおんぱ", "bakuonpa", Type::Normal, 150, 70, false, (0, 0, 0, 0), 0),
    ("381", "ダブルパンツァー", "daburupantula-", Type::Steel, 50, 35, false, (0, 0, 0, 0), 0),
    ("382", "マジカルフレイム", "majikarufureimu", Type::Flare, 60, 45, true, (0, 0, -1, 0), 1000),
    ("383", "アクアブレイク", "akuabureiku", Type::Water, 70, 45, true, (0, 0, 0, -1), 300),
    ("384", "ガリョウテンセイ", "garyoutensei", Type::Flying, 150, 70, true, (0, -1, 0, 0), 1000),
    DUMMY_CM,
    ("386", "マグマストーム", "magumasuto-mu", Type::Flare, 65, 40, false, (0, 0, 0, 0), 0),
    DUMMY_CM,
    DUMMY_CM,
    ("389", "デスウイング", "desuuingu", Type::Flying, 85, 50, false, (0, 0, 0, 0), 0),
    DUMMY_CM,
    ("391", "トリプルアクセル", "toripuruakuseru", Type::Ice, 60, 45, true, (1, 0, 0, 0), 1000),
    ("392", "くさわけ", "kusawake", Type::Grass, 65, 50, true, (1, 0, 0, 0), 1000),
    ("393", "ねっさのだいち", "nessanodaiti", Type::Ground, 80, 50, true, (0, 0, -1, 0), 300),
];

} // verus!
