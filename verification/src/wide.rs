//! Natural numbers of any size, as far as the index formulas need them:
//! products of 64-bit factors, and their comparison.

use vstd::prelude::*;

verus! {

/// A natural number held as 64-bit limbs, the least significant first.
pub struct Wide {
    pub limbs: Vec<u64>,
}

/// The weight of limb `i`: `2^(64 i)`.
pub open spec fn weight(i: nat) -> int
    decreases i,
{
    if i == 0 {
        1
    } else {
        0x1_0000_0000_0000_0000 * weight((i - 1) as nat)
    }
}

/// Limb `i` of `s`, or zero beyond its end.
pub open spec fn digit(s: Seq<u64>, i: int) -> int {
    if 0 <= i < s.len() {
        s[i] as int
    } else {
        0
    }
}

/// The number that the lowest `n` limbs of `s` stand for.
pub open spec fn value_upto(s: Seq<u64>, n: nat) -> int
    decreases n,
{
    if n == 0 {
        0
    } else {
        value_upto(s, (n - 1) as nat) + digit(s, n - 1) * weight((n - 1) as nat)
    }
}

/// The product of the numbers in `s`; 1 for the empty sequence.
pub open spec fn seq_product(s: Seq<u64>) -> int
    decreases s.len(),
{
    if s.len() == 0 {
        1
    } else {
        seq_product(s.drop_last()) * s.last()
    }
}

/// `b` multiplied by itself `e` times.
pub open spec fn power(b: int, e: nat) -> int
    decreases e,
{
    if e == 0 {
        1
    } else {
        power(b, (e - 1) as nat) * b
    }
}

pub proof fn lemma_weight_positive(i: nat)
    ensures
        weight(i) >= 1,
    decreases i,
{
    if i > 0 {
        lemma_weight_positive((i - 1) as nat);
        assert(0x1_0000_0000_0000_0000 * weight((i - 1) as nat) >= 1) by (nonlinear_arith)
            requires
                weight((i - 1) as nat) >= 1,
        ;
    }
}

/// The lowest `n` limbs stand for a number below the weight of limb `n`.
pub proof fn lemma_value_bound(s: Seq<u64>, n: nat)
    ensures
        0 <= value_upto(s, n) < weight(n),
    decreases n,
{
    if n > 0 {
        let m = (n - 1) as nat;
        lemma_value_bound(s, m);
        lemma_weight_positive(m);
        let d = digit(s, m as int);
        let w = weight(m);
        assert(0 <= d * w && d * w + w <= 0x1_0000_0000_0000_0000 * w) by (nonlinear_arith)
            requires
                0 <= d <= 0xFFFF_FFFF_FFFF_FFFF,
                w >= 1,
        ;
    }
}

/// What the lowest `n` limbs stand for depends on those limbs alone.
pub proof fn lemma_value_frame(s: Seq<u64>, t: Seq<u64>, n: nat)
    requires
        forall|j: int| 0 <= j < n ==> digit(s, j) == digit(t, j),
    ensures
        value_upto(s, n) == value_upto(t, n),
    decreases n,
{
    if n > 0 {
        lemma_value_frame(s, t, (n - 1) as nat);
    }
}

/// Limbs beyond the end add nothing.
pub proof fn lemma_value_padding(s: Seq<u64>, n: nat)
    requires
        n >= s.len(),
    ensures
        value_upto(s, n) == value_upto(s, s.len()),
    decreases n,
{
    if n > s.len() {
        lemma_value_padding(s, (n - 1) as nat);
        assert(digit(s, n - 1) * weight((n - 1) as nat) == 0) by (nonlinear_arith)
            requires
                digit(s, n - 1) == 0,
        ;
    }
}

/// One limb times a factor, plus a carry, fits in 128 bits.
pub proof fn lemma_limb_product_fits(x: u64, m: u64, c: u64)
    ensures
        0 <= x * m + c <= 0xFFFF_FFFF_FFFF_FFFF_0000_0000_0000_0000,
{
    assert(0 <= x * m <= 0xFFFF_FFFF_FFFF_FFFF * 0xFFFF_FFFF_FFFF_FFFF) by (nonlinear_arith)
        requires
            0 <= x <= 0xFFFF_FFFF_FFFF_FFFF,
            0 <= m <= 0xFFFF_FFFF_FFFF_FFFF,
    ;
}

/// Powers grow with their base.
pub proof fn lemma_power_monotone(a: int, b: int, e: nat)
    requires
        0 <= a <= b,
    ensures
        0 <= power(a, e) <= power(b, e),
    decreases e,
{
    if e > 0 {
        lemma_power_monotone(a, b, (e - 1) as nat);
        let x = power(a, (e - 1) as nat);
        let y = power(b, (e - 1) as nat);
        assert(0 <= x * a <= y * b) by (nonlinear_arith)
            requires
                0 <= x <= y,
                0 <= a <= b,
        ;
    }
}

pub proof fn lemma_seq_product_nonneg(s: Seq<u64>)
    ensures
        seq_product(s) >= 0,
    decreases s.len(),
{
    if s.len() > 0 {
        lemma_seq_product_nonneg(s.drop_last());
        assert(seq_product(s.drop_last()) * s.last() >= 0) by (nonlinear_arith)
            requires
                seq_product(s.drop_last()) >= 0,
                s.last() >= 0,
        ;
    }
}

impl View for Wide {
    type V = int;

    /// The number that the limbs stand for.
    open spec fn view(&self) -> int {
        value_upto(self.limbs@, self.limbs@.len())
    }
}

impl Wide {
    pub fn from_u64(x: u64) -> (r: Wide)
        ensures
            r@ == x,
    {
        let mut limbs: Vec<u64> = Vec::new();
        limbs.push(x);
        proof {
            assert(value_upto(limbs@, 0) == 0);
            assert(weight(0) == 1);
            assert(digit(limbs@, 0) == x);
            assert(value_upto(limbs@, 1) == value_upto(limbs@, 0) + digit(limbs@, 0) * weight(0));
        }
        Wide { limbs }
    }

    /// Multiplies the number by `m`.
    pub fn mul_u64(&mut self, m: u64)
        ensures
            final(self)@ == old(self)@ * m,
    {
        let n = self.limbs.len();
        let mut carry: u64 = 0;
        let mut i: usize = 0;
        while i < n
            invariant
                i <= n,
                n == self.limbs.len(),
                n == old(self).limbs.len(),
                forall|j: int| i <= j < n ==> self.limbs@[j] == old(self).limbs@[j],
                value_upto(self.limbs@, i as nat) + carry * weight(i as nat) == value_upto(
                    old(self).limbs@,
                    i as nat,
                ) * m,
            decreases n - i,
        {
            let x: u64 = self.limbs[i];
            proof {
                lemma_limb_product_fits(x, m, carry);
            }
            let p: u128 = (x as u128) * (m as u128) + (carry as u128);
            let lo: u64 = (p % 0x1_0000_0000_0000_0000u128) as u64;
            let hi: u64 = (p / 0x1_0000_0000_0000_0000u128) as u64;
            let ghost before = self.limbs@;
            self.limbs.set(i, lo);
            proof {
                let w = weight(i as nat);
                let v_old = value_upto(old(self).limbs@, i as nat);
                let v_new = value_upto(before, i as nat);
                lemma_value_frame(before, self.limbs@, i as nat);
                assert(digit(self.limbs@, i as int) == lo);
                assert(digit(old(self).limbs@, i as int) == x);
                assert(weight((i + 1) as nat) == 0x1_0000_0000_0000_0000 * w);
                assert(v_new + lo * w + hi * (0x1_0000_0000_0000_0000 * w) == (v_old + x * w) * m)
                    by (nonlinear_arith)
                    requires
                        v_new + carry * w == v_old * m,
                        x * m + carry == hi * 0x1_0000_0000_0000_0000 + lo,
                ;
            }
            carry = hi;
            i += 1;
        }
        let ghost before = self.limbs@;
        self.limbs.push(carry);
        proof {
            lemma_value_frame(before, self.limbs@, n as nat);
            assert(digit(self.limbs@, n as int) == carry);
        }
    }

    /// Whether this number is at most `other`.
    pub fn le(&self, other: &Wide) -> (r: bool)
        ensures
            r == (self@ <= other@),
    {
        let na = self.limbs.len();
        let nb = other.limbs.len();
        let n = if na < nb {
            nb
        } else {
            na
        };
        let mut below = true;
        let mut i: usize = 0;
        while i < n
            invariant
                i <= n,
                na == self.limbs.len(),
                nb == other.limbs.len(),
                na <= n,
                nb <= n,
                below == (value_upto(self.limbs@, i as nat) <= value_upto(other.limbs@, i as nat)),
            decreases n - i,
        {
            let x: u64 = if i < na {
                self.limbs[i]
            } else {
                0
            };
            let y: u64 = if i < nb {
                other.limbs[i]
            } else {
                0
            };
            proof {
                let w = weight(i as nat);
                let va = value_upto(self.limbs@, i as nat);
                let vb = value_upto(other.limbs@, i as nat);
                lemma_value_bound(self.limbs@, i as nat);
                lemma_value_bound(other.limbs@, i as nat);
                assert(x == digit(self.limbs@, i as int));
                assert(y == digit(other.limbs@, i as int));
                if x < y {
                    assert(va + x * w <= vb + y * w) by (nonlinear_arith)
                        requires
                            0 <= va < w,
                            0 <= vb,
                            0 <= x < y,
                    ;
                } else if x > y {
                    assert(va + x * w > vb + y * w) by (nonlinear_arith)
                        requires
                            0 <= vb < w,
                            0 <= va,
                            0 <= y < x,
                    ;
                }
            }
            if x < y {
                below = true;
            } else if x > y {
                below = false;
            }
            i += 1;
        }
        proof {
            lemma_value_padding(self.limbs@, n as nat);
            lemma_value_padding(other.limbs@, n as nat);
        }
        below
    }
}

/// The product of the given factors.
pub fn product(factors: &[u64]) -> (r: Wide)
    ensures
        r@ == seq_product(factors@),
{
    let mut r = Wide::from_u64(1);
    let mut i: usize = 0;
    while i < factors.len()
        invariant
            i <= factors.len(),
            r@ == seq_product(factors@.take(i as int)),
        decreases factors.len() - i,
    {
        proof {
            assert(factors@.take(i as int + 1).drop_last() =~= factors@.take(i as int));
        }
        r.mul_u64(factors[i]);
        i += 1;
    }
    proof {
        assert(factors@.take(i as int) =~= factors@);
    }
    r
}

/// The largest value that an index or a damage can take.
pub const INDEX_MAX: u64 = 0x7FFF_FFFF;

/// `k` is the largest number up to `INDEX_MAX` with `k^e * d <= n`.
pub open spec fn is_floor_root(k: int, n: int, d: int, e: nat) -> bool {
    &&& 0 <= k <= INDEX_MAX
    &&& power(k, e) * d <= n
    &&& (k == INDEX_MAX || power(k + 1, e) * d > n)
}

/// The `e`-th root of `n / d`, rounded down and held to `INDEX_MAX`: the
/// largest `k` up to `INDEX_MAX` with `k^e * d <= n`.
pub open spec fn floor_root(n: int, d: int, e: nat) -> int {
    choose|k: int| is_floor_root(k, n, d, e)
}

/// `k^e * d <= n` passes from a number to every smaller one.
pub proof fn lemma_root_downward(j: int, k: int, n: int, d: int, e: nat)
    requires
        0 <= j <= k,
        d >= 0,
        power(k, e) * d <= n,
    ensures
        power(j, e) * d <= n,
{
    lemma_power_monotone(j, k, e);
    assert(power(j, e) * d <= power(k, e) * d) by (nonlinear_arith)
        requires
            power(j, e) <= power(k, e),
            d >= 0,
    ;
}

/// A number that meets `is_floor_root` is the floor root.
pub proof fn lemma_floor_root_is(k: int, n: int, d: int, e: nat)
    requires
        d >= 0,
        is_floor_root(k, n, d, e),
    ensures
        floor_root(n, d, e) == k,
{
    let c = floor_root(n, d, e);
    assert(is_floor_root(c, n, d, e));
    if c < k {
        lemma_root_downward(c + 1, k, n, d, e);
    } else if k < c {
        lemma_root_downward(k + 1, c, n, d, e);
    }
}

/// With exponent 1 the floor root is the quotient, held to `INDEX_MAX`.
pub proof fn lemma_floor_root_quotient(n: int, d: int)
    requires
        n >= 0,
        d > 0,
    ensures
        floor_root(n, d, 1) == if n / d <= INDEX_MAX {
            n / d
        } else {
            INDEX_MAX as int
        },
{
    let q = n / d;
    let k = if q <= INDEX_MAX {
        q
    } else {
        INDEX_MAX as int
    };
    vstd::arithmetic::div_mod::lemma_fundamental_div_mod(n, d);
    vstd::arithmetic::div_mod::lemma_div_pos_is_pos(n, d);
    assert(power(k, 1) == k) by {
        assert(power(k, 0) == 1);
        assert(power(k, 1) == power(k, 0) * k);
    }
    assert(power(k + 1, 1) == k + 1) by {
        assert(power(k + 1, 0) == 1);
        assert(power(k + 1, 1) == power(k + 1, 0) * (k + 1));
    }
    assert(k * d <= n) by (nonlinear_arith)
        requires
            0 <= k <= q,
            d > 0,
            n == d * q + n % d,
            0 <= n % d,
    ;
    if k == q {
        assert((k + 1) * d > n) by (nonlinear_arith)
            requires
                k == q,
                n == d * q + n % d,
                n % d < d,
        ;
    }
    lemma_floor_root_is(k, n, d, 1);
}

/// From a number that meets `k^e * d <= n`, some number is the floor root.
pub proof fn lemma_floor_root_from(j: int, n: int, d: int, e: nat)
    requires
        0 <= j <= INDEX_MAX,
        power(j, e) * d <= n,
    ensures
        exists|k: int| is_floor_root(k, n, d, e),
    decreases INDEX_MAX - j,
{
    if j == INDEX_MAX {
        assert(is_floor_root(j, n, d, e));
    } else if power(j + 1, e) * d <= n {
        lemma_floor_root_from(j + 1, n, d, e);
    } else {
        assert(is_floor_root(j, n, d, e));
    }
}

/// The floor root exists for a positive exponent.
pub proof fn lemma_floor_root_exists(n: int, d: int, e: nat)
    requires
        n >= 0,
        e >= 1,
    ensures
        is_floor_root(floor_root(n, d, e), n, d, e),
{
    assert(power(0, e) == power(0, (e - 1) as nat) * 0);
    assert(power(0, e) * d == 0) by (nonlinear_arith)
        requires
            power(0, e) == 0,
    ;
    lemma_floor_root_from(0, n, d, e);
}

/// The floor root is at least `k` exactly where `k^e * d <= n`.
pub proof fn lemma_floor_root_at_least(k: int, n: int, d: int, e: nat)
    requires
        n >= 0,
        d >= 0,
        e >= 1,
        0 <= k <= INDEX_MAX,
    ensures
        (floor_root(n, d, e) >= k) == (power(k, e) * d <= n),
{
    let r = floor_root(n, d, e);
    lemma_floor_root_exists(n, d, e);
    if power(k, e) * d <= n {
        if r < k {
            lemma_root_downward(r + 1, k, n, d, e);
        }
    } else {
        if r >= k {
            lemma_root_downward(k, r, n, d, e);
        }
    }
}

/// The product of a sequence grows by its next member.
pub proof fn lemma_product_step(s: Seq<u64>, n: int)
    requires
        0 <= n < s.len(),
    ensures
        seq_product(s.take(n + 1)) == seq_product(s.take(n)) * s[n],
{
    assert(s.take(n + 1).drop_last() =~= s.take(n));
}

/// Whether `k^e` times the product of `den` is at most the product of `num`.
pub fn root_at_least(num: &[u64], den: &[u64], e: u32, k: u64) -> (r: bool)
    ensures
        r == (power(k as int, e as nat) * seq_product(den@) <= seq_product(num@)),
{
    let n = product(num);
    let mut lhs = product(den);
    let mut j: u32 = 0;
    while j < e
        invariant
            j <= e,
            lhs@ == power(k as int, j as nat) * seq_product(den@),
        decreases e - j,
    {
        proof {
            let a = power(k as int, j as nat);
            let d = seq_product(den@);
            assert(power(k as int, (j + 1) as nat) == a * k);
            assert((a * d) * k == (a * k) * d) by (nonlinear_arith);
        }
        lhs.mul_u64(k);
        j += 1;
    }
    lhs.le(&n)
}

/// The `e`-th root of the quotient of two products, rounded down and held
/// to `INDEX_MAX`.
pub fn floor_root_of(num: &[u64], den: &[u64], e: u32) -> (r: u64)
    requires
        e >= 1,
    ensures
        r == floor_root(seq_product(num@), seq_product(den@), e as nat),
        is_floor_root(r as int, seq_product(num@), seq_product(den@), e as nat),
        r <= INDEX_MAX,
{
    let ghost n = seq_product(num@);
    let ghost d = seq_product(den@);
    proof {
        lemma_seq_product_nonneg(num@);
        lemma_seq_product_nonneg(den@);
        assert(power(0, e as nat) == power(0, (e - 1) as nat) * 0);
        assert(power(0, e as nat) * d == 0) by (nonlinear_arith)
            requires
                power(0, e as nat) == 0,
        ;
    }
    let mut lo: u64 = 0;
    let mut hi: u64 = 0x8000_0000;
    while hi - lo > 1
        invariant
            0 <= lo < hi <= 0x8000_0000,
            n == seq_product(num@),
            d == seq_product(den@),
            power(lo as int, e as nat) * d <= n,
            hi == 0x8000_0000 || power(hi as int, e as nat) * d > n,
        decreases hi - lo,
    {
        let mid: u64 = lo + (hi - lo) / 2;
        if root_at_least(num, den, e, mid) {
            lo = mid;
        } else {
            hi = mid;
        }
    }
    proof {
        lemma_floor_root_is(lo as int, n, d, e as nat);
    }
    lo
}

} // verus!
