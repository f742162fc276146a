//! Natural numbers of any size.
use vstd::arithmetic::power2::{lemma2_to64, lemma_pow2_pos, lemma_pow2_unfold, pow2};
use vstd::prelude::*;

verus! {

/// How many numbers a limb can hold.
pub const LIMB_BASE: u64 = 0x1_0000_0000;

/// What one more in a limb is worth.
spec fn weight(i: nat) -> nat
    decreases i,
{
    if i == 0 {
        1
    } else {
        0x1_0000_0000 * weight((i - 1) as nat)
    }
}

spec fn limb_at(limbs: Seq<u32>, i: int) -> nat {
    if 0 <= i < limbs.len() {
        limbs[i] as nat
    } else {
        0
    }
}

/// What the first few limbs are worth.
spec fn worth(limbs: Seq<u32>, n: nat) -> nat
    decreases n,
{
    if n == 0 {
        0
    } else {
        worth(limbs, (n - 1) as nat) + limb_at(limbs, n - 1) * weight((n - 1) as nat)
    }
}

/// A natural number, as limbs of which the first is worth least.
#[derive(Debug)]
pub struct Natural {
    limbs: Vec<u32>,
}

impl View for Natural {
    type V = nat;

    closed spec fn view(&self) -> nat {
        worth(self.limbs@, self.limbs@.len())
    }
}

proof fn lemma_weight_positive(i: nat)
    ensures
        weight(i) >= 1,
    decreases i,
{
    if i > 0 {
        lemma_weight_positive((i - 1) as nat);
    }
}

proof fn lemma_worth_is_bounded(limbs: Seq<u32>, n: nat)
    ensures
        worth(limbs, n) < weight(n),
    decreases n,
{
    if n > 0 {
        lemma_worth_is_bounded(limbs, (n - 1) as nat);
        let w = weight((n - 1) as nat);
        let x = limb_at(limbs, n - 1);
        assert(x * w <= 0xFFFF_FFFF * w) by (nonlinear_arith)
            requires
                x <= 0xFFFF_FFFF,
        ;
    }
}

/// Beyond the last limb there is nothing.
proof fn lemma_worth_of_more(limbs: Seq<u32>, n: nat)
    requires
        n >= limbs.len(),
    ensures
        worth(limbs, n) == worth(limbs, limbs.len()),
    decreases n,
{
    if n > limbs.len() {
        lemma_worth_of_more(limbs, (n - 1) as nat);
        assert(0 * weight((n - 1) as nat) == 0);
    }
}

/// What limbs are worth does not rest on those that come after.
proof fn lemma_worth_of_part(a: Seq<u32>, b: Seq<u32>, n: nat)
    requires
        forall|i: int| 0 <= i < n ==> limb_at(a, i) == limb_at(b, i),
    ensures
        worth(a, n) == worth(b, n),
    decreases n,
{
    if n > 0 {
        lemma_worth_of_part(a, b, (n - 1) as nat);
    }
}

proof fn lemma_worth_of_push(limbs: Seq<u32>, limb: u32)
    ensures
        worth(limbs.push(limb), (limbs.len() + 1) as nat) == worth(limbs, limbs.len()) + limb * weight(
            limbs.len(),
        ),
{
    lemma_worth_of_part(limbs.push(limb), limbs, limbs.len());
}

fn limb(limbs: &Vec<u32>, i: usize) -> (r: u32)
    ensures
        r == limb_at(limbs@, i as int),
{
    if i < limbs.len() {
        limbs[i]
    } else {
        0
    }
}

impl Natural {
    pub fn zero() -> (r: Self)
        ensures
            r@ == 0,
    {
        Natural { limbs: Vec::new() }
    }

    pub fn from_u64(n: u64) -> (r: Self)
        ensures
            r@ == n,
    {
        let mut natural = Natural::zero();
        natural.times_plus(1, n);
        natural
    }

    pub fn from_u128(n: u128) -> (r: Self)
        ensures
            r@ == n,
    {
        let mut natural = Natural::from_u64((n / 0x1_0000_0000_0000_0000) as u64);
        natural.times_plus(0x8000_0000_0000_0000, 0);
        natural.times_plus(2, (n % 0x1_0000_0000_0000_0000) as u64);
        natural
    }

    /// A copy of the number.
    pub fn duplicate(&self) -> (r: Self)
        ensures
            r@ == self@,
    {
        let mut limbs: Vec<u32> = Vec::new();
        limbs.extend_from_slice(self.limbs.as_slice());
        assert(limbs@ =~= self.limbs@);
        Natural { limbs }
    }

    /// Multiplies by a factor and adds a summand.
    pub fn times_plus(&mut self, factor: u64, summand: u64)
        ensures
            final(self)@ == old(self)@ * factor + summand,
    {
        let mut limbs: Vec<u32> = Vec::new();
        let mut carry: u64 = summand;
        let mut i: usize = 0;
        proof {
            assert(0 * factor as nat == 0);
            assert(weight(0) == 1);
            assert(carry * 1 == carry);
        }
        while i < self.limbs.len()
            invariant
                i <= self.limbs.len(),
                self.limbs@ == old(self).limbs@,
                limbs.len() == i,
                worth(limbs@, i as nat) + carry * weight(i as nat) == worth(self.limbs@, i as nat)
                    * factor + summand,
            decreases self.limbs.len() - i,
        {
            let x: u32 = self.limbs[i];
            proof {
                assert(x * factor <= 0xFFFF_FFFF * 0xFFFF_FFFF_FFFF_FFFF) by (nonlinear_arith)
                    requires
                        0 <= x <= 0xFFFF_FFFF,
                        0 <= factor <= 0xFFFF_FFFF_FFFF_FFFF,
                ;
            }
            let t: u128 = x as u128 * factor as u128 + carry as u128;
            let low: u32 = (t % 0x1_0000_0000) as u32;
            let high: u64 = (t / 0x1_0000_0000) as u64;
            proof {
                let w = weight(i as nat);
                let below = worth(limbs@, i as nat);
                let before = worth(self.limbs@, i as nat);
                lemma_worth_of_push(limbs@, low);
                assert(worth(self.limbs@, (i + 1) as nat) == before + x * w);
                assert((before + x * w) * factor == before * factor + (x * factor) * w)
                    by (nonlinear_arith);
                assert((x * factor + carry) * w == (x * factor) * w + carry * w)
                    by (nonlinear_arith);
                assert(t == low + 0x1_0000_0000 * high);
                assert((low + 0x1_0000_0000 * high) * w == low * w + high * (0x1_0000_0000 * w))
                    by (nonlinear_arith);
            }
            limbs.push(low);
            carry = high;
            i = i + 1;
        }
        if carry > 0 {
            let low: u32 = (carry % 0x1_0000_0000) as u32;
            let high: u32 = (carry / 0x1_0000_0000) as u32;
            proof {
                let w = weight(limbs@.len());
                lemma_worth_of_push(limbs@, low);
                lemma_worth_of_push(limbs@.push(low), high);
                assert(carry == low + 0x1_0000_0000 * high);
                assert((low + 0x1_0000_0000 * high) * w == low * w + high * (0x1_0000_0000 * w))
                    by (nonlinear_arith);
                assert(0 * (0x1_0000_0000 * w) == 0);
            }
            limbs.push(low);
            if high > 0 {
                limbs.push(high);
            }
        } else {
            assert(0 * weight(i as nat) == 0);
        }
        self.limbs = limbs;
    }

    /// Whether the number is less than another.
    pub fn is_less(&self, other: &Natural) -> (r: bool)
        ensures
            r == (self@ < other@),
    {
        let len: usize = if self.limbs.len() >= other.limbs.len() {
            self.limbs.len()
        } else {
            other.limbs.len()
        };
        let mut less = false;
        let mut i: usize = 0;
        while i < len
            invariant
                i <= len,
                less == (worth(self.limbs@, i as nat) < worth(other.limbs@, i as nat)),
            decreases len - i,
        {
            let x: u32 = limb(&self.limbs, i);
            let y: u32 = limb(&other.limbs, i);
            proof {
                lemma_worth_is_bounded(self.limbs@, i as nat);
                lemma_worth_is_bounded(other.limbs@, i as nat);
                lemma_weight_positive(i as nat);
                let w = weight(i as nat);
                if x < y {
                    assert(x * w + w <= y * w) by (nonlinear_arith)
                        requires
                            x + 1 <= y,
                    ;
                } else if y < x {
                    assert(y * w + w <= x * w) by (nonlinear_arith)
                        requires
                            y + 1 <= x,
                    ;
                }
            }
            if x != y {
                less = x < y;
            }
            i = i + 1;
        }
        proof {
            lemma_worth_of_more(self.limbs@, len as nat);
            lemma_worth_of_more(other.limbs@, len as nat);
        }
        less
    }

    /// Adds a number.
    pub fn plus(&mut self, other: &Natural)
        ensures
            final(self)@ == old(self)@ + other@,
    {
        let len: usize = if self.limbs.len() >= other.limbs.len() {
            self.limbs.len()
        } else {
            other.limbs.len()
        };
        let mut limbs: Vec<u32> = Vec::new();
        let mut carry: u64 = 0;
        let mut i: usize = 0;
        while i < len
            invariant
                i <= len,
                carry <= 1,
                limbs.len() == i,
                self.limbs@ == old(self).limbs@,
                worth(limbs@, i as nat) + carry * weight(i as nat) == worth(self.limbs@, i as nat)
                    + worth(other.limbs@, i as nat),
            decreases len - i,
        {
            let x: u64 = limb(&self.limbs, i) as u64;
            let y: u64 = limb(&other.limbs, i) as u64;
            let t: u64 = x + y + carry;
            let low: u32 = (t % LIMB_BASE) as u32;
            let next: u64 = t / LIMB_BASE;
            proof {
                let w = weight(i as nat);
                lemma_worth_of_push(limbs@, low);
                assert(x + y + carry == low + next * 0x1_0000_0000);
                assert((x + y + carry) * w == x * w + y * w + carry * w) by (nonlinear_arith);
                assert((low + next * 0x1_0000_0000) * w == low * w + next * (0x1_0000_0000 * w))
                    by (nonlinear_arith);
            }
            limbs.push(low);
            carry = next;
            i = i + 1;
        }
        proof {
            lemma_worth_of_more(self.limbs@, len as nat);
            lemma_worth_of_more(other.limbs@, len as nat);
            lemma_worth_of_push(limbs@, 1);
            assert(0 * weight(len as nat) == 0);
        }
        if carry > 0 {
            limbs.push(1);
        }
        self.limbs = limbs;
    }

    /// Subtracts a number that is no larger.
    pub fn subtract(&mut self, other: &Natural)
        requires
            other@ <= old(self)@,
        ensures
            final(self)@ == old(self)@ - other@,
    {
        let len: usize = if self.limbs.len() >= other.limbs.len() {
            self.limbs.len()
        } else {
            other.limbs.len()
        };
        let mut limbs: Vec<u32> = Vec::new();
        let mut borrow: u64 = 0;
        let mut i: usize = 0;
        while i < len
            invariant
                i <= len,
                borrow <= 1,
                limbs.len() == i,
                self.limbs@ == old(self).limbs@,
                worth(limbs@, i as nat) + worth(other.limbs@, i as nat) == worth(
                    self.limbs@,
                    i as nat,
                ) + borrow * weight(i as nat),
            decreases len - i,
        {
            let x: u64 = limb(&self.limbs, i) as u64;
            let y: u64 = limb(&other.limbs, i) as u64;
            let t: u64 = LIMB_BASE + x - y - borrow;
            let low: u32 = (t % LIMB_BASE) as u32;
            let next: u64 = 1 - t / LIMB_BASE;
            proof {
                let w = weight(i as nat);
                lemma_worth_of_push(limbs@, low);
                assert(low + y + borrow == x + next * 0x1_0000_0000);
                assert(low * w + y * w + borrow * w == (low + y + borrow) * w) by (nonlinear_arith);
                assert((x + next * 0x1_0000_0000) * w == x * w + next * (0x1_0000_0000 * w))
                    by (nonlinear_arith);
            }
            limbs.push(low);
            borrow = next;
            i = i + 1;
        }
        proof {
            lemma_worth_of_more(self.limbs@, len as nat);
            lemma_worth_of_more(other.limbs@, len as nat);
            lemma_worth_is_bounded(limbs@, len as nat);
            if borrow == 1 {
                assert(1 * weight(len as nat) == weight(len as nat));
            } else {
                assert(0 * weight(len as nat) == 0);
            }
        }
        self.limbs = limbs;
    }

    /// Doubles the number so many times.
    pub fn double(&mut self, times: usize)
        ensures
            final(self)@ == old(self)@ * pow2(times as nat),
    {
        let mut i: usize = 0;
        proof {
            lemma2_to64();
            assert(old(self)@ * 1 == old(self)@);
        }
        while i < times
            invariant
                i <= times,
                self@ == old(self)@ * pow2(i as nat),
            decreases times - i,
        {
            proof {
                lemma_pow2_unfold((i + 1) as nat);
                let x = old(self)@;
                let p = pow2(i as nat);
                assert((x * p) * 2 == x * (2 * p)) by (nonlinear_arith);
            }
            self.times_plus(2, 0);
            i = i + 1;
        }
    }

    /// So many binary digits of a proper fraction, and what is left over.
    pub fn binary_digits(&self, whole: &Natural, count: usize) -> (r: (u64, Natural))
        requires
            self@ < whole@,
            count <= 64,
        ensures
            self@ * pow2(count as nat) == r.0 * whole@ + r.1@,
            r.1@ < whole@,
            r.0 < pow2(count as nat),
    {
        let mut rest = self.duplicate();
        let mut digits: u64 = 0;
        let mut i: usize = 0;
        proof {
            lemma2_to64();
            assert(self@ * 1 == self@);
            assert(0 * whole@ == 0);
        }
        while i < count
            invariant
                i <= count <= 64,
                self@ * pow2(i as nat) == digits * whole@ + rest@,
                rest@ < whole@,
                digits < pow2(i as nat),
            decreases count - i,
        {
            let ghost before = rest@;
            proof {
                lemma_pow2_unfold((i + 1) as nat);
                lemma_pow2_fits((i + 1) as nat);
                let x = self@;
                let p = pow2(i as nat);
                let d = digits as nat;
                let w = whole@;
                assert(x * (2 * p) == 2 * (x * p)) by (nonlinear_arith);
                assert((2 * d) * w == 2 * (d * w)) by (nonlinear_arith);
                assert((2 * d + 1) * w == 2 * (d * w) + w) by (nonlinear_arith);
            }
            rest.times_plus(2, 0);
            if rest.is_less(whole) {
                digits = 2 * digits;
            } else {
                rest.subtract(whole);
                digits = 2 * digits + 1;
            }
            i = i + 1;
        }
        (digits, rest)
    }
}

/// Sixty-four binary digits fit.
proof fn lemma_pow2_fits(n: nat)
    requires
        n <= 64,
    ensures
        pow2(n) <= 0x1_0000_0000_0000_0000,
    decreases 64 - n,
{
    lemma2_to64();
    if n < 64 {
        lemma_pow2_unfold(n + 1);
        lemma_pow2_fits(n + 1);
        lemma_pow2_pos(n);
    }
}

} // verus!
