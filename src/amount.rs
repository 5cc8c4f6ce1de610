use vstd::prelude::*;

verus! {

/// Ten to the power `n`.
pub open spec fn pow10(n: nat) -> nat
    decreases n,
{
    if n == 0 {
        1
    } else {
        10 * pow10((n - 1) as nat)
    }
}

/// The largest scale of a decimal.
pub const MAX_SCALE: u32 = 28;

/// 2 to the power 96: every mantissa lies strictly between its negation and it.
pub open spec fn mantissa_bound() -> int {
    0x1_0000_0000_0000_0000_0000_0000
}

/// A fixed-point decimal: `mantissa / 10^scale` currency units.
#[derive(PartialEq, Eq, Structural, Clone, Copy, Debug)]
pub struct Amount {
    pub mantissa: i128,
    pub scale: u32,
}

/// Whether the value of `a` is at least the whole number `t`.
pub open spec fn amount_at_least(a: Amount, t: int) -> bool {
    a.mantissa >= t * pow10(a.scale as nat)
}

/// What the decimal parser makes of a text: mantissa and scale, or nothing
/// when the text is no decimal.
pub uninterp spec fn decimal_parse(s: Seq<char>) -> Option<(i128, u32)>;

/// Relies on `rust_decimal::Decimal::from_str` to read a decimal, and on its
/// `mantissa` and `scale`, whose ranges the type documents: at most 28
/// fractional digits and a 96-bit magnitude.
#[verifier::external_body]
pub(crate) fn parse_decimal(s: &str) -> (r: Option<(i128, u32)>)
    ensures
        r == decimal_parse(s@),
        r matches Some(p) ==> p.1 <= MAX_SCALE && -mantissa_bound() < p.0 < mantissa_bound(),
{
    <rust_decimal::Decimal as std::str::FromStr>::from_str(s).ok().map(|d| (d.mantissa(), d.scale()))
}

proof fn lemma_pow10_positive(n: nat)
    ensures
        pow10(n) >= 1,
    decreases n,
{
    if n > 0 {
        lemma_pow10_positive((n - 1) as nat);
    }
}

proof fn lemma_pow10_monotonic(i: nat, j: nat)
    requires
        i <= j,
    ensures
        pow10(i) <= pow10(j),
    decreases j - i,
{
    if i < j {
        lemma_pow10_monotonic(i, (j - 1) as nat);
    }
}

proof fn lemma_pow10_max_scale()
    ensures
        pow10(28) == 10_000_000_000_000_000_000_000_000_000,
{
    reveal_with_fuel(pow10, 29);
}

/// `10^n` computed exactly, for the scales that a decimal can have.
fn pow10_exec(n: u32) -> (r: i128)
    requires
        n <= MAX_SCALE,
    ensures
        r == pow10(n as nat),
        r >= 1,
{
    let mut r: i128 = 1;
    let mut i: u32 = 0;
    while i < n
        invariant
            i <= n <= 28,
            r == pow10(i as nat),
        decreases n - i,
    {
        proof {
            lemma_pow10_monotonic((i + 1) as nat, 28);
            lemma_pow10_max_scale();
        }
        r = r * 10;
        i = i + 1;
    }
    proof {
        lemma_pow10_positive(n as nat);
    }
    r
}

impl Amount {
    /// The scale and the mantissa are within a decimal's ranges.
    pub open spec fn wf(&self) -> bool {
        self.scale <= MAX_SCALE && -mantissa_bound() < self.mantissa < mantissa_bound()
    }

    /// Whether the value of `self` is below the value of `other`.
    pub open spec fn less_than(&self, other: Amount) -> bool {
        self.mantissa * pow10(other.scale as nat) < other.mantissa * pow10(self.scale as nat)
    }

    /// Whether the value is positive.
    pub open spec fn is_positive(&self) -> bool {
        self.mantissa > 0
    }

    /// Whether the value is at least the whole number `t`.
    pub fn at_least(&self, t: u64) -> (r: bool)
        requires
            self.wf(),
            self.mantissa >= 0,
        ensures
            r == amount_at_least(*self, t as int),
    {
        let p = pow10_exec(self.scale) as u128;
        let m = self.mantissa as u128;
        let whole = m / p;
        proof {
            let mi = m as int;
            let pp = p as int;
            let q = whole as int;
            let ti = t as int;
            assert(mi == self.mantissa);
            assert(pp == pow10(self.scale as nat));
            assert(q == mi / pp);
            assert(mi == q * pp + mi % pp) by (nonlinear_arith)
                requires
                    pp > 0,
                    q == mi / pp,
            ;
            assert(0 <= mi % pp < pp);
            if q >= ti {
                assert(q * pp >= ti * pp) by (nonlinear_arith)
                    requires
                        q >= ti,
                        pp > 0,
                ;
                assert(mi >= ti * pp);
            } else {
                assert(mi < ti * pp) by (nonlinear_arith)
                    requires
                        q + 1 <= ti,
                        pp > 0,
                        mi == q * pp + mi % pp,
                        mi % pp < pp,
                ;
            }
        }
        whole >= t as u128
    }

    /// A value of at least `t` stays at least `t` when it grows.
    pub proof fn lemma_at_least_upward(self, other: Amount, t: int)
        requires
            self.wf(),
            other.wf(),
            amount_at_least(self, t),
            self.less_than(other),
        ensures
            amount_at_least(other, t),
    {
        let d1 = pow10(self.scale as nat) as int;
        let d2 = pow10(other.scale as nat) as int;
        lemma_pow10_positive(self.scale as nat);
        lemma_pow10_positive(other.scale as nat);
        let m1 = self.mantissa as int;
        let m2 = other.mantissa as int;
        assert(m1 * d2 >= t * d1 * d2) by (nonlinear_arith)
            requires
                m1 >= t * d1,
                d2 > 0,
        ;
        assert(m2 * d1 > t * d2 * d1) by (nonlinear_arith)
            requires
                m1 * d2 >= t * d1 * d2,
                m1 * d2 < m2 * d1,
        ;
        assert(m2 >= t * d2) by (nonlinear_arith)
            requires
                m2 * d1 > t * d2 * d1,
                d1 > 0,
        ;
    }
}

} // verus!
