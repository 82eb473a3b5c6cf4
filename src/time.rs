//! Time structures.
//!
//! - [`Instant`] is used to represent a point in time.
//! - [`Duration`] is used to represent a duration of time.
//!
//! Both count microseconds in an `i64`. Arithmetic wraps around as fixed-width
//! two's-complement arithmetic does; staying within the practical range of the
//! counter is the caller's concern.
use vstd::prelude::*;
use core::cmp::Ordering;
use vstd::arithmetic::div_mod::{
    lemma_div_basics_4, lemma_div_basics_5, lemma_div_is_ordered, lemma_div_is_ordered_by_denominator,
    lemma_div_multiples_vanish, lemma_mod_add_multiples_vanish, lemma_small_mod,
};
use vstd::arithmetic::mul::lemma_mul_is_commutative;
use vstd::std_specs::cmp::PartialOrdSpec;
use vstd::std_specs::ops::{AddSpec, DivSpec, MulSpec, SubSpec};
use vstd::wrapping::i64_specs;

verus! {

/// A point in time, in microseconds since an epoch of the platform's choosing.
#[derive(Clone, Copy, Debug, PartialEq, Eq, Structural, Ord)]
pub struct Instant {
    pub us: i64,
}

/// A signed span of time, in microseconds.
#[derive(Clone, Copy, Debug, PartialEq, Eq, Structural, Ord)]
pub struct Duration(pub i64);

impl View for Instant {
    type V = i64;

    open spec fn view(&self) -> i64 {
        self.us
    }
}

impl View for Duration {
    type V = i64;

    open spec fn view(&self) -> i64 {
        self.0
    }
}

impl Instant {
    /// Create a new `Instant` from microseconds since the epoch.
    pub fn from_us(us: i64) -> (r: Self)
        ensures
            r@ == us,
    {
        Self { us }
    }

    /// Returns the point in time as microseconds since the epoch.
    pub fn as_us(&self) -> (r: i64)
        ensures
            r == self@,
    {
        self.us
    }
}

impl Duration {
    /// Create a new `Duration` from microseconds.
    pub fn from_us(us: i64) -> (r: Self)
        ensures
            r@ == us,
    {
        Self(us)
    }

    /// Returns the duration as microseconds.
    pub fn as_us(&self) -> (r: i64)
        ensures
            r == self@,
    {
        self.0
    }
}

/// Total order on two microsecond counts.
pub open spec fn order_of(a: i64, b: i64) -> Ordering {
    if a < b {
        Ordering::Less
    } else if a == b {
        Ordering::Equal
    } else {
        Ordering::Greater
    }
}

/// Integer division that truncates toward zero, as Rust's `/` on integers does.
pub open spec fn div_toward_zero(x: int, d: int) -> int {
    let q = abs(x) / abs(d);
    if (x >= 0) == (d > 0) {
        q
    } else {
        -q
    }
}

/// Absolute value.
pub open spec fn abs(x: int) -> int {
    if x < 0 {
        -x
    } else {
        x
    }
}

/// The truncated quotient of two counters fits a counter, except for
/// `i64::MIN / -1`; it agrees with the quotient that `i64::checked_div` gives.
proof fn lemma_quotient_fits(x: int, d: int)
    requires
        i64::MIN <= x <= i64::MAX,
        i64::MIN <= d <= i64::MAX,
        d != 0,
        !(x == i64::MIN && d == -1),
    ensures
        i64::MIN <= div_toward_zero(x, d) <= i64::MAX,
        div_toward_zero(x, d) == (if x == 0 {
            0
        } else if x > 0 && d > 0 {
            x / d
        } else if x < 0 && d < 0 {
            (x * -1) / (d * -1)
        } else if x < 0 {
            ((x * -1) / d) * -1
        } else {
            (x / (d * -1)) * -1
        }),
{
    lemma_div_basics_4(abs(x), abs(d));
    lemma_div_basics_5(abs(x), abs(d));
    if abs(d) >= 2 {
        lemma_div_is_ordered_by_denominator(abs(x), 2, abs(d));
        lemma_div_is_ordered(abs(x), 0x8000_0000_0000_0000, 2);
        assert(0x8000_0000_0000_0000int / 2 == 0x4000_0000_0000_0000);
    }
    if x == 0 {
        assert(0int / abs(d) == 0);
    }
}

impl PartialOrd for Instant {
    fn partial_cmp(&self, other: &Instant) -> (r: Option<Ordering>) {
        Some(self.us.cmp(&other.us))
    }
}

impl vstd::std_specs::cmp::PartialOrdSpecImpl for Instant {
    open spec fn obeys_partial_cmp_spec() -> bool {
        true
    }

    open spec fn partial_cmp_spec(&self, other: &Instant) -> Option<Ordering> {
        Some(order_of(self@, other@))
    }
}

impl PartialOrd for Duration {
    fn partial_cmp(&self, other: &Duration) -> (r: Option<Ordering>) {
        Some(self.0.cmp(&other.0))
    }
}

impl vstd::std_specs::cmp::PartialOrdSpecImpl for Duration {
    open spec fn obeys_partial_cmp_spec() -> bool {
        true
    }

    open spec fn partial_cmp_spec(&self, other: &Duration) -> Option<Ordering> {
        Some(order_of(self@, other@))
    }
}

/// `Instant - Instant`: the span from `rhs` to `self`.
impl core::ops::Sub for Instant {
    type Output = Duration;

    fn sub(self, rhs: Instant) -> (r: Duration) {
        Duration::from_us(self.as_us().wrapping_sub(rhs.as_us()))
    }
}

impl vstd::std_specs::ops::SubSpecImpl for Instant {
    open spec fn obeys_sub_spec() -> bool {
        true
    }

    open spec fn sub_req(self, rhs: Instant) -> bool {
        true
    }

    open spec fn sub_spec(self, rhs: Instant) -> Duration {
        Duration(i64_specs::wrapping_sub(self@, rhs@))
    }
}

/// `Instant - Duration`: the point in time `rhs` before `self`.
impl core::ops::Sub<Duration> for Instant {
    type Output = Instant;

    fn sub(self, rhs: Duration) -> (r: Instant) {
        Self::from_us(self.us.wrapping_sub(rhs.as_us()))
    }
}

impl vstd::std_specs::ops::SubSpecImpl<Duration> for Instant {
    open spec fn obeys_sub_spec() -> bool {
        true
    }

    open spec fn sub_req(self, rhs: Duration) -> bool {
        true
    }

    open spec fn sub_spec(self, rhs: Duration) -> Instant {
        Instant { us: i64_specs::wrapping_sub(self@, rhs@) }
    }
}

/// `Duration - Duration`.
impl core::ops::Sub for Duration {
    type Output = Duration;

    fn sub(self, rhs: Duration) -> (r: Duration) {
        Self::from_us(self.as_us().wrapping_sub(rhs.as_us()))
    }
}

impl vstd::std_specs::ops::SubSpecImpl for Duration {
    open spec fn obeys_sub_spec() -> bool {
        true
    }

    open spec fn sub_req(self, rhs: Duration) -> bool {
        true
    }

    open spec fn sub_spec(self, rhs: Duration) -> Duration {
        Duration(i64_specs::wrapping_sub(self@, rhs@))
    }
}

/// `Duration * k`: the span scaled by `k`.
impl core::ops::Mul<usize> for Duration {
    type Output = Duration;

    fn mul(self, rhs: usize) -> (r: Duration) {
        Self::from_us(self.as_us().wrapping_mul(rhs as i64))
    }
}

impl vstd::std_specs::ops::MulSpecImpl<usize> for Duration {
    open spec fn obeys_mul_spec() -> bool {
        true
    }

    open spec fn mul_req(self, rhs: usize) -> bool {
        true
    }

    open spec fn mul_spec(self, rhs: usize) -> Duration {
        Duration(i64_specs::wrapping_mul(self@, rhs as i64))
    }
}

/// `Instant + Duration`: the point in time `rhs` after `self`.
impl core::ops::Add<Duration> for Instant {
    type Output = Instant;

    fn add(self, rhs: Duration) -> (r: Instant) {
        Self::from_us(self.us.wrapping_add(rhs.as_us()))
    }
}

impl vstd::std_specs::ops::AddSpecImpl<Duration> for Instant {
    open spec fn obeys_add_spec() -> bool {
        true
    }

    open spec fn add_req(self, rhs: Duration) -> bool {
        true
    }

    open spec fn add_spec(self, rhs: Duration) -> Instant {
        Instant { us: i64_specs::wrapping_add(self@, rhs@) }
    }
}

/// `Duration / k`: the span divided by `k`, truncated toward zero. `k` must
/// not be zero, and the quotient must fit the counter.
impl core::ops::Div<usize> for Duration {
    type Output = Duration;

    fn div(self, rhs: usize) -> (r: Duration) {
        #[verifier::truncate]
        let k = rhs as i64;
        proof {
            lemma_quotient_fits(self@ as int, k as int);
        }
        Self::from_us(self.as_us().checked_div(k).unwrap())
    }
}

impl vstd::std_specs::ops::DivSpecImpl<usize> for Duration {
    open spec fn obeys_div_spec() -> bool {
        true
    }

    open spec fn div_req(self, rhs: usize) -> bool {
        &&& rhs as i64 != 0
        &&& !(self@ == i64::MIN && rhs as i64 == -1)
    }

    open spec fn div_spec(self, rhs: usize) -> Duration {
        Duration(div_toward_zero(self@ as int, rhs as i64 as int) as i64)
    }
}

/// `Duration + Duration`.
impl core::ops::Add<Duration> for Duration {
    type Output = Duration;

    fn add(self, rhs: Duration) -> (r: Duration) {
        Self::from_us(self.as_us().wrapping_add(rhs.as_us()))
    }
}

impl vstd::std_specs::ops::AddSpecImpl<Duration> for Duration {
    open spec fn obeys_add_spec() -> bool {
        true
    }

    open spec fn add_req(self, rhs: Duration) -> bool {
        true
    }

    open spec fn add_spec(self, rhs: Duration) -> Duration {
        Duration(i64_specs::wrapping_add(self@, rhs@))
    }
}

/// A wrapped product that did not leave the counter's range is the product.
proof fn lemma_crop_in_range(p: int)
    requires
        i64::MIN <= p <= i64::MAX,
    ensures
        i64_specs::signed_crop(p) == p,
{
    let m: int = 0x1_0000_0000_0000_0000;
    if p >= 0 {
        lemma_small_mod(p as nat, m as nat);
    } else {
        lemma_mod_add_multiples_vanish(p, m);
        lemma_small_mod((m + p) as nat, m as nat);
    }
}

/// Going back by a duration and then forward by it again returns to the
/// starting point, for every instant and duration: both steps wrap the same way.
pub proof fn lemma_sub_then_add(a: Instant, b: Duration)
    ensures
        a.sub_spec(b).add_spec(b) == a,
{
}

/// Scaling a duration by a positive factor and dividing by it again gives
/// the duration back, as long as the scaled value fits the counter.
pub proof fn lemma_scale_then_divide(d: Duration, k: usize)
    requires
        0 < k <= i64::MAX,
        i64::MIN <= d@ * k <= i64::MAX,
    ensures
        d.mul_spec(k)@ == d@ * k,
        d.mul_spec(k).div_req(k),
        d.mul_spec(k).div_spec(k) == d,
{
    let x = d@ as int;
    let kk = k as int;
    lemma_crop_in_range(x * kk);
    assert(d.mul_spec(k)@ == x * kk);
    lemma_mul_is_commutative(x, kk);
    assert(k as i64 as int == kk);
    if x >= 0 {
        lemma_div_multiples_vanish(x, kk);
        assert(abs(x * kk) == kk * x);
        assert(div_toward_zero(x * kk, kk) == x);
    } else {
        lemma_mul_is_commutative(-x, kk);
        lemma_div_multiples_vanish(-x, kk);
        assert(x * kk < 0 && abs(x * kk) == kk * (-x)) by (nonlinear_arith)
            requires
                x < 0,
                kk > 0,
        ;
        assert((kk * (-x)) / kk == -x);
        assert(div_toward_zero(x * kk, kk) == x);
    }
}

/// Instants are ordered as their microsecond counts are: exactly one of less,
/// equal, greater holds, and equal means the same instant.
pub proof fn lemma_instant_order(a: Instant, b: Instant)
    ensures
        (a.partial_cmp_spec(&b) == Some(Ordering::Less)) == (a@ < b@),
        (a.partial_cmp_spec(&b) == Some(Ordering::Equal)) == (a == b),
        (a.partial_cmp_spec(&b) == Some(Ordering::Greater)) == (a@ > b@),
{
}

/// Durations are ordered as their microsecond counts are: exactly one of
/// less, equal, greater holds, and equal means the same duration.
pub proof fn lemma_duration_order(a: Duration, b: Duration)
    ensures
        (a.partial_cmp_spec(&b) == Some(Ordering::Less)) == (a@ < b@),
        (a.partial_cmp_spec(&b) == Some(Ordering::Equal)) == (a == b),
        (a.partial_cmp_spec(&b) == Some(Ordering::Greater)) == (a@ > b@),
{
}

} // verus!
