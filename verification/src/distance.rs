//! How far apart two colors are.
//!
//! A distance says how similar two colors are: the smaller it is, the more
//! alike they look. There is more than one way to measure it, so the measure
//! is a trait, [`DistanceAlgorithm`], and a [`Distance`] remembers which
//! measure it came from.
use crate::color::{black, mid_gray, white, Color};
use std::cmp::Ordering;
use std::marker::PhantomData;
use vstd::prelude::*;
use vstd::std_specs::cmp::{PartialEqSpecImpl, PartialOrdSpecImpl};

verus! {

/// Whether two colors are the same to a measure that looks at the alpha
/// channel (`with_alpha`) or to one that ignores it.
pub open spec fn same_color(left: Color, right: Color, with_alpha: bool) -> bool {
    &&& left.red == right.red
    &&& left.green == right.green
    &&& left.blue == right.blue
    &&& with_alpha ==> left.alpha == right.alpha
}

/// A way to measure the distance between two colors.
///
/// The numbers themselves mean nothing outside the measure that produced
/// them: one measure may stay below a hundred while another fills the whole
/// range of `u32`. What every measure owes is stated by the laws below.
pub trait DistanceAlgorithm {
    /// The distance this measure assigns to a pair of colors.
    spec fn distance_spec(&self, left: Color, right: Color) -> int;

    /// Whether this measure looks at the alpha channel.
    spec fn alpha_aware(&self) -> bool;

    /// Measures the distance between two colors.
    fn distance(&self, left: &Color, right: &Color) -> (d: u32)
        ensures
            d == self.distance_spec(*left, *right),
    ;

    /// Says whether this measure looks at the alpha channel.
    fn respects_alpha(&self) -> (aware: bool)
        ensures
            aware == self.alpha_aware(),
    ;

    /// Every distance is an unsigned 32-bit number.
    proof fn distance_in_range(&self, left: Color, right: Color)
        ensures
            0 <= self.distance_spec(left, right) <= u32::MAX,
    ;

    /// The distance is zero exactly between colors that the measure cannot
    /// tell apart.
    proof fn zero_iff_same(&self, left: Color, right: Color)
        ensures
            self.distance_spec(left, right) == 0 <==> same_color(left, right, self.alpha_aware()),
    ;

    /// White is farther from black than from the gray between them.
    proof fn black_is_farther_than_gray(&self)
        ensures
            self.distance_spec(white(), black()) > self.distance_spec(white(), mid_gray()),
    ;
}

/// The square of the difference of two channel values.
pub open spec fn channel_gap(left: u8, right: u8) -> int {
    (left - right) * (left - right)
}

/// The squared Euclidean distance between two colors, over the three color
/// channels and, if `with_alpha`, the alpha channel too.
pub open spec fn euclidean(left: Color, right: Color, with_alpha: bool) -> int {
    channel_gap(left.red, right.red) + channel_gap(left.green, right.green) + channel_gap(
        left.blue,
        right.blue,
    ) + if with_alpha {
        channel_gap(left.alpha, right.alpha)
    } else {
        0
    }
}

/// A channel gap lies between 0 and 255 squared, and is 0 only between equal
/// values.
pub proof fn lemma_channel_gap(left: u8, right: u8)
    ensures
        0 <= channel_gap(left, right) <= 65025,
        channel_gap(left, right) == 0 <==> left == right,
{
    let d: int = left - right;
    assert(0 <= d * d <= 65025 && (d * d == 0 <==> d == 0)) by (nonlinear_arith)
        requires
            -255 <= d <= 255,
    ;
}

/// The squared gap between two channel values.
fn gap(left: u8, right: u8) -> (g: u32)
    ensures
        g == channel_gap(left, right),
        g <= 65025,
{
    proof {
        lemma_channel_gap(left, right);
    }
    let d: i32 = left as i32 - right as i32;
    (d * d) as u32
}

/// The squared Euclidean distance over red, green, blue and alpha.
#[derive(Clone, Copy, Debug, Default)]
pub struct EuclidianDistance;

impl DistanceAlgorithm for EuclidianDistance {
    open spec fn distance_spec(&self, left: Color, right: Color) -> int {
        euclidean(left, right, true)
    }

    open spec fn alpha_aware(&self) -> bool {
        true
    }

    fn distance(&self, left: &Color, right: &Color) -> (d: u32) {
        gap(left.red, right.red) + gap(left.green, right.green) + gap(left.blue, right.blue) + gap(
            left.alpha,
            right.alpha,
        )
    }

    fn respects_alpha(&self) -> (aware: bool) {
        true
    }

    proof fn distance_in_range(&self, left: Color, right: Color) {
        lemma_channel_gap(left.red, right.red);
        lemma_channel_gap(left.green, right.green);
        lemma_channel_gap(left.blue, right.blue);
        lemma_channel_gap(left.alpha, right.alpha);
    }

    proof fn zero_iff_same(&self, left: Color, right: Color) {
        lemma_channel_gap(left.red, right.red);
        lemma_channel_gap(left.green, right.green);
        lemma_channel_gap(left.blue, right.blue);
        lemma_channel_gap(left.alpha, right.alpha);
    }

    proof fn black_is_farther_than_gray(&self) {
    }
}

/// The squared Euclidean distance over red, green and blue. Two colors that
/// differ only in transparency are at distance zero.
#[derive(Clone, Copy, Debug, Default)]
pub struct EuclidianDistanceNoAlpha;

impl DistanceAlgorithm for EuclidianDistanceNoAlpha {
    open spec fn distance_spec(&self, left: Color, right: Color) -> int {
        euclidean(left, right, false)
    }

    open spec fn alpha_aware(&self) -> bool {
        false
    }

    fn distance(&self, left: &Color, right: &Color) -> (d: u32) {
        gap(left.red, right.red) + gap(left.green, right.green) + gap(left.blue, right.blue)
    }

    fn respects_alpha(&self) -> (aware: bool) {
        false
    }

    proof fn distance_in_range(&self, left: Color, right: Color) {
        lemma_channel_gap(left.red, right.red);
        lemma_channel_gap(left.green, right.green);
        lemma_channel_gap(left.blue, right.blue);
    }

    proof fn zero_iff_same(&self, left: Color, right: Color) {
        lemma_channel_gap(left.red, right.red);
        lemma_channel_gap(left.green, right.green);
        lemma_channel_gap(left.blue, right.blue);
    }

    proof fn black_is_farther_than_gray(&self) {
    }
}

/// Every measure puts a color at distance zero from itself.
pub proof fn lemma_distance_to_self_is_zero<D: DistanceAlgorithm>(algorithm: &D, color: Color)
    ensures
        algorithm.distance_spec(color, color) == 0,
{
    algorithm.zero_iff_same(color, color);
}

/// Every measure tells white from black, and puts black farther from white
/// than the gray between them.
pub proof fn lemma_white_black_gray<D: DistanceAlgorithm>(algorithm: &D)
    ensures
        algorithm.distance_spec(white(), black()) > 0,
        algorithm.distance_spec(white(), black()) > algorithm.distance_spec(white(), mid_gray()),
        algorithm.distance_spec(white(), mid_gray()) > 0,
{
    algorithm.zero_iff_same(white(), black());
    algorithm.zero_iff_same(white(), mid_gray());
    algorithm.black_is_farther_than_gray();
    algorithm.distance_in_range(white(), black());
    algorithm.distance_in_range(white(), mid_gray());
}

/// A measure that looks at the alpha channel tells a color from the same
/// color with another transparency; one that does not puts the two at
/// distance zero.
pub proof fn lemma_alpha_policy<D: DistanceAlgorithm>(algorithm: &D, color: Color, alpha: u8)
    requires
        alpha != color.alpha,
    ensures
        algorithm.alpha_aware() ==> algorithm.distance_spec(color, Color { alpha, ..color }) != 0,
        !algorithm.alpha_aware() ==> algorithm.distance_spec(color, Color { alpha, ..color }) == 0,
{
    algorithm.zero_iff_same(color, Color { alpha, ..color });
}

/// The distance between two colors, tagged with the measure that produced it.
///
/// Distances of different measures have different types, so they cannot be
/// compared with each other.
#[derive(Debug)]
pub struct Distance<A: DistanceAlgorithm = EuclidianDistance> {
    /// The measured distance.
    distance: u32,
    /// Marks the measure used.
    algorithm: PhantomData<A>,
}

impl<A: DistanceAlgorithm> View for Distance<A> {
    type V = int;

    closed spec fn view(&self) -> int {
        self.distance as int
    }
}

impl<A: DistanceAlgorithm> Distance<A> {
    /// The distance between `left` and `right` as `algorithm` measures it.
    pub fn new(left: &Color, right: &Color, algorithm: &A) -> (d: Self)
        ensures
            d@ == algorithm.distance_spec(*left, *right),
    {
        Distance { distance: algorithm.distance(left, right), algorithm: PhantomData }
    }

    /// The largest distance there is: no measured distance exceeds it.
    pub fn new_max() -> (d: Self)
        ensures
            d@ == u32::MAX,
    {
        Distance { distance: u32::MAX, algorithm: PhantomData }
    }

    /// The smallest distance there is: that between a color and itself.
    pub fn new_min() -> (d: Self)
        ensures
            d@ == 0,
    {
        Distance { distance: u32::MIN, algorithm: PhantomData }
    }
}

impl<A: DistanceAlgorithm> Default for Distance<A> {
    fn default() -> (d: Self)
        ensures
            d@ == 0,
    {
        Distance { distance: 0, algorithm: PhantomData }
    }
}

impl<A: DistanceAlgorithm> PartialEq for Distance<A> {
    fn eq(&self, other: &Self) -> (r: bool) {
        self.distance == other.distance
    }
}

impl<A: DistanceAlgorithm> PartialEqSpecImpl for Distance<A> {
    open spec fn obeys_eq_spec() -> bool {
        true
    }

    open spec fn eq_spec(&self, other: &Self) -> bool {
        self@ == other@
    }
}

impl<A: DistanceAlgorithm> Eq for Distance<A> {

}

impl<A: DistanceAlgorithm> PartialOrd for Distance<A> {
    fn partial_cmp(&self, other: &Self) -> (r: Option<Ordering>) {
        if self.distance < other.distance {
            Some(Ordering::Less)
        } else if self.distance == other.distance {
            Some(Ordering::Equal)
        } else {
            Some(Ordering::Greater)
        }
    }
}

impl<A: DistanceAlgorithm> PartialOrdSpecImpl for Distance<A> {
    open spec fn obeys_partial_cmp_spec() -> bool {
        true
    }

    open spec fn partial_cmp_spec(&self, other: &Self) -> Option<Ordering> {
        if self@ < other@ {
            Some(Ordering::Less)
        } else if self@ == other@ {
            Some(Ordering::Equal)
        } else {
            Some(Ordering::Greater)
        }
    }
}

} // verus!
