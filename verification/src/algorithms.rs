//! The measures that come with the library, and their names.
use crate::color::Color;
use crate::distance::{DistanceAlgorithm, EuclidianDistance, EuclidianDistanceNoAlpha};
use vstd::prelude::*;

verus! {

/// Enumeration of all available distance algorithms.
///
/// Each one stands for the measure of the same name, and is itself a measure:
/// it measures as the one it stands for.
#[derive(Debug, Clone, Copy, PartialEq, Eq, Structural)]
pub enum Algorithms {
    /// See [`EuclidianDistance`].
    EuclidianDistance,
    /// See [`EuclidianDistanceNoAlpha`].
    EuclidianDistanceNoAlpha,
}

impl DistanceAlgorithm for Algorithms {
    open spec fn distance_spec(&self, left: Color, right: Color) -> int {
        match self {
            Algorithms::EuclidianDistance => EuclidianDistance.distance_spec(left, right),
            Algorithms::EuclidianDistanceNoAlpha => EuclidianDistanceNoAlpha.distance_spec(
                left,
                right,
            ),
        }
    }

    open spec fn alpha_aware(&self) -> bool {
        match self {
            Algorithms::EuclidianDistance => EuclidianDistance.alpha_aware(),
            Algorithms::EuclidianDistanceNoAlpha => EuclidianDistanceNoAlpha.alpha_aware(),
        }
    }

    fn distance(&self, left: &Color, right: &Color) -> (d: u32) {
        match self {
            Algorithms::EuclidianDistance => EuclidianDistance.distance(left, right),
            Algorithms::EuclidianDistanceNoAlpha => EuclidianDistanceNoAlpha.distance(left, right),
        }
    }

    fn respects_alpha(&self) -> (aware: bool) {
        match self {
            Algorithms::EuclidianDistance => EuclidianDistance.respects_alpha(),
            Algorithms::EuclidianDistanceNoAlpha => EuclidianDistanceNoAlpha.respects_alpha(),
        }
    }

    proof fn distance_in_range(&self, left: Color, right: Color) {
        match self {
            Algorithms::EuclidianDistance => EuclidianDistance.distance_in_range(left, right),
            Algorithms::EuclidianDistanceNoAlpha => EuclidianDistanceNoAlpha.distance_in_range(
                left,
                right,
            ),
        }
    }

    proof fn zero_iff_same(&self, left: Color, right: Color) {
        match self {
            Algorithms::EuclidianDistance => EuclidianDistance.zero_iff_same(left, right),
            Algorithms::EuclidianDistanceNoAlpha => EuclidianDistanceNoAlpha.zero_iff_same(
                left,
                right,
            ),
        }
    }

    proof fn black_is_farther_than_gray(&self) {
        match self {
            Algorithms::EuclidianDistance => EuclidianDistance.black_is_farther_than_gray(),
            Algorithms::EuclidianDistanceNoAlpha => {
                EuclidianDistanceNoAlpha.black_is_farther_than_gray()
            },
        }
    }
}

impl Algorithms {
    /// All algorithms, in the order in which they are declared.
    pub open spec fn all_spec() -> Seq<Algorithms> {
        seq![Algorithms::EuclidianDistance, Algorithms::EuclidianDistanceNoAlpha]
    }

    /// The name by which an algorithm is selected.
    pub open spec fn name_spec(self) -> Seq<char> {
        match self {
            Algorithms::EuclidianDistance => "EuclidianDistance"@,
            Algorithms::EuclidianDistanceNoAlpha => "EuclidianDistanceNoAlpha"@,
        }
    }

    /// The algorithm that a name selects, if it selects one. Names are matched
    /// letter for letter.
    pub open spec fn named(name: Seq<char>) -> Option<Algorithms> {
        if name == Algorithms::EuclidianDistance.name_spec() {
            Some(Algorithms::EuclidianDistance)
        } else if name == Algorithms::EuclidianDistanceNoAlpha.name_spec() {
            Some(Algorithms::EuclidianDistanceNoAlpha)
        } else {
            None
        }
    }

    /// All algorithms, in the order in which they are declared.
    pub fn all() -> (all: Vec<Algorithms>)
        ensures
            all@ == Algorithms::all_spec(),
    {
        let mut all: Vec<Algorithms> = Vec::new();
        all.push(Algorithms::EuclidianDistance);
        all.push(Algorithms::EuclidianDistanceNoAlpha);
        all
    }

    /// The name by which this algorithm is selected.
    pub fn name(&self) -> (name: &'static str)
        ensures
            name@ == self.name_spec(),
    {
        match self {
            Algorithms::EuclidianDistance => "EuclidianDistance",
            Algorithms::EuclidianDistanceNoAlpha => "EuclidianDistanceNoAlpha",
        }
    }

    /// Looks an algorithm up by its name. A name that no algorithm has gives
    /// `None`.
    pub fn from_name(name: &str) -> (found: Option<Algorithms>)
        ensures
            found == Algorithms::named(name@),
    {
        let wanted = name.to_owned();
        if wanted == Algorithms::EuclidianDistance.name().to_owned() {
            Some(Algorithms::EuclidianDistance)
        } else if wanted == Algorithms::EuclidianDistanceNoAlpha.name().to_owned() {
            Some(Algorithms::EuclidianDistanceNoAlpha)
        } else {
            None
        }
    }

    /// Every algorithm is found again under its own name, and under no name
    /// but its own.
    pub proof fn lemma_name_selects(self, name: Seq<char>)
        ensures
            Algorithms::named(self.name_spec()) == Some(self),
            Algorithms::named(name) == Some(self) <==> name == self.name_spec(),
            Algorithms::all_spec().contains(self),
    {
        reveal_strlit("EuclidianDistance");
        reveal_strlit("EuclidianDistanceNoAlpha");
        assert("EuclidianDistance"@.len() != "EuclidianDistanceNoAlpha"@.len());
    }
}

/// The names of all algorithms, in the order in which they are declared.
pub fn algorithms() -> (names: Vec<String>)
    ensures
        names@.len() == Algorithms::all_spec().len(),
        forall|i: int|
            0 <= i < names@.len() ==> (#[trigger] names@[i])@ == Algorithms::all_spec()[i].name_spec(),
{
    let all = Algorithms::all();
    let mut names: Vec<String> = Vec::new();
    let mut i: usize = 0;
    while i < all.len()
        invariant
            i <= all.len(),
            all@ == Algorithms::all_spec(),
            names@.len() == i,
            forall|k: int| 0 <= k < i ==> (#[trigger] names@[k])@ == all@[k].name_spec(),
        decreases all.len() - i,
    {
        names.push(all[i].name().to_owned());
        i += 1;
    }
    names
}

} // verus!
