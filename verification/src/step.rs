//! The steps of a run, counted.
//!
//! A [`StepBuilder`] is made from the names of the steps and hands them out
//! one by one, each with its number. What is done with a step (how it is
//! shown, how long it takes) is up to the caller.
use vstd::prelude::*;

verus! {

/// Data of one step.
#[derive(Debug)]
pub struct StepData {
    /// Text describing what the step is.
    pub text: String,
    /// The number of the step, counted from one.
    pub num: u8,
    /// The number of steps there are.
    pub max_num: u8,
}

/// A single step of a run, in the state `T`.
///
/// To create a step see [`StepBuilder`].
#[derive(Debug)]
pub struct Step<T>(pub T);

/// State and data of a [`Step`] when it is created.
#[derive(Debug)]
pub struct Created(pub StepData);

/// A builder to conveniently create multiple [`Step`]s.
///
/// To proceed to the next step call [`StepBuilder::next`].
pub struct StepBuilder {
    /// The number of the current step; zero before the first.
    current_num: u8,
    /// The number of steps there are. It is the length of `names`.
    max_num: u8,
    /// The names of the steps, in their order.
    names: Vec<String>,
}

impl StepBuilder {
    #[verifier::type_invariant]
    spec fn well_formed(self) -> bool {
        &&& self.max_num == self.names@.len()
        &&& self.current_num <= self.max_num
    }

    /// The number of steps handed out so far.
    pub closed spec fn current(&self) -> nat {
        self.current_num as nat
    }

    /// The names of all steps, in their order.
    pub closed spec fn names(&self) -> Seq<String> {
        self.names@
    }

    /// Create a new [`StepBuilder`] taking the names for each step.
    ///
    /// There can be at most 255 steps.
    pub fn new(names: Vec<String>) -> (builder: Self)
        requires
            names@.len() <= u8::MAX,
        ensures
            builder.current() == 0,
            builder.names() == names@,
    {
        StepBuilder { max_num: names.len() as u8, current_num: 0, names }
    }

    /// Proceeds to the next step and returns it, or returns `None` if the
    /// last step was already handed out.
    pub fn next(&mut self) -> (step: Option<Step<Created>>)
        ensures
            final(self).names() == old(self).names(),
            old(self).current() < old(self).names().len() ==> final(self).current() == old(
                self
            ).current() + 1 && (step matches Some(created) && created.0.0.text == old(
                self
            ).names()[old(self).current() as int] && created.0.0.num == final(self).current()
                && created.0.0.max_num == old(self).names().len()),
            old(self).current() >= old(self).names().len() ==> step is None
                && final(self).current() == old(self).current(),
    {
        proof {
            use_type_invariant(&*self);
        }
        if self.current_num >= self.max_num {
            return None;
        }
        let text = self.names[self.current_num as usize].clone();
        self.current_num += 1;
        Some(Step(Created(StepData { text, num: self.current_num, max_num: self.max_num })))
    }
}

} // verus!
