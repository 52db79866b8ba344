use vstd::prelude::*;

verus! {

/// Whether a parameter takes any value of its range (`Float`) or only
/// whole-numbered values (`Int`).
#[derive(Clone, Copy, Debug, PartialEq, Eq, Structural)]
pub enum Kind {
    Float,
    Int,
}

impl Kind {
    /// True when physical values of this kind are rounded to the nearest
    /// whole number.
    pub fn is_stepped(&self) -> (r: bool)
        ensures
            r == (*self is Int),
    {
        match self {
            Kind::Float => false,
            Kind::Int => true,
        }
    }

    /// The step count reported for a parameter of this kind whose span
    /// `max - min`, truncated toward zero, is `span`: none for a continuous
    /// parameter, the span itself for a stepped one.
    pub fn num_steps(&self, span: usize) -> (r: usize)
        ensures
            r == (if *self is Int { span } else { 0 }),
    {
        match self {
            Kind::Float => 0,
            Kind::Int => span,
        }
    }
}

} // verus!
