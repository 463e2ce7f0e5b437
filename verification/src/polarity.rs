use vstd::prelude::*;

verus! {

/// The electrical state of the signal line after a transition.
///
/// A DCC-style signal is self-clocked: the line alternates between exactly
/// these two states, and the time between two consecutive alternations is
/// what carries the information.
#[derive(Clone, Copy, Debug, PartialEq, Eq, Structural)]
pub enum Polarity {
    Positive,
    Negative,
}

} // verus!
