use vstd::prelude::*;

verus! {

/// A type that holds the shared storage of a state machine and names its
/// state type and initial state.
///
/// Users implement this trait for their storage type.
pub trait IntoStateMachine: Sized {
    /// The enumeration of the machine's states.
    type State;

    /// The state a fresh machine starts in.
    const INITIAL: Self::State;
}

} // verus!
