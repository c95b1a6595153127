use vstd::prelude::*;

pub mod evaluation;

verus! {

/// Strategy for choosing a decision of type `ActionType` from a state of type `StateType`.
pub trait Strategy<StateType, ActionType> {
    /// The decision that this strategy, as it stands, makes on `state`.
    spec fn answer(&self, state: StateType) -> ActionType;

    /// Returns a decision based on the referenced state.
    fn decide(&mut self, state: &StateType) -> (r: ActionType)
        ensures
            r == old(self).answer(*state),
    ;
}

} // verus!
