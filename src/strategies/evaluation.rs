use vstd::prelude::*;

verus! {

/// An evaluator paired with a second evaluator that weighs it: the pair evaluates a state to the
/// product of the two evaluations.
pub struct Weighted<StrategyType, WeightType> {
    pub strategy: StrategyType,
    pub weight: WeightType,
}

impl<S, W> Weighted<S, W> {
    pub fn new(strategy: S, weight: W) -> (r: Weighted<S, W>)
        ensures
            r.strategy == strategy,
            r.weight == weight,
    {
        Weighted { strategy, weight }
    }
}

} // verus!
