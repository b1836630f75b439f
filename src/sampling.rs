//! Choice of the sampling strategy from the request's optional parameters.
use vstd::prelude::*;

verus! {

/// The closed set of sampling strategies. The temperature and the nucleus
/// threshold that the non-greedy strategies use travel beside this tag.
#[derive(Clone, Copy, Debug, PartialEq, Eq)]
pub enum Strategy {
    /// Pick the highest logit.
    ArgMax,
    /// Sample from the whole distribution.
    All,
    /// Sample among the `k` most likely tokens.
    TopK(usize),
    /// Sample from the nucleus.
    TopP,
    /// Keep the `k` most likely tokens, then sample from their nucleus.
    TopKThenTopP(usize),
}

/// The strategy a request gets: greedy whenever its temperature is not
/// positive, whatever else it asks for; otherwise by which of top-k and
/// top-p it sets.
pub open spec fn strategy_for(greedy: bool, top_k: Option<usize>, top_p: bool) -> Strategy {
    if greedy {
        Strategy::ArgMax
    } else {
        match (top_k, top_p) {
            (None, false) => Strategy::All,
            (Some(k), false) => Strategy::TopK(k),
            (None, true) => Strategy::TopP,
            (Some(k), true) => Strategy::TopKThenTopP(k),
        }
    }
}

/// Selects the sampling strategy. `greedy` says that the temperature is not
/// positive; `top_p` says that a nucleus threshold is set.
pub fn select_strategy(greedy: bool, top_k: Option<usize>, top_p: bool) -> (r: Strategy)
    ensures
        r == strategy_for(greedy, top_k, top_p),
        greedy <==> r == Strategy::ArgMax,
{
    if greedy {
        Strategy::ArgMax
    } else {
        match (top_k, top_p) {
            (None, false) => Strategy::All,
            (Some(k), false) => Strategy::TopK(k),
            (None, true) => Strategy::TopP,
            (Some(k), true) => Strategy::TopKThenTopP(k),
        }
    }
}

} // verus!
