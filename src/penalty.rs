//! The window of recent tokens that the repeat penalty looks at.
use vstd::prelude::*;

verus! {

/// The last `n` tokens of `tokens` (all of them when there are fewer).
pub open spec fn trailing(tokens: Seq<u32>, n: nat) -> Seq<u32> {
    if tokens.len() <= n {
        tokens
    } else {
        tokens.subrange(tokens.len() - n, tokens.len() as int)
    }
}

/// Copies `tokens[from..]` into a new vector.
pub fn copy_from(tokens: &Vec<u32>, from: usize) -> (r: Vec<u32>)
    requires
        from <= tokens@.len(),
    ensures
        r@ == tokens@.subrange(from as int, tokens@.len() as int),
{
    let mut r: Vec<u32> = Vec::new();
    let mut i: usize = from;
    while i < tokens.len()
        invariant
            from <= i <= tokens@.len(),
            r@ == tokens@.subrange(from as int, i as int),
        decreases tokens@.len() - i,
    {
        r.push(tokens[i]);
        assert(r@ =~= tokens@.subrange(from as int, i + 1));
        i += 1;
    }
    r
}

/// The tokens that the repeat penalty considers: the trailing `repeat_last_n`
/// of the tokens generated so far.
pub fn penalty_window(tokens: &Vec<u32>, repeat_last_n: usize) -> (r: Vec<u32>)
    ensures
        r@ == trailing(tokens@, repeat_last_n as nat),
{
    let start = tokens.len().saturating_sub(repeat_last_n);
    let r = copy_from(tokens, start);
    assert(tokens@.len() <= repeat_last_n ==> r@ =~= tokens@);
    r
}

/// A window of size zero is empty, whatever was generated: the penalty then
/// touches no logit.
pub proof fn lemma_zero_window_is_empty(tokens: Seq<u32>)
    ensures
        trailing(tokens, 0) == Seq::<u32>::empty(),
{
    assert(trailing(tokens, 0) =~= Seq::<u32>::empty());
}

} // verus!
