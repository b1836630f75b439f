//! The per-request collaborators that turn logits into tokens and tokens into
//! text: the seeded sampler and the incremental detokenizer. Their outcomes are
//! reported to the decoder as [`Event`]s.
use vstd::prelude::*;
use candle_core::Tensor;
use candle_examples::token_output_stream::TokenOutputStream;
use candle_transformers::generation::LogitsProcessor;
use crate::engine::{Event, GenerationError};

verus! {

#[verifier::external_type_specification]
#[verifier::external_body]
pub struct ExTensor(Tensor);

/// Declared because `Tensor`'s operator impls name it; no signature here does.
#[verifier::external_type_specification]
#[verifier::external_body]
pub struct ExCandleError(candle_core::Error);

#[verifier::external_type_specification]
#[verifier::external_body]
pub struct ExTokenOutputStream(TokenOutputStream);

#[verifier::external_type_specification]
#[verifier::external_body]
pub struct ExLogitsProcessor(LogitsProcessor);

/// The length of a tensor that has exactly one dimension; `None` for any
/// other rank.
pub uninterp spec fn vector_len(t: Tensor) -> Option<nat>;

/// The tokens a detokenizer stream still buffers: those it has not yet
/// emitted as complete text (its `tokens[prev_index..]`).
pub uninterp spec fn pending_tokens(s: TokenOutputStream) -> Seq<u32>;

/// Relies on `Tensor::dims1`: the only dimension of a rank-one tensor, an
/// error for any other rank.
#[verifier::external_body]
fn vector_length(t: &Tensor) -> (r: Option<usize>)
    ensures
        match r {
            Some(n) => vector_len(*t) == Some(n as nat),
            None => vector_len(*t) is None,
        },
{
    t.dims1().ok()
}

/// Relies on `TokenOutputStream::next_token`: appends the token to the
/// stream's buffer and returns the fragment that became printable, if any;
/// `None` stands for its decoding error. When nothing is emitted the token
/// joins the pending ones; when a fragment is emitted, the pending tokens
/// restart after the last emitted ones and end with this token.
#[verifier::external_body]
fn stream_next_token(stream: &mut TokenOutputStream, token: u32) -> (r: Option<Option<String>>)
    ensures
        match r {
            Some(Some(_)) => {
                &&& pending_tokens(*final(stream)).len() > 0
                &&& pending_tokens(*final(stream)).last() == token
            },
            Some(None) => pending_tokens(*final(stream)) == pending_tokens(*old(stream)).push(token),
            None => true,
        },
{
    stream.next_token(token).ok()
}

/// Relies on `TokenOutputStream::decode_rest`: the text of the pending
/// tokens not yet emitted, if any; `None` stands for its decoding error.
#[verifier::external_body]
fn stream_decode_rest(stream: &TokenOutputStream) -> (r: Option<Option<String>>) {
    stream.decode_rest().ok()
}

/// Relies on `TokenOutputStream::clear`: empties the stream's buffer.
#[verifier::external_body]
fn stream_clear(stream: &mut TokenOutputStream)
    ensures
        pending_tokens(*final(stream)) == Seq::<u32>::empty(),
{
    stream.clear()
}

/// Relies on `LogitsProcessor::sample`: draws one token id from the logits
/// with the processor's strategy and seeded generator; `None` stands for its
/// error. The non-greedy strategies take a softmax over the last dimension,
/// so the logits must be a non-empty vector.
#[verifier::external_body]
fn processor_sample(sampler: &mut LogitsProcessor, logits: &Tensor) -> (r: Option<u32>)
    requires
        match vector_len(*logits) {
            Some(n) => n > 0,
            None => false,
        },
{
    sampler.sample(logits).ok()
}

/// Hands a sampled token to the detokenizer and reports what came of it: the
/// emitted fragment, or a decoding failure.
pub fn push_token(stream: &mut TokenOutputStream, token: u32) -> (e: Event)
    ensures
        match e {
            Event::Pushed(Some(_)) => {
                &&& pending_tokens(*final(stream)).len() > 0
                &&& pending_tokens(*final(stream)).last() == token
            },
            Event::Pushed(None) => pending_tokens(*final(stream)) == pending_tokens(
                *old(stream),
            ).push(token),
            Event::Failed(GenerationError::Decode) => true,
            _ => false,
        },
{
    match stream_next_token(stream, token) {
        Some(fragment) => Event::Pushed(fragment),
        None => Event::Failed(GenerationError::Decode),
    }
}

/// Flushes what the detokenizer still buffers and reports what came of it.
pub fn flush_stream(stream: &TokenOutputStream) -> (e: Event)
    ensures
        match e {
            Event::Flushed(_) | Event::Failed(GenerationError::Decode) => true,
            _ => false,
        },
{
    match stream_decode_rest(stream) {
        Some(rest) => Event::Flushed(rest),
        None => Event::Failed(GenerationError::Decode),
    }
}

/// Empties the detokenizer, so that no buffered token crosses from one
/// request to the next.
pub fn restart_stream(stream: &mut TokenOutputStream)
    ensures
        pending_tokens(*final(stream)) == Seq::<u32>::empty(),
{
    stream_clear(stream)
}

/// Samples the next token from the (already penalized) logits and reports
/// what came of it. Logits that are not a non-empty vector are a sampling
/// failure, found before the sampler is asked.
pub fn sample_token(sampler: &mut LogitsProcessor, logits: &Tensor) -> (e: Event)
    ensures
        match vector_len(*logits) {
            Some(n) => n == 0 ==> e is Failed,
            None => e is Failed,
        },
        match e {
            Event::Sampled(_) | Event::Failed(GenerationError::Sampling) => true,
            _ => false,
        },
{
    match vector_length(logits) {
        Some(n) => {
            if n == 0 {
                return Event::Failed(GenerationError::Sampling);
            }
        },
        None => return Event::Failed(GenerationError::Sampling),
    }
    match processor_sample(sampler, logits) {
        Some(t) => Event::Sampled(t),
        None => Event::Failed(GenerationError::Sampling),
    }
}

} // verus!
