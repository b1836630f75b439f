//! Starting a request: the prompt is wrapped in the model's template, encoded
//! by the tokenizer, and handed with the end-of-text token to a new decoder.
use vstd::prelude::*;
use candle_examples::token_output_stream::TokenOutputStream;
use tokenizers::Tokenizer;
use crate::engine::{budget, initial, wf, DecodeConfig, Decoder};
use crate::model::{eos_token, format_prompt, Which};
use crate::stream::{pending_tokens, restart_stream};

verus! {

#[verifier::external_type_specification]
#[verifier::external_body]
pub struct ExTokenizer(Tokenizer);

/// Why a request could not start.
#[derive(Clone, Copy, Debug, PartialEq, Eq)]
pub enum RequestError {
    /// The tokenizer could not encode the prompt.
    Encode,
    /// The model's end-of-text marker is not in the vocabulary.
    UnknownStopToken,
    /// The encoded prompt holds no token.
    EmptyPrompt,
    /// The prompt and the token budget do not fit the cache positions.
    TooLong,
}

/// The request's decode settings, the end-of-text token aside.
#[derive(Clone, Copy, Debug, PartialEq, Eq)]
pub struct RequestSettings {
    pub max_new_tokens: usize,
    pub repeat_last_n: usize,
    pub penalize: bool,
    pub split_prompt: bool,
}

pub open spec fn config_of(s: RequestSettings, stop_token: u32) -> DecodeConfig {
    DecodeConfig {
        max_new_tokens: s.max_new_tokens,
        repeat_last_n: s.repeat_last_n,
        penalize: s.penalize,
        split_prompt: s.split_prompt,
        stop_token,
    }
}

/// Relies on `TokenOutputStream::tokenizer`: the tokenizer the stream decodes with.
#[verifier::external_body]
fn stream_tokenizer(stream: &TokenOutputStream) -> (r: &Tokenizer) {
    stream.tokenizer()
}

/// Relies on `Tokenizer::encode` with special tokens added: the token ids of
/// the text; `None` stands for its error.
#[verifier::external_body]
fn encode_ids(tokenizer: &Tokenizer, text: String) -> (r: Option<Vec<u32>>) {
    match tokenizer.encode(text, true) {
        Ok(encoding) => Some(encoding.get_ids().to_vec()),
        Err(_) => None,
    }
}

/// Relies on `Tokenizer::get_vocab` with added tokens: the id of a vocabulary
/// entry, if it is one.
#[verifier::external_body]
fn vocab_id(tokenizer: &Tokenizer, token: &str) -> (r: Option<u32>) {
    tokenizer.get_vocab(true).get(token).copied()
}

/// A decoder for the encoded prompt `ids`, ending on `stop_token`: refused
/// when there is no prompt token to feed, or when the prompt and the token
/// budget do not fit the cache positions.
pub fn decoder_for(ids: Vec<u32>, stop_token: u32, settings: RequestSettings) -> (r: Result<
    Decoder,
    RequestError,
>)
    ensures
        r is Ok <==> 0 < ids@.len() && ids@.len() + budget(config_of(settings, stop_token))
            <= usize::MAX,
        ids@.len() == 0 ==> r == Err::<Decoder, RequestError>(RequestError::EmptyPrompt),
        ids@.len() > 0 && r is Err ==> r == Err::<Decoder, RequestError>(RequestError::TooLong),
        r is Ok ==> r.unwrap()@ == initial(config_of(settings, stop_token), ids@),
        r is Ok ==> wf(r.unwrap()@),
{
    let config = DecodeConfig {
        max_new_tokens: settings.max_new_tokens,
        repeat_last_n: settings.repeat_last_n,
        penalize: settings.penalize,
        split_prompt: settings.split_prompt,
        stop_token,
    };
    if ids.len() == 0 {
        return Err(RequestError::EmptyPrompt);
    }
    let limit: usize = if settings.max_new_tokens == 0 { 1 } else { settings.max_new_tokens };
    assert(limit == budget(config));
    if ids.len() > usize::MAX - limit {
        return Err(RequestError::TooLong);
    }
    Ok(Decoder::new(config, ids))
}

/// Starts a request on `prompt`: empties the detokenizer, encodes the prompt
/// in the model's instruction template, looks up the end-of-text token, and
/// hands both to [`decoder_for`].
pub fn start_request(
    stream: &mut TokenOutputStream,
    which: Which,
    prompt: &str,
    settings: RequestSettings,
) -> (r: Result<Decoder, RequestError>)
    ensures
        pending_tokens(*final(stream)) == Seq::<u32>::empty(),
        match r {
            Ok(d) => {
                &&& d@ == initial(config_of(settings, d@.config.stop_token), d@.prompt)
                &&& d@.prompt.len() > 0
                &&& wf(d@)
            },
            Err(_) => true,
        },
{
    restart_stream(stream);
    let text = format_prompt(which, prompt);
    let tokenizer = stream_tokenizer(stream);
    let ids = match encode_ids(tokenizer, text) {
        Some(ids) => ids,
        None => return Err(RequestError::Encode),
    };
    let stop_token = match vocab_id(tokenizer, eos_token(which)) {
        Some(id) => id,
        None => return Err(RequestError::UnknownStopToken),
    };
    decoder_for(ids, stop_token, settings)
}

} // verus!
