use candle_core::{Device, Tensor};
use candle_examples::token_output_stream::TokenOutputStream;
use candle_transformers::generation::{LogitsProcessor, Sampling};
use std::collections::HashMap;
use tokenizers::models::wordlevel::WordLevel;
use tokenizers::pre_tokenizers::whitespace::Whitespace;
use tokenizers::{AddedToken, Tokenizer};
use warp_llm::engine::{Action, CacheState, Event, GenerationError, Phase};
use warp_llm::model::Which;
use warp_llm::request::{decoder_for, start_request, RequestError, RequestSettings};
use warp_llm::stream::{flush_stream, push_token, restart_stream, sample_token};

fn tokenizer(with_end_marker: bool) -> Tokenizer {
    let mut vocab = HashMap::new();
    vocab.insert("[UNK]".to_string(), 0u32);
    vocab.insert("hello".to_string(), 1);
    vocab.insert("world".to_string(), 2);
    let model = WordLevel::builder().vocab(vocab.into_iter().collect()).unk_token("[UNK]".to_string()).build().unwrap();
    let mut tok = Tokenizer::new(model);
    tok.with_pre_tokenizer(Some(Whitespace {}));
    if with_end_marker {
        tok.add_special_tokens(&[AddedToken::from("<|im_end|>", true)]);
    }
    tok
}

fn settings(max_new_tokens: usize) -> RequestSettings {
    RequestSettings { max_new_tokens, repeat_last_n: 64, penalize: false, split_prompt: false }
}

#[test]
fn detokenizer_emits_fragments_in_order() {
    let mut stream = TokenOutputStream::new(tokenizer(true));
    assert!(matches!(push_token(&mut stream, 1), Event::Pushed(Some(ref f)) if f == "hello"));
    assert!(matches!(push_token(&mut stream, 2), Event::Pushed(Some(ref f)) if f == " world"));
    assert!(matches!(flush_stream(&stream), Event::Flushed(None)));
}

#[test]
fn restarted_detokenizer_forgets_buffer() {
    let mut stream = TokenOutputStream::new(tokenizer(true));
    assert!(matches!(push_token(&mut stream, 1), Event::Pushed(Some(_))));
    restart_stream(&mut stream);
    assert!(matches!(push_token(&mut stream, 2), Event::Pushed(Some(ref f)) if f == "world"));
}

#[test]
fn greedy_sampling_is_argmax_whatever_the_seed() {
    let logits = Tensor::new(&[0.1f32, 2.5, -1.0, 0.7], &Device::Cpu).unwrap();
    for seed in [0u64, 1, 299792458] {
        let mut sampler = LogitsProcessor::from_sampling(seed, Sampling::ArgMax);
        assert!(matches!(sample_token(&mut sampler, &logits), Event::Sampled(1)));
    }
}

#[test]
fn seeded_sampling_is_reproducible() {
    let logits = Tensor::new(&[0.5f32, 0.4, 0.3, 0.2, 0.1], &Device::Cpu).unwrap();
    let draw = |seed: u64| {
        let mut sampler = LogitsProcessor::from_sampling(seed, Sampling::All { temperature: 1.0 });
        let mut out = Vec::new();
        for _ in 0..8 {
            match sample_token(&mut sampler, &logits) {
                Event::Sampled(t) => out.push(t),
                _ => panic!("sampling failed"),
            }
        }
        out
    };
    assert_eq!(draw(42), draw(42));
}

#[test]
fn sampling_empty_logits_fails() {
    let logits = Tensor::new(&[] as &[f32], &Device::Cpu).unwrap();
    let mut sampler = LogitsProcessor::from_sampling(7, Sampling::ArgMax);
    assert!(matches!(
        sample_token(&mut sampler, &logits),
        Event::Failed(GenerationError::Sampling)
    ));
}

fn all_strategies() -> Vec<Sampling> {
    vec![
        Sampling::ArgMax,
        Sampling::All { temperature: 0.8 },
        Sampling::TopK { k: 3, temperature: 0.8 },
        Sampling::TopP { p: 0.9, temperature: 0.8 },
        Sampling::TopKThenTopP { k: 3, p: 0.9, temperature: 0.8 },
    ]
}

#[test]
fn sampling_empty_logits_fails_for_every_strategy() {
    let logits = Tensor::new(&[] as &[f32], &Device::Cpu).unwrap();
    for strategy in all_strategies() {
        let mut sampler = LogitsProcessor::from_sampling(7, strategy);
        assert!(matches!(
            sample_token(&mut sampler, &logits),
            Event::Failed(GenerationError::Sampling)
        ));
    }
}

#[test]
fn sampling_scalar_logits_fails_for_every_strategy() {
    let logits = Tensor::new(1.5f32, &Device::Cpu).unwrap();
    for strategy in all_strategies() {
        let mut sampler = LogitsProcessor::from_sampling(7, strategy);
        assert!(matches!(
            sample_token(&mut sampler, &logits),
            Event::Failed(GenerationError::Sampling)
        ));
    }
}

#[test]
fn sampling_nonempty_logits_succeeds_for_every_strategy() {
    let logits = Tensor::new(&[0.2f32, 1.0, 0.4, -0.3], &Device::Cpu).unwrap();
    for strategy in all_strategies() {
        let mut sampler = LogitsProcessor::from_sampling(11, strategy);
        assert!(matches!(sample_token(&mut sampler, &logits), Event::Sampled(t) if t < 4));
    }
}

#[test]
fn decoder_for_accepts_fitting_prompt() {
    let d = decoder_for(vec![4, 5], 9, settings(3)).unwrap();
    assert_eq!(d.phase(), Phase::Prompt(0));
    match d.action() {
        Action::Forward(f) => assert_eq!(f.input, vec![4, 5]),
        _ => panic!("expected a forward pass"),
    }
}

#[test]
fn decoder_for_refuses_empty_prompt() {
    assert_eq!(decoder_for(vec![], 9, settings(3)).err(), Some(RequestError::EmptyPrompt));
}

#[test]
fn decoder_for_refuses_overflowing_budget() {
    assert_eq!(
        decoder_for(vec![1, 2], 9, settings(usize::MAX - 1)).err(),
        Some(RequestError::TooLong)
    );
    assert!(decoder_for(vec![1], 9, settings(usize::MAX - 1)).is_ok());
}

#[test]
fn request_start_empties_detokenizer() {
    let mut stream = TokenOutputStream::new(tokenizer(true));
    assert!(matches!(push_token(&mut stream, 1), Event::Pushed(Some(_))));
    start_request(&mut stream, Which::W2_0_5b, "hello", settings(5)).unwrap();
    assert!(matches!(push_token(&mut stream, 2), Event::Pushed(Some(ref f)) if f == "world"));
}

#[test]
fn request_starts_with_encoded_template() {
    let mut stream = TokenOutputStream::new(tokenizer(true));
    let d = start_request(&mut stream, Which::W2_0_5b, "hello world", settings(5)).unwrap();
    assert_eq!(d.phase(), Phase::Prompt(0));
    assert_eq!(d.cache(), CacheState::Empty);
    assert!(d.generated().is_empty());
    match d.action() {
        Action::Forward(f) => {
            assert_eq!(f.input, vec![0, 0, 0, 0, 1, 2, 3, 0, 0, 0, 0]);
            assert_eq!(f.position, 0);
            assert!(f.sample);
            assert!(f.penalty_window.is_none());
        }
        _ => panic!("expected a forward pass"),
    }
}

#[test]
fn request_stops_on_end_marker_id() {
    let mut stream = TokenOutputStream::new(tokenizer(true));
    let mut d = start_request(&mut stream, Which::W2_7b, "hello", settings(50)).unwrap();
    d.advance(Event::Sampled(3));
    d.advance(push_token(&mut stream, 3));
    assert_eq!(d.phase(), Phase::Flush);
}

#[test]
fn request_without_end_marker_is_refused() {
    let mut stream = TokenOutputStream::new(tokenizer(false));
    let r = start_request(&mut stream, Which::W2_0_5b, "hello", settings(5));
    assert_eq!(r.err(), Some(RequestError::UnknownStopToken));
}

#[test]
fn request_too_long_is_refused() {
    let mut stream = TokenOutputStream::new(tokenizer(true));
    let r = start_request(&mut stream, Which::W2_0_5b, "hello", settings(usize::MAX));
    assert_eq!(r.err(), Some(RequestError::TooLong));
}
