//! Generation engine of a quantized language-model text-generation service.
//!
//! The decode loop is a verified state machine ([`engine`]): it decides every
//! forward pass, penalty window, detokenizer step and cache reset of a
//! request. The library starts requests with the tokenizer ([`request`]),
//! runs the transformer ([`runtime`]), the seeded sampler and the incremental
//! detokenizer ([`stream`]); the floating-point repeat penalty and the
//! transport are left to the program that drives the loop.
pub mod engine;
pub mod model;
pub mod penalty;
pub mod request;
pub mod runtime;
pub mod post;
pub mod sampling;
pub mod stream;
