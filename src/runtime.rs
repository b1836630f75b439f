//! The transformer runtime's one operation: next-token logits for a batch of
//! token ids at a cache position.
use vstd::prelude::*;
use candle_core::{Device, Tensor};
use candle_transformers::models::quantized_qwen2::ModelWeights;
use crate::engine::GenerationError;

verus! {

#[verifier::external_type_specification]
#[verifier::external_body]
pub struct ExDevice(Device);

#[verifier::external_type_specification]
#[verifier::external_body]
pub struct ExModelWeights(ModelWeights);

/// Relies on `quantized_qwen2::ModelWeights::forward`, fed the ids as a batch
/// of one (`Tensor::new`, `unsqueeze`) and answered without the batch
/// dimension (`squeeze`): the logits of the last input position, every
/// layer's cache extended from `position`; `None` stands for an error. The
/// forward pass indexes the last input position, so the ids must not be
/// empty.
#[verifier::external_body]
fn model_forward(
    model: &mut ModelWeights,
    device: &Device,
    ids: &Vec<u32>,
    position: usize,
) -> (r: Option<Tensor>)
    requires
        ids@.len() > 0,
{
    let x = Tensor::new(ids.as_slice(), device).and_then(|t| t.unsqueeze(0)).ok()?;
    model.forward(&x, position).and_then(|l| l.squeeze(0)).ok()
}

/// Runs the transformer on `input` at cache `position` and returns the
/// next-token logits. An empty input is refused before the runtime is
/// touched; any failure of the runtime is an inference error.
pub fn next_logits(
    model: &mut ModelWeights,
    device: &Device,
    input: &Vec<u32>,
    position: usize,
) -> (r: Result<Tensor, GenerationError>)
    ensures
        input@.len() == 0 ==> r is Err,
        match r {
            Ok(_) => true,
            Err(e) => e == GenerationError::Inference,
        },
{
    if input.len() == 0 {
        return Err(GenerationError::Inference);
    }
    match model_forward(model, device, input, position) {
        Some(t) => Ok(t),
        None => Err(GenerationError::Inference),
    }
}

} // verus!
