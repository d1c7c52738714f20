//! The generation engine: a bounded autoregressive decode loop.
//!
//! Each step materializes the current token identifiers and attention mask
//! as rank-2 tensors, invokes the model on them together with the recurrent
//! cache, and either stops on the sentinel token or appends the generated
//! token and carries the model's returned cache forward, wholesale, into
//! the next step.

use vstd::prelude::*;

use crate::error::Error;
use crate::registry::ModelRegistry;
use crate::runtime::{create_empty_past_key_values, run_model, tract_tensor_i64, tract_tensor_i8};
use crate::tensor::{create_tensor_i64, create_tensor_i8};
use tract_onnx::prelude::Tensor;

verus! {

/// End-of-sequence sentinel: generation stops when the model produces it,
/// without the sentinel being appended to the output.
pub const STOP_TOKEN: i64 = 50256;

/// Layer count of the recurrent cache, fixed by the model architecture.
pub const NUM_LAYERS: usize = 24;

/// Batch size of the recurrent cache: one request at a time.
pub const BATCH_SIZE: usize = 1;

/// Attention-head count of the recurrent cache.
pub const NUM_HEADS: usize = 12;

/// Per-head dimension of the recurrent cache.
pub const HEAD_DIM: usize = 64;

/// The state of one inference call's decode loop.
pub struct GenerationState {
    /// Tokens to feed on the current step: the whole seed on the first
    /// step, then just the newly generated token.
    pub input_ids: Vec<i64>,
    /// One entry per token ever fed or generated, all ones; grows by one
    /// element per completed step.
    pub attention_mask: Vec<i8>,
    /// Generated tokens, append-only; what the caller receives.
    pub output_ids: Vec<i64>,
    /// The recurrent key/value cache, opaque to the engine: initialized
    /// all-zero with a zero-length sequence axis, then replaced wholesale
    /// by the model's returned cache after every step.
    pub cache: Tensor,
}

/// Builds the initial decode state for a seed sequence: the seed as the
/// first input, an all-ones mask of the same length, no output yet, and an
/// all-zero cache with zero sequence length.  This succeeds for every
/// seed: the cache's zero-length sequence axis makes its element count
/// zero, which the runtime is owed to accept.
pub fn init_state(seed_tokens: Vec<i64>) -> (r: Result<GenerationState, Error>)
    ensures
        r is Ok,
        r matches Ok(s) ==> s.input_ids@ == seed_tokens@ && s.attention_mask@ == Seq::new(
            seed_tokens@.len(),
            |i: int| 1i8,
        ) && s.output_ids@ == Seq::<i64>::empty(),
{
    let cache = match create_empty_past_key_values(NUM_LAYERS, BATCH_SIZE, NUM_HEADS, 0, HEAD_DIM) {
        Ok(t) => t,
        Err(_) => return Err(Error::TensorShapeError),
    };
    let n = seed_tokens.len();
    let mut attention_mask: Vec<i8> = Vec::new();
    let mut i: usize = 0;
    while i < n
        invariant
            i <= n,
            attention_mask@ == Seq::new(i as nat, |j: int| 1i8),
        decreases n - i,
    {
        attention_mask.push(1);
        i += 1;
        proof {
            assert(attention_mask@ =~= Seq::new(i as nat, |j: int| 1i8));
        }
    }
    Ok(
        GenerationState {
            input_ids: seed_tokens,
            attention_mask,
            output_ids: Vec::new(),
            cache,
        },
    )
}

/// One decode-loop transition, fed with what the model returned for the
/// step: the next token and the updated cache.  The returned cache is
/// adopted wholesale — the state's cache after the call is exactly
/// `new_cache`, never merged or recomputed.  If the token is the sentinel,
/// the step reports a stop and appends nothing; otherwise the token is
/// appended to the output, becomes the sole input of the next step, and the
/// mask grows by one.
pub fn advance(state: &mut GenerationState, next_token: i64, new_cache: Tensor) -> (stop: bool)
    ensures
        final(state).cache == new_cache,
        stop == (next_token == STOP_TOKEN),
        stop ==> final(state).input_ids@ == old(state).input_ids@,
        stop ==> final(state).attention_mask@ == old(state).attention_mask@,
        stop ==> final(state).output_ids@ == old(state).output_ids@,
        !stop ==> final(state).input_ids@ == seq![next_token],
        !stop ==> final(state).attention_mask@ == old(state).attention_mask@.push(1i8),
        !stop ==> final(state).output_ids@ == old(state).output_ids@.push(next_token),
{
    state.cache = new_cache;
    if next_token == STOP_TOKEN {
        true
    } else {
        let mut next_input: Vec<i64> = Vec::new();
        next_input.push(next_token);
        proof {
            assert(next_input@ =~= seq![next_token]);
        }
        state.input_ids = next_input;
        state.attention_mask.push(1);
        state.output_ids.push(next_token);
        false
    }
}

/// Runs the bounded autoregressive decode loop: borrows the stored model,
/// invokes it up to `max_tokens` times, threads the recurrent cache from
/// each step into the next, and returns the generated tokens — stopping
/// early, with nothing appended, when the model produces the sentinel.
/// Every completed step before the sentinel contributes exactly one token
/// (the loop invariant ties the output length to the step count), so the
/// output never exceeds the budget, and the sentinel itself never appears
/// in it.  Fails with `ModelNotLoaded` (and nothing else) exactly when no
/// model has been set up, in which case no tensor is built and the model
/// is never invoked; the only other failure is a rejected model
/// invocation.
pub fn create_tensor_and_run_model(
    registry: &ModelRegistry,
    max_tokens: u8,
    token_ids: Vec<i64>,
) -> (r: Result<Vec<i64>, Error>)
    ensures
        !registry.loaded() <==> r == Err::<Vec<i64>, Error>(Error::ModelNotLoaded),
        r matches Ok(out) ==> out@.len() <= max_tokens as int,
        r matches Ok(out) ==> forall|i: int| 0 <= i < out@.len() ==> out@[i] != STOP_TOKEN,
        registry.loaded() && max_tokens == 0 ==> (r matches Ok(out) && out@.len() == 0),
        r matches Err(e) ==> e is ModelNotLoaded || e is InferenceRuntimeError,
{
    let model = match registry.model() {
        Some(m) => m,
        None => return Err(Error::ModelNotLoaded),
    };
    if max_tokens == 0 {
        return Ok(Vec::new());
    }
    let ghost seed = token_ids@;
    let mut state = match init_state(token_ids) {
        Ok(s) => s,
        Err(e) => return Err(e),
    };
    let mut steps: u8 = 0;
    while steps < max_tokens
        invariant_except_break
            state.output_ids@.len() == steps as int,
        invariant
            registry.loaded(),
            steps <= max_tokens,
            state.attention_mask@.len() == seed.len() + state.output_ids@.len(),
            forall|i: int| 0 <= i < state.output_ids@.len() ==> state.output_ids@[i] != STOP_TOKEN,
        ensures
            state.output_ids@.len() <= max_tokens as int,
            forall|i: int| 0 <= i < state.output_ids@.len() ==> state.output_ids@[i] != STOP_TOKEN,
        decreases max_tokens - steps,
    {
        let input_tensor = match create_tensor_i64(&state.input_ids) {
            Ok(t) => t,
            Err(e) => return Err(e),
        };
        let mask_tensor = match create_tensor_i8(&state.attention_mask) {
            Ok(t) => t,
            Err(e) => return Err(e),
        };
        let ids = match tract_tensor_i64(&input_tensor) {
            Ok(t) => t,
            Err(cause) => return Err(Error::InferenceRuntimeError(cause)),
        };
        let mask = match tract_tensor_i8(&mask_tensor) {
            Ok(t) => t,
            Err(cause) => return Err(Error::InferenceRuntimeError(cause)),
        };
        let step = match run_model(model, ids, mask, &state.cache) {
            Ok(p) => p,
            Err(cause) => return Err(Error::InferenceRuntimeError(cause)),
        };
        let stop = advance(&mut state, step.0, step.1);
        steps += 1;
        if stop {
            break;
        }
    }
    Ok(state.output_ids)
}

} // verus!

