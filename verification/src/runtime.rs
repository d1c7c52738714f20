//! Trusted boundary to the inference runtime.
//!
//! Everything this library takes on faith about the outside world stands in
//! this module: the opaque tensor and graph types of tract, and thin
//! wrappers around decoding, compiling and running a model.  Each wrapper's
//! body makes the outside call and converts its arguments and result,
//! nothing else; errors come back as human-readable strings for the
//! verified callers to classify.

use prost::Message;
use tract_onnx::prelude::Framework;
use tract_onnx::prelude::InferenceModelExt;
use tract_onnx::prelude::IntoRunnable;
use tract_onnx::prelude::IntoTensor;
use vstd::prelude::*;

use crate::tensor::{TensorI64, TensorI8};

verus! {

/// tract's multi-dimensional tensor, opaque here: the library only ever
/// threads whole values of it between steps.
#[verifier::external_type_specification]
#[verifier::external_body]
pub struct ExTensor(tract_onnx::prelude::Tensor);

/// A compiled, runnable model.  The plan type of tract carries trait
/// objects that cannot be declared to the verifier, so the whole struct is
/// opaque and every use of it goes through the wrappers below.
#[verifier::external_body]
pub struct CompiledModel {
    plan: std::sync::Arc<tract_onnx::prelude::TypedRunnableModel>,
}

/// Whether serialized model bytes decode and compile into a runnable
/// model.  Protobuf parsing and graph compilation read nothing but the
/// bytes, so this is a function of the bytes alone; what the compiled
/// model itself is stays opaque.
pub uninterp spec fn compiles_of(bytes: Seq<u8>) -> bool;

/// Relies on prost's `Message::decode` for tract's `ModelProto` and on
/// tract's `Framework::model_for_proto_model`,
/// `InferenceModelExt::into_optimized` and `IntoRunnable::into_runnable`:
/// parses the serialized graph and turns it into an optimized runnable
/// plan.  Parsing and compilation are deterministic in the bytes, so
/// success is exactly `compiles_of`; the intermediate models carry trait
/// objects the verifier cannot hold, so the chain shares one wrapper.
#[verifier::external_body]
pub(crate) fn load_model(bytes: &[u8]) -> (r: Result<CompiledModel, String>)
    ensures
        r is Ok <==> compiles_of(bytes@),
{
    let proto = tract_onnx::pb::ModelProto::decode(bytes).map_err(
        |e| format!("failed to decode model proto: {e}"),
    )?;
    let inference_model = tract_onnx::onnx().model_for_proto_model(&proto).map_err(
        |e| format!("unsupported or invalid graph: {e}"),
    )?;
    let typed_model = inference_model.into_optimized().map_err(
        |e| format!("failed to optimize model: {e}"),
    )?;
    let plan = typed_model.into_runnable().map_err(
        |e| format!("failed to make model runnable: {e}"),
    )?;
    Ok(CompiledModel { plan })
}

/// Relies on tract's `Tensor::zero_dt`: builds an all-zero 32-bit-float
/// tensor of the given five-dimensional shape (the recurrent cache).  The
/// callee multiplies the dimensions out unchecked, so the product must fit
/// a `usize`; when it is zero (the engine's zero-length sequence axis) the
/// callee takes a checked zero-byte allocation and succeeds.
#[verifier::external_body]
pub(crate) fn create_empty_past_key_values(
    num_layers: usize,
    batch_size: usize,
    num_heads: usize,
    seq_length: usize,
    head_dim: usize,
) -> (r: Result<tract_onnx::prelude::Tensor, String>)
    requires
        num_layers * batch_size * num_heads * seq_length * head_dim <= usize::MAX,
    ensures
        num_layers * batch_size * num_heads * seq_length * head_dim == 0 ==> r is Ok,
{
    let shape = [num_layers, batch_size, num_heads, seq_length, head_dim];
    match tract_onnx::prelude::Tensor::zero_dt(tract_onnx::prelude::DatumType::F32, &shape) {
        Ok(t) => Ok(t),
        Err(e) => Err(format!("failed to build cache tensor: {e}")),
    }
}

/// Relies on tract's `Tensor::from_shape`: copies a token-identifier
/// tensor into the runtime's representation.  The callee multiplies the
/// dimensions out unchecked and demands that they match the buffer, so the
/// shape must be the rank-2 row the library's builders produce; for such a
/// tensor the source shows no failing path.
#[verifier::external_body]
pub(crate) fn tract_tensor_i64(t: &TensorI64) -> (r: Result<tract_onnx::prelude::Tensor, String>)
    requires
        t.shape@ == seq![1usize, t.data@.len() as usize],
    ensures
        r is Ok,
{
    match tract_onnx::prelude::Tensor::from_shape(&t.shape, &t.data) {
        Ok(tensor) => Ok(tensor),
        Err(e) => Err(format!("failed to build input tensor: {e}")),
    }
}

/// Relies on tract's `Tensor::from_shape`: copies an attention-mask
/// tensor into the runtime's representation, under the same rank-2-row
/// condition and with the same owed success as the builder above.
#[verifier::external_body]
pub(crate) fn tract_tensor_i8(t: &TensorI8) -> (r: Result<tract_onnx::prelude::Tensor, String>)
    requires
        t.shape@ == seq![1usize, t.data@.len() as usize],
    ensures
        r is Ok,
{
    match tract_onnx::prelude::Tensor::from_shape(&t.shape, &t.data) {
        Ok(tensor) => Ok(tensor),
        Err(e) => Err(format!("failed to build mask tensor: {e}")),
    }
}

/// Relies on tract's `SimplePlan::run`: invokes the model once on the three
/// positional inputs (token identifiers, attention mask, recurrent cache),
/// reads element `[0, 0]` of the first output as the next token, and hands
/// the second output back wholesale as the new cache.  What the model
/// computes is opaque; the contract promises nothing about the outcome.
#[verifier::external_body]
pub(crate) fn run_model(
    model: &CompiledModel,
    input_ids: tract_onnx::prelude::Tensor,
    attention_mask: tract_onnx::prelude::Tensor,
    cache: &tract_onnx::prelude::Tensor,
) -> (r: Result<(i64, tract_onnx::prelude::Tensor), String>) {
    let inputs: tract_onnx::prelude::TVec<tract_onnx::prelude::TValue> =
        tract_onnx::prelude::TVec::from_vec(
        vec![input_ids.into(), attention_mask.into(), cache.clone().into()],
    );
    let outputs = model.plan.run(inputs).map_err(|e| format!("model invocation failed: {e}"))?;
    let first = outputs.first().ok_or("model returned no outputs")?;
    let view = first.to_plain_array_view::<i64>().map_err(
        |e| format!("first output is not an i64 tensor: {e}"),
    )?;
    let index = tract_onnx::prelude::tract_ndarray::IxDyn(&[0, 0]);
    let token = *view.get(index).ok_or("first output has no element [0, 0]")?;
    let second = outputs.get(1).ok_or("model returned no cache output")?;
    Ok((token, second.clone().into_tensor()))
}

} // verus!
