//! Verified core of an ONNX-backed autoregressive token-generation service.
//!
//! The crate is split into a model registry, which owns the one compiled
//! model of the process, and a generation engine, which drives the model
//! through a bounded decode loop.  Calls into the inference runtime (tract)
//! and the protobuf decoder (prost) stand behind trusted wrappers in
//! `runtime`; everything around them is verified.

pub mod engine;
pub mod error;
pub mod registry;
pub mod runtime;
pub mod tensor;

pub use engine::{
    advance, create_tensor_and_run_model, init_state, GenerationState, BATCH_SIZE, HEAD_DIM,
    NUM_HEADS, NUM_LAYERS, STOP_TOKEN,
};
pub use error::Error;
pub use registry::{setup, ModelRegistry};
pub use tensor::{TensorI64, TensorI8, create_tensor_i64, create_tensor_i8};
