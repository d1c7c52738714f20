//! The model registry: owns the single compiled model of the process and
//! makes it available, read-only, for repeated inference.

use vstd::prelude::*;

use crate::error::Error;
use crate::runtime::{compiles_of, load_model, CompiledModel};

verus! {

/// Holds at most one compiled model.  A successful `setup` replaces the
/// stored model wholesale; a failed one leaves the registry untouched.
pub struct ModelRegistry {
    model: Option<CompiledModel>,
}

impl ModelRegistry {
    /// A model has been set up and can be borrowed for inference.
    pub closed spec fn loaded(&self) -> bool {
        self.model is Some
    }

    /// The stored compiled model, if any.
    pub closed spec fn stored(&self) -> Option<CompiledModel> {
        self.model
    }

    /// An empty registry: nothing loaded yet.
    pub fn new() -> (r: ModelRegistry)
        ensures
            !r.loaded(),
    {
        ModelRegistry { model: None }
    }

    /// Grants read-only access to the currently loaded model for the
    /// duration of one inference call; answers `None` when no model has
    /// been set up.
    pub fn model(&self) -> (r: Option<&CompiledModel>)
        ensures
            r is Some <==> self.loaded(),
            r matches Some(m) ==> self.stored() == Some(*m),
    {
        self.model.as_ref()
    }
}

/// Decodes raw serialized bytes into a model description, compiles and
/// optimizes it into a runnable model, and atomically replaces any
/// previously stored model.  Loading succeeds exactly when the bytes
/// decode and compile (`compiles_of`); both failure modes — malformed
/// bytes and an unsupported or invalid graph — surface as `ModelLoadError`
/// with a human-readable cause, and leave the registry exactly as it was.
pub fn setup(registry: &mut ModelRegistry, model_bytes: &[u8]) -> (r: Result<(), Error>)
    ensures
        r is Ok <==> compiles_of(model_bytes@),
        r is Ok ==> final(registry).loaded(),
        r matches Err(e) ==> e is ModelLoadError && *final(registry) == *old(registry),
{
    let compiled = match load_model(model_bytes) {
        Ok(m) => m,
        Err(cause) => return Err(Error::ModelLoadError(cause)),
    };
    registry.model = Some(compiled);
    Ok(())
}

/// The registry carries no state besides the stored model: two registries
/// holding the same compiled model are indistinguishable.  Together with
/// `setup`'s contract — success is exactly `compiles_of` of the bytes, so
/// a second load of the same bytes succeeds whenever the first did — this
/// pins down load idempotence as far as the verified boundary reaches:
/// equivalence of the two resulting states reduces to equality of the
/// compiled plans, and what the runtime compiles stays opaque here.
pub proof fn lemma_registry_state_is_stored_model(r1: ModelRegistry, r2: ModelRegistry)
    requires
        r1.stored() == r2.stored(),
    ensures
        r1 == r2,
{
}

} // verus!

