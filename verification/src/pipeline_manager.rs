//! Handle bundles produced by the pipeline collaborator.
//!
//! Pipeline and descriptor-set construction is fixed-function assembly
//! outside this core; what the passes consume are the opaque handles
//! bundled here.

use vstd::prelude::*;

verus! {

/// The lighting-composite pass's pipeline, its layout, and the descriptor
/// set binding its four sampled inputs.
#[derive(Clone, Copy, PartialEq, Eq, Structural, Debug)]
pub struct DeferredLightningMaterial {
    pub pipeline: u64,
    pub layout: u64,
    pub set: u64,
}

/// The shadow pass's pipeline and layout.
#[derive(Clone, Copy, PartialEq, Eq, Structural, Debug)]
pub struct ShadowMapMaterial {
    pub pipeline: u64,
    pub layout: u64,
}

} // verus!
