//! A stereo frame-staging renderer: one externally bound source image is
//! sampled twice, through one crop window, into a framebuffer per eye.
//!
//! The library decides every GPU call and hands them out as [`gpu::GpuCommand`]
//! lists: [`setup`] builds a renderer step by step from the driver's answers,
//! [`renderer::StagingRenderer::render`] gives the commands of one frame and
//! [`renderer::StagingRenderer::teardown`] those that release what it owns.
//! [`gpu::run`] models what the commands do to the pipeline state.
use vstd::prelude::*;

pub mod eye;
pub mod frame;
pub mod gpu;
pub mod renderer;
pub mod setup;

verus! {

} // verus!
