use vstd::prelude::*;
use crate::frame::CropRect;

verus! {

/// One GPU call, with every object named by its raw handle.
#[derive(Clone, Copy, Debug, PartialEq, Eq, Structural)]
pub enum GpuCommand {
    /// Make the renderer's context current on the calling thread.
    MakeCurrent,
    DeleteShader(u32),
    DeleteProgram(u32),
    DeleteTexture(u32),
    DeleteFramebuffer(u32),
    /// Bind a framebuffer as the draw target.
    BindDrawFramebuffer(u32),
    /// Attach a 2D texture, mip level 0, as color attachment 0 of the bound draw target.
    AttachColorTexture(u32),
    /// Bind the default framebuffer again.
    UnbindFramebuffer,
    UseProgram(u32),
    /// Set the viewport to `(0, 0, width, height)`.
    Viewport { width: i32, height: i32 },
    DisableScissorTest,
    DisableStencilTest,
    /// Select texture unit 0.
    ActivateTextureUnit0,
    /// Bind a texture to the external-image target of the active unit.
    BindExternalTexture(u32),
    /// Remove any sampler object from unit 0.
    ClearSampler0,
    /// Set an integer uniform.
    SetInt { location: u32, value: i32 },
    /// Set a 4-component uniform to a crop rectangle.
    SetCrop { location: u32, rect: CropRect },
    /// Draw a 4-vertex triangle strip with no vertex buffer.
    DrawQuad,
}

/// The part of the GPU pipeline state that the commands above change.
pub struct GlState {
    pub program: Option<u32>,
    pub viewport: Option<(i32, i32)>,
    pub scissor_test: bool,
    pub stencil_test: bool,
    pub draw_framebuffer: Option<u32>,
    pub unit0_active: bool,
    pub external_texture: Option<u32>,
    pub sampler0_cleared: bool,
    pub int_uniforms: Map<u32, i32>,
    pub crop_uniforms: Map<u32, CropRect>,
}

/// The state after `c`.
pub open spec fn apply(s: GlState, c: GpuCommand) -> GlState {
    match c {
        GpuCommand::BindDrawFramebuffer(f) => GlState { draw_framebuffer: Some(f), ..s },
        GpuCommand::UnbindFramebuffer => GlState { draw_framebuffer: None, ..s },
        GpuCommand::UseProgram(p) => GlState { program: Some(p), ..s },
        GpuCommand::Viewport { width, height } => GlState { viewport: Some((width, height)), ..s },
        GpuCommand::DisableScissorTest => GlState { scissor_test: false, ..s },
        GpuCommand::DisableStencilTest => GlState { stencil_test: false, ..s },
        GpuCommand::ActivateTextureUnit0 => GlState { unit0_active: true, ..s },
        GpuCommand::BindExternalTexture(t) => GlState { external_texture: Some(t), ..s },
        GpuCommand::ClearSampler0 => GlState { sampler0_cleared: true, ..s },
        GpuCommand::SetInt { location, value } => GlState {
            int_uniforms: s.int_uniforms.insert(location, value),
            ..s
        },
        GpuCommand::SetCrop { location, rect } => GlState {
            crop_uniforms: s.crop_uniforms.insert(location, rect),
            ..s
        },
        _ => s,
    }
}

/// The final state after a command list, and the state in force at each draw.
pub struct Trace {
    pub state: GlState,
    pub draws: Seq<GlState>,
}

pub open spec fn run(s: GlState, cmds: Seq<GpuCommand>) -> Trace
    decreases cmds.len(),
{
    if cmds.len() == 0 {
        Trace { state: s, draws: Seq::empty() }
    } else {
        let rest = run(apply(s, cmds[0]), cmds.subrange(1, cmds.len() as int));
        Trace {
            state: rest.state,
            draws: if cmds[0] == GpuCommand::DrawQuad {
                seq![s] + rest.draws
            } else {
                rest.draws
            },
        }
    }
}

/// Running two lists one after the other is running their concatenation.
pub proof fn lemma_run_concat(s: GlState, a: Seq<GpuCommand>, b: Seq<GpuCommand>)
    ensures
        run(s, a + b).state == run(run(s, a).state, b).state,
        run(s, a + b).draws == run(s, a).draws + run(run(s, a).state, b).draws,
    decreases a.len(),
{
    if a.len() == 0 {
        assert(a + b =~= b);
        assert(run(s, a).draws + run(s, b).draws =~= run(s, b).draws);
    } else {
        let a1 = a.subrange(1, a.len() as int);
        assert((a + b).subrange(1, (a + b).len() as int) =~= a1 + b);
        assert((a + b)[0] == a[0]);
        lemma_run_concat(apply(s, a[0]), a1, b);
        let t = apply(s, a[0]);
        if a[0] == GpuCommand::DrawQuad {
            assert(seq![s] + (run(t, a1).draws + run(run(t, a1).state, b).draws) =~= (seq![s]
                + run(t, a1).draws) + run(run(t, a1).state, b).draws);
        }
    }
}

} // verus!
