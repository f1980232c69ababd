use vstd::prelude::*;
use crate::eye::Eye;
use crate::frame::{BufferWithMetadata, CropRect};
use crate::gpu::{apply, lemma_run_concat, run, GlState, GpuCommand};
use crate::setup::{Phase, Query, Setup, SetupStep, SetupView, ShaderStage, StepModel};

verus! {

/// The objects a renderer owns, by handle, and its fixed viewport.
pub struct RendererView {
    pub program: u32,
    pub view_idx_location: u32,
    pub crop_location: u32,
    pub surface_texture: u32,
    pub left_framebuffer: u32,
    pub right_framebuffer: u32,
    pub viewport: (i32, i32),
}

impl RendererView {
    pub open spec fn framebuffer(self, eye: Eye) -> u32 {
        match eye {
            Eye::Left => self.left_framebuffer,
            Eye::Right => self.right_framebuffer,
        }
    }
}

/// Turns one externally bound image into two cropped per-eye images.
///
/// The renderer holds the handles of the objects it created: a linked program
/// and its two uniform locations, one external sampling texture with no storage
/// of its own, and one framebuffer per eye whose color attachment is a
/// destination texture owned by the caller.
pub struct StagingRenderer {
    program: u32,
    view_idx_location: u32,
    crop_location: u32,
    surface_texture: u32,
    framebuffers: [u32; 2],
    viewport_size: (i32, i32),
}

impl View for StagingRenderer {
    type V = RendererView;

    closed spec fn view(&self) -> RendererView {
        RendererView {
            program: self.program,
            view_idx_location: self.view_idx_location,
            crop_location: self.crop_location,
            surface_texture: self.surface_texture,
            left_framebuffer: self.framebuffers@[0],
            right_framebuffer: self.framebuffers@[1],
            viewport: self.viewport_size,
        }
    }
}

/// State set once per frame, before the per-eye draws.
pub open spec fn frame_prelude(v: RendererView) -> Seq<GpuCommand> {
    seq![
        GpuCommand::UseProgram(v.program),
        GpuCommand::Viewport { width: v.viewport.0, height: v.viewport.1 },
        GpuCommand::DisableScissorTest,
        GpuCommand::DisableStencilTest,
    ]
}

/// The draw of one eye into its framebuffer.
pub open spec fn eye_pass(v: RendererView, eye: Eye, rect: CropRect) -> Seq<GpuCommand> {
    seq![
        GpuCommand::BindDrawFramebuffer(v.framebuffer(eye)),
        GpuCommand::ActivateTextureUnit0,
        GpuCommand::BindExternalTexture(v.surface_texture),
        GpuCommand::ClearSampler0,
        GpuCommand::SetInt { location: v.view_idx_location, value: eye.spec_index() as i32 },
        GpuCommand::SetCrop { location: v.crop_location, rect: rect },
        GpuCommand::DrawQuad,
    ]
}

/// The commands of one frame, issued while the source image is bound to the
/// external texture.
pub open spec fn frame_commands(v: RendererView, rect: CropRect) -> Seq<GpuCommand> {
    frame_prelude(v) + eye_pass(v, Eye::Left, rect) + eye_pass(v, Eye::Right, rect)
}

/// The commands that release every object the renderer owns.
pub open spec fn teardown_commands(v: RendererView) -> Seq<GpuCommand> {
    seq![
        GpuCommand::MakeCurrent,
        GpuCommand::DeleteProgram(v.program),
        GpuCommand::DeleteTexture(v.surface_texture),
        GpuCommand::DeleteFramebuffer(v.left_framebuffer),
        GpuCommand::DeleteFramebuffer(v.right_framebuffer),
    ]
}

/// The pipeline state that one draw of a renderer depends on.
pub struct DrawInputs {
    pub program: Option<u32>,
    pub viewport: Option<(i32, i32)>,
    pub scissor_test: bool,
    pub stencil_test: bool,
    pub draw_framebuffer: Option<u32>,
    pub unit0_active: bool,
    pub external_texture: Option<u32>,
    pub sampler0_cleared: bool,
    pub view_idx: Option<i32>,
    pub crop: Option<CropRect>,
}

pub open spec fn draw_inputs(s: GlState, v: RendererView) -> DrawInputs {
    DrawInputs {
        program: s.program,
        viewport: s.viewport,
        scissor_test: s.scissor_test,
        stencil_test: s.stencil_test,
        draw_framebuffer: s.draw_framebuffer,
        unit0_active: s.unit0_active,
        external_texture: s.external_texture,
        sampler0_cleared: s.sampler0_cleared,
        view_idx: if s.int_uniforms.contains_key(v.view_idx_location) {
            Some(s.int_uniforms[v.view_idx_location])
        } else {
            None
        },
        crop: if s.crop_uniforms.contains_key(v.crop_location) {
            Some(s.crop_uniforms[v.crop_location])
        } else {
            None
        },
    }
}

/// What the draw of `eye` sees, whatever the state before the frame.
pub open spec fn expected_draw(v: RendererView, eye: Eye, rect: CropRect) -> DrawInputs {
    DrawInputs {
        program: Some(v.program),
        viewport: Some(v.viewport),
        scissor_test: false,
        stencil_test: false,
        draw_framebuffer: Some(v.framebuffer(eye)),
        unit0_active: true,
        external_texture: Some(v.surface_texture),
        sampler0_cleared: true,
        view_idx: Some(eye.spec_index() as i32),
        crop: Some(rect),
    }
}

proof fn lemma_prelude_trace(v: RendererView, s: GlState)
    ensures
        run(s, frame_prelude(v)).draws.len() == 0,
        run(s, frame_prelude(v)).state.program == Some(v.program),
        run(s, frame_prelude(v)).state.viewport == Some(v.viewport),
        !run(s, frame_prelude(v)).state.scissor_test,
        !run(s, frame_prelude(v)).state.stencil_test,
{
    reveal_with_fuel(run, 5);
    let p = frame_prelude(v);
    assert(p.subrange(1, 4) =~= seq![p[1], p[2], p[3]]);
    assert(p.subrange(1, 4).subrange(1, 3) =~= seq![p[2], p[3]]);
    assert(p.subrange(1, 4).subrange(1, 3).subrange(1, 2) =~= seq![p[3]]);
    assert(seq![p[3]].subrange(1, 1) =~= Seq::<GpuCommand>::empty());
}

proof fn lemma_eye_pass_trace(v: RendererView, eye: Eye, rect: CropRect, s: GlState)
    requires
        s.program == Some(v.program),
        s.viewport == Some(v.viewport),
        !s.scissor_test,
        !s.stencil_test,
    ensures
        run(s, eye_pass(v, eye, rect)).draws.len() == 1,
        draw_inputs(run(s, eye_pass(v, eye, rect)).draws[0], v) == expected_draw(v, eye, rect),
        run(s, eye_pass(v, eye, rect)).state.program == Some(v.program),
        run(s, eye_pass(v, eye, rect)).state.viewport == Some(v.viewport),
        !run(s, eye_pass(v, eye, rect)).state.scissor_test,
        !run(s, eye_pass(v, eye, rect)).state.stencil_test,
{
    reveal_with_fuel(run, 8);
    let p = eye_pass(v, eye, rect);
    let p1 = p.subrange(1, 7);
    let p2 = p1.subrange(1, 6);
    let p3 = p2.subrange(1, 5);
    let p4 = p3.subrange(1, 4);
    let p5 = p4.subrange(1, 3);
    let p6 = p5.subrange(1, 2);
    assert(p1 =~= seq![p[1], p[2], p[3], p[4], p[5], p[6]]);
    assert(p2 =~= seq![p[2], p[3], p[4], p[5], p[6]]);
    assert(p3 =~= seq![p[3], p[4], p[5], p[6]]);
    assert(p4 =~= seq![p[4], p[5], p[6]]);
    assert(p5 =~= seq![p[5], p[6]]);
    assert(p6 =~= seq![p[6]]);
    assert(p6.subrange(1, 1) =~= Seq::<GpuCommand>::empty());
    let s6 = apply(apply(apply(apply(apply(apply(s, p[0]), p[1]), p[2]), p[3]), p[4]), p[5]);
    assert(run(s, p).draws =~= seq![s6]);
    assert(s6.int_uniforms.contains_key(v.view_idx_location));
    assert(s6.crop_uniforms.contains_key(v.crop_location));
}

/// The draws of one frame, from any state before it.
pub proof fn lemma_frame_trace(v: RendererView, rect: CropRect, s: GlState)
    ensures
        run(s, frame_commands(v, rect)).draws.len() == 2,
        draw_inputs(run(s, frame_commands(v, rect)).draws[0], v) == expected_draw(v, Eye::Left, rect),
        draw_inputs(run(s, frame_commands(v, rect)).draws[1], v) == expected_draw(v, Eye::Right, rect),
{
    let p = frame_prelude(v);
    let l = eye_pass(v, Eye::Left, rect);
    let r = eye_pass(v, Eye::Right, rect);
    lemma_run_concat(s, p + l, r);
    lemma_run_concat(s, p, l);
    lemma_prelude_trace(v, s);
    let s1 = run(s, p).state;
    lemma_eye_pass_trace(v, Eye::Left, rect, s1);
    let s2 = run(s1, l).state;
    lemma_eye_pass_trace(v, Eye::Right, rect, s2);
}

/// One frame issues exactly two draws, the left eye's then the right eye's,
/// each into its own framebuffer, with `view_idx` 0 then 1 and one crop value
/// for both.
pub proof fn lemma_one_draw_per_eye(v: RendererView, rect: CropRect, s: GlState)
    requires
        v.left_framebuffer != v.right_framebuffer,
    ensures
        ({
            let d = run(s, frame_commands(v, rect)).draws;
            &&& d.len() == 2
            &&& d[0].draw_framebuffer == Some(v.left_framebuffer)
            &&& d[1].draw_framebuffer == Some(v.right_framebuffer)
            &&& d[0].draw_framebuffer != d[1].draw_framebuffer
            &&& draw_inputs(d[0], v).view_idx == Some(0i32)
            &&& draw_inputs(d[1], v).view_idx == Some(1i32)
            &&& draw_inputs(d[0], v).crop == Some(rect)
            &&& draw_inputs(d[0], v).crop == draw_inputs(d[1], v).crop
        }),
{
    lemma_frame_trace(v, rect, s);
}

/// Two frames whose buffers normalize to the same crop rectangle draw from the
/// same pipeline state, whatever state each frame started from: nothing
/// carries over from one frame to the next.
pub proof fn lemma_no_state_drift(
    v: RendererView,
    b1: BufferWithMetadata,
    b2: BufferWithMetadata,
    s1: GlState,
    s2: GlState,
)
    requires
        b1.spec_crop_rect() == b2.spec_crop_rect(),
    ensures
        ({
            let d1 = run(s1, frame_commands(v, b1.spec_crop_rect())).draws;
            let d2 = run(s2, frame_commands(v, b2.spec_crop_rect())).draws;
            &&& d1.len() == d2.len()
            &&& forall|i: int| 0 <= i < d1.len() ==> draw_inputs(d1[i], v) == draw_inputs(d2[i], v)
        }),
{
    lemma_frame_trace(v, b1.spec_crop_rect(), s1);
    lemma_frame_trace(v, b2.spec_crop_rect(), s2);
}

/// Every draw of a frame uses the viewport fixed at construction, whatever the
/// size of the source buffer.
pub proof fn lemma_viewport_is_fixed(v: RendererView, b: BufferWithMetadata, s: GlState)
    ensures
        ({
            let d = run(s, frame_commands(v, b.spec_crop_rect())).draws;
            forall|i: int| 0 <= i < d.len() ==> #[trigger] d[i].viewport == Some(v.viewport)
        }),
{
    lemma_frame_trace(v, b.spec_crop_rect(), s);
}

/// A command that deletes an object.
pub open spec fn is_delete(c: GpuCommand) -> bool {
    match c {
        GpuCommand::DeleteShader(_) | GpuCommand::DeleteProgram(_) | GpuCommand::DeleteTexture(_)
        | GpuCommand::DeleteFramebuffer(_) => true,
        _ => false,
    }
}

/// `cmds` deletes the object of `d` exactly once, and nothing after that
/// deletion uses any object: only other deletions follow it.
pub open spec fn deleted_once_then_unused(cmds: Seq<GpuCommand>, d: GpuCommand) -> bool {
    exists|k: int|
        0 <= k < cmds.len() && cmds[k] == d && (forall|j: int|
            0 <= j < cmds.len() && j != k ==> cmds[j] != d) && (forall|j: int|
            k < j < cmds.len() ==> is_delete(#[trigger] cmds[j]))
}

/// Teardown makes the context current, then deletes the program, the external
/// texture and both framebuffers exactly once each, and uses none of them
/// after its deletion.
pub proof fn lemma_teardown_releases_each_once(v: RendererView)
    requires
        v.left_framebuffer != v.right_framebuffer,
    ensures
        teardown_commands(v)[0] == GpuCommand::MakeCurrent,
        deleted_once_then_unused(teardown_commands(v), GpuCommand::DeleteProgram(v.program)),
        deleted_once_then_unused(teardown_commands(v), GpuCommand::DeleteTexture(v.surface_texture)),
        deleted_once_then_unused(
            teardown_commands(v),
            GpuCommand::DeleteFramebuffer(v.left_framebuffer),
        ),
        deleted_once_then_unused(
            teardown_commands(v),
            GpuCommand::DeleteFramebuffer(v.right_framebuffer),
        ),
{
    let t = teardown_commands(v);
    assert(t[1] == GpuCommand::DeleteProgram(v.program));
    assert(t[2] == GpuCommand::DeleteTexture(v.surface_texture));
    assert(t[3] == GpuCommand::DeleteFramebuffer(v.left_framebuffer));
    assert(t[4] == GpuCommand::DeleteFramebuffer(v.right_framebuffer));
}

impl StagingRenderer {
    /// The two eyes never share a framebuffer.
    #[verifier::type_invariant]
    closed spec fn distinct_framebuffers(self) -> bool {
        self.framebuffers@[0] != self.framebuffers@[1]
    }

    /// Starts building a renderer whose eye framebuffers will draw into
    /// `staging_textures` (left, right) with a viewport of `view_resolution`.
    ///
    /// Construction talks to the GPU: answer each pending query with
    /// [`Setup::step`] until the step is ready or has failed.
    pub fn new(staging_textures: [u32; 2], view_resolution: (u32, u32)) -> (r: SetupStep)
        ensures
            r.model() == (StepModel::Pending {
                setup: SetupView {
                    phase: Phase::CompilingVertex,
                    staging_textures: (staging_textures@[0], staging_textures@[1]),
                    viewport: (view_resolution.0 as i32, view_resolution.1 as i32),
                },
                issue: seq![GpuCommand::MakeCurrent],
                query: Query::CompileShader(ShaderStage::Vertex),
            }),
    {
        Setup::start(staging_textures, view_resolution)
    }

    pub(crate) fn from_parts(
        program: u32,
        view_idx_location: u32,
        crop_location: u32,
        surface_texture: u32,
        framebuffers: [u32; 2],
        viewport_size: (i32, i32),
    ) -> (r: StagingRenderer)
        requires
            framebuffers@[0] != framebuffers@[1],
        ensures
            r@ == (RendererView {
                program,
                view_idx_location,
                crop_location,
                surface_texture,
                left_framebuffer: framebuffers@[0],
                right_framebuffer: framebuffers@[1],
                viewport: viewport_size,
            }),
    {
        StagingRenderer {
            program,
            view_idx_location,
            crop_location,
            surface_texture,
            framebuffers,
            viewport_size,
        }
    }

    fn push_eye_pass(&self, cmds: &mut Vec<GpuCommand>, eye: Eye, rect: CropRect)
        ensures
            final(cmds)@ == old(cmds)@ + eye_pass(self@, eye, rect),
    {
        let i = eye.index();
        cmds.push(GpuCommand::BindDrawFramebuffer(self.framebuffers[i]));
        cmds.push(GpuCommand::ActivateTextureUnit0);
        cmds.push(GpuCommand::BindExternalTexture(self.surface_texture));
        cmds.push(GpuCommand::ClearSampler0);
        cmds.push(GpuCommand::SetInt { location: self.view_idx_location, value: i as i32 });
        cmds.push(GpuCommand::SetCrop { location: self.crop_location, rect });
        cmds.push(GpuCommand::DrawQuad);
        assert(cmds@ =~= old(cmds)@ + eye_pass(self@, eye, rect));
    }

    /// The commands of one frame, to be issued, with the context current, while
    /// the source image of `buffer` is bound to [`StagingRenderer::surface_texture`].
    ///
    /// The crop rectangle is computed once and shared by both eyes; the program,
    /// viewport and disabled tests are set again on every frame.
    pub fn render(&self, buffer: &BufferWithMetadata) -> (r: Vec<GpuCommand>)
        ensures
            r@ == frame_commands(self@, buffer.spec_crop_rect()),
            self@.left_framebuffer != self@.right_framebuffer,
    {
        proof {
            use_type_invariant(self);
        }
        let rect = buffer.crop_rect();
        let mut cmds: Vec<GpuCommand> = Vec::new();
        cmds.push(GpuCommand::UseProgram(self.program));
        cmds.push(GpuCommand::Viewport { width: self.viewport_size.0, height: self.viewport_size.1 });
        cmds.push(GpuCommand::DisableScissorTest);
        cmds.push(GpuCommand::DisableStencilTest);
        assert(cmds@ =~= frame_prelude(self@));
        self.push_eye_pass(&mut cmds, Eye::Left, rect);
        self.push_eye_pass(&mut cmds, Eye::Right, rect);
        cmds
    }

    /// Consumes the renderer and returns the commands that release what it owns.
    /// The destination textures are the caller's and are not deleted.
    pub fn teardown(self) -> (r: Vec<GpuCommand>)
        ensures
            r@ == teardown_commands(self@),
            self@.left_framebuffer != self@.right_framebuffer,
    {
        proof {
            use_type_invariant(&self);
        }
        let mut cmds: Vec<GpuCommand> = Vec::new();
        cmds.push(GpuCommand::MakeCurrent);
        cmds.push(GpuCommand::DeleteProgram(self.program));
        cmds.push(GpuCommand::DeleteTexture(self.surface_texture));
        cmds.push(GpuCommand::DeleteFramebuffer(self.framebuffers[0]));
        cmds.push(GpuCommand::DeleteFramebuffer(self.framebuffers[1]));
        assert(cmds@ =~= teardown_commands(self@));
        cmds
    }

    /// The texture that the source image must be bound to while a frame is drawn.
    pub fn surface_texture(&self) -> (r: u32)
        ensures
            r == self@.surface_texture,
    {
        self.surface_texture
    }

    /// The viewport extent fixed at construction.
    pub fn viewport_size(&self) -> (r: (i32, i32))
        ensures
            r == self@.viewport,
    {
        self.viewport_size
    }

    /// The framebuffer that holds the destination texture of `eye`.
    pub fn framebuffer(&self, eye: Eye) -> (r: u32)
        ensures
            r == self@.framebuffer(eye),
    {
        self.framebuffers[eye.index()]
    }
}

} // verus!
