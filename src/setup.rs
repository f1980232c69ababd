use vstd::prelude::*;
use crate::gpu::GpuCommand;
use crate::renderer::{teardown_commands, RendererView, StagingRenderer};

verus! {

#[derive(Clone, Copy, Debug, PartialEq, Eq, Structural)]
pub enum ShaderStage {
    Vertex,
    Fragment,
}

/// The two uniforms the staging shaders must declare.
#[derive(Clone, Copy, Debug, PartialEq, Eq, Structural)]
pub enum Uniform {
    /// `uniform int view_idx`: which eye is drawn.
    ViewIdx,
    /// `uniform vec4 crop`: the normalized crop rectangle.
    Crop,
}

/// Why a renderer could not be built. Compile and link errors carry the
/// driver's diagnostic log verbatim.
#[derive(Clone, Debug, PartialEq, Eq)]
pub enum SetupError {
    VertexCompile(String),
    FragmentCompile(String),
    Link(String),
    MissingUniform(Uniform),
    /// The two eye framebuffers were given the same handle.
    DuplicateFramebuffer,
    /// The external texture was given the handle of a destination texture.
    TextureIsDestination,
    /// The reply does not answer the pending query.
    UnexpectedReply,
}

/// What the caller must find out from the GPU before construction can go on.
#[derive(Clone, Copy, Debug, PartialEq, Eq, Structural)]
pub enum Query {
    /// Create a shader of this stage from its source and compile it.
    CompileShader(ShaderStage),
    /// Create a program, attach both shaders and link it.
    LinkProgram { vertex: u32, fragment: u32 },
    /// Create the external sampling texture (no storage) and two framebuffers.
    CreateObjects,
    /// Look up the locations of `view_idx` and `crop` in the program.
    LocateUniforms { program: u32 },
}

/// The answer to a [`Query`].
#[derive(Clone, Debug, PartialEq, Eq)]
pub enum Reply {
    Shader { shader: u32, compiled: bool, log: String },
    Program { program: u32, linked: bool, log: String },
    Objects { texture: u32, left_framebuffer: u32, right_framebuffer: u32 },
    Locations { view_idx: Option<u32>, crop: Option<u32> },
}

/// How far construction has come, with the objects created so far.
#[derive(Clone, Copy, Debug, PartialEq, Eq, Structural)]
pub enum Phase {
    CompilingVertex,
    CompilingFragment { vertex: u32 },
    Linking { vertex: u32, fragment: u32 },
    Creating { program: u32 },
    Locating { program: u32, texture: u32, left_framebuffer: u32, right_framebuffer: u32 },
}

/// A renderer under construction.
pub struct Setup {
    phase: Phase,
    staging_textures: [u32; 2],
    viewport_size: (i32, i32),
}

pub struct SetupView {
    pub phase: Phase,
    pub staging_textures: (u32, u32),
    pub viewport: (i32, i32),
}

/// Once the objects exist, the two framebuffers are distinct and the external
/// texture is neither of the caller's destination textures.
pub open spec fn setup_inv(s: SetupView) -> bool {
    s.phase matches Phase::Locating { texture, left_framebuffer, right_framebuffer, .. }
        ==> left_framebuffer != right_framebuffer && texture != s.staging_textures.0 && texture
        != s.staging_textures.1
}

/// The deletions of the two framebuffers, once each.
pub open spec fn framebuffer_deletions(left: u32, right: u32) -> Seq<GpuCommand> {
    if left == right {
        seq![GpuCommand::DeleteFramebuffer(left)]
    } else {
        seq![GpuCommand::DeleteFramebuffer(left), GpuCommand::DeleteFramebuffer(right)]
    }
}

impl View for Setup {
    type V = SetupView;

    closed spec fn view(&self) -> SetupView {
        SetupView {
            phase: self.phase,
            staging_textures: (self.staging_textures@[0], self.staging_textures@[1]),
            viewport: self.viewport_size,
        }
    }
}

/// The result of one construction step.
pub enum SetupStep {
    /// Issue `issue`, then answer `query` with [`Setup::step`].
    Pending { setup: Setup, issue: Vec<GpuCommand>, query: Query },
    Ready { renderer: StagingRenderer },
    /// Construction stopped; issue `release` to delete every object it created.
    Failed { error: SetupError, release: Vec<GpuCommand> },
}

/// [`SetupStep`] over views.
pub enum StepModel {
    Pending { setup: SetupView, issue: Seq<GpuCommand>, query: Query },
    Ready { renderer: RendererView },
    Failed { error: SetupError, release: Seq<GpuCommand> },
}

impl SetupStep {
    pub open spec fn model(&self) -> StepModel {
        match self {
            SetupStep::Pending { setup, issue, query } => StepModel::Pending {
                setup: setup@,
                issue: issue@,
                query: *query,
            },
            SetupStep::Ready { renderer } => StepModel::Ready { renderer: renderer@ },
            SetupStep::Failed { error, release } => StepModel::Failed {
                error: *error,
                release: release@,
            },
        }
    }
}

/// The deletions of every object that a phase holds.
pub open spec fn held(p: Phase) -> Seq<GpuCommand> {
    match p {
        Phase::CompilingVertex => seq![],
        Phase::CompilingFragment { vertex } => seq![GpuCommand::DeleteShader(vertex)],
        Phase::Linking { vertex, fragment } => seq![
            GpuCommand::DeleteShader(vertex),
            GpuCommand::DeleteShader(fragment),
        ],
        Phase::Creating { program } => seq![GpuCommand::DeleteProgram(program)],
        Phase::Locating { program, texture, left_framebuffer, right_framebuffer } => seq![
            GpuCommand::DeleteProgram(program),
            GpuCommand::DeleteTexture(texture),
            GpuCommand::DeleteFramebuffer(left_framebuffer),
            GpuCommand::DeleteFramebuffer(right_framebuffer),
        ],
    }
}

/// Attach each destination texture to its eye's framebuffer, unbinding after each.
pub open spec fn attach_commands(s: SetupView, left: u32, right: u32) -> Seq<GpuCommand> {
    seq![
        GpuCommand::BindDrawFramebuffer(left),
        GpuCommand::AttachColorTexture(s.staging_textures.0),
        GpuCommand::UnbindFramebuffer,
        GpuCommand::BindDrawFramebuffer(right),
        GpuCommand::AttachColorTexture(s.staging_textures.1),
        GpuCommand::UnbindFramebuffer,
    ]
}

pub open spec fn pending(s: SetupView, phase: Phase, issue: Seq<GpuCommand>, query: Query) -> StepModel {
    StepModel::Pending { setup: SetupView { phase, ..s }, issue, query }
}

/// The next step of construction from `s` on `reply`.
pub open spec fn next_step(s: SetupView, reply: Reply) -> StepModel {
    let fail = |e: SetupError, extra: Seq<GpuCommand>|
        StepModel::Failed { error: e, release: held(s.phase) + extra };
    match (s.phase, reply) {
        (Phase::CompilingVertex, Reply::Shader { shader, compiled, log }) => if compiled {
            pending(
                s,
                Phase::CompilingFragment { vertex: shader },
                seq![],
                Query::CompileShader(ShaderStage::Fragment),
            )
        } else {
            fail(SetupError::VertexCompile(log), seq![GpuCommand::DeleteShader(shader)])
        },
        (Phase::CompilingFragment { vertex }, Reply::Shader { shader, compiled, log }) => if compiled {
            pending(
                s,
                Phase::Linking { vertex, fragment: shader },
                seq![],
                Query::LinkProgram { vertex, fragment: shader },
            )
        } else {
            fail(SetupError::FragmentCompile(log), seq![GpuCommand::DeleteShader(shader)])
        },
        (Phase::Linking { vertex, fragment }, Reply::Program { program, linked, log }) => if linked {
            pending(
                s,
                Phase::Creating { program },
                held(s.phase),
                Query::CreateObjects,
            )
        } else {
            fail(SetupError::Link(log), seq![GpuCommand::DeleteProgram(program)])
        },
        (
            Phase::Creating { program },
            Reply::Objects { texture, left_framebuffer, right_framebuffer },
        ) => if texture == s.staging_textures.0 || texture == s.staging_textures.1 {
            fail(
                SetupError::TextureIsDestination,
                framebuffer_deletions(left_framebuffer, right_framebuffer),
            )
        } else if left_framebuffer == right_framebuffer {
            fail(
                SetupError::DuplicateFramebuffer,
                seq![
                    GpuCommand::DeleteTexture(texture),
                    GpuCommand::DeleteFramebuffer(left_framebuffer),
                ],
            )
        } else {
            pending(
                s,
                Phase::Locating { program, texture, left_framebuffer, right_framebuffer },
                attach_commands(s, left_framebuffer, right_framebuffer),
                Query::LocateUniforms { program },
            )
        },
        (
            Phase::Locating { program, texture, left_framebuffer, right_framebuffer },
            Reply::Locations { view_idx, crop },
        ) => match (view_idx, crop) {
            (Some(v), Some(c)) => StepModel::Ready {
                renderer: RendererView {
                    program,
                    view_idx_location: v,
                    crop_location: c,
                    surface_texture: texture,
                    left_framebuffer,
                    right_framebuffer,
                    viewport: s.viewport,
                },
            },
            (None, _) => fail(SetupError::MissingUniform(Uniform::ViewIdx), seq![]),
            (_, None) => fail(SetupError::MissingUniform(Uniform::Crop), seq![]),
        },
        _ => fail(SetupError::UnexpectedReply, seq![]),
    }
}

/// The deletions of every object that `p` holds.
fn held_commands(p: Phase) -> (r: Vec<GpuCommand>)
    ensures
        r@ == held(p),
{
    let mut r: Vec<GpuCommand> = Vec::new();
    match p {
        Phase::CompilingVertex => {},
        Phase::CompilingFragment { vertex } => {
            r.push(GpuCommand::DeleteShader(vertex));
        },
        Phase::Linking { vertex, fragment } => {
            r.push(GpuCommand::DeleteShader(vertex));
            r.push(GpuCommand::DeleteShader(fragment));
        },
        Phase::Creating { program } => {
            r.push(GpuCommand::DeleteProgram(program));
        },
        Phase::Locating { program, texture, left_framebuffer, right_framebuffer } => {
            r.push(GpuCommand::DeleteProgram(program));
            r.push(GpuCommand::DeleteTexture(texture));
            r.push(GpuCommand::DeleteFramebuffer(left_framebuffer));
            r.push(GpuCommand::DeleteFramebuffer(right_framebuffer));
        },
    }
    assert(r@ =~= held(p));
    r
}

impl Setup {
    #[verifier::type_invariant]
    closed spec fn inv(self) -> bool {
        setup_inv(self@)
    }

    /// Construction from its start: the context is made current and the vertex
    /// shader is compiled first.
    pub(crate) fn start(staging_textures: [u32; 2], view_resolution: (u32, u32)) -> (r: SetupStep)
        ensures
            r.model() == (StepModel::Pending {
                setup: SetupView {
                    phase: Phase::CompilingVertex,
                    staging_textures: (staging_textures@[0], staging_textures@[1]),
                    viewport: (view_resolution.0 as i32, view_resolution.1 as i32),
                },
                issue: seq![GpuCommand::MakeCurrent],
                query: Query::CompileShader(ShaderStage::Vertex),
            }),
    {
        let setup = Setup {
            phase: Phase::CompilingVertex,
            staging_textures,
            viewport_size: (view_resolution.0 as i32, view_resolution.1 as i32),
        };
        let mut issue: Vec<GpuCommand> = Vec::new();
        issue.push(GpuCommand::MakeCurrent);
        assert(issue@ =~= seq![GpuCommand::MakeCurrent]);
        SetupStep::Pending { setup, issue, query: Query::CompileShader(ShaderStage::Vertex) }
    }

    fn fail(self, error: SetupError, extra: Vec<GpuCommand>) -> (r: SetupStep)
        ensures
            r.model() == (StepModel::Failed { error, release: held(self@.phase) + extra@ }),
    {
        let mut release = held_commands(self.phase);
        let mut extra = extra;
        release.append(&mut extra);
        SetupStep::Failed { error, release }
    }

    fn advance(self, phase: Phase, issue: Vec<GpuCommand>, query: Query) -> (r: SetupStep)
        requires
            setup_inv(SetupView { phase, ..self@ }),
        ensures
            r.model() == pending(self@, phase, issue@, query),
    {
        let setup = Setup { phase, ..self };
        assert(setup@ == (SetupView { phase, ..self@ }));
        SetupStep::Pending { setup, issue, query }
    }

    /// The step that follows `reply`, the answer to the pending query.
    ///
    /// A failed compile or link stops construction with the driver's log, before
    /// any framebuffer exists; every failure hands back the deletions of what
    /// was created so far.
    pub fn step(self, reply: Reply) -> (r: SetupStep)
        ensures
            setup_inv(self@),
            r.model() == next_step(self@, reply),
    {
        proof {
            use_type_invariant(&self);
        }
        match (self.phase, reply) {
            (Phase::CompilingVertex, Reply::Shader { shader, compiled, log }) => {
                if compiled {
                    self.advance(
                        Phase::CompilingFragment { vertex: shader },
                        Vec::new(),
                        Query::CompileShader(ShaderStage::Fragment),
                    )
                } else {
                    let mut extra: Vec<GpuCommand> = Vec::new();
                    extra.push(GpuCommand::DeleteShader(shader));
                    assert(extra@ =~= seq![GpuCommand::DeleteShader(shader)]);
                    self.fail(SetupError::VertexCompile(log), extra)
                }
            },
            (Phase::CompilingFragment { vertex }, Reply::Shader { shader, compiled, log }) => {
                if compiled {
                    self.advance(
                        Phase::Linking { vertex, fragment: shader },
                        Vec::new(),
                        Query::LinkProgram { vertex, fragment: shader },
                    )
                } else {
                    let mut extra: Vec<GpuCommand> = Vec::new();
                    extra.push(GpuCommand::DeleteShader(shader));
                    assert(extra@ =~= seq![GpuCommand::DeleteShader(shader)]);
                    self.fail(SetupError::FragmentCompile(log), extra)
                }
            },
            (Phase::Linking { vertex, fragment }, Reply::Program { program, linked, log }) => {
                if linked {
                    let issue = held_commands(self.phase);
                    self.advance(Phase::Creating { program }, issue, Query::CreateObjects)
                } else {
                    let mut extra: Vec<GpuCommand> = Vec::new();
                    extra.push(GpuCommand::DeleteProgram(program));
                    assert(extra@ =~= seq![GpuCommand::DeleteProgram(program)]);
                    self.fail(SetupError::Link(log), extra)
                }
            },
            (
                Phase::Creating { program },
                Reply::Objects { texture, left_framebuffer, right_framebuffer },
            ) => {
                if texture == self.staging_textures[0] || texture == self.staging_textures[1] {
                    let mut extra: Vec<GpuCommand> = Vec::new();
                    extra.push(GpuCommand::DeleteFramebuffer(left_framebuffer));
                    if left_framebuffer != right_framebuffer {
                        extra.push(GpuCommand::DeleteFramebuffer(right_framebuffer));
                    }
                    assert(extra@ =~= framebuffer_deletions(left_framebuffer, right_framebuffer));
                    self.fail(SetupError::TextureIsDestination, extra)
                } else if left_framebuffer == right_framebuffer {
                    let mut extra: Vec<GpuCommand> = Vec::new();
                    extra.push(GpuCommand::DeleteTexture(texture));
                    extra.push(GpuCommand::DeleteFramebuffer(left_framebuffer));
                    assert(extra@ =~= seq![
                        GpuCommand::DeleteTexture(texture),
                        GpuCommand::DeleteFramebuffer(left_framebuffer),
                    ]);
                    self.fail(SetupError::DuplicateFramebuffer, extra)
                } else {
                    let mut issue: Vec<GpuCommand> = Vec::new();
                    issue.push(GpuCommand::BindDrawFramebuffer(left_framebuffer));
                    issue.push(GpuCommand::AttachColorTexture(self.staging_textures[0]));
                    issue.push(GpuCommand::UnbindFramebuffer);
                    issue.push(GpuCommand::BindDrawFramebuffer(right_framebuffer));
                    issue.push(GpuCommand::AttachColorTexture(self.staging_textures[1]));
                    issue.push(GpuCommand::UnbindFramebuffer);
                    assert(issue@ =~= attach_commands(self@, left_framebuffer, right_framebuffer));
                    self.advance(
                        Phase::Locating { program, texture, left_framebuffer, right_framebuffer },
                        issue,
                        Query::LocateUniforms { program },
                    )
                }
            },
            (
                Phase::Locating { program, texture, left_framebuffer, right_framebuffer },
                Reply::Locations { view_idx, crop },
            ) => match (view_idx, crop) {
                (Some(v), Some(c)) => {
                    let renderer = StagingRenderer::from_parts(
                        program,
                        v,
                        c,
                        texture,
                        [left_framebuffer, right_framebuffer],
                        self.viewport_size,
                    );
                    SetupStep::Ready { renderer }
                },
                (None, _) => self.fail(SetupError::MissingUniform(Uniform::ViewIdx), Vec::new()),
                (_, None) => self.fail(SetupError::MissingUniform(Uniform::Crop), Vec::new()),
            },
            _ => self.fail(SetupError::UnexpectedReply, Vec::new()),
        }
    }
}

/// A command that attaches a destination texture to a framebuffer.
pub open spec fn is_attach(c: GpuCommand) -> bool {
    c is AttachColorTexture
}

/// A shader that fails to compile stops construction with the compiler's log,
/// verbatim, as its error; what is released then are shaders only, since no
/// framebuffer exists yet.
pub proof fn lemma_compile_failure_reports_log(s: SetupView, shader: u32, log: String)
    requires
        s.phase is CompilingVertex || s.phase is CompilingFragment,
    ensures
        next_step(s, Reply::Shader { shader, compiled: false, log }) matches StepModel::Failed {
            error,
            release,
        } && (error == SetupError::VertexCompile(log) || error == SetupError::FragmentCompile(log))
            && forall|i: int| 0 <= i < release.len() ==> release[i] is DeleteShader,
{
    let r = next_step(s, Reply::Shader { shader, compiled: false, log });
    if let StepModel::Failed { error, release } = r {
        assert forall|i: int| 0 <= i < release.len() implies release[i] is DeleteShader by {
            if s.phase is CompilingFragment {
                assert(release =~= seq![
                    GpuCommand::DeleteShader(s.phase->CompilingFragment_vertex),
                    GpuCommand::DeleteShader(shader),
                ]);
            } else {
                assert(release =~= seq![GpuCommand::DeleteShader(shader)]);
            }
        }
    }
}

/// Destination textures are attached only by the step that answers
/// [`Query::CreateObjects`], which comes after both shaders compiled and the
/// program linked; no failure issues an attachment.
pub proof fn lemma_attach_only_after_link(s: SetupView, reply: Reply)
    ensures
        next_step(s, reply) matches StepModel::Pending { issue, .. } && (exists|i: int|
            0 <= i < issue.len() && is_attach(#[trigger] issue[i])) ==> s.phase is Creating,
        next_step(s, reply) matches StepModel::Failed { release, .. } ==> forall|i: int|
            0 <= i < release.len() ==> !is_attach(#[trigger] release[i]),
{
    let r = next_step(s, reply);
    if let StepModel::Pending { issue, .. } = r {
        if !(s.phase is Creating) {
            assert forall|i: int| 0 <= i < issue.len() implies !is_attach(#[trigger] issue[i]) by {
                if s.phase is Linking {
                    assert(issue =~= held(s.phase));
                }
            }
        }
    }
    if let StepModel::Failed { release, .. } = r {
        assert forall|i: int| 0 <= i < release.len() implies !is_attach(#[trigger] release[i]) by {
            let h = held(s.phase);
            assert(forall|j: int| 0 <= j < h.len() ==> !is_attach(#[trigger] h[j]));
        }
    }
}

/// A renderer that construction yields samples through a texture of its own:
/// never one of the caller's destination textures, so its teardown never
/// deletes one. No failure deletes one either.
pub proof fn lemma_destination_textures_never_deleted(s: SetupView, reply: Reply)
    requires
        setup_inv(s),
    ensures
        next_step(s, reply) matches StepModel::Ready { renderer } ==> {
            &&& renderer.surface_texture != s.staging_textures.0
            &&& renderer.surface_texture != s.staging_textures.1
            &&& forall|i: int|
                0 <= i < teardown_commands(renderer).len() ==> #[trigger] teardown_commands(
                    renderer,
                )[i] != GpuCommand::DeleteTexture(s.staging_textures.0) && teardown_commands(
                    renderer,
                )[i] != GpuCommand::DeleteTexture(s.staging_textures.1)
        },
        next_step(s, reply) matches StepModel::Failed { release, .. } ==> forall|i: int|
            0 <= i < release.len() ==> #[trigger] release[i] != GpuCommand::DeleteTexture(
                s.staging_textures.0,
            ) && release[i] != GpuCommand::DeleteTexture(s.staging_textures.1),
{
    let r = next_step(s, reply);
    if let StepModel::Ready { renderer } = r {
        let t = teardown_commands(renderer);
        assert forall|i: int| 0 <= i < t.len() implies #[trigger] t[i] != GpuCommand::DeleteTexture(
            s.staging_textures.0,
        ) && t[i] != GpuCommand::DeleteTexture(s.staging_textures.1) by {
            assert(t[2] == GpuCommand::DeleteTexture(renderer.surface_texture));
        }
    }
    if let StepModel::Failed { release, .. } = r {
        let h = held(s.phase);
        assert(forall|j: int| 0 <= j < h.len() ==> #[trigger] h[j] != GpuCommand::DeleteTexture(
            s.staging_textures.0,
        ) && h[j] != GpuCommand::DeleteTexture(s.staging_textures.1));
    }
}

} // verus!
