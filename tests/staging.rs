use alvr_staging::eye::Eye;
use alvr_staging::frame::BufferWithMetadata;
use alvr_staging::gpu::GpuCommand;
use alvr_staging::renderer::StagingRenderer;
use alvr_staging::setup::{Query, Reply, SetupError, SetupStep, ShaderStage, Uniform};

const LEFT_TEX: u32 = 101;
const RIGHT_TEX: u32 = 102;

fn buffer(w: u32, h: u32, l: u32, t: u32, r: u32, b: u32) -> BufferWithMetadata {
    BufferWithMetadata {
        buffer_width: w,
        buffer_height: h,
        crop_left: l,
        crop_top: t,
        crop_right: r,
        crop_bottom: b,
    }
}

fn as_f32(num: u32, den: u32) -> f32 {
    num as f32 / den as f32
}

fn pending(step: SetupStep) -> (alvr_staging::setup::Setup, Vec<GpuCommand>, Query) {
    match step {
        SetupStep::Pending { setup, issue, query } => (setup, issue, query),
        _ => panic!("construction is not pending"),
    }
}

fn shader_ok(handle: u32) -> Reply {
    Reply::Shader { shader: handle, compiled: true, log: String::new() }
}

/// Drives construction with handles 1 (vertex), 2 (fragment), 3 (program),
/// 4 (texture), 5 and 6 (framebuffers), and the given uniform locations.
fn construct(view_idx: Option<u32>, crop: Option<u32>) -> SetupStep {
    let (setup, issue, query) = pending(StagingRenderer::new([LEFT_TEX, RIGHT_TEX], (1832, 1920)));
    assert_eq!(issue, vec![GpuCommand::MakeCurrent]);
    assert_eq!(query, Query::CompileShader(ShaderStage::Vertex));
    let (setup, issue, query) = pending(setup.step(shader_ok(1)));
    assert!(issue.is_empty());
    assert_eq!(query, Query::CompileShader(ShaderStage::Fragment));
    let (setup, issue, query) = pending(setup.step(shader_ok(2)));
    assert!(issue.is_empty());
    assert_eq!(query, Query::LinkProgram { vertex: 1, fragment: 2 });
    let (setup, issue, query) =
        pending(setup.step(Reply::Program { program: 3, linked: true, log: String::new() }));
    assert_eq!(issue, vec![GpuCommand::DeleteShader(1), GpuCommand::DeleteShader(2)]);
    assert_eq!(query, Query::CreateObjects);
    let (setup, issue, query) = pending(setup.step(Reply::Objects {
        texture: 4,
        left_framebuffer: 5,
        right_framebuffer: 6,
    }));
    assert_eq!(
        issue,
        vec![
            GpuCommand::BindDrawFramebuffer(5),
            GpuCommand::AttachColorTexture(LEFT_TEX),
            GpuCommand::UnbindFramebuffer,
            GpuCommand::BindDrawFramebuffer(6),
            GpuCommand::AttachColorTexture(RIGHT_TEX),
            GpuCommand::UnbindFramebuffer,
        ]
    );
    assert_eq!(query, Query::LocateUniforms { program: 3 });
    setup.step(Reply::Locations { view_idx, crop })
}

fn renderer() -> StagingRenderer {
    match construct(Some(7), Some(8)) {
        SetupStep::Ready { renderer } => renderer,
        _ => panic!("construction did not finish"),
    }
}

fn draws(cmds: &[GpuCommand]) -> usize {
    cmds.iter().filter(|c| **c == GpuCommand::DrawQuad).count()
}

#[test]
fn full_window_is_unit_rect() {
    for (w, h) in [(1, 1), (1920, 1080), (4096, 2160), (u32::MAX, 7)] {
        let r = buffer(w, h, 0, 0, w, h).crop_rect();
        assert_eq!(as_f32(r.u1.num, r.u1.den), 0.0);
        assert_eq!(as_f32(r.v1.num, r.v1.den), 0.0);
        assert_eq!(as_f32(r.u2.num, r.u2.den), 1.0);
        assert_eq!(as_f32(r.v2.num, r.v2.den), 1.0);
    }
}

#[test]
fn centered_quarter_window() {
    let r = buffer(1920, 1080, 480, 270, 1440, 810).crop_rect();
    assert_eq!(as_f32(r.u1.num, r.u1.den), 0.25);
    assert_eq!(as_f32(r.v1.num, r.v1.den), 0.25);
    assert_eq!(as_f32(r.u2.num, r.u2.den), 0.75);
    assert_eq!(as_f32(r.v2.num, r.v2.den), 0.75);
    assert_eq!((r.u1.num, r.u1.den), (480, 1920));
    assert_eq!((r.v2.num, r.v2.den), (810, 1080));
}

#[test]
fn window_validity() {
    assert!(buffer(1920, 1080, 480, 270, 1440, 810).has_valid_window());
    assert!(buffer(8, 8, 0, 0, 8, 8).has_valid_window());
    assert!(!buffer(8, 8, 5, 0, 4, 8).has_valid_window());
    assert!(!buffer(8, 8, 0, 0, 9, 8).has_valid_window());
    assert!(!buffer(8, 8, 0, 6, 8, 5).has_valid_window());
    assert!(!buffer(0, 8, 0, 0, 0, 8).has_valid_window());
}

#[test]
fn one_draw_per_eye() {
    let r = renderer();
    let b = buffer(1920, 1080, 480, 270, 1440, 810);
    let cmds = r.render(&b);
    assert_eq!(draws(&cmds), 2);
    let rect = b.crop_rect();
    let pass = |fb: u32, idx: i32| {
        vec![
            GpuCommand::BindDrawFramebuffer(fb),
            GpuCommand::ActivateTextureUnit0,
            GpuCommand::BindExternalTexture(4),
            GpuCommand::ClearSampler0,
            GpuCommand::SetInt { location: 7, value: idx },
            GpuCommand::SetCrop { location: 8, rect },
            GpuCommand::DrawQuad,
        ]
    };
    let mut expected = vec![
        GpuCommand::UseProgram(3),
        GpuCommand::Viewport { width: 1832, height: 1920 },
        GpuCommand::DisableScissorTest,
        GpuCommand::DisableStencilTest,
    ];
    expected.extend(pass(5, 0));
    expected.extend(pass(6, 1));
    assert_eq!(cmds, expected);
    assert_eq!(r.framebuffer(Eye::Left), 5);
    assert_eq!(r.framebuffer(Eye::Right), 6);
    assert_eq!(r.surface_texture(), 4);
}

#[test]
fn vertex_compile_failure_reports_log() {
    let (setup, _, _) = pending(StagingRenderer::new([LEFT_TEX, RIGHT_TEX], (64, 64)));
    let log = String::from("0:3: error: 'gl_VertexID' : undeclared identifier");
    match setup.step(Reply::Shader { shader: 9, compiled: false, log: log.clone() }) {
        SetupStep::Failed { error, release } => {
            assert_eq!(error, SetupError::VertexCompile(log));
            assert_eq!(release, vec![GpuCommand::DeleteShader(9)]);
        }
        _ => panic!("a failed compile must stop construction"),
    }
}

#[test]
fn fragment_compile_failure_reports_log() {
    let (setup, _, _) = pending(StagingRenderer::new([LEFT_TEX, RIGHT_TEX], (64, 64)));
    let (setup, _, _) = pending(setup.step(shader_ok(1)));
    let log = String::from("0:12: error: samplerExternalOES requires an extension");
    match setup.step(Reply::Shader { shader: 2, compiled: false, log: log.clone() }) {
        SetupStep::Failed { error, release } => {
            assert_eq!(error, SetupError::FragmentCompile(log));
            assert_eq!(release, vec![GpuCommand::DeleteShader(1), GpuCommand::DeleteShader(2)]);
            assert!(!release.iter().any(|c| matches!(c, GpuCommand::AttachColorTexture(_))));
        }
        _ => panic!("a failed compile must stop construction"),
    }
}

#[test]
fn link_failure_reports_log() {
    let (setup, _, _) = pending(StagingRenderer::new([LEFT_TEX, RIGHT_TEX], (64, 64)));
    let (setup, _, _) = pending(setup.step(shader_ok(1)));
    let (setup, _, _) = pending(setup.step(shader_ok(2)));
    let log = String::from("link error: varying mismatch");
    match setup.step(Reply::Program { program: 3, linked: false, log: log.clone() }) {
        SetupStep::Failed { error, release } => {
            assert_eq!(error, SetupError::Link(log));
            assert_eq!(
                release,
                vec![
                    GpuCommand::DeleteShader(1),
                    GpuCommand::DeleteShader(2),
                    GpuCommand::DeleteProgram(3)
                ]
            );
        }
        _ => panic!("a failed link must stop construction"),
    }
}

#[test]
fn missing_uniform_releases_everything() {
    let everything = vec![
        GpuCommand::DeleteProgram(3),
        GpuCommand::DeleteTexture(4),
        GpuCommand::DeleteFramebuffer(5),
        GpuCommand::DeleteFramebuffer(6),
    ];
    match construct(None, Some(8)) {
        SetupStep::Failed { error, release } => {
            assert_eq!(error, SetupError::MissingUniform(Uniform::ViewIdx));
            assert_eq!(release, everything);
        }
        _ => panic!("a missing uniform must stop construction"),
    }
    match construct(Some(7), None) {
        SetupStep::Failed { error, release } => {
            assert_eq!(error, SetupError::MissingUniform(Uniform::Crop));
            assert_eq!(release, everything);
        }
        _ => panic!("a missing uniform must stop construction"),
    }
}

#[test]
fn duplicate_framebuffer_is_rejected() {
    let (setup, _, _) = pending(StagingRenderer::new([LEFT_TEX, RIGHT_TEX], (64, 64)));
    let (setup, _, _) = pending(setup.step(shader_ok(1)));
    let (setup, _, _) = pending(setup.step(shader_ok(2)));
    let (setup, _, _) =
        pending(setup.step(Reply::Program { program: 3, linked: true, log: String::new() }));
    match setup.step(Reply::Objects { texture: 4, left_framebuffer: 5, right_framebuffer: 5 }) {
        SetupStep::Failed { error, release } => {
            assert_eq!(error, SetupError::DuplicateFramebuffer);
            assert_eq!(
                release,
                vec![
                    GpuCommand::DeleteProgram(3),
                    GpuCommand::DeleteTexture(4),
                    GpuCommand::DeleteFramebuffer(5)
                ]
            );
        }
        _ => panic!("one framebuffer cannot serve both eyes"),
    }
}

#[test]
fn unexpected_reply_is_rejected() {
    let (setup, _, _) = pending(StagingRenderer::new([LEFT_TEX, RIGHT_TEX], (64, 64)));
    let (setup, _, _) = pending(setup.step(shader_ok(1)));
    match setup.step(Reply::Locations { view_idx: Some(1), crop: Some(2) }) {
        SetupStep::Failed { error, release } => {
            assert_eq!(error, SetupError::UnexpectedReply);
            assert_eq!(release, vec![GpuCommand::DeleteShader(1)]);
        }
        _ => panic!("a reply to another query must stop construction"),
    }
}

#[test]
fn teardown_deletes_each_object_once() {
    let cmds = renderer().teardown();
    assert_eq!(
        cmds,
        vec![
            GpuCommand::MakeCurrent,
            GpuCommand::DeleteProgram(3),
            GpuCommand::DeleteTexture(4),
            GpuCommand::DeleteFramebuffer(5),
            GpuCommand::DeleteFramebuffer(6),
        ]
    );
    assert!(!cmds.contains(&GpuCommand::DeleteTexture(LEFT_TEX)));
    assert!(!cmds.contains(&GpuCommand::DeleteTexture(RIGHT_TEX)));
}

#[test]
fn consecutive_frames_are_identical() {
    let r = renderer();
    let first = r.render(&buffer(1920, 1080, 480, 270, 1440, 810));
    let second = r.render(&buffer(1920, 1080, 480, 270, 1440, 810));
    assert_eq!(first, second);
    let a = r.render(&buffer(100, 50, 0, 0, 100, 50));
    let b = r.render(&buffer(100, 50, 0, 0, 100, 50));
    assert_eq!(a, b);
}

#[test]
fn viewport_ignores_buffer_size() {
    let r = renderer();
    assert_eq!(r.viewport_size(), (1832, 1920));
    for b in [buffer(1, 1, 0, 0, 1, 1), buffer(3840, 2160, 0, 0, 3840, 2160), buffer(640, 480, 10, 10, 20, 20)] {
        let cmds = r.render(&b);
        let viewports: Vec<&GpuCommand> =
            cmds.iter().filter(|c| matches!(c, GpuCommand::Viewport { .. })).collect();
        assert_eq!(viewports, vec![&GpuCommand::Viewport { width: 1832, height: 1920 }]);
    }
}

#[test]
fn destination_texture_is_never_taken_as_external() {
    for texture in [LEFT_TEX, RIGHT_TEX] {
        let (setup, _, _) = pending(StagingRenderer::new([LEFT_TEX, RIGHT_TEX], (64, 64)));
        let (setup, _, _) = pending(setup.step(shader_ok(1)));
        let (setup, _, _) = pending(setup.step(shader_ok(2)));
        let (setup, _, _) =
            pending(setup.step(Reply::Program { program: 3, linked: true, log: String::new() }));
        match setup.step(Reply::Objects { texture, left_framebuffer: 5, right_framebuffer: 6 }) {
            SetupStep::Failed { error, release } => {
                assert_eq!(error, SetupError::TextureIsDestination);
                assert_eq!(
                    release,
                    vec![
                        GpuCommand::DeleteProgram(3),
                        GpuCommand::DeleteFramebuffer(5),
                        GpuCommand::DeleteFramebuffer(6)
                    ]
                );
                assert!(!release.contains(&GpuCommand::DeleteTexture(LEFT_TEX)));
                assert!(!release.contains(&GpuCommand::DeleteTexture(RIGHT_TEX)));
            }
            _ => panic!("a destination texture cannot serve as the external texture"),
        }
    }
}
