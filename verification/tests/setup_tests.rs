use quad_demo::animation::animation_level;
use quad_demo::render::RenderLoop;
use quad_demo::render::initial_window_config;
use quad_demo::render::uniform_name;
use quad_demo::render::window_title;
use quad_demo::shader::BuildOp;
use quad_demo::shader::ShaderBuild;
use quad_demo::shader::ShaderError;
use quad_demo::shader::apply_outcome;
use quad_demo::shader::build_start;
use quad_demo::shader::next_op;

fn drive(outcomes: &[bool]) -> ShaderBuild {
    let mut b = build_start();
    for &ok in outcomes {
        b = apply_outcome(b, ok);
    }
    b
}

#[test]
fn successful_build_runs_all_five_stages_in_order() {
    let mut b = build_start();
    let expected = [
        BuildOp::ReadVertexSource,
        BuildOp::ReadFragmentSource,
        BuildOp::CompileVertex,
        BuildOp::CompileFragment,
        BuildOp::LinkProgram,
    ];
    for op in expected {
        assert_eq!(next_op(&b), Some(op));
        b = apply_outcome(b, true);
    }
    assert_eq!(b, ShaderBuild::Ready);
    assert_eq!(next_op(&b), None);
}

#[test]
fn unreadable_vertex_source_fails_before_anything_else_runs() {
    let b = drive(&[false]);
    assert_eq!(b, ShaderBuild::Failed(ShaderError::VertexSourceUnreadable));
    // No further operation is requested: no compile, no link, no partial state.
    assert_eq!(next_op(&b), None);
    // And the render loop refuses to start on it.
    assert!(RenderLoop::start(&b).is_none());
}

#[test]
fn each_stage_reports_its_own_failure() {
    assert_eq!(
        drive(&[true, false]),
        ShaderBuild::Failed(ShaderError::FragmentSourceUnreadable)
    );
    assert_eq!(
        drive(&[true, true, false]),
        ShaderBuild::Failed(ShaderError::VertexCompileFailed)
    );
    assert_eq!(
        drive(&[true, true, true, false]),
        ShaderBuild::Failed(ShaderError::FragmentCompileFailed)
    );
    assert_eq!(
        drive(&[true, true, true, true, false]),
        ShaderBuild::Failed(ShaderError::LinkFailed)
    );
}

#[test]
fn failed_build_stays_failed() {
    let b = drive(&[false, true, true]);
    assert_eq!(b, ShaderBuild::Failed(ShaderError::VertexSourceUnreadable));
}

#[test]
fn loop_starts_only_on_a_ready_build() {
    let ready = drive(&[true, true, true, true, true]);
    let rl = RenderLoop::start(&ready).unwrap();
    assert_eq!(rl.time.frames, 0);
    assert_eq!(rl.time.micros, 0);
    assert!(rl.should_render());
}

#[test]
fn window_parameters_are_fixed() {
    let c = initial_window_config();
    assert_eq!(c.width, 800);
    assert_eq!(c.height, 800);
    assert_eq!(c.context_major, 3);
    assert_eq!(c.context_minor, 3);
    assert_eq!(window_title(), "Game Engine");
    assert_eq!(uniform_name(), "z");
}

#[test]
fn animation_level_tracks_the_sine_and_stays_in_the_unit_interval() {
    assert_eq!(animation_level(-1_000_000), 0);
    assert_eq!(animation_level(0), 500_000);
    assert_eq!(animation_level(1_000_000), 1_000_000);
    for n in 0..2000u64 {
        let t = n as f32 * 0.005;
        let sin_micro = (f32::sin(t) * 1_000_000.0) as i32;
        let sin_micro = sin_micro.clamp(-1_000_000, 1_000_000);
        let level = animation_level(sin_micro);
        assert!(level <= 1_000_000);
        let value = level as f32 / 1_000_000.0;
        let direct = f32::sin(t) * 0.5 + 0.5;
        assert!((value - direct).abs() < 1e-5);
        assert!((-0.000001..=1.000001).contains(&value));
    }
}
