use pathfinder_demo::camera::Vector3;
use pathfinder_demo::demo_app::DemoApp;
use pathfinder_demo::event::{Event, Keycode};
use pathfinder_demo::geometry::Size2D;
use pathfinder_demo::options::Options;
use pathfinder_demo::pipeline::{FrameInput, ProxyOp, RunOutcome};
use pathfinder_demo::scene_thread::{MainToSceneMsg, SceneThread, ViewBox};
use std::sync::mpsc;

fn app(threed: bool) -> DemoApp {
    let options = Options { jobs: None, threed, input_path: String::from("scene.svg") };
    DemoApp::new(&options, 1067, Size2D::new(1067, 800)).0
}

fn quiet() -> FrameInput {
    FrameInput { rotated_velocity: None, events: Vec::new(), artifact_arrived: true }
}

fn with_events(events: Vec<Event>) -> FrameInput {
    FrameInput { rotated_velocity: None, events, artifact_arrived: true }
}

fn is_build(op: &ProxyOp) -> bool {
    matches!(op, ProxyOp::Send(MainToSceneMsg::Build(_)))
}

/// The number of builds in flight after each use of the proxy.
fn depths(ops: &[ProxyOp]) -> Vec<i64> {
    let mut depth = 0;
    let mut all = Vec::new();
    for op in ops {
        match op {
            ProxyOp::Send(MainToSceneMsg::Build(_)) => depth += 1,
            ProxyOp::Send(MainToSceneMsg::SetDrawableSize(_)) => {}
            ProxyOp::Receive => depth -= 1,
        }
        all.push(depth);
    }
    all
}

#[test]
fn first_frame_sends_two_builds_and_receives_one_scene() {
    let mut app = app(false);
    let mut ops = Vec::new();
    assert!(app.frame(&quiet(), &mut ops));
    assert_eq!(ops.len(), 3);
    assert!(is_build(&ops[0]));
    assert!(is_build(&ops[1]));
    assert_eq!(ops[2], ProxyOp::Receive);
    assert_eq!(app.frame_counter, 1);
}

#[test]
fn later_frames_send_one_build_and_receive_one_scene() {
    let mut app = app(false);
    let mut ops = Vec::new();
    app.frame(&quiet(), &mut ops);
    for frame in 1..6 {
        let mut ops = Vec::new();
        assert!(app.frame(&quiet(), &mut ops));
        assert_eq!(ops.len(), 2);
        assert!(is_build(&ops[0]));
        assert_eq!(ops[1], ProxyOp::Receive);
        assert_eq!(app.frame_counter, frame + 1);
    }
}

#[test]
fn frame_appends_to_what_was_there() {
    let mut app = app(false);
    let mut ops = vec![ProxyOp::Receive];
    app.frame(&quiet(), &mut ops);
    assert_eq!(ops.len(), 4);
    assert_eq!(ops[0], ProxyOp::Receive);
}

#[test]
fn a_resize_is_sent_after_the_builds_of_its_frame() {
    let mut app = app(false);
    let size = Size2D { width: 640, height: 480 };
    let mut ops = Vec::new();
    app.frame(&with_events(vec![Event::SizeChanged(size)]), &mut ops);
    assert_eq!(ops.len(), 4);
    assert_eq!(ops[2], ProxyOp::Send(MainToSceneMsg::SetDrawableSize(size)));
    assert_eq!(ops[3], ProxyOp::Receive);
}

#[test]
fn at_most_two_builds_are_ever_in_flight() {
    let mut app = app(true);
    let mut frames = Vec::new();
    for i in 0..50u32 {
        let mut events = Vec::new();
        if i % 7 == 0 {
            events.push(Event::SizeChanged(Size2D { width: 100 + i, height: 200 + i }));
        }
        if i % 5 == 0 {
            events.push(Event::KeyDown(Keycode::W));
        }
        if i % 3 == 0 {
            events.push(Event::MouseButtonDown { x: 900, y: 10 });
        }
        frames.push(FrameInput {
            rotated_velocity: Some(Vector3::new(0, 0, -25 * 65536)),
            events,
            artifact_arrived: true,
        });
    }
    let report = app.run(&frames);
    assert_eq!(report.outcome, RunOutcome::InputEnded);
    let depths = depths(&report.ops);
    assert_eq!(depths.iter().max(), Some(&2));
    assert_eq!(depths.iter().min(), Some(&1));
    assert_eq!(depths.last(), Some(&1));
    assert_eq!(report.ops.iter().filter(|op| is_build(op)).count(), 51);
    assert_eq!(report.ops.iter().filter(|op| **op == ProxyOp::Receive).count(), 50);
    assert_eq!(app.frame_counter, 50);
}

#[test]
fn run_over_no_frames_does_nothing() {
    let mut app = app(false);
    let before = app;
    let report = app.run(&Vec::new());
    assert!(report.ops.is_empty());
    assert_eq!(report.outcome, RunOutcome::InputEnded);
    assert_eq!(app, before);
}

#[test]
fn run_ends_after_the_frame_that_sees_quit() {
    let mut app = app(false);
    let frames = vec![quiet(), with_events(vec![Event::Quit]), quiet(), quiet()];
    let report = app.run(&frames);
    assert_eq!(report.outcome, RunOutcome::Exited);
    assert_eq!(report.ops.len(), 5);
    assert_eq!(app.frame_counter, 2);
    assert!(app.exit);
}

#[test]
fn run_of_an_app_that_has_exited_does_nothing() {
    let mut app = app(false);
    app.exit = true;
    let report = app.run(&vec![quiet(), quiet()]);
    assert!(report.ops.is_empty());
    assert_eq!(report.outcome, RunOutcome::Exited);
    assert_eq!(app.frame_counter, 0);
}

#[test]
fn run_ends_at_once_when_the_worker_is_gone() {
    let mut app = app(false);
    let lost = FrameInput { rotated_velocity: None, events: Vec::new(), artifact_arrived: false };
    let frames = vec![quiet(), lost, quiet()];
    let report = app.run(&frames);
    assert_eq!(report.outcome, RunOutcome::WorkerTerminated);
    assert_eq!(report.ops.len(), 4);
    assert!(is_build(&report.ops[3]));
    assert_eq!(app.frame_counter, 1);
    assert!(!app.exit);
}

#[test]
fn a_closed_channel_fails_the_receive_and_ends_the_run() {
    let (sender, receiver) = mpsc::channel::<u32>();
    sender.send(7).unwrap();
    drop(sender);
    let first = receiver.recv();
    let second = receiver.recv();
    assert_eq!(first, Ok(7));
    assert!(second.is_err());
    let frames = vec![
        FrameInput {
            rotated_velocity: None,
            events: Vec::new(),
            artifact_arrived: first.is_ok(),
        },
        FrameInput {
            rotated_velocity: None,
            events: Vec::new(),
            artifact_arrived: second.is_ok(),
        },
    ];
    let mut app = app(false);
    let report = app.run(&frames);
    assert_eq!(report.outcome, RunOutcome::WorkerTerminated);
    assert_eq!(report.ops.iter().filter(|op| **op == ProxyOp::Receive).count(), 1);
}

#[test]
fn a_camera_at_rest_stays_in_place_over_a_run() {
    let mut app = app(true);
    app.camera.yaw = 1_234_567;
    app.camera.pitch = -765_432;
    let start = app.camera.position;
    let frames: Vec<FrameInput> = (0..10)
        .map(|_| FrameInput {
            rotated_velocity: Some(Vector3::new(5, 5, 5)),
            events: vec![Event::MouseMotion { xrel: 3, yrel: 4 }],
            artifact_arrived: true,
        })
        .collect();
    app.run(&frames);
    assert_eq!(app.camera.position, start);
}

#[test]
fn the_worker_answers_a_run_in_order_and_with_the_current_size() {
    let options = Options { jobs: Some(1), threed: true, input_path: String::from("a.svg") };
    let (mut app, first) = DemoApp::new(&options, 1067, Size2D::new(1067, 800));
    let size = Size2D { width: 1280, height: 720 };
    let frames = vec![quiet(), with_events(vec![Event::SizeChanged(size)]), quiet(), quiet()];
    let report = app.run(&frames);
    let mut msgs = vec![first];
    for op in &report.ops {
        if let ProxyOp::Send(msg) = op {
            msgs.push(*msg);
        }
    }
    let jobs = SceneThread::new(options.jobs).run(&msgs);
    assert_eq!(jobs.len(), 5);
    let old = ViewBox::FromOrigin(Size2D { width: 1067, height: 800 });
    let new = ViewBox::FromOrigin(size);
    let boxes: Vec<ViewBox> = jobs.iter().map(|job| job.view_box).collect();
    assert_eq!(boxes, vec![old, old, old, new, new]);
}
