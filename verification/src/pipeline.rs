//! Whole runs of the control loop against the worker proxy: what is sent and
//! received, in order, and how many builds are in flight at any moment.

use crate::camera::Vector3;
use crate::demo_app::{builds_for_frame, request_for, requests_for, DemoApp};
use crate::event::Event;
use crate::scene_thread::{build_count, lemma_build_count_grows, MainToSceneMsg};
use vstd::prelude::*;

verus! {

/// One use of the worker proxy by the control loop.
#[derive(Clone, Copy, Debug, PartialEq, Eq, Structural)]
pub enum ProxyOp {
    /// A request was handed to the worker, without waiting for it.
    Send(MainToSceneMsg),
    /// The loop waited for the next built scene and got it.
    Receive,
}

/// What reaches the control loop from outside during one frame.
#[derive(Clone, Debug)]
pub struct FrameInput {
    /// The camera's velocity as the rotation returned it, if it was computed.
    pub rotated_velocity: Option<Vector3>,
    /// The events collected in this frame, in arrival order.
    pub events: Vec<Event>,
    /// Whether the wait for the built scene ended with a scene. It ends
    /// without one only when the worker is gone.
    pub artifact_arrived: bool,
}

/// Why a run ended.
#[derive(Clone, Copy, Debug, PartialEq, Eq, Structural)]
pub enum RunOutcome {
    /// The exit flag was set: a normal shutdown.
    Exited,
    /// A wait for a built scene failed. The loop does not try again.
    WorkerTerminated,
    /// Every frame of the input was run.
    InputEnded,
}

/// What a run did with the proxy, and why it ended.
#[derive(Clone, Debug)]
pub struct RunReport {
    pub ops: Vec<ProxyOp>,
    pub outcome: RunOutcome,
}

/// The sends of `msgs`, in order.
pub open spec fn sends(msgs: Seq<MainToSceneMsg>) -> Seq<ProxyOp> {
    Seq::new(msgs.len(), |i: int| ProxyOp::Send(msgs[i]))
}

/// By how much one use of the proxy changes the number of builds in flight.
pub open spec fn change_in_flight(op: ProxyOp) -> int {
    match op {
        ProxyOp::Send(MainToSceneMsg::Build(_)) => 1,
        ProxyOp::Send(MainToSceneMsg::SetDrawableSize(_)) => 0,
        ProxyOp::Receive => -1,
    }
}

/// The number of builds sent less the number of built scenes received.
pub open spec fn outstanding(ops: Seq<ProxyOp>) -> int
    decreases ops.len(),
{
    if ops.len() == 0 {
        0
    } else {
        outstanding(ops.drop_last()) + change_in_flight(ops.last())
    }
}

impl DemoApp {
    /// The requests of one frame: its builds first, then what its events
    /// call for.
    pub open spec fn frame_requests(self, input: FrameInput) -> Seq<MainToSceneMsg> {
        self.build_requests(input.rotated_velocity) + requests_for(input.events@)
    }

    /// The uses of the proxy in one frame: the requests, then the built
    /// scene, if it arrives.
    pub open spec fn frame_ops(self, input: FrameInput) -> Seq<ProxyOp> {
        if input.artifact_arrived {
            sends(self.frame_requests(input)).push(ProxyOp::Receive)
        } else {
            sends(self.frame_requests(input))
        }
    }

    /// The state after one frame. A frame whose built scene does not arrive
    /// is not presented.
    pub open spec fn after_frame(self, input: FrameInput) -> DemoApp {
        let built = self.after_build_scene(input.rotated_velocity);
        let taken = built.after_events(input.events@);
        if input.artifact_arrived {
            taken.after_draw_scene(built.pending_after(input.events@))
        } else {
            taken
        }
    }

    /// The uses of the proxy in a run over `frames`: frame after frame, until
    /// the exit flag is set, a built scene fails to arrive, or the input ends.
    pub open spec fn run_ops(self, frames: Seq<FrameInput>) -> Seq<ProxyOp>
        decreases frames.len(),
    {
        if frames.len() == 0 || self.exit {
            Seq::empty()
        } else if !frames[0].artifact_arrived {
            self.frame_ops(frames[0])
        } else {
            self.frame_ops(frames[0]) + self.after_frame(frames[0]).run_ops(frames.skip(1))
        }
    }

    /// The state after a run over `frames`.
    pub open spec fn after_run(self, frames: Seq<FrameInput>) -> DemoApp
        decreases frames.len(),
    {
        if frames.len() == 0 || self.exit {
            self
        } else if !frames[0].artifact_arrived {
            self.after_frame(frames[0])
        } else {
            self.after_frame(frames[0]).after_run(frames.skip(1))
        }
    }

    /// Why a run over `frames` ends.
    pub open spec fn run_outcome(self, frames: Seq<FrameInput>) -> RunOutcome
        decreases frames.len(),
    {
        if self.exit {
            RunOutcome::Exited
        } else if frames.len() == 0 {
            RunOutcome::InputEnded
        } else if !frames[0].artifact_arrived {
            RunOutcome::WorkerTerminated
        } else {
            self.after_frame(frames[0]).run_outcome(frames.skip(1))
        }
    }

    /// Runs one frame and appends its uses of the proxy to `ops`. Returns
    /// whether the frame was presented.
    pub fn frame(&mut self, input: &FrameInput, ops: &mut Vec<ProxyOp>) -> (presented: bool)
        ensures
            *final(self) == old(self).after_frame(*input),
            final(ops)@ == old(ops)@ + old(self).frame_ops(*input),
            presented == input.artifact_arrived,
    {
        let builds = self.build_scene(input.rotated_velocity);
        let (ui_event, resizes) = self.handle_events(&input.events);
        let ghost requests = old(self).frame_requests(*input);
        push_sends(ops, &builds);
        push_sends(ops, &resizes);
        assert(ops@ == old(ops)@ + sends(requests)) by {
            assert(sends(requests) == sends(builds@) + sends(resizes@));
        }
        if input.artifact_arrived {
            ops.push(ProxyOp::Receive);
            self.draw_scene(ui_event);
            assert(ops@ == old(ops)@ + sends(requests).push(ProxyOp::Receive));
            true
        } else {
            false
        }
    }

    /// Runs the control loop over `frames`: while the exit flag is clear,
    /// each frame issues its builds, takes its events, waits for one built
    /// scene and is presented. A built scene that does not arrive ends the
    /// run at once.
    pub fn run(&mut self, frames: &Vec<FrameInput>) -> (report: RunReport)
        ensures
            *final(self) == old(self).after_run(frames@),
            report.ops@ == old(self).run_ops(frames@),
            report.outcome == old(self).run_outcome(frames@),
    {
        let ghost start = *self;
        let mut ops: Vec<ProxyOp> = Vec::new();
        let mut i: usize = 0;
        assert(frames@.skip(0) == frames@);
        while i < frames.len() && !self.exit
            invariant
                i <= frames.len(),
                start == *old(self),
                start.after_run(frames@) == self.after_run(frames@.skip(i as int)),
                start.run_ops(frames@) == ops@ + self.run_ops(frames@.skip(i as int)),
                start.run_outcome(frames@) == self.run_outcome(frames@.skip(i as int)),
            decreases frames.len() - i,
        {
            let ghost rest = frames@.skip(i as int);
            let ghost before = *self;
            let ghost ops_before = ops@;
            assert(rest[0] == frames@[i as int]);
            assert(rest.skip(1) == frames@.skip(i + 1));
            let presented = self.frame(&frames[i], &mut ops);
            if !presented {
                assert(ops@ == ops_before + before.run_ops(rest));
                return RunReport { ops, outcome: RunOutcome::WorkerTerminated };
            }
            assert(ops@ + self.run_ops(rest.skip(1)) == ops_before + before.run_ops(rest));
            i = i + 1;
        }
        let outcome = if self.exit {
            RunOutcome::Exited
        } else {
            RunOutcome::InputEnded
        };
        assert(ops@ + self.run_ops(frames@.skip(i as int)) == ops@);
        RunReport { ops, outcome }
    }
}

/// Appends the sends of `msgs` to `ops`.
fn push_sends(ops: &mut Vec<ProxyOp>, msgs: &Vec<MainToSceneMsg>)
    ensures
        final(ops)@ == old(ops)@ + sends(msgs@),
{
    let mut i: usize = 0;
    while i < msgs.len()
        invariant
            i <= msgs.len(),
            ops@ == old(ops)@ + sends(msgs@.take(i as int)),
        decreases msgs.len() - i,
    {
        ops.push(ProxyOp::Send(msgs[i]));
        assert(sends(msgs@.take(i + 1)) == sends(msgs@.take(i as int)).push(
            ProxyOp::Send(msgs@[i as int]),
        ));
        i = i + 1;
    }
    assert(msgs@.take(msgs.len() as int) == msgs@);
}

/// The number of builds in flight between two frames: none before the first
/// frame, one afterwards.
pub open spec fn in_flight_between_frames(frame: int) -> int {
    if frame == 0 {
        0
    } else {
        1
    }
}

proof fn lemma_outstanding_of_concat(a: Seq<ProxyOp>, b: Seq<ProxyOp>)
    ensures
        outstanding(a + b) == outstanding(a) + outstanding(b),
    decreases b.len(),
{
    if b.len() == 0 {
        assert(a + b == a);
    } else {
        assert((a + b).drop_last() == a + b.drop_last());
        lemma_outstanding_of_concat(a, b.drop_last());
    }
}

proof fn lemma_outstanding_of_sends(msgs: Seq<MainToSceneMsg>)
    ensures
        outstanding(sends(msgs)) == build_count(msgs),
    decreases msgs.len(),
{
    if msgs.len() > 0 {
        assert(sends(msgs).drop_last() == sends(msgs.drop_last()));
        lemma_outstanding_of_sends(msgs.drop_last());
    }
}

proof fn lemma_build_count_of_concat(a: Seq<MainToSceneMsg>, b: Seq<MainToSceneMsg>)
    ensures
        build_count(a + b) == build_count(a) + build_count(b),
    decreases b.len(),
{
    if b.len() == 0 {
        assert(a + b == a);
    } else {
        assert((a + b).drop_last() == a + b.drop_last());
        lemma_build_count_of_concat(a, b.drop_last());
    }
}

proof fn lemma_events_ask_for_no_build(events: Seq<Event>)
    ensures
        build_count(requests_for(events)) == 0,
    decreases events.len(),
{
    if events.len() > 0 {
        lemma_events_ask_for_no_build(events.drop_last());
        let earlier = requests_for(events.drop_last());
        if let Some(msg) = request_for(events.last()) {
            assert(earlier.push(msg).drop_last() == earlier);
        }
    }
}

proof fn lemma_build_requests_are_builds(app: DemoApp, rotated_velocity: Option<Vector3>)
    ensures
        build_count(app.build_requests(rotated_velocity)) == builds_for_frame(
            app.frame_counter as int,
        ),
{
    let requests = app.build_requests(rotated_velocity);
    let one = requests.drop_last();
    if app.frame_counter == 0 {
        assert(build_count(one.drop_last()) == 0);
    } else {
        assert(build_count(one) == 0);
    }
}

/// A frame issues exactly two builds if it is the first one and exactly one
/// if it is a later one, whatever its input is.
pub proof fn frame_issues_its_builds(app: DemoApp, input: FrameInput)
    ensures
        build_count(app.frame_requests(input)) == builds_for_frame(app.frame_counter as int),
        builds_for_frame(app.frame_counter as int) == if app.frame_counter == 0 {
            2int
        } else {
            1int
        },
{
    lemma_build_requests_are_builds(app, input.rotated_velocity);
    lemma_events_ask_for_no_build(input.events@);
    lemma_build_count_of_concat(
        app.build_requests(input.rotated_velocity),
        requests_for(input.events@),
    );
}

proof fn lemma_depth_within_frame(app: DemoApp, input: FrameInput, k: int)
    requires
        0 <= k <= app.frame_ops(input).len(),
    ensures
        0 <= outstanding(app.frame_ops(input).take(k)) <= builds_for_frame(
            app.frame_counter as int,
        ),
        outstanding(app.frame_ops(input)) == builds_for_frame(app.frame_counter as int)
            - if input.artifact_arrived {
            1int
        } else {
            0int
        },
{
    let requests = app.frame_requests(input);
    let ops = app.frame_ops(input);
    frame_issues_its_builds(app, input);
    lemma_outstanding_of_sends(requests);
    if input.artifact_arrived {
        assert(ops.drop_last() == sends(requests));
    }
    assert(ops.take(ops.len() as int) == ops);
    if k <= requests.len() {
        assert(ops.take(k) == sends(requests.take(k)));
        lemma_outstanding_of_sends(requests.take(k));
        lemma_build_count_grows(requests, k, requests.len() as int);
        assert(requests.take(requests.len() as int) == requests);
    }
}

proof fn lemma_depth_within_run(app: DemoApp, frames: Seq<FrameInput>, k: int)
    requires
        0 <= k <= app.run_ops(frames).len(),
    ensures
        0 <= in_flight_between_frames(app.frame_counter as int) + outstanding(
            app.run_ops(frames).take(k),
        ) <= 2,
    decreases frames.len(),
{
    let ops = app.run_ops(frames);
    if frames.len() == 0 || app.exit {
        assert(ops.take(k) == Seq::<ProxyOp>::empty());
    } else {
        let first = app.frame_ops(frames[0]);
        if k <= first.len() {
            assert(ops.take(k) == first.take(k));
            lemma_depth_within_frame(app, frames[0], k);
        } else {
            let next = app.after_frame(frames[0]);
            let rest = next.run_ops(frames.skip(1));
            let more = k - first.len();
            assert(ops.take(k) == first + rest.take(more));
            lemma_outstanding_of_concat(first, rest.take(more));
            lemma_depth_within_frame(app, frames[0], first.len() as int);
            lemma_depth_within_run(next, frames.skip(1), more);
        }
    }
}

/// In a run that starts before the first frame, at every moment at most two
/// builds that were sent are still unanswered, and a built scene is waited
/// for only while at least one is.
pub proof fn pipeline_depth_is_bounded(app: DemoApp, frames: Seq<FrameInput>, k: int)
    requires
        app.frame_counter == 0,
        0 <= k <= app.run_ops(frames).len(),
    ensures
        0 <= outstanding(app.run_ops(frames).take(k)) <= 2,
{
    lemma_depth_within_run(app, frames, k);
}

proof fn lemma_events_leave_position(app: DemoApp, events: Seq<Event>)
    ensures
        app.after_events(events).camera.position == app.camera.position,
    decreases events.len(),
{
    if events.len() > 0 {
        lemma_events_leave_position(app, events.drop_last());
    }
}

/// A camera with zero velocity keeps its position over a frame, whatever its
/// yaw and pitch are and whatever the frame's input is.
pub proof fn camera_at_rest_keeps_its_position(app: DemoApp, input: FrameInput)
    requires
        app.camera.velocity == Vector3::zero(),
    ensures
        app.after_frame(input).camera.position == app.camera.position,
{
    lemma_events_leave_position(app.after_build_scene(input.rotated_velocity), input.events@);
}

} // verus!
