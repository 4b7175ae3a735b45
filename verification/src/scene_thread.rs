//! The scene worker's side of the protocol: the requests it is sent, and what
//! it does for each of them, in the order in which they arrive.

use crate::geometry::Size2D;
use crate::options::{BuildOptions, BuildStrategy, Dilation, RenderTransform};
use vstd::prelude::*;

verus! {

/// A request from the control loop to the scene worker.
#[derive(Clone, Copy, Debug, PartialEq, Eq, Structural)]
pub enum MainToSceneMsg {
    /// The drawable surface has this size from now on. Not answered.
    SetDrawableSize(Size2D),
    /// Build the scene. Answered by one built scene.
    Build(BuildOptions),
}

/// The rectangle of the scene that a build covers.
#[derive(Clone, Copy, Debug, PartialEq, Eq, Structural)]
pub enum ViewBox {
    /// The rectangle that the scene was loaded with.
    AsLoaded,
    /// The rectangle from the origin to the given size.
    FromOrigin(Size2D),
}

/// One build, as the worker hands it to the scene builder.
#[derive(Clone, Copy, Debug, PartialEq, Eq, Structural)]
pub struct BuildJob {
    pub view_box: ViewBox,
    pub transform: RenderTransform,
    pub dilation: Dilation,
    pub strategy: BuildStrategy,
}

/// How the scene builder ended.
#[derive(Clone, Copy, Debug, PartialEq, Eq, Structural)]
pub enum BuildOutcome {
    Built,
    /// The builder ended abnormally; what it left behind cannot be used.
    Crashed,
}

/// What the worker does once a build has ended.
#[derive(Clone, Copy, Debug, PartialEq, Eq, Structural)]
pub enum AfterBuild {
    /// Send the built scene and the time it took to the control loop.
    SendRender,
    /// Report the scene and end the process with this exit code. A crashed
    /// build is never retried and never answered.
    DumpSceneAndExit { code: i32 },
}

/// What the worker does after one wait on its request channel.
#[derive(Clone, Copy, Debug, PartialEq, Eq, Structural)]
pub enum WorkerStep {
    /// The channel is closed: the receive loop, and with it the thread, ends.
    Stop,
    /// The request needed no answer: wait for the next one.
    Continue,
    /// Run this build, answer it, and wait for the next request.
    Build(BuildJob),
}

/// The exit code of a process that ends because a build crashed.
pub const EXIT_CODE_BUILD_CRASHED: i32 = 1;

/// The exit code of a process that ends because the user quit.
pub const EXIT_CODE_QUIT: i32 = 0;

/// The worker: the view box of the scene it owns, and the job count it was
/// started with.
#[derive(Clone, Copy, Debug, PartialEq, Eq, Structural)]
pub struct SceneThread {
    pub view_box: ViewBox,
    pub jobs: Option<usize>,
}

/// The build that `build_options` asks for on a scene with `view_box`.
pub open spec fn build_job(
    view_box: ViewBox,
    build_options: BuildOptions,
    jobs: Option<usize>,
) -> BuildJob {
    BuildJob {
        view_box,
        transform: build_options.transform_spec(),
        dilation: build_options.dilation_spec(),
        strategy: BuildStrategy::for_jobs_spec(jobs),
    }
}

/// Prepares one build: the transform and the dilation that the options stand
/// for, and the strategy that the job count selects.
pub fn build_scene(view_box: ViewBox, build_options: BuildOptions, jobs: Option<usize>) -> (job:
    BuildJob)
    ensures
        job == build_job(view_box, build_options, jobs),
{
    BuildJob {
        view_box,
        transform: build_options.transform(),
        dilation: build_options.dilation(),
        strategy: BuildStrategy::for_jobs(jobs),
    }
}

/// What follows a build: a built scene is sent back, a crash ends the process.
pub fn after_build(outcome: BuildOutcome) -> (action: AfterBuild)
    ensures
        action == match outcome {
            BuildOutcome::Built => AfterBuild::SendRender,
            BuildOutcome::Crashed => AfterBuild::DumpSceneAndExit { code: EXIT_CODE_BUILD_CRASHED },
        },
{
    match outcome {
        BuildOutcome::Built => AfterBuild::SendRender,
        BuildOutcome::Crashed => AfterBuild::DumpSceneAndExit { code: EXIT_CODE_BUILD_CRASHED },
    }
}

impl SceneThread {
    /// The worker after `msg`: a new size replaces the view box, a build
    /// changes nothing.
    pub open spec fn after(self, msg: MainToSceneMsg) -> SceneThread {
        match msg {
            MainToSceneMsg::SetDrawableSize(size) => SceneThread {
                view_box: ViewBox::FromOrigin(size),
                ..self
            },
            MainToSceneMsg::Build(_) => self,
        }
    }

    /// The build that `msg` starts, if it starts one.
    pub open spec fn job_for(self, msg: MainToSceneMsg) -> Option<BuildJob> {
        match msg {
            MainToSceneMsg::SetDrawableSize(_) => None,
            MainToSceneMsg::Build(build_options) => Some(
                build_job(self.view_box, build_options, self.jobs),
            ),
        }
    }

    /// The worker after all of `msgs`, taken in order.
    pub open spec fn after_all(self, msgs: Seq<MainToSceneMsg>) -> SceneThread
        decreases msgs.len(),
    {
        if msgs.len() == 0 {
            self
        } else {
            self.after_all(msgs.drop_last()).after(msgs.last())
        }
    }

    /// The builds that `msgs` start, in the order in which they start.
    pub open spec fn jobs_for(self, msgs: Seq<MainToSceneMsg>) -> Seq<BuildJob>
        decreases msgs.len(),
    {
        if msgs.len() == 0 {
            Seq::empty()
        } else {
            let earlier = self.jobs_for(msgs.drop_last());
            match self.after_all(msgs.drop_last()).job_for(msgs.last()) {
                Some(job) => earlier.push(job),
                None => earlier,
            }
        }
    }

    /// A worker whose scene has the view box it was loaded with.
    pub fn new(jobs: Option<usize>) -> (worker: SceneThread)
        ensures
            worker == (SceneThread { view_box: ViewBox::AsLoaded, jobs }),
    {
        SceneThread { view_box: ViewBox::AsLoaded, jobs }
    }

    /// Handles one request and returns the build to run for it, if any.
    pub fn handle(&mut self, msg: MainToSceneMsg) -> (job: Option<BuildJob>)
        ensures
            *final(self) == old(self).after(msg),
            job == old(self).job_for(msg),
    {
        match msg {
            MainToSceneMsg::SetDrawableSize(size) => {
                self.view_box = ViewBox::FromOrigin(size);
                None
            },
            MainToSceneMsg::Build(build_options) => Some(
                build_scene(self.view_box, build_options, self.jobs),
            ),
        }
    }

    /// What follows one wait on the request channel, `received` being the
    /// request that arrived, or nothing where the channel is closed.
    pub open spec fn step_for(self, received: Option<MainToSceneMsg>) -> WorkerStep {
        match received {
            None => WorkerStep::Stop,
            Some(msg) => match self.job_for(msg) {
                Some(job) => WorkerStep::Build(job),
                None => WorkerStep::Continue,
            },
        }
    }

    /// One turn of the receive loop: handles the request that arrived, or
    /// stops, unchanged, where the channel is closed.
    pub fn step(&mut self, received: Option<MainToSceneMsg>) -> (step: WorkerStep)
        ensures
            step == old(self).step_for(received),
            *final(self) == match received {
                Some(msg) => old(self).after(msg),
                None => *old(self),
            },
    {
        match received {
            None => WorkerStep::Stop,
            Some(msg) => match self.handle(msg) {
                Some(job) => WorkerStep::Build(job),
                None => WorkerStep::Continue,
            },
        }
    }

    /// Handles the requests in order, as the receive loop does until the
    /// channel closes, and returns the builds in the order in which they ran.
    pub fn run(&mut self, msgs: &Vec<MainToSceneMsg>) -> (jobs: Vec<BuildJob>)
        ensures
            *final(self) == old(self).after_all(msgs@),
            jobs@ == old(self).jobs_for(msgs@),
    {
        let mut jobs: Vec<BuildJob> = Vec::new();
        let ghost start = *self;
        let mut i: usize = 0;
        while i < msgs.len()
            invariant
                i <= msgs.len(),
                *self == start.after_all(msgs@.take(i as int)),
                jobs@ == start.jobs_for(msgs@.take(i as int)),
            decreases msgs.len() - i,
        {
            proof {
                assert(msgs@.take(i + 1).drop_last() == msgs@.take(i as int));
                assert(msgs@.take(i + 1).last() == msgs@[i as int]);
            }
            if let Some(job) = self.handle(msgs[i]) {
                jobs.push(job);
            }
            i = i + 1;
        }
        proof {
            assert(msgs@.take(msgs.len() as int) == msgs@);
        }
        jobs
    }
}

/// How many of `msgs` ask for a build.
pub open spec fn build_count(msgs: Seq<MainToSceneMsg>) -> nat
    decreases msgs.len(),
{
    if msgs.len() == 0 {
        0
    } else {
        build_count(msgs.drop_last()) + if msgs.last() is Build {
            1nat
        } else {
            0nat
        }
    }
}

/// The place, among the answers, of the answer to the request at `index`:
/// the number of builds asked for before it.
pub open spec fn answer_index(msgs: Seq<MainToSceneMsg>, index: int) -> int {
    build_count(msgs.take(index)) as int
}

proof fn lemma_one_job_per_build(worker: SceneThread, msgs: Seq<MainToSceneMsg>)
    ensures
        worker.jobs_for(msgs).len() == build_count(msgs),
    decreases msgs.len(),
{
    if msgs.len() > 0 {
        lemma_one_job_per_build(worker, msgs.drop_last());
    }
}

proof fn lemma_jobs_of_prefix(worker: SceneThread, msgs: Seq<MainToSceneMsg>, end: int)
    requires
        0 <= end <= msgs.len(),
    ensures
        build_count(msgs.take(end)) <= build_count(msgs),
        worker.jobs_for(msgs.take(end)) == worker.jobs_for(msgs).take(
            build_count(msgs.take(end)) as int,
        ),
    decreases msgs.len(),
{
    lemma_one_job_per_build(worker, msgs);
    if end == msgs.len() {
        assert(msgs.take(end) == msgs);
    } else {
        let shorter = msgs.drop_last();
        assert(msgs.take(end) == shorter.take(end));
        lemma_jobs_of_prefix(worker, shorter, end);
        lemma_one_job_per_build(worker, shorter);
    }
}

proof fn lemma_job_of_build(worker: SceneThread, msgs: Seq<MainToSceneMsg>, index: int)
    requires
        0 <= index < msgs.len(),
        msgs[index] is Build,
    ensures
        0 <= answer_index(msgs, index) < worker.jobs_for(msgs).len(),
        Some(worker.jobs_for(msgs)[answer_index(msgs, index)]) == worker.after_all(
            msgs.take(index),
        ).job_for(msgs[index]),
        answer_index(msgs, index + 1) == answer_index(msgs, index) + 1,
{
    let before = msgs.take(index);
    let through = msgs.take(index + 1);
    assert(through.drop_last() == before);
    assert(through.last() == msgs[index]);
    lemma_one_job_per_build(worker, before);
    lemma_one_job_per_build(worker, msgs);
    lemma_jobs_of_prefix(worker, msgs, index + 1);
    let place = answer_index(msgs, index);
    let job = worker.after_all(before).job_for(msgs[index])->0;
    assert(build_count(through) == place + 1);
    assert(worker.jobs_for(through) == worker.jobs_for(before).push(job));
    assert(worker.jobs_for(through)[place] == job);
    assert(worker.jobs_for(msgs).take(place + 1)[place] == worker.jobs_for(msgs)[place]);
}

/// A longer prefix of `msgs` asks for at least as many builds as a shorter one.
pub proof fn lemma_build_count_grows(msgs: Seq<MainToSceneMsg>, from: int, to: int)
    requires
        0 <= from <= to <= msgs.len(),
    ensures
        build_count(msgs.take(from)) <= build_count(msgs.take(to)),
    decreases to - from,
{
    if from < to {
        assert(msgs.take(to).drop_last() == msgs.take(to - 1));
        lemma_build_count_grows(msgs, from, to - 1);
    }
}

proof fn lemma_size_lasts(
    worker: SceneThread,
    msgs: Seq<MainToSceneMsg>,
    set_at: int,
    until: int,
    size: Size2D,
)
    requires
        0 <= set_at < until <= msgs.len(),
        msgs[set_at] == MainToSceneMsg::SetDrawableSize(size),
        forall|k: int| set_at < k < until ==> msgs[k] is Build,
    ensures
        worker.after_all(msgs.take(until)).view_box == ViewBox::FromOrigin(size),
    decreases until - set_at,
{
    assert(msgs.take(until).drop_last() == msgs.take(until - 1));
    assert(msgs.take(until).last() == msgs[until - 1]);
    if until - 1 > set_at {
        lemma_size_lasts(worker, msgs, set_at, until - 1, size);
    }
}

/// Every build request is answered by exactly one build, and the builds run
/// in the order of their requests: the answer to the request at `index` has
/// the place `answer_index(msgs, index)`, and it is the build that the request
/// asks for on the scene as the earlier requests left it.
pub proof fn each_build_is_answered_in_its_place(
    worker: SceneThread,
    msgs: Seq<MainToSceneMsg>,
    index: int,
)
    requires
        0 <= index < msgs.len(),
        msgs[index] is Build,
    ensures
        worker.jobs_for(msgs).len() == build_count(msgs),
        0 <= answer_index(msgs, index) < worker.jobs_for(msgs).len(),
        Some(worker.jobs_for(msgs)[answer_index(msgs, index)]) == worker.after_all(
            msgs.take(index),
        ).job_for(msgs[index]),
{
    lemma_one_job_per_build(worker, msgs);
    lemma_job_of_build(worker, msgs, index);
}

/// Answers come in the order of the requests: of two build requests, the
/// answer to the earlier one comes strictly before the answer to the later one.
pub proof fn answers_keep_the_order_of_requests(
    worker: SceneThread,
    msgs: Seq<MainToSceneMsg>,
    earlier: int,
    later: int,
)
    requires
        0 <= earlier < later < msgs.len(),
        msgs[earlier] is Build,
        msgs[later] is Build,
    ensures
        0 <= answer_index(msgs, earlier) < answer_index(msgs, later) < worker.jobs_for(
            msgs,
        ).len(),
{
    lemma_job_of_build(worker, msgs, earlier);
    lemma_job_of_build(worker, msgs, later);
    lemma_build_count_grows(msgs, earlier + 1, later);
}

/// A build that is asked for after a new drawable size, with no other size
/// in between, covers the rectangle from the origin to that size.
pub proof fn build_after_resize_covers_new_size(
    worker: SceneThread,
    msgs: Seq<MainToSceneMsg>,
    resize: int,
    build: int,
    size: Size2D,
)
    requires
        0 <= resize < build < msgs.len(),
        msgs[resize] == MainToSceneMsg::SetDrawableSize(size),
        forall|k: int| resize < k <= build ==> msgs[k] is Build,
    ensures
        0 <= answer_index(msgs, build) < worker.jobs_for(msgs).len(),
        worker.jobs_for(msgs)[answer_index(msgs, build)].view_box == ViewBox::FromOrigin(size),
{
    lemma_job_of_build(worker, msgs, build);
    lemma_size_lasts(worker, msgs, resize, build, size);
}

} // verus!
