//! The frame control loop: what a frame asks of the scene worker, how it
//! takes its input, and what it records once the frame is on screen.

use crate::camera::{CameraMotion, CameraState, Vector3};
use crate::event::{Event, Keycode, UIEvent};
use crate::geometry::{Point2DI32, Size2D};
use crate::options::{BuildOptions, Options, RenderTransform, ScaleFactor};
use crate::scene_thread::MainToSceneMsg;
use crate::ui::DemoUI;
use vstd::prelude::*;

verus! {

/// The state that the control loop carries from frame to frame.
#[derive(Clone, Copy, Debug, PartialEq, Eq, Structural)]
pub struct DemoApp {
    pub scale_factor: ScaleFactor,
    pub drawable_size: Size2D,
    pub camera: CameraState,
    /// The number of frames presented so far. It stops counting at `u32::MAX`.
    pub frame_counter: u32,
    pub exit: bool,
    pub mouselook_enabled: bool,
    pub ui_event_handled_last_frame: bool,
    pub ui: DemoUI,
}

/// How many builds the frame with the given number asks for: two for the
/// first frame, so that one built scene is always ready ahead of time, and
/// one for every later frame.
pub open spec fn builds_for_frame(frame: int) -> int {
    if frame == 0 {
        2
    } else {
        1
    }
}

/// The message that asks the worker to adopt the size that `event` carries.
pub open spec fn request_for(event: Event) -> Option<MainToSceneMsg> {
    match event {
        Event::SizeChanged(size) => Some(MainToSceneMsg::SetDrawableSize(size)),
        _ => None,
    }
}

/// The messages that a batch of events sends to the worker: one for each
/// change of size, in the order of the events.
pub open spec fn requests_for(events: Seq<Event>) -> Seq<MainToSceneMsg>
    decreases events.len(),
{
    if events.len() == 0 {
        Seq::empty()
    } else {
        match request_for(events.last()) {
            Some(msg) => requests_for(events.drop_last()).push(msg),
            None => requests_for(events.drop_last()),
        }
    }
}

impl DemoApp {
    /// The state before the first frame.
    pub open spec fn initial(threed: bool, window_width: u32, drawable_size: Size2D) -> DemoApp {
        DemoApp {
            scale_factor: ScaleFactor { drawable_width: drawable_size.width, window_width },
            drawable_size,
            camera: CameraState::initial(),
            frame_counter: 0,
            exit: false,
            mouselook_enabled: false,
            ui_event_handled_last_frame: false,
            ui: DemoUI::initial(threed),
        }
    }

    /// What the camera asks of the coming frame: nothing in 2D.
    pub open spec fn camera_motion_spec(self) -> CameraMotion {
        if self.ui.threed_enabled {
            self.camera.motion_spec()
        } else {
            CameraMotion::Idle
        }
    }

    /// The state after the frame's builds were issued: in 3D the camera has
    /// made one integration step, in 2D nothing has changed.
    pub open spec fn after_build_scene(self, rotated_velocity: Option<Vector3>) -> DemoApp {
        if self.ui.threed_enabled {
            DemoApp { camera: self.camera.after_step(rotated_velocity), ..self }
        } else {
            self
        }
    }

    /// The options of the builds that the coming frame issues.
    pub open spec fn build_options(self, rotated_velocity: Option<Vector3>) -> BuildOptions {
        BuildOptions::assembled(
            self.ui,
            self.after_build_scene(rotated_velocity).camera,
            self.drawable_size,
            self.scale_factor,
        )
    }

    /// The build requests that the coming frame issues.
    pub open spec fn build_requests(self, rotated_velocity: Option<Vector3>) -> Seq<
        MainToSceneMsg,
    > {
        Seq::new(
            builds_for_frame(self.frame_counter as int) as nat,
            |i: int| MainToSceneMsg::Build(self.build_options(rotated_velocity)),
        )
    }

    /// Whether input is taken by blocking until an event arrives, rather than
    /// by draining what is queued: only while the camera moves, from the third
    /// frame on, and not right after a frame in which a widget took the event.
    pub open spec fn wait_for_event_spec(self) -> bool {
        &&& self.camera.velocity != Vector3::zero()
        &&& self.frame_counter >= 2
        &&& !self.ui_event_handled_last_frame
    }

    /// The state after one event.
    pub open spec fn after_event(self, event: Event) -> DemoApp {
        match event {
            Event::Quit => DemoApp { exit: true, ..self },
            Event::KeyDown(Keycode::Escape) => DemoApp { exit: true, ..self },
            Event::SizeChanged(size) => DemoApp { drawable_size: size, ..self },
            Event::MouseMotion { xrel, yrel } => if self.mouselook_enabled {
                DemoApp { camera: self.camera.after_look(xrel, yrel), ..self }
            } else {
                self
            },
            Event::KeyDown(key) => DemoApp { camera: self.camera.after_key_down(key), ..self },
            Event::KeyUp(key) => DemoApp { camera: self.camera.after_key_up(key), ..self },
            Event::MouseButtonDown { .. } => self,
            Event::Other => self,
        }
    }

    /// The pending pointer event after one event: a pointer-down replaces
    /// whatever was pending, at its position times the whole part of the
    /// scale factor.
    pub open spec fn pending_after_event(self, event: Event, pending: UIEvent) -> UIEvent {
        match event {
            Event::MouseButtonDown { x, y } => UIEvent::MouseDown(
                Point2DI32 { x, y }.scaled(self.scale_factor.whole_part()),
            ),
            _ => pending,
        }
    }

    /// The state after a batch of events, each taken once, in order.
    pub open spec fn after_events(self, events: Seq<Event>) -> DemoApp
        decreases events.len(),
    {
        if events.len() == 0 {
            self
        } else {
            self.after_events(events.drop_last()).after_event(events.last())
        }
    }

    /// The pointer event that a batch of events leaves pending.
    pub open spec fn pending_after(self, events: Seq<Event>) -> UIEvent
        decreases events.len(),
    {
        if events.len() == 0 {
            UIEvent::Empty
        } else {
            self.pending_after_event(events.last(), self.pending_after(events.drop_last()))
        }
    }

    /// What is left of the frame's pointer event once the widgets were
    /// offered it.
    pub open spec fn event_left(self, ui_event: UIEvent) -> UIEvent {
        self.ui.event_left(self.drawable_size.height, ui_event)
    }

    /// The state after the frame was presented with `ui_event` pending: the
    /// widgets had the event first; a pointer-down that none of them took
    /// flips free-look; the frame is counted.
    pub open spec fn after_draw_scene(self, ui_event: UIEvent) -> DemoApp {
        let left = self.event_left(ui_event);
        DemoApp {
            ui: self.ui.updated(self.drawable_size.height, ui_event),
            ui_event_handled_last_frame: ui_event is MouseDown && left is Empty,
            mouselook_enabled: self.mouselook_enabled != (left is MouseDown),
            frame_counter: if self.frame_counter < u32::MAX {
                (self.frame_counter + 1) as u32
            } else {
                self.frame_counter
            },
            ..self
        }
    }

    /// The state before the first frame, and the message that tells the
    /// worker the size of the drawable surface.
    pub fn new(options: &Options, window_width: u32, drawable_size: Size2D) -> (created: (
        DemoApp,
        MainToSceneMsg,
    ))
        ensures
            created.0 == DemoApp::initial(options.threed, window_width, drawable_size),
            created.1 == MainToSceneMsg::SetDrawableSize(drawable_size),
    {
        let app = DemoApp {
            scale_factor: ScaleFactor::new(drawable_size.width, window_width),
            drawable_size,
            camera: CameraState::new(),
            frame_counter: 0,
            exit: false,
            mouselook_enabled: false,
            ui_event_handled_last_frame: false,
            ui: DemoUI::new(options),
        };
        (app, MainToSceneMsg::SetDrawableSize(drawable_size))
    }

    /// What has to be rotated for the coming frame, if anything.
    pub fn camera_motion(&self) -> (motion: CameraMotion)
        ensures
            motion == self.camera_motion_spec(),
    {
        if self.ui.threed_enabled {
            self.camera.motion()
        } else {
            CameraMotion::Idle
        }
    }

    /// Starts a frame: advances the camera, in 3D, by the rotated velocity,
    /// and returns the frame's build requests, all with the same options.
    pub fn build_scene(&mut self, rotated_velocity: Option<Vector3>) -> (requests: Vec<
        MainToSceneMsg,
    >)
        ensures
            *final(self) == old(self).after_build_scene(rotated_velocity),
            requests@ == old(self).build_requests(rotated_velocity),
    {
        if self.ui.threed_enabled {
            self.camera.step(rotated_velocity);
        }
        let options = BuildOptions::assemble(
            &self.ui,
            &self.camera,
            self.drawable_size,
            self.scale_factor,
        );
        let mut requests: Vec<MainToSceneMsg> = Vec::new();
        requests.push(MainToSceneMsg::Build(options));
        if self.frame_counter == 0 {
            requests.push(MainToSceneMsg::Build(options));
        }
        assert(requests@ == old(self).build_requests(rotated_velocity));
        requests
    }

    pub fn wait_for_event(&self) -> (wait: bool)
        ensures
            wait == self.wait_for_event_spec(),
    {
        !self.camera.velocity.is_zero() && self.frame_counter >= 2
            && !self.ui_event_handled_last_frame
    }

    /// Takes one event. Returns the message to send to the worker, if the
    /// event calls for one.
    pub fn handle_event(&mut self, event: Event, pending: &mut UIEvent) -> (request: Option<
        MainToSceneMsg,
    >)
        ensures
            *final(self) == old(self).after_event(event),
            *final(pending) == old(self).pending_after_event(event, *old(pending)),
            request == request_for(event),
    {
        match event {
            Event::Quit => {
                self.exit = true;
                None
            },
            Event::KeyDown(Keycode::Escape) => {
                self.exit = true;
                None
            },
            Event::SizeChanged(size) => {
                self.drawable_size = size;
                Some(MainToSceneMsg::SetDrawableSize(size))
            },
            Event::MouseButtonDown { x, y } => {
                let point = Point2DI32::new(x, y).scale(self.scale_factor.to_i32());
                *pending = UIEvent::MouseDown(point);
                None
            },
            Event::MouseMotion { xrel, yrel } => {
                if self.mouselook_enabled {
                    self.camera.look(xrel, yrel);
                }
                None
            },
            Event::KeyDown(key) => {
                self.camera.key_down(key);
                None
            },
            Event::KeyUp(key) => {
                self.camera.key_up(key);
                None
            },
            Event::Other => None,
        }
    }

    /// Takes a batch of events, each once, in order. Returns the pointer
    /// event that the batch leaves pending and the messages to send to the
    /// worker.
    pub fn handle_events(&mut self, events: &Vec<Event>) -> (taken: (UIEvent, Vec<MainToSceneMsg>))
        ensures
            *final(self) == old(self).after_events(events@),
            taken.0 == old(self).pending_after(events@),
            taken.1@ == requests_for(events@),
    {
        let ghost start = *self;
        let mut pending = UIEvent::Empty;
        let mut requests: Vec<MainToSceneMsg> = Vec::new();
        let mut i: usize = 0;
        while i < events.len()
            invariant
                i <= events.len(),
                *self == start.after_events(events@.take(i as int)),
                self.scale_factor == start.scale_factor,
                pending == start.pending_after(events@.take(i as int)),
                requests@ == requests_for(events@.take(i as int)),
            decreases events.len() - i,
        {
            proof {
                assert(events@.take(i + 1).drop_last() == events@.take(i as int));
                assert(events@.take(i + 1).last() == events@[i as int]);
            }
            if let Some(request) = self.handle_event(events[i], &mut pending) {
                requests.push(request);
            }
            i = i + 1;
        }
        proof {
            assert(events@.take(events.len() as int) == events@);
        }
        (pending, requests)
    }

    /// Ends a frame: offers the pending pointer event to the widgets, records
    /// whether one of them took it, flips free-look if none did, and counts
    /// the frame. Returns what is left of the event.
    pub fn draw_scene(&mut self, ui_event: UIEvent) -> (left: UIEvent)
        ensures
            *final(self) == old(self).after_draw_scene(ui_event),
            left == old(self).event_left(ui_event),
    {
        let mut left = ui_event;
        let had_ui_event = !ui_event.is_none();
        self.ui.update(self.drawable_size.height, &mut left);
        self.ui_event_handled_last_frame = had_ui_event && left.is_none();
        if let UIEvent::MouseDown(_) = left {
            self.mouselook_enabled = !self.mouselook_enabled;
        }
        if self.frame_counter < u32::MAX {
            self.frame_counter = self.frame_counter + 1;
        }
        left
    }
}

proof fn lemma_events_without_resize(app: DemoApp, events: Seq<Event>, later: Seq<Event>)
    requires
        forall|k: int| 0 <= k < later.len() ==> !(later[k] is SizeChanged),
    ensures
        app.after_events(events + later).drawable_size == app.after_events(
            events,
        ).drawable_size,
        requests_for(events + later) == requests_for(events),
    decreases later.len(),
{
    if later.len() == 0 {
        assert(events + later == events);
    } else {
        assert((events + later).drop_last() == events + later.drop_last());
        lemma_events_without_resize(app, events, later.drop_last());
    }
}

/// A change of size takes effect before the next build is issued. After a
/// batch of events whose last change of size is to `size`, the state holds
/// that size, the last message that the batch sends to the worker sets it,
/// and the builds of the next frame carry it wherever they carry a size.
pub proof fn resize_reaches_the_next_build(
    app: DemoApp,
    earlier: Seq<Event>,
    size: Size2D,
    later: Seq<Event>,
    ui_event: UIEvent,
    rotated_velocity: Option<Vector3>,
)
    requires
        forall|k: int| 0 <= k < later.len() ==> !(later[k] is SizeChanged),
    ensures
        ({
            let events = earlier.push(Event::SizeChanged(size)) + later;
            let next = app.after_events(events).after_draw_scene(ui_event);
            &&& app.after_events(events).drawable_size == size
            &&& next.drawable_size == size
            &&& requests_for(events).len() > 0
            &&& requests_for(events).last() == MainToSceneMsg::SetDrawableSize(size)
            &&& next.build_options(rotated_velocity).perspective matches Some(perspective)
                ==> perspective.window_size == size
        }),
{
    let resized = earlier.push(Event::SizeChanged(size));
    assert(resized.drop_last() == earlier);
    lemma_events_without_resize(app, resized, later);
}

/// Whether the event asks the loop to end.
pub open spec fn asks_to_exit(event: Event) -> bool {
    event == Event::Quit || event == Event::KeyDown(Keycode::Escape)
}

/// The exit flag is set by a quit event or an escape key-down and by nothing
/// else, and it is never cleared.
pub proof fn exit_is_set_by_quit_or_escape(app: DemoApp, events: Seq<Event>)
    ensures
        app.after_events(events).exit <==> app.exit || exists|k: int|
            0 <= k < events.len() && asks_to_exit(#[trigger] events[k]),
    decreases events.len(),
{
    if events.len() > 0 {
        let earlier = events.drop_last();
        exit_is_set_by_quit_or_escape(app, earlier);
        if app.after_events(events).exit {
            if !app.exit && !asks_to_exit(events.last()) {
                let k = choose|k: int|
                    0 <= k < earlier.len() && asks_to_exit(#[trigger] earlier[k]);
                assert(asks_to_exit(events[k]));
            } else if asks_to_exit(events.last()) {
                assert(asks_to_exit(events[events.len() - 1]));
            }
        } else {
            assert forall|k: int| 0 <= k < events.len() implies !asks_to_exit(
                #[trigger] events[k],
            ) by {
                if k < earlier.len() {
                    assert(earlier[k] == events[k]);
                }
            }
        }
    }
}

/// At most one pointer event is pending after a batch: the last pointer-down
/// of the batch, which replaces every earlier one.
pub proof fn last_pointer_down_is_pending(app: DemoApp, events: Seq<Event>, last: int)
    requires
        0 <= last < events.len(),
        events[last] is MouseButtonDown,
        forall|k: int| last < k < events.len() ==> !(events[k] is MouseButtonDown),
    ensures
        app.pending_after(events) == app.pending_after_event(events[last], UIEvent::Empty),
    decreases events.len(),
{
    if last < events.len() - 1 {
        last_pointer_down_is_pending(app, events.drop_last(), last);
    }
}

/// A batch without a pointer-down leaves nothing pending.
pub proof fn nothing_is_pending_without_pointer_down(app: DemoApp, events: Seq<Event>)
    requires
        forall|k: int| 0 <= k < events.len() ==> !(events[k] is MouseButtonDown),
    ensures
        app.pending_after(events) == UIEvent::Empty,
    decreases events.len(),
{
    if events.len() > 0 {
        nothing_is_pending_without_pointer_down(app, events.drop_last());
    }
}

/// In 2D every build of a frame has the identity transform and the camera
/// is not moved, whatever its velocity is.
pub proof fn frame_in_two_dimensions_builds_identity(
    app: DemoApp,
    rotated_velocity: Option<Vector3>,
    i: int,
)
    requires
        !app.ui.threed_enabled,
        0 <= i < app.build_requests(rotated_velocity).len(),
    ensures
        app.build_requests(rotated_velocity)[i] == MainToSceneMsg::Build(
            app.build_options(rotated_velocity),
        ),
        app.build_options(rotated_velocity).transform_spec() == RenderTransform::Transform2D,
        app.after_build_scene(rotated_velocity).camera == app.camera,
{
}

/// A pointer-down that no widget takes flips free-look, once, and changes
/// no toggle.
pub proof fn unconsumed_pointer_down_flips_free_look(app: DemoApp, ui_event: UIEvent)
    requires
        app.event_left(ui_event) is MouseDown,
    ensures
        app.after_draw_scene(ui_event).mouselook_enabled == !app.mouselook_enabled,
        app.after_draw_scene(ui_event).ui == app.ui,
        !app.after_draw_scene(ui_event).ui_event_handled_last_frame,
{
}

/// Two pointer-downs that no widget takes, in two frames, leave free-look as
/// it was.
pub proof fn two_unconsumed_pointer_downs_restore_free_look(
    app: DemoApp,
    first: UIEvent,
    second: UIEvent,
)
    requires
        app.event_left(first) is MouseDown,
        app.after_draw_scene(first).event_left(second) is MouseDown,
    ensures
        app.after_draw_scene(first).after_draw_scene(second).mouselook_enabled
            == app.mouselook_enabled,
{
}

/// Anything but an unconsumed pointer-down leaves free-look as it is.
pub proof fn free_look_changes_only_on_unconsumed_pointer_down(app: DemoApp, ui_event: UIEvent)
    requires
        !(app.event_left(ui_event) is MouseDown),
    ensures
        app.after_draw_scene(ui_event).mouselook_enabled == app.mouselook_enabled,
{
}

} // verus!
