//! The toggles of the viewer and the widgets that flip them: where each
//! widget stands, and which one takes a pointer-down.

use crate::event::UIEvent;
use crate::geometry::{Point2DI32, RectI32};
use crate::options::Options;
use vstd::prelude::*;

verus! {

/// Space between widgets and around them.
pub const PADDING: i32 = 12;

pub const BUTTON_WIDTH: i32 = 72;

pub const BUTTON_HEIGHT: i32 = 72;

/// Distance from the top of a widget to the top of its text.
pub const BUTTON_TEXT_OFFSET: i32 = 48;

pub const EFFECTS_WINDOW_WIDTH: i32 = 550;

pub const EFFECTS_WINDOW_HEIGHT: i32 = BUTTON_HEIGHT * 3 + PADDING * 4;

pub const SWITCH_HALF_SIZE: i32 = 96;

pub const SWITCH_SIZE: i32 = SWITCH_HALF_SIZE * 2 + 1;

/// The layout constants of the widget toolkit.
#[derive(Clone, Copy, Debug, PartialEq, Eq, Structural)]
pub struct Metrics {
    pub padding: i32,
    pub button_width: i32,
    pub button_height: i32,
    pub button_text_offset: i32,
}

/// The toggles, and whether the effects window is open.
#[derive(Clone, Copy, Debug, PartialEq, Eq, Structural)]
pub struct DemoUI {
    pub threed_enabled: bool,
    pub effects_window_visible: bool,
    pub gamma_correction_effect_enabled: bool,
    pub stem_darkening_effect_enabled: bool,
    pub subpixel_aa_effect_enabled: bool,
}

/// The widgets, in the order in which they are offered a pointer-down.
#[derive(Clone, Copy, Debug, PartialEq, Eq, Structural)]
pub enum Widget {
    EffectsButton,
    OpenButton,
    ThreedSwitch,
    GammaCorrectionSwitch,
    StemDarkeningSwitch,
    SubpixelAASwitch,
}

/// `PADDING`, `BUTTON_WIDTH`, `BUTTON_HEIGHT` and `BUTTON_TEXT_OFFSET` of
/// pathfinder_ui. Trusted: they have the values of this module's constants of
/// the same names.
#[verifier::external_body]
fn toolkit_metrics() -> (metrics: Metrics)
    ensures
        metrics == Metrics::standard(),
{
    Metrics {
        padding: pathfinder_ui::PADDING,
        button_width: pathfinder_ui::BUTTON_WIDTH,
        button_height: pathfinder_ui::BUTTON_HEIGHT,
        button_text_offset: pathfinder_ui::BUTTON_TEXT_OFFSET,
    }
}

impl Metrics {
    pub open spec fn standard() -> Metrics {
        Metrics {
            padding: PADDING,
            button_width: BUTTON_WIDTH,
            button_height: BUTTON_HEIGHT,
            button_text_offset: BUTTON_TEXT_OFFSET,
        }
    }

    /// The constants as the toolkit has them.
    pub fn get() -> (metrics: Metrics)
        ensures
            metrics == Metrics::standard(),
    {
        toolkit_metrics()
    }
}

/// The y coordinate above which the widgets stand: the framebuffer height, as
/// far as `i32` holds it, less the padding.
pub open spec fn bottom_spec(framebuffer_height: u32) -> int {
    if framebuffer_height > i32::MAX {
        i32::MAX - PADDING
    } else {
        framebuffer_height - PADDING
    }
}

/// The top of the effects window.
pub open spec fn effects_window_top(framebuffer_height: u32) -> int {
    bottom_spec(framebuffer_height) - (BUTTON_HEIGHT + PADDING + EFFECTS_WINDOW_HEIGHT)
}

/// The rectangle at `(x, y)` of `width` by `height`.
pub open spec fn rect_at(x: int, y: int, width: int, height: int) -> RectI32 {
    RectI32 {
        origin: Point2DI32 { x: x as i32, y: y as i32 },
        lower_right: Point2DI32 { x: (x + width) as i32, y: (y + height) as i32 },
    }
}

/// The rectangle of the effects window.
pub open spec fn effects_window_rect_spec(framebuffer_height: u32) -> RectI32 {
    rect_at(
        PADDING as int,
        effects_window_top(framebuffer_height),
        EFFECTS_WINDOW_WIDTH as int,
        EFFECTS_WINDOW_HEIGHT as int,
    )
}

impl Widget {
    /// The row of a switch inside the effects window.
    pub open spec fn row(self) -> int {
        match self {
            Widget::StemDarkeningSwitch => 1,
            Widget::SubpixelAASwitch => 2,
            _ => 0,
        }
    }

    /// Whether the widget belongs to the effects window.
    pub open spec fn in_effects_window(self) -> bool {
        match self {
            Widget::EffectsButton | Widget::OpenButton | Widget::ThreedSwitch => false,
            _ => true,
        }
    }

    /// Where the widget stands in a framebuffer of the given height: the two
    /// buttons and the 3D switch in a row along the bottom, the effect
    /// switches one below the other at the right edge of the effects window.
    pub open spec fn rect_spec(self, framebuffer_height: u32) -> RectI32 {
        let row_top = bottom_spec(framebuffer_height) - BUTTON_HEIGHT;
        match self {
            Widget::EffectsButton => rect_at(
                PADDING as int,
                row_top,
                BUTTON_WIDTH as int,
                BUTTON_HEIGHT as int,
            ),
            Widget::OpenButton => rect_at(
                PADDING + BUTTON_WIDTH + PADDING,
                row_top,
                BUTTON_WIDTH as int,
                BUTTON_HEIGHT as int,
            ),
            Widget::ThreedSwitch => rect_at(
                PADDING + (BUTTON_WIDTH + PADDING) * 2,
                row_top,
                SWITCH_SIZE as int,
                BUTTON_HEIGHT as int,
            ),
            _ => rect_at(
                PADDING + EFFECTS_WINDOW_WIDTH - (SWITCH_SIZE + PADDING),
                effects_window_top(framebuffer_height) + PADDING + (BUTTON_HEIGHT + PADDING)
                    * self.row(),
                SWITCH_SIZE as int,
                BUTTON_HEIGHT as int,
            ),
        }
    }

    pub fn rect(self, framebuffer_height: u32) -> (rect: RectI32)
        ensures
            rect == self.rect_spec(framebuffer_height),
    {
        let metrics = Metrics::get();
        let bottom: i32 = bottom(framebuffer_height);
        let row_top: i32 = bottom - metrics.button_height;
        let button_size = Point2DI32::new(metrics.button_width, metrics.button_height);
        let switch_size = Point2DI32::new(SWITCH_SIZE, metrics.button_height);
        match self {
            Widget::EffectsButton => RectI32::new(
                Point2DI32::new(metrics.padding, row_top),
                button_size,
            ),
            Widget::OpenButton => RectI32::new(
                Point2DI32::new(metrics.padding + metrics.button_width + metrics.padding, row_top),
                button_size,
            ),
            Widget::ThreedSwitch => RectI32::new(
                Point2DI32::new(
                    metrics.padding + (metrics.button_width + metrics.padding) * 2,
                    row_top,
                ),
                switch_size,
            ),
            Widget::GammaCorrectionSwitch => effects_switch_rect(0, framebuffer_height),
            Widget::StemDarkeningSwitch => effects_switch_rect(1, framebuffer_height),
            Widget::SubpixelAASwitch => effects_switch_rect(2, framebuffer_height),
        }
    }
}

fn bottom(framebuffer_height: u32) -> (bottom: i32)
    ensures
        bottom == bottom_spec(framebuffer_height),
{
    let metrics = Metrics::get();
    if framebuffer_height > 2147483647 {
        i32::MAX - metrics.padding
    } else {
        framebuffer_height as i32 - metrics.padding
    }
}

fn effects_window_y(framebuffer_height: u32) -> (y: i32)
    ensures
        y == effects_window_top(framebuffer_height),
{
    let metrics = Metrics::get();
    let window_height: i32 = metrics.button_height * 3 + metrics.padding * 4;
    bottom(framebuffer_height) - (metrics.button_height + metrics.padding + window_height)
}

/// The rectangle of the switch in row `index` of the effects window.
fn effects_switch_rect(index: i32, framebuffer_height: u32) -> (rect: RectI32)
    requires
        0 <= index <= 2,
    ensures
        rect == rect_at(
            PADDING + EFFECTS_WINDOW_WIDTH - (SWITCH_SIZE + PADDING),
            effects_window_top(framebuffer_height) + PADDING + (BUTTON_HEIGHT + PADDING) * index,
            SWITCH_SIZE as int,
            BUTTON_HEIGHT as int,
        ),
{
    let metrics = Metrics::get();
    let window_y: i32 = effects_window_y(framebuffer_height);
    let switch_x: i32 = metrics.padding + EFFECTS_WINDOW_WIDTH - (SWITCH_SIZE + metrics.padding);
    let switch_y: i32 = window_y + metrics.padding + (metrics.button_height + metrics.padding)
        * index;
    RectI32::new(
        Point2DI32::new(switch_x, switch_y),
        Point2DI32::new(SWITCH_SIZE, metrics.button_height),
    )
}

/// The rectangle of the effects window, for drawing it.
pub fn effects_window_rect(framebuffer_height: u32) -> (rect: RectI32)
    ensures
        rect == effects_window_rect_spec(framebuffer_height),
{
    let metrics = Metrics::get();
    let window_height: i32 = metrics.button_height * 3 + metrics.padding * 4;
    RectI32::new(
        Point2DI32::new(metrics.padding, effects_window_y(framebuffer_height)),
        Point2DI32::new(EFFECTS_WINDOW_WIDTH, window_height),
    )
}

/// Where the icon of a button stands: inside the button, one padding from
/// its top left corner.
pub fn icon_origin(button: Widget, framebuffer_height: u32) -> (origin: Point2DI32)
    ensures
        origin.x == button.rect_spec(framebuffer_height).origin.x + PADDING,
        origin.y == button.rect_spec(framebuffer_height).origin.y + PADDING,
{
    let metrics = Metrics::get();
    button.rect(framebuffer_height).origin.offset(
        Point2DI32::new(metrics.padding, metrics.padding),
    )
}

/// The half of a switch that is drawn filled: the left half while the switch
/// is off, the right half, one pixel further on, while it is on.
pub fn switch_highlight_rect(switch: Widget, framebuffer_height: u32, value: bool) -> (rect:
    RectI32)
    ensures
        rect == rect_at(
            switch.rect_spec(framebuffer_height).origin.x + if value {
                SWITCH_HALF_SIZE + 1
            } else {
                0
            },
            switch.rect_spec(framebuffer_height).origin.y as int,
            SWITCH_HALF_SIZE as int,
            BUTTON_HEIGHT as int,
        ),
{
    let metrics = Metrics::get();
    let origin = switch.rect(framebuffer_height).origin;
    let highlight_size = Point2DI32::new(SWITCH_HALF_SIZE, metrics.button_height);
    if !value {
        RectI32::new(origin, highlight_size)
    } else {
        RectI32::new(origin.offset(Point2DI32::new(SWITCH_HALF_SIZE + 1, 0)), highlight_size)
    }
}

/// Where one of the two texts of a switch stands: centred in the left half
/// for the off side and in the right half for the on side, `text_width` being
/// the width of the text as the toolkit measures it.
pub fn switch_text_origin(
    switch: Widget,
    framebuffer_height: u32,
    on_side: bool,
    text_width: i32,
) -> (origin: Point2DI32)
    requires
        0 <= text_width,
    ensures
        origin.x == switch.rect_spec(framebuffer_height).origin.x + if on_side {
            SWITCH_HALF_SIZE + SWITCH_HALF_SIZE / 2 - text_width / 2
        } else {
            SWITCH_HALF_SIZE / 2 - text_width / 2
        },
        origin.y == switch.rect_spec(framebuffer_height).origin.y + BUTTON_TEXT_OFFSET,
{
    let metrics = Metrics::get();
    let offset: i32 = if on_side {
        SWITCH_HALF_SIZE + SWITCH_HALF_SIZE / 2 - text_width / 2
    } else {
        SWITCH_HALF_SIZE / 2 - text_width / 2
    };
    switch.rect(framebuffer_height).origin.offset(
        Point2DI32::new(offset, metrics.button_text_offset),
    )
}

/// Where the label of an effect switch stands: at the left of the effects
/// window, in the row of the switch.
pub fn effects_label_origin(switch: Widget, framebuffer_height: u32) -> (origin: Point2DI32)
    requires
        switch.in_effects_window(),
    ensures
        origin.x == PADDING * 2,
        origin.y == switch.rect_spec(framebuffer_height).origin.y + BUTTON_TEXT_OFFSET,
{
    let metrics = Metrics::get();
    let text_y: i32 = switch.rect(framebuffer_height).origin.y + metrics.button_text_offset;
    Point2DI32::new(metrics.padding * 2, text_y)
}

/// Offers the event to a switch at `rect` that shows `value`, and returns
/// what the switch shows afterwards: the opposite if it took the event.
pub fn press_switch(event: &mut UIEvent, rect: RectI32, value: bool) -> (shown: bool)
    ensures
        shown == (value != old(event).hits(rect)),
        *final(event) == if old(event).hits(rect) { UIEvent::Empty } else { *old(event) },
{
    if event.handle_mouse_down_in_rect(rect) {
        !value
    } else {
        value
    }
}

impl DemoUI {
    /// The toggles at startup: 3D as the options say, everything else off.
    pub open spec fn initial(threed: bool) -> DemoUI {
        DemoUI {
            threed_enabled: threed,
            effects_window_visible: false,
            gamma_correction_effect_enabled: false,
            stem_darkening_effect_enabled: false,
            subpixel_aa_effect_enabled: false,
        }
    }

    /// Whether the widget is on screen: the effect switches only while the
    /// effects window is open.
    pub open spec fn shows(self, widget: Widget) -> bool {
        widget.in_effects_window() ==> self.effects_window_visible
    }

    /// Whether `widget` is on screen and holds `point`.
    pub open spec fn widget_holds(
        self,
        widget: Widget,
        framebuffer_height: u32,
        point: Point2DI32,
    ) -> bool {
        self.shows(widget) && widget.rect_spec(framebuffer_height).contains(point)
    }

    /// The widget that takes a pointer-down at `point`: the first one, in the
    /// order of `Widget`, that is on screen and holds the point.
    pub open spec fn widget_at(self, framebuffer_height: u32, point: Point2DI32) -> Option<Widget> {
        if self.widget_holds(Widget::EffectsButton, framebuffer_height, point) {
            Some(Widget::EffectsButton)
        } else if self.widget_holds(Widget::OpenButton, framebuffer_height, point) {
            Some(Widget::OpenButton)
        } else if self.widget_holds(Widget::ThreedSwitch, framebuffer_height, point) {
            Some(Widget::ThreedSwitch)
        } else if self.widget_holds(Widget::GammaCorrectionSwitch, framebuffer_height, point) {
            Some(Widget::GammaCorrectionSwitch)
        } else if self.widget_holds(Widget::StemDarkeningSwitch, framebuffer_height, point) {
            Some(Widget::StemDarkeningSwitch)
        } else if self.widget_holds(Widget::SubpixelAASwitch, framebuffer_height, point) {
            Some(Widget::SubpixelAASwitch)
        } else {
            None
        }
    }

    /// The toggles after `widget` was pressed: the effects button opens or
    /// closes the effects window, each switch flips its toggle, the open
    /// button changes nothing.
    pub open spec fn after_press(self, widget: Widget) -> DemoUI {
        match widget {
            Widget::EffectsButton => DemoUI {
                effects_window_visible: !self.effects_window_visible,
                ..self
            },
            Widget::OpenButton => self,
            Widget::ThreedSwitch => DemoUI { threed_enabled: !self.threed_enabled, ..self },
            Widget::GammaCorrectionSwitch => DemoUI {
                gamma_correction_effect_enabled: !self.gamma_correction_effect_enabled,
                ..self
            },
            Widget::StemDarkeningSwitch => DemoUI {
                stem_darkening_effect_enabled: !self.stem_darkening_effect_enabled,
                ..self
            },
            Widget::SubpixelAASwitch => DemoUI {
                subpixel_aa_effect_enabled: !self.subpixel_aa_effect_enabled,
                ..self
            },
        }
    }

    /// The widget that takes `event`, if any does.
    pub open spec fn taker(self, framebuffer_height: u32, event: UIEvent) -> Option<Widget> {
        match event {
            UIEvent::Empty => None,
            UIEvent::MouseDown(point) => self.widget_at(framebuffer_height, point),
        }
    }

    /// The toggles after the widgets were offered `event`.
    pub open spec fn updated(self, framebuffer_height: u32, event: UIEvent) -> DemoUI {
        match self.taker(framebuffer_height, event) {
            Some(widget) => self.after_press(widget),
            None => self,
        }
    }

    /// What is left of `event` after the widgets were offered it.
    pub open spec fn event_left(self, framebuffer_height: u32, event: UIEvent) -> UIEvent {
        match self.taker(framebuffer_height, event) {
            Some(_) => UIEvent::Empty,
            None => event,
        }
    }

    pub fn new(options: &Options) -> (ui: DemoUI)
        ensures
            ui == DemoUI::initial(options.threed),
    {
        DemoUI {
            threed_enabled: options.threed,
            effects_window_visible: false,
            gamma_correction_effect_enabled: false,
            stem_darkening_effect_enabled: false,
            subpixel_aa_effect_enabled: false,
        }
    }

    /// Offers `event` to the widgets in their order. The first one on screen
    /// that holds a pointer-down takes it and acts; an event that none takes
    /// is left as it was.
    pub fn update(&mut self, framebuffer_height: u32, event: &mut UIEvent)
        ensures
            *final(self) == old(self).updated(framebuffer_height, *old(event)),
            *final(event) == old(self).event_left(framebuffer_height, *old(event)),
    {
        if event.handle_mouse_down_in_rect(Widget::EffectsButton.rect(framebuffer_height)) {
            self.effects_window_visible = !self.effects_window_visible;
        }
        event.handle_mouse_down_in_rect(Widget::OpenButton.rect(framebuffer_height));
        self.threed_enabled = press_switch(
            event,
            Widget::ThreedSwitch.rect(framebuffer_height),
            self.threed_enabled,
        );
        self.update_effects_window(framebuffer_height, event);
    }

    /// Offers `event` to the switches of the effects window, if it is open.
    pub fn update_effects_window(&mut self, framebuffer_height: u32, event: &mut UIEvent)
        ensures
            old(self).effects_window_visible ==> *final(self) == old(self).updated_by_effects(
                framebuffer_height,
                *old(event),
            ),
            old(self).effects_window_visible ==> *final(event) == old(self).event_left_by_effects(
                framebuffer_height,
                *old(event),
            ),
            !old(self).effects_window_visible ==> *final(self) == *old(self) && *final(event)
                == *old(event),
    {
        if !self.effects_window_visible {
            return ;
        }
        self.gamma_correction_effect_enabled = press_switch(
            event,
            Widget::GammaCorrectionSwitch.rect(framebuffer_height),
            self.gamma_correction_effect_enabled,
        );
        self.stem_darkening_effect_enabled = press_switch(
            event,
            Widget::StemDarkeningSwitch.rect(framebuffer_height),
            self.stem_darkening_effect_enabled,
        );
        self.subpixel_aa_effect_enabled = press_switch(
            event,
            Widget::SubpixelAASwitch.rect(framebuffer_height),
            self.subpixel_aa_effect_enabled,
        );
    }

    /// The effect switch that takes `event` while the effects window is open.
    pub open spec fn effects_taker(framebuffer_height: u32, event: UIEvent) -> Option<Widget> {
        if event.hits(Widget::GammaCorrectionSwitch.rect_spec(framebuffer_height)) {
            Some(Widget::GammaCorrectionSwitch)
        } else if event.hits(Widget::StemDarkeningSwitch.rect_spec(framebuffer_height)) {
            Some(Widget::StemDarkeningSwitch)
        } else if event.hits(Widget::SubpixelAASwitch.rect_spec(framebuffer_height)) {
            Some(Widget::SubpixelAASwitch)
        } else {
            None
        }
    }

    /// The toggles after the open effects window was offered `event`.
    pub open spec fn updated_by_effects(self, framebuffer_height: u32, event: UIEvent) -> DemoUI {
        match DemoUI::effects_taker(framebuffer_height, event) {
            Some(widget) => self.after_press(widget),
            None => self,
        }
    }

    /// What is left of `event` after the open effects window was offered it.
    pub open spec fn event_left_by_effects(
        self,
        framebuffer_height: u32,
        event: UIEvent,
    ) -> UIEvent {
        match DemoUI::effects_taker(framebuffer_height, event) {
            Some(_) => UIEvent::Empty,
            None => event,
        }
    }
}

} // verus!
