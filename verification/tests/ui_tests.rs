use pathfinder_demo::event::UIEvent;
use pathfinder_demo::geometry::{Point2DI32, RectI32};
use pathfinder_demo::options::Options;
use pathfinder_demo::ui::{
    effects_window_rect, press_switch, DemoUI, Metrics, Widget, BUTTON_HEIGHT, BUTTON_TEXT_OFFSET,
    BUTTON_WIDTH, EFFECTS_WINDOW_HEIGHT, EFFECTS_WINDOW_WIDTH, PADDING, SWITCH_HALF_SIZE,
    SWITCH_SIZE,
};

fn options(threed: bool) -> Options {
    Options { jobs: None, threed, input_path: String::from("scene.svg") }
}

fn rect(x: i32, y: i32, width: i32, height: i32) -> RectI32 {
    RectI32 {
        origin: Point2DI32 { x, y },
        lower_right: Point2DI32 { x: x + width, y: y + height },
    }
}

fn press(x: i32, y: i32) -> UIEvent {
    UIEvent::MouseDown(Point2DI32 { x, y })
}

#[test]
fn metrics_are_those_of_the_toolkit() {
    let metrics = Metrics::get();
    assert_eq!(metrics.padding, pathfinder_ui::PADDING);
    assert_eq!(metrics.button_width, pathfinder_ui::BUTTON_WIDTH);
    assert_eq!(metrics.button_height, pathfinder_ui::BUTTON_HEIGHT);
    assert_eq!(metrics.button_text_offset, pathfinder_ui::BUTTON_TEXT_OFFSET);
}

#[test]
fn metrics_have_the_stated_values() {
    let metrics = Metrics::get();
    assert_eq!(
        metrics,
        Metrics { padding: 12, button_width: 72, button_height: 72, button_text_offset: 48 }
    );
    assert_eq!((PADDING, BUTTON_WIDTH, BUTTON_HEIGHT, BUTTON_TEXT_OFFSET), (12, 72, 72, 48));
}

#[test]
fn layout_constants_have_their_values() {
    assert_eq!(EFFECTS_WINDOW_WIDTH, 550);
    assert_eq!(EFFECTS_WINDOW_HEIGHT, 264);
    assert_eq!(SWITCH_HALF_SIZE, 96);
    assert_eq!(SWITCH_SIZE, 193);
}

#[test]
fn bottom_row_widgets_stand_side_by_side() {
    assert_eq!(Widget::EffectsButton.rect(800), rect(12, 716, 72, 72));
    assert_eq!(Widget::OpenButton.rect(800), rect(96, 716, 72, 72));
    assert_eq!(Widget::ThreedSwitch.rect(800), rect(180, 716, 193, 72));
}

#[test]
fn effect_switches_stand_one_below_the_other() {
    assert_eq!(Widget::GammaCorrectionSwitch.rect(800), rect(357, 452, 193, 72));
    assert_eq!(Widget::StemDarkeningSwitch.rect(800), rect(357, 536, 193, 72));
    assert_eq!(Widget::SubpixelAASwitch.rect(800), rect(357, 620, 193, 72));
}

#[test]
fn effects_window_stands_above_the_bottom_row() {
    assert_eq!(effects_window_rect(800), rect(12, 440, 550, 264));
}

#[test]
fn layout_of_a_framebuffer_without_height() {
    assert_eq!(Widget::EffectsButton.rect(0), rect(12, -84, 72, 72));
    assert_eq!(effects_window_rect(0), rect(12, -360, 550, 264));
}

#[test]
fn layout_of_the_tallest_framebuffer_stays_in_range() {
    let tallest = Widget::EffectsButton.rect(i32::MAX as u32);
    assert_eq!(tallest, rect(12, i32::MAX - 84, 72, 72));
    assert_eq!(Widget::EffectsButton.rect(u32::MAX), tallest);
}

#[test]
fn new_ui_takes_threed_from_the_options() {
    let ui = DemoUI::new(&options(true));
    assert!(ui.threed_enabled);
    assert!(!ui.effects_window_visible);
    assert!(!ui.gamma_correction_effect_enabled);
    assert!(!ui.stem_darkening_effect_enabled);
    assert!(!ui.subpixel_aa_effect_enabled);
    assert!(!DemoUI::new(&options(false)).threed_enabled);
}

#[test]
fn effects_button_opens_and_closes_the_window() {
    let mut ui = DemoUI::new(&options(false));
    let mut event = press(20, 720);
    ui.update(800, &mut event);
    assert!(ui.effects_window_visible);
    assert_eq!(event, UIEvent::Empty);
    let mut event = press(20, 720);
    ui.update(800, &mut event);
    assert!(!ui.effects_window_visible);
    assert_eq!(event, UIEvent::Empty);
}

#[test]
fn open_button_takes_the_event_and_changes_nothing() {
    let mut ui = DemoUI::new(&options(false));
    let before = ui;
    let mut event = press(100, 750);
    ui.update(800, &mut event);
    assert_eq!(ui, before);
    assert_eq!(event, UIEvent::Empty);
}

#[test]
fn threed_switch_flips_threed() {
    let mut ui = DemoUI::new(&options(false));
    let mut event = press(200, 750);
    ui.update(800, &mut event);
    assert!(ui.threed_enabled);
    assert_eq!(event, UIEvent::Empty);
    let mut event = press(372, 787);
    ui.update(800, &mut event);
    assert!(!ui.threed_enabled);
}

#[test]
fn effect_switches_flip_their_toggles_while_the_window_is_open() {
    let mut ui = DemoUI::new(&options(false));
    ui.effects_window_visible = true;
    let mut event = press(400, 460);
    ui.update(800, &mut event);
    assert!(ui.gamma_correction_effect_enabled);
    assert_eq!(event, UIEvent::Empty);
    let mut event = press(400, 540);
    ui.update(800, &mut event);
    assert!(ui.stem_darkening_effect_enabled);
    let mut event = press(400, 630);
    ui.update(800, &mut event);
    assert!(ui.subpixel_aa_effect_enabled);
    assert!(ui.effects_window_visible);
    assert!(!ui.threed_enabled);
}

#[test]
fn effect_switches_are_out_of_reach_while_the_window_is_closed() {
    let mut ui = DemoUI::new(&options(false));
    let before = ui;
    let mut event = press(400, 540);
    ui.update(800, &mut event);
    assert_eq!(ui, before);
    assert_eq!(event, press(400, 540));
}

#[test]
fn a_press_outside_every_widget_is_left_over() {
    let mut ui = DemoUI::new(&options(true));
    ui.effects_window_visible = true;
    let before = ui;
    let mut event = press(600, 100);
    ui.update(800, &mut event);
    assert_eq!(ui, before);
    assert_eq!(event, press(600, 100));
}

#[test]
fn update_without_an_event_changes_nothing() {
    let mut ui = DemoUI::new(&options(true));
    let before = ui;
    let mut event = UIEvent::Empty;
    ui.update(800, &mut event);
    assert_eq!(ui, before);
    assert_eq!(event, UIEvent::Empty);
}

#[test]
fn update_effects_window_does_nothing_while_closed() {
    let mut ui = DemoUI::new(&options(false));
    let mut event = press(400, 460);
    ui.update_effects_window(800, &mut event);
    assert!(!ui.gamma_correction_effect_enabled);
    assert_eq!(event, press(400, 460));
}

#[test]
fn press_switch_flips_on_a_hit_only() {
    let place = rect(0, 0, 10, 10);
    let mut event = press(5, 5);
    assert!(press_switch(&mut event, place, false));
    assert_eq!(event, UIEvent::Empty);
    let mut event = press(15, 5);
    assert!(!press_switch(&mut event, place, false));
    assert_eq!(event, press(15, 5));
    let mut event = UIEvent::Empty;
    assert!(press_switch(&mut event, place, true));
}

#[test]
fn ui_event_is_none_only_when_empty() {
    assert!(UIEvent::Empty.is_none());
    assert!(!press(1, 1).is_none());
}

#[test]
fn handle_mouse_down_in_rect_takes_a_press_inside() {
    let mut event = press(3, 4);
    assert!(event.handle_mouse_down_in_rect(rect(0, 0, 10, 10)));
    assert_eq!(event, UIEvent::Empty);
}

#[test]
fn handle_mouse_down_in_rect_leaves_a_press_outside() {
    let mut event = press(10, 4);
    assert!(!event.handle_mouse_down_in_rect(rect(0, 0, 10, 10)));
    assert_eq!(event, press(10, 4));
    let mut event = UIEvent::Empty;
    assert!(!event.handle_mouse_down_in_rect(rect(0, 0, 10, 10)));
    assert_eq!(event, UIEvent::Empty);
}
