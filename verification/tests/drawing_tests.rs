use pathfinder_demo::geometry::{Point2DI32, RectI32};
use pathfinder_demo::ui::{
    effects_label_origin, icon_origin, switch_highlight_rect, switch_text_origin, Widget,
};

fn rect(x: i32, y: i32, width: i32, height: i32) -> RectI32 {
    RectI32 {
        origin: Point2DI32 { x, y },
        lower_right: Point2DI32 { x: x + width, y: y + height },
    }
}

#[test]
fn offset_moves_a_point() {
    let moved = Point2DI32::new(10, -20).offset(Point2DI32::new(5, 7));
    assert_eq!(moved, Point2DI32 { x: 15, y: -13 });
}

#[test]
fn icons_stand_one_padding_inside_their_buttons() {
    assert_eq!(icon_origin(Widget::EffectsButton, 800), Point2DI32 { x: 24, y: 728 });
    assert_eq!(icon_origin(Widget::OpenButton, 800), Point2DI32 { x: 108, y: 728 });
}

#[test]
fn highlight_covers_the_left_half_while_off() {
    assert_eq!(switch_highlight_rect(Widget::ThreedSwitch, 800, false), rect(180, 716, 96, 72));
}

#[test]
fn highlight_covers_the_right_half_while_on() {
    assert_eq!(switch_highlight_rect(Widget::ThreedSwitch, 800, true), rect(277, 716, 96, 72));
    assert_eq!(
        switch_highlight_rect(Widget::SubpixelAASwitch, 800, true),
        rect(454, 620, 96, 72)
    );
}

#[test]
fn switch_texts_are_centred_in_their_halves() {
    assert_eq!(
        switch_text_origin(Widget::ThreedSwitch, 800, false, 30),
        Point2DI32 { x: 180 + 48 - 15, y: 716 + 48 }
    );
    assert_eq!(
        switch_text_origin(Widget::ThreedSwitch, 800, true, 31),
        Point2DI32 { x: 180 + 96 + 48 - 15, y: 716 + 48 }
    );
    assert_eq!(
        switch_text_origin(Widget::GammaCorrectionSwitch, 800, false, 0),
        Point2DI32 { x: 357 + 48, y: 452 + 48 }
    );
}

#[test]
fn switch_text_of_the_widest_text_stays_in_range() {
    let origin = switch_text_origin(Widget::ThreedSwitch, 800, false, i32::MAX);
    assert_eq!(origin.x, 180 + 48 - 1073741823);
}

#[test]
fn effect_labels_stand_at_the_left_of_their_rows() {
    assert_eq!(
        effects_label_origin(Widget::GammaCorrectionSwitch, 800),
        Point2DI32 { x: 24, y: 500 }
    );
    assert_eq!(
        effects_label_origin(Widget::StemDarkeningSwitch, 800),
        Point2DI32 { x: 24, y: 584 }
    );
    assert_eq!(
        effects_label_origin(Widget::SubpixelAASwitch, 800),
        Point2DI32 { x: 24, y: 668 }
    );
}
