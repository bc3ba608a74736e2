use std::collections::VecDeque;

use allium::color::Color;
use allium::command::Command;
use allium::draw::DrawOp;
use allium::fields::{field_of_row, Field, BACKGROUND_ROW, FOREGROUND_ROW, ROW_COUNT};
use allium::geom::{Alignment, Key, KeyEvent, Point, Rect};
use allium::settings_list::{SettingsList, SettingsListError};
use allium::stylesheet::{FontSpec, Stylesheet};
use allium::font_name::{display_name_of_stem, font_display_name};
use allium::theme::{Theme, ViewError};
use allium::value::Value;
use allium::view_node::render_pass;
use allium::widget::Widget;

fn light_stylesheet() -> Stylesheet {
    Stylesheet {
        ui_font: FontSpec { path: "/fonts/Nunito.ttf".to_string(), size: 24 },
        guide_font: FontSpec { path: "/fonts/Mono.ttf".to_string(), size: 20 },
        highlight_color: Color::new(0xff, 0x00, 0x00),
        foreground_color: Color::new(0x20, 0x20, 0x20),
        background_color: Color::new(0xf0, 0xf0, 0xf0),
        disabled_color: Color::new(0x80, 0x80, 0x80),
        button_a_color: Color::new(0xeb, 0x1a, 0x1d),
        button_b_color: Color::new(0xfe, 0xce, 0x15),
        button_x_color: Color::new(0x07, 0x73, 0xb5),
        button_y_color: Color::new(0x12, 0x93, 0x43),
    }
}

fn fonts() -> Vec<String> {
    vec!["/fonts/Mono.ttf".to_string(), "/fonts/Nunito.ttf".to_string()]
}

fn theme() -> Theme {
    Theme::new(Rect::new(0, 0, 640, 480), light_stylesheet(), fonts())
}

fn press(t: &mut Theme, key: Key) -> (Vec<Command>, VecDeque<Command>) {
    let mut out = Vec::new();
    let mut bubble = VecDeque::new();
    assert!(t.handle_key_event(KeyEvent::Pressed(key), &mut out, &mut bubble));
    (out, bubble)
}

fn two_row_list() -> SettingsList {
    SettingsList::new(
        Rect::new(0, 0, 300, 100),
        vec!["Dark Mode".to_string(), "Highlight".to_string()],
        vec![Widget::toggle(false), Widget::color_picker(Color::new(0xff, 0, 0))],
        42,
    )
    .unwrap()
}

#[test]
fn invert_is_channel_complement() {
    let c = Color::new(0x12, 0x80, 0xff);
    assert_eq!(c.invert(), Color::new(0xed, 0x7f, 0x00));
    assert_eq!(c.invert().invert(), c);
}

#[test]
fn darkness_splits_at_half_brightness() {
    assert!(Color::new(0, 0, 0).is_dark());
    assert!(!Color::new(255, 255, 255).is_dark());
    // 382 and 383 are the sums on either side of the midpoint
    assert!(Color::new(127, 127, 128).is_dark());
    assert!(!Color::new(127, 128, 128).is_dark());
    assert!(!Color::new(127, 127, 128).invert().is_dark());
}

#[test]
fn value_accessors_fail_on_other_tags() {
    assert_eq!(Value::Bool(true).as_bool(), Some(true));
    assert_eq!(Value::Bool(true).as_int(), None);
    assert_eq!(Value::Int(7).as_int(), Some(7));
    assert_eq!(Value::Int(7).as_color(), None);
    let c = Color::new(1, 2, 3);
    assert_eq!(Value::Color(c).as_color(), Some(c));
    assert_eq!(Value::Color(c).as_bool(), None);
}

#[test]
fn list_rejects_mismatched_lengths() {
    let r = SettingsList::new(
        Rect::new(0, 0, 10, 10),
        vec!["One".to_string(), "Two".to_string()],
        vec![Widget::toggle(true)],
        42,
    );
    assert_eq!(r.err(), Some(SettingsListError::LengthMismatch));
}

#[test]
fn list_rejects_no_rows() {
    let r = SettingsList::new(Rect::new(0, 0, 10, 10), vec![], vec![], 42);
    assert_eq!(r.err(), Some(SettingsListError::Empty));
}

#[test]
fn cursor_stays_in_range() {
    let mut list = two_row_list();
    let mut bubble = VecDeque::new();
    let keys = [Key::Up, Key::Up, Key::Down, Key::Down, Key::Down, Key::Up, Key::Down, Key::Down];
    let expected = [0, 0, 1, 1, 1, 0, 1, 1];
    for (k, e) in keys.iter().zip(expected.iter()) {
        assert!(list.handle_key_event(KeyEvent::Pressed(*k), &mut bubble));
        assert_eq!(list.selected(), *e);
        assert!(list.selected() < list.len());
    }
    assert!(bubble.is_empty());
}

#[test]
fn list_reports_toggle_of_first_row() {
    let mut list = two_row_list();
    let mut bubble = VecDeque::new();
    assert!(list.handle_key_event(KeyEvent::Pressed(Key::A), &mut bubble));
    assert_eq!(bubble.pop_front(), Some(Command::ValueChanged(0, Value::Bool(true))));
    assert!(bubble.is_empty());
}

#[test]
fn list_color_edit_reports_only_on_commit() {
    let mut list = two_row_list();
    let mut bubble = VecDeque::new();
    list.handle_key_event(KeyEvent::Pressed(Key::Down), &mut bubble);
    assert!(list.handle_key_event(KeyEvent::Pressed(Key::A), &mut bubble));
    assert!(bubble.is_empty());
    // while editing, Up and Down change the channel instead of moving
    assert!(list.handle_key_event(KeyEvent::Pressed(Key::Right), &mut bubble));
    assert!(list.handle_key_event(KeyEvent::Pressed(Key::Up), &mut bubble));
    assert_eq!(list.selected(), 1);
    assert!(bubble.is_empty());
    assert!(list.handle_key_event(KeyEvent::Pressed(Key::A), &mut bubble));
    assert_eq!(
        bubble.pop_front(),
        Some(Command::ValueChanged(1, Value::Color(Color::new(0xff, 0x01, 0))))
    );
}

#[test]
fn list_color_edit_cancels_with_b() {
    let mut list = two_row_list();
    let mut bubble = VecDeque::new();
    list.handle_key_event(KeyEvent::Pressed(Key::Down), &mut bubble);
    list.handle_key_event(KeyEvent::Pressed(Key::A), &mut bubble);
    list.handle_key_event(KeyEvent::Pressed(Key::Down), &mut bubble);
    assert!(list.handle_key_event(KeyEvent::Pressed(Key::B), &mut bubble));
    assert!(bubble.is_empty());
    assert_eq!(
        *list.widget(1),
        Widget::ColorPicker { color: Color::new(0xff, 0, 0), edit: None }
    );
    // without an edit in progress B is left to the owner
    assert!(!list.handle_key_event(KeyEvent::Pressed(Key::B), &mut bubble));
}

#[test]
fn number_steps_within_bounds() {
    let mut w = Widget::number(39, 10, 40);
    assert_eq!(w.handle_key_event(KeyEvent::Pressed(Key::Right)), allium::widget::Response::Changed(Value::Int(40)));
    assert_eq!(w.handle_key_event(KeyEvent::Pressed(Key::Right)), allium::widget::Response::Consumed);
    let mut high = Widget::number(100, 10, 40);
    assert_eq!(high.value(), Value::Int(100));
    assert_eq!(high.handle_key_event(KeyEvent::Pressed(Key::Right)), allium::widget::Response::Consumed);
    assert_eq!(high.handle_key_event(KeyEvent::Pressed(Key::Left)), allium::widget::Response::Changed(Value::Int(99)));
}

#[test]
fn select_wraps_round() {
    let mut w = Widget::select(0, vec!["a".to_string(), "b".to_string(), "c".to_string()]);
    assert_eq!(w.handle_key_event(KeyEvent::Pressed(Key::Left)), allium::widget::Response::Changed(Value::Int(2)));
    assert_eq!(w.handle_key_event(KeyEvent::Autorepeat(Key::Right)), allium::widget::Response::Changed(Value::Int(0)));
    assert_eq!(w.handle_key_event(KeyEvent::Released(Key::Right)), allium::widget::Response::Ignored);
}

#[test]
fn list_draws_only_dirty_rows() {
    let mut list = two_row_list();
    assert!(list.should_draw());
    let mut ops = Vec::new();
    assert!(list.draw(&mut ops));
    assert_eq!(ops.len(), 6);
    assert_eq!(ops[0], DrawOp::Clear(Rect::new(0, 0, 300, 42)));
    assert_eq!(ops[3], DrawOp::Clear(Rect::new(0, 42, 300, 42)));
    assert_eq!(ops[2], DrawOp::Toggle { at: Point::new(300, 0), on: false });
    assert!(!list.should_draw());
    ops.clear();
    assert!(!list.draw(&mut ops));
    assert!(ops.is_empty());
    let mut bubble = VecDeque::new();
    list.handle_key_event(KeyEvent::Pressed(Key::A), &mut bubble);
    assert!(list.should_draw());
    assert!(list.draw(&mut ops));
    assert_eq!(ops.len(), 3);
    assert_eq!(ops[2], DrawOp::Toggle { at: Point::new(300, 0), on: true });
}

#[test]
fn theme_starts_from_stylesheet() {
    let t = theme();
    let list = t.list();
    assert_eq!(list.len(), ROW_COUNT);
    assert_eq!(*list.widget(0), Widget::Toggle { on: false });
    match list.widget(1) {
        Widget::Select { index, options } => {
            assert_eq!(*index, 1);
            assert_eq!(options, &vec!["Mono".to_string(), "Nunito".to_string()]);
        }
        w => panic!("unexpected widget {:?}", w),
    }
    match list.widget(3) {
        Widget::Select { index, .. } => assert_eq!(*index, 0),
        w => panic!("unexpected widget {:?}", w),
    }
    assert_eq!(*list.widget(2), Widget::Number { value: 24, min: 10, max: 40 });
    assert_eq!(*list.label(7), "Background Color".to_string());
    assert_eq!(list.bounding_box(), Rect::new(0, 8, 628, 426));
    assert_eq!(field_of_row(12), Some(Field::ButtonYColor));
    assert_eq!(field_of_row(13), None);
}

#[test]
fn dark_mode_scenario_inverts_and_saves() {
    let mut t = theme();
    let before = light_stylesheet();
    let (out, bubble) = press(&mut t, Key::A);
    let s = t.stylesheet().clone();
    assert_eq!(s.background_color, before.background_color.invert());
    assert_eq!(s.foreground_color, before.foreground_color.invert());
    assert!(s.background_color.is_dark());
    assert_eq!(out, vec![Command::SaveStylesheet(s.clone())]);
    assert!(bubble.is_empty());
    let list = t.list();
    assert_eq!(*list.widget(0), Widget::Toggle { on: true });
    assert_eq!(
        *list.widget(FOREGROUND_ROW),
        Widget::ColorPicker { color: s.foreground_color, edit: None }
    );
    assert_eq!(
        *list.widget(BACKGROUND_ROW),
        Widget::ColorPicker { color: s.background_color, edit: None }
    );
}

#[test]
fn dark_mode_round_trip_restores_colors() {
    let mut t = theme();
    press(&mut t, Key::A);
    let (out, _) = press(&mut t, Key::A);
    assert_eq!(*t.stylesheet(), light_stylesheet());
    assert_eq!(out, vec![Command::SaveStylesheet(light_stylesheet())]);
    assert_eq!(*t.list().widget(0), Widget::Toggle { on: false });
}

#[test]
fn dark_mode_agreeing_change_is_noop() {
    let mut t = theme();
    let mut out = Vec::new();
    t.apply_change(0, Value::Bool(false), &mut out);
    assert!(out.is_empty());
    assert_eq!(*t.stylesheet(), light_stylesheet());
}

#[test]
fn each_field_change_saves_once() {
    let mut t = theme();
    let mut out = Vec::new();
    t.apply_change(1, Value::Int(0), &mut out);
    assert_eq!(t.stylesheet().ui_font.path, "/fonts/Mono.ttf");
    t.apply_change(2, Value::Int(30), &mut out);
    assert_eq!(t.stylesheet().ui_font.size, 30);
    t.apply_change(3, Value::Int(1), &mut out);
    assert_eq!(t.stylesheet().guide_font.path, "/fonts/Nunito.ttf");
    t.apply_change(4, Value::Int(12), &mut out);
    assert_eq!(t.stylesheet().guide_font.size, 12);
    let c = Color::new(1, 2, 3);
    for row in 5..ROW_COUNT {
        t.apply_change(row, Value::Color(c), &mut out);
    }
    let s = t.stylesheet();
    assert_eq!(s.highlight_color, c);
    assert_eq!(s.button_y_color, c);
    assert_eq!(s.disabled_color, c);
    assert_eq!(out.len(), 12);
    assert_eq!(out[11], Command::SaveStylesheet(s.clone()));
    // the background became dark, and the toggle follows it
    assert_eq!(*t.list().widget(0), Widget::Toggle { on: true });
}

#[test]
fn font_size_edit_through_keys() {
    let mut t = theme();
    press(&mut t, Key::Down);
    press(&mut t, Key::Down);
    let (out, _) = press(&mut t, Key::Right);
    assert_eq!(t.stylesheet().ui_font.size, 25);
    assert_eq!(out.len(), 1);
}

#[test]
fn back_closes_screen() {
    let mut t = theme();
    let (out, bubble) = press(&mut t, Key::B);
    assert!(out.is_empty());
    assert_eq!(bubble, VecDeque::from(vec![Command::CloseView]));
    let (_, bubble) = press(&mut t, Key::X);
    assert!(bubble.is_empty());
}

#[test]
fn unknown_commands_stay_in_queue() {
    let mut t = theme();
    let mut out = Vec::new();
    let mut bubble = VecDeque::from(vec![Command::CloseView]);
    assert!(t.handle_key_event(KeyEvent::Pressed(Key::A), &mut out, &mut bubble));
    assert_eq!(bubble, VecDeque::from(vec![Command::CloseView]));
    assert_eq!(out.len(), 1);
}

#[test]
fn theme_redraw_protocol() {
    let mut t = theme();
    let mut ops = Vec::new();
    assert!(t.should_draw());
    assert!(t.draw(&mut ops));
    assert_eq!(ops.len(), 3 * ROW_COUNT + 2);
    assert!(!t.should_draw());
    ops.clear();
    assert!(!t.draw(&mut ops));
    assert!(ops.is_empty());
    t.set_should_draw();
    assert!(t.should_draw());
    assert!(t.draw(&mut ops));
    assert!(!t.should_draw());
    press(&mut t, Key::Down);
    assert!(t.should_draw());
}

#[test]
fn theme_cannot_be_moved() {
    let mut t = theme();
    assert_eq!(t.set_position(Point::new(1, 1)), Err(ViewError::Unsupported));
    assert_eq!(t.bounding_box(), Rect::new(0, 0, 640, 480));
}

#[test]
fn render_pass_paints_only_dirty_trees() {
    let mut t = theme();
    let mut ops = Vec::new();
    assert!(render_pass(&mut t, &mut ops));
    let painted = ops.len();
    assert!(!render_pass(&mut t, &mut ops));
    assert_eq!(ops.len(), painted);
    let mut list = two_row_list();
    assert!(render_pass(&mut list, &mut ops));
    assert_eq!(ops.len(), painted + 6);
}

#[test]
fn theme_without_fonts_ignores_font_rows() {
    let mut t = Theme::new(Rect::new(0, 0, 640, 480), light_stylesheet(), vec![]);
    press(&mut t, Key::Down);
    let (out, bubble) = press(&mut t, Key::Right);
    assert!(out.is_empty());
    assert!(bubble.is_empty());
    assert_eq!(*t.stylesheet(), light_stylesheet());
    match t.list().widget(1) {
        Widget::Select { index, options } => {
            assert_eq!(*index, 0);
            assert!(options.is_empty());
        }
        w => panic!("unexpected widget {:?}", w),
    }
}

#[test]
fn size_rows_start_at_stylesheet_size() {
    let mut s = light_stylesheet();
    s.ui_font.size = 50;
    s.guide_font.size = 4;
    let mut t = Theme::new(Rect::new(0, 0, 640, 480), s, fonts());
    assert_eq!(*t.list().widget(2), Widget::Number { value: 50, min: 10, max: 40 });
    assert_eq!(*t.list().widget(4), Widget::Number { value: 4, min: 10, max: 40 });
    press(&mut t, Key::Down);
    press(&mut t, Key::Down);
    let (out, _) = press(&mut t, Key::Left);
    assert_eq!(t.stylesheet().ui_font.size, 49);
    assert_eq!(out.len(), 1);
}

#[test]
fn font_names_from_paths() {
    assert_eq!(font_display_name(&"/fonts/Open_Sans-Bold.ttf".to_string()), "Open Sans Bold");
    assert_eq!(font_display_name(&"Mono.ttf".to_string()), "Mono");
    assert_eq!(font_display_name(&"".to_string()), "Unknown");
}

#[test]
fn theme_labels_and_hints() {
    let t = theme();
    let labels: Vec<String> = (0..ROW_COUNT).map(|i| t.list().label(i).clone()).collect();
    assert_eq!(
        labels,
        vec![
            "Dark Mode", "UI Font", "UI Font Size", "Guide Font", "Guide Font Size",
            "Highlight Color", "Foreground Color", "Background Color", "Disabled Color",
            "Button A Color", "Button B Color", "Button X Color", "Button Y Color",
        ]
    );
    let mut t = theme();
    let mut ops = Vec::new();
    t.draw(&mut ops);
    let hints: Vec<&DrawOp> = ops.iter().filter(|op| matches!(op, DrawOp::Hint { .. })).collect();
    assert_eq!(
        hints,
        vec![
            &DrawOp::Hint {
                at: Point::new(628, 441),
                slot: 0,
                align: Alignment::Right,
                spacing: 12,
                key: Key::A,
                text: "Edit".to_string(),
            },
            &DrawOp::Hint {
                at: Point::new(628, 441),
                slot: 1,
                align: Alignment::Right,
                spacing: 12,
                key: Key::B,
                text: "Back".to_string(),
            },
        ]
    );
}

#[test]
fn set_should_draw_reaches_all_children() {
    let mut t = theme();
    press(&mut t, Key::Down);
    let mut ops = Vec::new();
    t.draw(&mut ops);
    assert!(!t.list().should_draw() && !t.button_hints().should_draw());
    t.set_should_draw();
    assert!(t.list().should_draw());
    assert!(t.button_hints().should_draw());
    assert_eq!(t.list().selected(), 1);
}

#[test]
fn recolor_leaves_other_rows() {
    let mut t = theme();
    let before: Vec<Widget> = (0..ROW_COUNT).map(|i| t.list().widget(i).clone()).collect();
    press(&mut t, Key::A);
    for i in 1..ROW_COUNT {
        if i != FOREGROUND_ROW && i != BACKGROUND_ROW {
            assert_eq!(*t.list().widget(i), before[i]);
        }
    }
}

#[test]
fn names_of_stems() {
    assert_eq!(display_name_of_stem(Some("Fira_Code-Regular".to_string())), "Fira Code Regular");
    assert_eq!(display_name_of_stem(Some("Plain".to_string())), "Plain");
    assert_eq!(display_name_of_stem(None), "Unknown");
}

#[test]
fn list_labels_span_the_row() {
    let mut list = two_row_list();
    let mut ops = Vec::new();
    list.draw(&mut ops);
    match &ops[1] {
        DrawOp::Label { width, align, text, .. } => {
            assert_eq!(*width, 300);
            assert_eq!(*align, Alignment::Left);
            assert_eq!(text, "Dark Mode");
        }
        op => panic!("unexpected {:?}", op),
    }
}
