use vstd::prelude::*;

use std::collections::VecDeque;

use crate::button_hints::{ButtonHint, ButtonHints};
use crate::color::{spec_is_dark, Color};
use crate::command::Command;
use crate::draw::DrawOp;
use crate::font_name::{font_display_name, spec_display_name};
use crate::fields::{
    color_of, field_of_row, lemma_change_lands, set_color, spec_admissible, spec_apply, spec_color_of,
    spec_field_holds, spec_field_label, spec_field_of_row, Field, BACKGROUND_ROW, DARK_MODE_ROW, FONT_SIZE_MAX,
    FONT_SIZE_MIN, FOREGROUND_ROW, ROW_COUNT,
};
use crate::geom::{spec_acting_key, Alignment, Key, KeyEvent, Point, Rect};
use crate::settings_list::SettingsList;
use crate::stylesheet::Stylesheet;
use crate::value::Value;
use crate::widget::{lemma_step_keeps_kind, Widget};

verus! {

/// Height of a row of the settings list.
pub const SELECTION_HEIGHT: u32 = 42;

/// Gap between two button hints of the screen.
pub const HINT_SPACING: u32 = 12;

/// Diameter of a button glyph in a hint.
pub const BUTTON_DIAMETER: u32 = 31;

/// Why a view refused an operation.
#[derive(Clone, Copy, Debug, PartialEq, Eq, Structural)]
pub enum ViewError {
    /// The view is placed by its owner and cannot be moved.
    Unsupported,
}

/// The theme settings screen: one row per stylesheet field.
pub struct Theme {
    rect: Rect,
    stylesheet: Stylesheet,
    fonts: Vec<String>,
    list: SettingsList,
    button_hints: ButtonHints,
}

/// Whether every `ValueChanged` in a queue fits the row table.
pub open spec fn spec_queue_fits(q: Seq<Command>, n: nat) -> bool {
    forall|j: int|
        0 <= j < q.len() ==> match #[trigger] q[j] {
            Command::ValueChanged(i, v) => spec_admissible(i as int, v, n),
            _ => true,
        }
}

/// Draining a bubble queue on the theme screen: the stylesheet after every
/// `ValueChanged` in it, the `SaveStylesheet` commands sent on the way, and the
/// commands left for an owner further up, in order.
pub open spec fn spec_drain(s: Stylesheet, fonts: Seq<String>, q: Seq<Command>) -> (
    Stylesheet,
    Seq<Command>,
    Seq<Command>,
)
    decreases q.len(),
{
    if q.len() == 0 {
        (s, Seq::empty(), Seq::empty())
    } else {
        let (s1, sent, rest) = spec_drain(s, fonts, q.drop_last());
        match q.last() {
            Command::ValueChanged(i, v) => match spec_apply(s1, fonts, i as int, v) {
                Some(s2) => (s2, sent.push(Command::SaveStylesheet(s2)), rest),
                None => (s1, sent, rest),
            },
            c => (s1, sent, rest.push(c)),
        }
    }
}

/// The rows of the theme screen after `ValueChanged(i, v)` on stylesheet `s`:
/// a dark mode change that disagrees with the background puts the inverted
/// colors on the foreground and background rows, and the dark mode row then
/// shows whether the background is dark.
pub open spec fn spec_rows_after(
    ws: Seq<Widget>,
    s: Stylesheet,
    fonts: Seq<String>,
    i: int,
    v: Value,
) -> Seq<Widget> {
    let s2 = match spec_apply(s, fonts, i, v) {
        Some(t) => t,
        None => s,
    };
    let recolored = if i == DARK_MODE_ROW && spec_apply(s, fonts, i, v) is Some {
        ws.update(
            FOREGROUND_ROW as int,
            Widget::ColorPicker { color: s2.foreground_color, edit: None },
        ).update(BACKGROUND_ROW as int, Widget::ColorPicker { color: s2.background_color, edit: None })
    } else {
        ws
    };
    recolored.update(DARK_MODE_ROW as int, Widget::Toggle { on: spec_is_dark(s2.background_color) })
}

/// The rows of the theme screen after draining a bubble queue.
pub open spec fn spec_drain_rows(
    ws: Seq<Widget>,
    s: Stylesheet,
    fonts: Seq<String>,
    q: Seq<Command>,
) -> Seq<Widget>
    decreases q.len(),
{
    if q.len() == 0 {
        ws
    } else {
        let ws1 = spec_drain_rows(ws, s, fonts, q.drop_last());
        let s1 = spec_drain(s, fonts, q.drop_last()).0;
        match q.last() {
            Command::ValueChanged(i, v) => spec_rows_after(ws1, s1, fonts, i as int, v),
            _ => ws1,
        }
    }
}

/// The position of the font `path` among `fonts`: the first with the same
/// text, or zero when there is none.
pub open spec fn spec_font_position(fonts: Seq<String>, path: String, r: int) -> bool {
    ||| (0 <= r < fonts.len() && fonts[r]@ == path@ && forall|j: int|
        0 <= j < r ==> (#[trigger] fonts[j])@ != path@)
    ||| (r == 0 && forall|j: int| 0 <= j < fonts.len() ==> (#[trigger] fonts[j])@ != path@)
}

/// `a + d`, held within the coordinate range.
pub open spec fn spec_offset(a: i32, d: int) -> i32 {
    if a + d > i32::MAX {
        i32::MAX
    } else if a + d < i32::MIN {
        i32::MIN
    } else {
        (a + d) as i32
    }
}

/// `a - d`, or zero below zero.
pub open spec fn spec_shrink(a: u32, d: u32) -> u32 {
    if a > d {
        (a - d) as u32
    } else {
        0
    }
}

fn offset(a: i32, d: i64) -> (r: i32)
    requires
        -0x1_0000_0000 <= d <= 0x1_0000_0000,
    ensures
        r == spec_offset(a, d as int),
{
    let s: i64 = a as i64 + d;
    if s > i32::MAX as i64 {
        i32::MAX
    } else if s < i32::MIN as i64 {
        i32::MIN
    } else {
        s as i32
    }
}

fn shrink(a: u32, d: u32) -> (r: u32)
    ensures
        r == spec_shrink(a, d),
{
    if a > d {
        a - d
    } else {
        0
    }
}

fn font_position(fonts: &Vec<String>, path: &String) -> (r: usize)
    ensures
        spec_font_position(fonts@, *path, r as int),
{
    let mut i: usize = 0;
    while i < fonts.len()
        invariant
            i <= fonts.len(),
            forall|j: int| 0 <= j < i ==> (#[trigger] fonts@[j])@ != path@,
        decreases fonts.len() - i,
    {
        if fonts[i] == *path {
            return i;
        }
        i += 1;
    }
    0
}

impl Theme {
    pub closed spec fn spec_rect(&self) -> Rect {
        self.rect
    }

    pub closed spec fn spec_stylesheet(&self) -> Stylesheet {
        self.stylesheet
    }

    pub closed spec fn spec_fonts(&self) -> Seq<String> {
        self.fonts@
    }

    pub closed spec fn spec_list(&self) -> SettingsList {
        self.list
    }

    pub closed spec fn spec_button_hints(&self) -> ButtonHints {
        self.button_hints
    }

    /// The rows have the kinds of the row table: a toggle, a selection among
    /// the fonts, a size, a selection among the fonts, a size, then colors.
    pub open spec fn rows_fit(&self) -> bool {
        let w = self.spec_list().spec_widgets();
        let n = self.spec_fonts().len();
        &&& self.spec_list().wf()
        &&& self.spec_list().spec_len() == ROW_COUNT
        &&& w[0] is Toggle
        &&& (w[1] matches Widget::Select { options, .. } && options.len() == n)
        &&& (w[3] matches Widget::Select { options, .. } && options.len() == n)
        &&& (w[2] matches Widget::Number { min, max, .. } && min == FONT_SIZE_MIN && max
            == FONT_SIZE_MAX)
        &&& (w[4] matches Widget::Number { min, max, .. } && min == FONT_SIZE_MIN && max
            == FONT_SIZE_MAX)
        &&& forall|i: int| 5 <= i < ROW_COUNT ==> #[trigger] w[i] is ColorPicker
    }

    /// The rows fit the table and the dark mode toggle shows whether the
    /// background is dark.
    pub open spec fn wf(&self) -> bool {
        &&& self.rows_fit()
        &&& self.spec_list().spec_widgets()[0] == (Widget::Toggle {
            on: spec_is_dark(self.spec_stylesheet().background_color),
        })
    }

    pub open spec fn spec_should_draw(&self) -> bool {
        self.spec_list().spec_should_draw() || self.spec_button_hints().spec_should_draw()
    }

    /// The screen for `stylesheet`, in `rect`, offering the font files at
    /// `fonts`.
    pub fn new(rect: Rect, stylesheet: Stylesheet, fonts: Vec<String>) -> (t: Theme)
        requires
            fonts.len() <= i32::MAX,
        ensures
            t.wf(),
            t.spec_rect() == rect,
            t.spec_stylesheet() == stylesheet,
            t.spec_fonts() == fonts@,
            t.spec_list().spec_selected() == 0,
            t.spec_list().spec_row_height() == SELECTION_HEIGHT,
            forall|i: int|
                0 <= i < ROW_COUNT ==> (#[trigger] t.spec_list().spec_labels()[i])@
                    == spec_field_label(spec_field_of_row(i).unwrap()),
            t.spec_button_hints().spec_at() == (Point {
                x: spec_offset(rect.x, rect.w - 12),
                y: spec_offset(rect.y, rect.h - BUTTON_DIAMETER - 8),
            }),
            t.spec_button_hints().spec_align() == Alignment::Right,
            t.spec_button_hints().spec_spacing() == HINT_SPACING,
            t.spec_button_hints().spec_hints().len() == 2,
            t.spec_button_hints().spec_hints()[0].key == Key::A,
            t.spec_button_hints().spec_hints()[0].text@ == "Edit"@,
            t.spec_button_hints().spec_hints()[1].key == Key::B,
            t.spec_button_hints().spec_hints()[1].text@ == "Back"@,
            t.spec_list().spec_rect() == (Rect {
                x: rect.x,
                y: spec_offset(rect.y, 8),
                w: spec_shrink(rect.w, 12),
                h: spec_shrink(rect.h, 54),
            }),
            ({
                let w = t.spec_list().spec_widgets();
                &&& (w[1] matches Widget::Select { options, .. } && options@.len() == fonts.len()
                    && forall|k: int|
                    0 <= k < fonts.len() ==> (#[trigger] options@[k])@ == spec_display_name(
                        fonts@[k]@,
                    ))
                &&& (w[3] matches Widget::Select { options, .. } && options@.len() == fonts.len()
                    && forall|k: int|
                    0 <= k < fonts.len() ==> (#[trigger] options@[k])@ == spec_display_name(
                        fonts@[k]@,
                    ))
                &&& (w[1] matches Widget::Select { index, .. } && spec_font_position(
                    t.spec_fonts(),
                    stylesheet.ui_font.path,
                    index as int,
                ))
                &&& (w[3] matches Widget::Select { index, .. } && spec_font_position(
                    t.spec_fonts(),
                    stylesheet.guide_font.path,
                    index as int,
                ))
                &&& (w[2] matches Widget::Number { value, .. } && value == stylesheet.ui_font.size as i32)
                &&& (w[4] matches Widget::Number { value, .. } && value == stylesheet.guide_font.size as i32)
                &&& forall|i: int|
                    5 <= i < ROW_COUNT ==> #[trigger] w[i] == (Widget::ColorPicker {
                        color: spec_color_of_row(stylesheet, i),
                        edit: None,
                    })
            }),
            t.spec_should_draw(),
    {
        let mut ui_names: Vec<String> = Vec::new();
        let mut guide_names: Vec<String> = Vec::new();
        let mut i: usize = 0;
        while i < fonts.len()
            invariant
                i <= fonts.len(),
                ui_names.len() == i,
                guide_names.len() == i,
                forall|j: int|
                    0 <= j < i ==> (#[trigger] ui_names@[j])@ == spec_display_name(fonts@[j]@),
                forall|j: int|
                    0 <= j < i ==> (#[trigger] guide_names@[j])@ == spec_display_name(fonts@[j]@),
            decreases fonts.len() - i,
        {
            ui_names.push(font_display_name(&fonts[i]));
            guide_names.push(font_display_name(&fonts[i]));
            i += 1;
        }
        let mut labels: Vec<String> = Vec::new();
        let mut widgets: Vec<Widget> = Vec::new();
        widgets.push(Widget::toggle(stylesheet.background_color.is_dark()));
        let ui_at = font_position(&fonts, &stylesheet.ui_font.path);
        widgets.push(Widget::select(ui_at, ui_names));
        widgets.push(Widget::number(stylesheet.ui_font.size as i32, FONT_SIZE_MIN, FONT_SIZE_MAX));
        let guide_at = font_position(&fonts, &stylesheet.guide_font.path);
        widgets.push(Widget::select(guide_at, guide_names));
        widgets.push(
            Widget::number(stylesheet.guide_font.size as i32, FONT_SIZE_MIN, FONT_SIZE_MAX),
        );
        let mut row: usize = 0;
        while row < ROW_COUNT
            invariant
                row <= ROW_COUNT,
                labels.len() == row,
                forall|j: int|
                    0 <= j < row ==> (#[trigger] labels@[j])@ == spec_field_label(
                        spec_field_of_row(j).unwrap(),
                    ),
                widgets.len() == if row < 5 { 5 } else { row },
                forall|j: int| 0 <= j < 5 ==> (#[trigger] widgets@[j]).wf(),
                widgets@[0] == (Widget::Toggle { on: spec_is_dark(stylesheet.background_color) }),
                widgets@[1] == (Widget::Select { index: ui_at, options: ui_names }),
                widgets@[3] == (Widget::Select { index: guide_at, options: guide_names }),
                widgets@[2] == (Widget::Number {
                    value: stylesheet.ui_font.size as i32,
                    min: FONT_SIZE_MIN,
                    max: FONT_SIZE_MAX,
                }),
                widgets@[4] == (Widget::Number {
                    value: stylesheet.guide_font.size as i32,
                    min: FONT_SIZE_MIN,
                    max: FONT_SIZE_MAX,
                }),
                forall|j: int|
                    5 <= j < widgets.len() ==> #[trigger] widgets@[j] == (Widget::ColorPicker {
                        color: spec_color_of_row(stylesheet, j),
                        edit: None,
                    }),
            decreases ROW_COUNT - row,
        {
            let field = field_of_row(row).unwrap();
            labels.push(String::from_str(field.label()));
            if row >= 5 {
                let color = color_of(&stylesheet, field).unwrap();
                widgets.push(Widget::color_picker(color));
            }
            row += 1;
        }
        assert forall|j: int| 0 <= j < widgets.len() implies (#[trigger] widgets@[j]).wf() by {
            if j >= 5 {
                assert(widgets@[j] is ColorPicker);
            }
        }
        let list_rect = Rect {
            x: rect.x,
            y: offset(rect.y, 8),
            w: shrink(rect.w, 12),
            h: shrink(rect.h, 54),
        };
        let list = SettingsList::new(list_rect, labels, widgets, SELECTION_HEIGHT).unwrap();
        let mut hints: Vec<ButtonHint> = Vec::new();
        hints.push(ButtonHint { key: Key::A, text: String::from_str("Edit") });
        hints.push(ButtonHint { key: Key::B, text: String::from_str("Back") });
        let at = Point {
            x: offset(rect.x, rect.w as i64 - 12),
            y: offset(rect.y, rect.h as i64 - BUTTON_DIAMETER as i64 - 8),
        };
        let button_hints = ButtonHints::new(at, hints, Alignment::Right, HINT_SPACING);
        let t = Theme { rect, stylesheet, fonts, list, button_hints };
        assert(t.spec_list().spec_dirty()[0]);
        t
    }
}

impl Theme {
    /// Whether `ValueChanged(index, value)` recolors the foreground and
    /// background rows: a dark mode change that disagrees with the background.
    pub open spec fn spec_recolors(&self, index: int, value: Value) -> bool {
        index == DARK_MODE_ROW && spec_apply(
            self.spec_stylesheet(),
            self.spec_fonts(),
            index,
            value,
        ) is Some
    }

    /// Shows on the dark mode row whether the background is dark.
    fn sync_dark_toggle(&mut self)
        requires
            old(self).rows_fit(),
        ensures
            final(self).wf(),
            final(self).spec_rect() == old(self).spec_rect(),
            final(self).spec_stylesheet() == old(self).spec_stylesheet(),
            final(self).spec_fonts() == old(self).spec_fonts(),
            final(self).spec_button_hints() == old(self).spec_button_hints(),
            final(self).spec_list().spec_selected() == old(self).spec_list().spec_selected(),
            final(self).spec_list().spec_widgets() == old(self).spec_list().spec_widgets().update(
                DARK_MODE_ROW as int,
                Widget::Toggle { on: spec_is_dark(old(self).spec_stylesheet().background_color) },
            ),
            forall|j: int|
                0 <= j < ROW_COUNT && old(self).spec_list().spec_dirty()[j] ==> #[trigger] final(self).spec_list().spec_dirty()[j],
    {
        let dark = self.stylesheet.background_color.is_dark();
        let shown = match self.list.widget(DARK_MODE_ROW) {
            Widget::Toggle { on } => *on,
            _ => dark,
        };
        if shown != dark {
            self.list.set_child(DARK_MODE_ROW, Widget::toggle(dark));
        } else {
            assert(self.list.spec_widgets() =~= self.list.spec_widgets().update(
                DARK_MODE_ROW as int,
                Widget::Toggle { on: dark },
            ));
        }
    }

    /// Applies `ValueChanged(index, value)` to the stylesheet and sends one
    /// `SaveStylesheet` with the result on `outbound` when anything changed.
    ///
    /// A dark mode change that disagrees with the background inverts
    /// foreground and background and replaces the widgets of their rows; one
    /// that agrees changes nothing and sends nothing.
    pub fn apply_change(&mut self, index: usize, value: Value, outbound: &mut Vec<Command>)
        requires
            old(self).rows_fit(),
            spec_admissible(index as int, value, old(self).spec_fonts().len()),
        ensures
            final(self).wf(),
            final(self).spec_rect() == old(self).spec_rect(),
            final(self).spec_fonts() == old(self).spec_fonts(),
            final(self).spec_button_hints() == old(self).spec_button_hints(),
            final(self).spec_list().spec_selected() == old(self).spec_list().spec_selected(),
            match spec_apply(
                old(self).spec_stylesheet(),
                old(self).spec_fonts(),
                index as int,
                value,
            ) {
                Some(s) => {
                    &&& final(self).spec_stylesheet() == s
                    &&& final(outbound)@ == old(outbound)@.push(Command::SaveStylesheet(s))
                },
                None => {
                    &&& final(self).spec_stylesheet() == old(self).spec_stylesheet()
                    &&& final(outbound)@ == old(outbound)@
                },
            },
            final(self).spec_list().spec_widgets() == spec_rows_after(
                old(self).spec_list().spec_widgets(),
                old(self).spec_stylesheet(),
                old(self).spec_fonts(),
                index as int,
                value,
            ),
            forall|j: int|
                0 <= j < ROW_COUNT && old(self).spec_list().spec_dirty()[j] ==> #[trigger] final(self).spec_list().spec_dirty()[j],
            old(self).spec_recolors(index as int, value) ==> {
                &&& final(self).spec_list().spec_widgets()[FOREGROUND_ROW as int] == (
                Widget::ColorPicker {
                    color: final(self).spec_stylesheet().foreground_color,
                    edit: None,
                })
                &&& final(self).spec_list().spec_widgets()[BACKGROUND_ROW as int] == (
                Widget::ColorPicker {
                    color: final(self).spec_stylesheet().background_color,
                    edit: None,
                })
            },
            forall|j: int|
                1 <= j < ROW_COUNT && !(old(self).spec_recolors(index as int, value) && (j
                    == FOREGROUND_ROW || j == BACKGROUND_ROW)) ==> #[trigger] final(self).spec_list().spec_widgets()[j]
                    == old(self).spec_list().spec_widgets()[j],
    {
        let field = field_of_row(index).unwrap();
        let changed: bool;
        match value {
            Value::Bool(b) => {
                if b != self.stylesheet.background_color.is_dark() {
                    self.stylesheet.foreground_color = self.stylesheet.foreground_color.invert();
                    self.stylesheet.background_color = self.stylesheet.background_color.invert();
                    self.list.set_child(
                        FOREGROUND_ROW,
                        Widget::color_picker(self.stylesheet.foreground_color),
                    );
                    self.list.set_child(
                        BACKGROUND_ROW,
                        Widget::color_picker(self.stylesheet.background_color),
                    );
                    changed = true;
                } else {
                    changed = false;
                }
            },
            Value::Int(x) => {
                match field {
                    Field::UiFont => self.stylesheet.ui_font.path = self.fonts[x as usize].clone(),
                    Field::UiFontSize => self.stylesheet.ui_font.size = x as u32,
                    Field::GuideFont => self.stylesheet.guide_font.path = self.fonts[x as usize].clone(),
                    _ => self.stylesheet.guide_font.size = x as u32,
                }
                changed = true;
            },
            Value::Color(c) => {
                set_color(&mut self.stylesheet, field, c);
                changed = true;
            },
        }
        self.sync_dark_toggle();
        if changed {
            outbound.push(Command::SaveStylesheet(self.stylesheet.snapshot()));
        }
    }

    /// Dispatches a key event. The list goes first; when it consumes the
    /// event, the whole bubble queue is drained: each `ValueChanged` is
    /// applied, and every other command is left in the queue, in order.
    /// Otherwise B pushes `CloseView`. The screen consumes every event.
    pub fn handle_key_event(
        &mut self,
        event: KeyEvent,
        outbound: &mut Vec<Command>,
        bubble: &mut VecDeque<Command>,
    ) -> (consumed: bool)
        requires
            old(self).wf(),
            spec_queue_fits(old(bubble)@, old(self).spec_fonts().len()),
        ensures
            final(self).wf(),
            final(self).spec_rect() == old(self).spec_rect(),
            final(self).spec_fonts() == old(self).spec_fonts(),
            final(self).spec_list().spec_selected() == old(self).spec_list().spec_cursor_after(event),
            consumed,
            if old(self).spec_list().spec_consumes(event) {
                let d = spec_drain(
                    old(self).spec_stylesheet(),
                    old(self).spec_fonts(),
                    old(bubble)@ + old(self).spec_list().spec_reported(event),
                );
                &&& final(self).spec_stylesheet() == d.0
                &&& final(outbound)@ == old(outbound)@ + d.1
                &&& final(bubble)@ == d.2
                &&& final(self).spec_list().spec_widgets() == spec_drain_rows(
                    old(self).spec_list().spec_widgets_after(event),
                    old(self).spec_stylesheet(),
                    old(self).spec_fonts(),
                    old(bubble)@ + old(self).spec_list().spec_reported(event),
                ).update(DARK_MODE_ROW as int, Widget::Toggle { on: spec_is_dark(d.0.background_color) })
                &&& final(self).spec_list().spec_dirty()[final(self).spec_list().spec_selected()]
                &&& final(self).spec_list().spec_should_draw()
            } else {
                &&& final(self).spec_list().spec_widgets() == old(self).spec_list().spec_widgets()
                &&& final(self).spec_list().spec_dirty() == old(self).spec_list().spec_dirty()
                &&& final(self).spec_stylesheet() == old(self).spec_stylesheet()
                &&& final(outbound)@ == old(outbound)@
                &&& final(bubble)@ == if event == KeyEvent::Pressed(Key::B) {
                    old(bubble)@.push(Command::CloseView)
                } else {
                    old(bubble)@
                }
            },
    {
        let ghost l0 = self.list;
        let ghost n = self.fonts@.len();
        if self.list.handle_key_event(event, bubble) {
            proof {
                let sel = l0.spec_selected();
                let w = l0.spec_widgets()[sel];
                if let Some(k) = spec_acting_key(event) {
                    lemma_step_keeps_kind(w, k);
                }
                if sel >= 5 {
                    assert(w is ColorPicker);
                }
                assert(spec_queue_fits(bubble@, n));
            }
            let ghost q = bubble@;
            let ghost s0 = self.stylesheet;
            let ghost w0 = self.list.spec_widgets();
            let ghost cur = self.list.spec_selected();
            let ghost out0 = outbound@;
            let mut rest: VecDeque<Command> = VecDeque::new();
            let ghost mut k: int = 0;
            while bubble.len() > 0
                invariant
                    self.rows_fit(),
                    self.rect == old(self).rect,
                    self.fonts@ == old(self).fonts@,
                    n == self.fonts@.len(),
                    self.list.spec_selected() == l0.spec_cursor_after(event),
                    self.list.spec_selected() == cur,
                    self.list.spec_dirty()[cur],
                    w0 == l0.spec_widgets_after(event),
                    self.list.spec_widgets() == spec_drain_rows(w0, s0, self.fonts@, q.take(k)),
                    spec_queue_fits(q, n),
                    0 <= k <= q.len(),
                    bubble@ == q.subrange(k, q.len() as int),
                    self.stylesheet == spec_drain(s0, self.fonts@, q.take(k)).0,
                    outbound@ == out0 + spec_drain(s0, self.fonts@, q.take(k)).1,
                    rest@ == spec_drain(s0, self.fonts@, q.take(k)).2,
                decreases bubble@.len(),
            {
                let c = bubble.pop_front().unwrap();
                proof {
                    assert(c == q[k]);
                    assert(q.take(k + 1).drop_last() == q.take(k));
                    assert(q.take(k + 1).last() == q[k]);
                }
                match c {
                    Command::ValueChanged(i, v) => self.apply_change(i, v, outbound),
                    other => rest.push_back(other),
                }
                proof {
                    k = k + 1;
                }
            }
            proof {
                assert(q.take(k) == q);
            }
            *bubble = rest;
            self.sync_dark_toggle();
            assert(self.list.spec_dirty()[cur]);
            return true;
        }
        proof {
            let sel = l0.spec_selected();
            let w = l0.spec_widgets()[sel];
            if let Some(k) = spec_acting_key(event) {
                lemma_step_keeps_kind(w, k);
            }
            assert(self.list.spec_widgets() =~= l0.spec_widgets());
        }
        if event == KeyEvent::Pressed(Key::B) {
            bubble.push_back(Command::CloseView);
        }
        true
    }

    /// Paints what is dirty: the list, then the button hints. Returns whether
    /// anything was painted.
    pub fn draw(&mut self, ops: &mut Vec<DrawOp>) -> (drew: bool)
        requires
            old(self).wf(),
        ensures
            final(self).wf(),
            drew == old(self).spec_should_draw(),
            !final(self).spec_should_draw(),
            final(self).spec_rect() == old(self).spec_rect(),
            final(self).spec_stylesheet() == old(self).spec_stylesheet(),
            final(self).spec_fonts() == old(self).spec_fonts(),
            final(ops)@ == old(ops)@ + old(self).spec_list().spec_frame(ROW_COUNT as int) + if old(self).spec_button_hints().spec_should_draw() {
                old(self).spec_button_hints().spec_ops()
            } else {
                Seq::empty()
            },
    {
        let list_drew = self.list.draw(ops);
        let hints_drew = self.button_hints.draw(ops);
        proof {
            assert(self.list.spec_widgets() =~= old(self).list.spec_widgets());
        }
        list_drew || hints_drew
    }

    pub fn should_draw(&self) -> (r: bool)
        ensures
            r == self.spec_should_draw(),
    {
        self.list.should_draw() || self.button_hints.should_draw()
    }

    /// Marks the whole screen to be painted by the next draw.
    pub fn set_should_draw(&mut self)
        requires
            old(self).wf(),
        ensures
            final(self).wf(),
            final(self).spec_should_draw(),
            final(self).spec_rect() == old(self).spec_rect(),
            final(self).spec_stylesheet() == old(self).spec_stylesheet(),
            final(self).spec_fonts() == old(self).spec_fonts(),
            final(self).spec_list().spec_widgets() == old(self).spec_list().spec_widgets(),
            final(self).spec_list().spec_labels() == old(self).spec_list().spec_labels(),
            final(self).spec_list().spec_selected() == old(self).spec_list().spec_selected(),
            final(self).spec_list().spec_rect() == old(self).spec_list().spec_rect(),
            final(self).spec_list().spec_row_height() == old(self).spec_list().spec_row_height(),
            forall|i: int|
                0 <= i < ROW_COUNT ==> #[trigger] final(self).spec_list().spec_dirty()[i],
            final(self).spec_list().spec_should_draw(),
            final(self).spec_button_hints().spec_should_draw(),
            final(self).spec_button_hints().spec_at() == old(self).spec_button_hints().spec_at(),
            final(self).spec_button_hints().spec_hints() == old(self).spec_button_hints().spec_hints(),
            final(self).spec_button_hints().spec_align() == old(self).spec_button_hints().spec_align(),
            final(self).spec_button_hints().spec_spacing() == old(self).spec_button_hints().spec_spacing(),
    {
        self.list.set_should_draw();
        self.button_hints.set_should_draw();
        assert(self.list.spec_dirty()[0]);
    }

    pub fn bounding_box(&self) -> (r: Rect)
        ensures
            r == self.spec_rect(),
    {
        self.rect
    }

    /// The screen is placed at construction and cannot be moved.
    pub fn set_position(&mut self, _point: Point) -> (r: Result<(), ViewError>)
        ensures
            r == Err::<(), ViewError>(ViewError::Unsupported),
            *final(self) == *old(self),
    {
        Err(ViewError::Unsupported)
    }

    pub fn stylesheet(&self) -> (s: &Stylesheet)
        ensures
            *s == self.spec_stylesheet(),
    {
        &self.stylesheet
    }

    pub fn list(&self) -> (l: &SettingsList)
        ensures
            *l == self.spec_list(),
    {
        &self.list
    }

    pub fn button_hints(&self) -> (h: &ButtonHints)
        ensures
            *h == self.spec_button_hints(),
    {
        &self.button_hints
    }
}

/// A `ValueChanged` drained on the theme screen yields exactly one
/// `SaveStylesheet`, of the stylesheet with the field holding the new value,
/// unless it sets dark mode to what the background already is, which yields
/// none and leaves the stylesheet as it was.
pub proof fn lemma_drained_change_saves_once(s: Stylesheet, fonts: Seq<String>, i: usize, v: Value)
    requires
        spec_admissible(i as int, v, fonts.len()),
    ensures
        ({
            let d = spec_drain(s, fonts, seq![Command::ValueChanged(i, v)]);
            &&& d.2.len() == 0
            &&& if i == DARK_MODE_ROW && v == Value::Bool(spec_is_dark(s.background_color)) {
                d.0 == s && d.1.len() == 0
            } else {
                &&& d.1 == seq![Command::SaveStylesheet(d.0)]
                &&& spec_field_holds(d.0, fonts, i as int, v)
            }
        }),
{
    let q = seq![Command::ValueChanged(i, v)];
    let empty: (Stylesheet, Seq<Command>, Seq<Command>) = (s, Seq::empty(), Seq::empty());
    assert(spec_drain(s, fonts, q.drop_last()) == empty);
    assert(q.last() == Command::ValueChanged(i, v));
    crate::fields::lemma_change_lands(s, fonts, i as int, v);
    if i == DARK_MODE_ROW && v == Value::Bool(spec_is_dark(s.background_color)) {
        crate::fields::lemma_dark_mode_agreeing_is_noop(s, fonts);
    }
}

/// Draining a queue of changes to rows other than dark mode, each fitting the
/// row table, sends one `SaveStylesheet` per change, in queue order; each
/// carries the stylesheet as it stands right after its change, in which the
/// changed field holds the new value. Nothing is left in the queue.
pub proof fn lemma_drain_saves_each(s: Stylesheet, fonts: Seq<String>, q: Seq<Command>)
    requires
        spec_queue_fits(q, fonts.len()),
        forall|j: int|
            0 <= j < q.len() ==> (#[trigger] q[j] matches Command::ValueChanged(i, _) && i
                != DARK_MODE_ROW),
    ensures
        spec_drain(s, fonts, q).1.len() == q.len(),
        spec_drain(s, fonts, q).2.len() == 0,
        forall|j: int|
            0 <= j < q.len() ==> {
                let after = spec_drain(s, fonts, q.take(j + 1)).0;
                &&& #[trigger] spec_drain(s, fonts, q).1[j] == Command::SaveStylesheet(after)
                &&& match q[j] {
                    Command::ValueChanged(i, v) => spec_field_holds(after, fonts, i as int, v),
                    _ => false,
                }
            },
    decreases q.len(),
{
    if q.len() > 0 {
        let p = q.drop_last();
        assert forall|j: int| 0 <= j < p.len() implies match #[trigger] p[j] {
            Command::ValueChanged(i, v) => spec_admissible(i as int, v, fonts.len()),
            _ => true,
        } by {
            assert(p[j] == q[j]);
        }
        assert forall|j: int|
            0 <= j < p.len() implies (#[trigger] p[j] matches Command::ValueChanged(i, _) && i
                != DARK_MODE_ROW) by {
            assert(p[j] == q[j]);
        }
        lemma_drain_saves_each(s, fonts, p);
        let n = q.len() - 1;
        assert(q[n] matches Command::ValueChanged(_, _));
        if let Command::ValueChanged(i, v) = q[n] {
            lemma_change_lands(spec_drain(s, fonts, p).0, fonts, i as int, v);
        }
        assert forall|j: int| 0 <= j < q.len() implies {
            let after = spec_drain(s, fonts, q.take(j + 1)).0;
            &&& #[trigger] spec_drain(s, fonts, q).1[j] == Command::SaveStylesheet(after)
            &&& match q[j] {
                Command::ValueChanged(i, v) => spec_field_holds(after, fonts, i as int, v),
                _ => false,
            }
        } by {
            if j < n {
                assert(p.take(j + 1) == q.take(j + 1));
                assert(p[j] == q[j]);
            } else {
                assert(q.take(j + 1) == q);
            }
        }
    }
}

/// Two dispatches on the theme screen, the first draining a dark mode change
/// that disagrees with the background and the second draining the opposite
/// change: the first inverts foreground and background, the second restores
/// the stylesheet exactly, and each sends one save.
pub proof fn lemma_drained_flip_back(s: Stylesheet, fonts: Seq<String>, v: bool)
    requires
        v != spec_is_dark(s.background_color),
    ensures
        ({
            let d1 = spec_drain(s, fonts, seq![Command::ValueChanged(DARK_MODE_ROW, Value::Bool(v))]);
            let d2 = spec_drain(
                d1.0,
                fonts,
                seq![Command::ValueChanged(DARK_MODE_ROW, Value::Bool(!v))],
            );
            &&& d1.0 == crate::fields::spec_invert_scheme(s)
            &&& d1.1 == seq![Command::SaveStylesheet(d1.0)]
            &&& d2.0 == s
            &&& d2.1 == seq![Command::SaveStylesheet(s)]
        }),
{
    crate::fields::lemma_dark_mode_round_trip(s, fonts, v);
    lemma_drained_change_saves_once(s, fonts, DARK_MODE_ROW, Value::Bool(v));
    let s1 = crate::fields::spec_invert_scheme(s);
    lemma_drained_change_saves_once(s1, fonts, DARK_MODE_ROW, Value::Bool(!v));
    let q1 = seq![Command::ValueChanged(DARK_MODE_ROW, Value::Bool(v))];
    let q2 = seq![Command::ValueChanged(DARK_MODE_ROW, Value::Bool(!v))];
    let e1: (Stylesheet, Seq<Command>, Seq<Command>) = (s, Seq::empty(), Seq::empty());
    let e2: (Stylesheet, Seq<Command>, Seq<Command>) = (s1, Seq::empty(), Seq::empty());
    assert(spec_drain(s, fonts, q1.drop_last()) == e1);
    assert(spec_drain(s1, fonts, q2.drop_last()) == e2);
}

/// The color that row `i` edits, for a color row.
pub open spec fn spec_color_of_row(s: Stylesheet, i: int) -> Color {
    spec_color_of(s, spec_field_of_row(i).unwrap()).unwrap()
}


} // verus!
