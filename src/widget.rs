use vstd::prelude::*;

use crate::color::Color;
use crate::draw::DrawOp;
use crate::geom::{spec_acting_key, Key, KeyEvent, Point};
use crate::value::Value;

verus! {

/// What a widget made of a key event.
#[derive(Clone, Copy, Debug, PartialEq, Eq, Structural)]
pub enum Response {
    /// Not handled: the owner may apply its own bindings.
    Ignored,
    /// Handled, with no new value.
    Consumed,
    /// Handled, and the widget now holds this value.
    Changed(Value),
}

/// An edit of a color in progress: the channel under the cursor (0 red,
/// 1 green, 2 blue) and the color as edited so far.
#[derive(Clone, Copy, Debug, PartialEq, Eq, Structural)]
pub struct ColorEdit {
    pub channel: u8,
    pub draft: Color,
}

/// An editable control of a settings row.
#[derive(Clone, Debug, PartialEq, Eq)]
pub enum Widget {
    /// On/off. Left, Right and A flip it.
    Toggle { on: bool },
    /// One of `options`. Left and Right cycle through them.
    Select { index: usize, options: Vec<String> },
    /// A number that Left and Right step by one, down to `min` and up to
    /// `max`. It may start outside that range; a step then moves it towards
    /// the range.
    Number { value: i32, min: i32, max: i32 },
    /// A color. A starts an edit; during the edit Left and Right pick the
    /// channel, Up and Down change it, A commits and B cancels.
    ColorPicker { color: Color, edit: Option<ColorEdit> },
}

pub open spec fn spec_channel(c: Color, ch: u8) -> u8 {
    if ch == 0 {
        c.r
    } else if ch == 1 {
        c.g
    } else {
        c.b
    }
}

pub open spec fn spec_with_channel(c: Color, ch: u8, v: u8) -> Color {
    if ch == 0 {
        Color { r: v, ..c }
    } else if ch == 1 {
        Color { g: v, ..c }
    } else {
        Color { b: v, ..c }
    }
}

/// The channel `ch` of `c` moved by one step up or down, wrapping round.
pub open spec fn spec_nudge(c: Color, ch: u8, up: bool) -> Color {
    let v = spec_channel(c, ch) as int;
    spec_with_channel(c, ch, (if up { (v + 1) % 256 } else { (v + 255) % 256 }) as u8)
}

impl Widget {
    pub open spec fn wf(&self) -> bool {
        match *self {
            Widget::Toggle { .. } => true,
            Widget::Select { index, options } => {
                &&& options.len() <= i32::MAX
                &&& (options.len() == 0 ==> index == 0)
                &&& (options.len() > 0 ==> index < options.len())
            },
            Widget::Number { min, max, .. } => min <= max,
            Widget::ColorPicker { edit, .. } => edit matches Some(e) ==> e.channel < 3,
        }
    }

    /// The value that the widget holds (not an edit in progress).
    pub open spec fn spec_value(&self) -> Value {
        match *self {
            Widget::Toggle { on } => Value::Bool(on),
            Widget::Select { index, .. } => Value::Int(index as i32),
            Widget::Number { value, .. } => Value::Int(value),
            Widget::ColorPicker { color, .. } => Value::Color(color),
        }
    }

    pub open spec fn spec_is_editing(&self) -> bool {
        self matches Widget::ColorPicker { edit: Some(_), .. }
    }

    /// Two widgets of the same kind.
    pub open spec fn same_kind(&self, other: Widget) -> bool {
        match (*self, other) {
            (Widget::Toggle { .. }, Widget::Toggle { .. }) => true,
            (Widget::Select { options: a, .. }, Widget::Select { options: b, .. }) => a@ == b@,
            (Widget::Number { min: a, max: b, .. }, Widget::Number { min: c, max: d, .. }) => a
                == c && b == d,
            (Widget::ColorPicker { .. }, Widget::ColorPicker { .. }) => true,
            _ => false,
        }
    }

    /// The widget after key `k`, and its response.
    pub open spec fn spec_step(&self, k: Key) -> (Widget, Response) {
        match *self {
            Widget::Toggle { on } => {
                if k == Key::A || k == Key::Left || k == Key::Right {
                    (Widget::Toggle { on: !on }, Response::Changed(Value::Bool(!on)))
                } else {
                    (*self, Response::Ignored)
                }
            },
            Widget::Select { index, options } => {
                let n = options.len();
                if n > 0 && k == Key::Left {
                    let i = if index == 0 { (n - 1) as usize } else { (index - 1) as usize };
                    (Widget::Select { index: i, options }, Response::Changed(Value::Int(i as i32)))
                } else if n > 0 && k == Key::Right {
                    let i = if index + 1 == n { 0usize } else { (index + 1) as usize };
                    (Widget::Select { index: i, options }, Response::Changed(Value::Int(i as i32)))
                } else {
                    (*self, Response::Ignored)
                }
            },
            Widget::Number { value, min, max } => {
                if k == Key::Left && value > min {
                    let v = (value - 1) as i32;
                    (Widget::Number { value: v, min, max }, Response::Changed(Value::Int(v)))
                } else if k == Key::Right && value < max {
                    let v = (value + 1) as i32;
                    (Widget::Number { value: v, min, max }, Response::Changed(Value::Int(v)))
                } else if k == Key::Left || k == Key::Right {
                    (*self, Response::Consumed)
                } else {
                    (*self, Response::Ignored)
                }
            },
            Widget::ColorPicker { color, edit: None } => {
                if k == Key::A {
                    (
                        Widget::ColorPicker {
                            color,
                            edit: Some(ColorEdit { channel: 0, draft: color }),
                        },
                        Response::Consumed,
                    )
                } else {
                    (*self, Response::Ignored)
                }
            },
            Widget::ColorPicker { color, edit: Some(e) } => {
                if k == Key::A {
                    (
                        Widget::ColorPicker { color: e.draft, edit: None },
                        Response::Changed(Value::Color(e.draft)),
                    )
                } else if k == Key::B {
                    (Widget::ColorPicker { color, edit: None }, Response::Consumed)
                } else if k == Key::Left || k == Key::Right {
                    let ch = if k == Key::Right {
                        ((e.channel + 1) % 3) as u8
                    } else {
                        ((e.channel + 2) % 3) as u8
                    };
                    (
                        Widget::ColorPicker { color, edit: Some(ColorEdit { channel: ch, ..e }) },
                        Response::Consumed,
                    )
                } else if k == Key::Up || k == Key::Down {
                    let d = spec_nudge(e.draft, e.channel, k == Key::Up);
                    (
                        Widget::ColorPicker { color, edit: Some(ColorEdit { draft: d, ..e }) },
                        Response::Consumed,
                    )
                } else {
                    (*self, Response::Consumed)
                }
            },
        }
    }

    /// The primitive that paints the widget at `at`.
    pub open spec fn spec_face(&self, at: Point) -> DrawOp {
        match *self {
            Widget::Toggle { on } => DrawOp::Toggle { at, on },
            Widget::Select { index, options } => DrawOp::Choice {
                at,
                option: if index < options.len() {
                    Some(options[index as int])
                } else {
                    None
                },
            },
            Widget::Number { value, .. } => DrawOp::Number { at, value },
            Widget::ColorPicker { color, edit: None } => DrawOp::Swatch {
                at,
                color,
                editing: None,
            },
            Widget::ColorPicker { edit: Some(e), .. } => DrawOp::Swatch {
                at,
                color: e.draft,
                editing: Some(e.channel),
            },
        }
    }
}

/// A key leaves a well-formed widget well-formed and of its kind, and a new
/// value that it reports is the value that the widget then holds. A key
/// that it ignores leaves it as it was.
pub proof fn lemma_step_keeps_kind(w: Widget, k: Key)
    requires
        w.wf(),
    ensures
        w.spec_step(k).0.wf(),
        w.spec_step(k).0.same_kind(w),
        w.spec_step(k).1 matches Response::Changed(v) ==> v == w.spec_step(k).0.spec_value(),
        w.spec_step(k).1 is Ignored ==> w.spec_step(k).0 == w,
{
}

fn nudge(c: Color, ch: u8, up: bool) -> (r: Color)
    requires
        ch < 3,
    ensures
        r == spec_nudge(c, ch, up),
{
    let v: u8 = if ch == 0 {
        c.r
    } else if ch == 1 {
        c.g
    } else {
        c.b
    };
    let w: u8 = if up {
        if v == 255 {
            0
        } else {
            v + 1
        }
    } else {
        if v == 0 {
            255
        } else {
            v - 1
        }
    };
    if ch == 0 {
        Color { r: w, ..c }
    } else if ch == 1 {
        Color { g: w, ..c }
    } else {
        Color { b: w, ..c }
    }
}

impl Widget {
    pub fn toggle(on: bool) -> (w: Widget)
        ensures
            w == (Widget::Toggle { on }),
    {
        Widget::Toggle { on }
    }

    /// A selection among `options`, on `index` where that is one of them and
    /// on the first otherwise.
    pub fn select(index: usize, options: Vec<String>) -> (w: Widget)
        requires
            options.len() <= i32::MAX,
        ensures
            w == (Widget::Select {
                index: if index < options.len() { index } else { 0 },
                options,
            }),
            w.wf(),
    {
        let i = if index < options.len() {
            index
        } else {
            0
        };
        Widget::Select { index: i, options }
    }

    /// A number stepped within `[min, max]`, starting at `value`.
    pub fn number(value: i32, min: i32, max: i32) -> (w: Widget)
        requires
            min <= max,
        ensures
            w == (Widget::Number { value, min, max }),
            w.wf(),
    {
        Widget::Number { value, min, max }
    }

    pub fn color_picker(color: Color) -> (w: Widget)
        ensures
            w == (Widget::ColorPicker { color, edit: None }),
            w.wf(),
    {
        Widget::ColorPicker { color, edit: None }
    }

    pub fn value(&self) -> (v: Value)
        requires
            self.wf(),
        ensures
            v == self.spec_value(),
    {
        match self {
            Widget::Toggle { on } => Value::Bool(*on),
            Widget::Select { index, .. } => Value::Int(*index as i32),
            Widget::Number { value, .. } => Value::Int(*value),
            Widget::ColorPicker { color, .. } => Value::Color(*color),
        }
    }

    /// Whether the widget holds an edit in progress, and so takes every key.
    pub fn is_editing(&self) -> (r: bool)
        ensures
            r == self.spec_is_editing(),
    {
        match self {
            Widget::ColorPicker { edit: Some(_), .. } => true,
            _ => false,
        }
    }

    pub fn handle_key_event(&mut self, event: KeyEvent) -> (r: Response)
        requires
            old(self).wf(),
        ensures
            final(self).wf(),
            final(self).same_kind(*old(self)),
            match spec_acting_key(event) {
                Some(k) => (*final(self), r) == old(self).spec_step(k),
                None => *final(self) == *old(self) && r == Response::Ignored,
            },
            r matches Response::Changed(v) ==> v == final(self).spec_value(),
    {
        let k = match event.acting_key() {
            Some(k) => k,
            None => return Response::Ignored,
        };
        match self {
            Widget::Toggle { on } => {
                if k == Key::A || k == Key::Left || k == Key::Right {
                    *on = !*on;
                    Response::Changed(Value::Bool(*on))
                } else {
                    Response::Ignored
                }
            },
            Widget::Select { index, options } => {
                let n = options.len();
                if n > 0 && k == Key::Left {
                    *index = if *index == 0 {
                        n - 1
                    } else {
                        *index - 1
                    };
                    Response::Changed(Value::Int(*index as i32))
                } else if n > 0 && k == Key::Right {
                    *index = if *index + 1 == n {
                        0
                    } else {
                        *index + 1
                    };
                    Response::Changed(Value::Int(*index as i32))
                } else {
                    Response::Ignored
                }
            },
            Widget::Number { value, min, max } => {
                if k == Key::Left && *value > *min {
                    *value = *value - 1;
                    Response::Changed(Value::Int(*value))
                } else if k == Key::Right && *value < *max {
                    *value = *value + 1;
                    Response::Changed(Value::Int(*value))
                } else if k == Key::Left || k == Key::Right {
                    Response::Consumed
                } else {
                    Response::Ignored
                }
            },
            Widget::ColorPicker { color, edit } => {
                match *edit {
                    None => {
                        if k == Key::A {
                            *edit = Some(ColorEdit { channel: 0, draft: *color });
                            Response::Consumed
                        } else {
                            Response::Ignored
                        }
                    },
                    Some(e) => {
                        if k == Key::A {
                            *color = e.draft;
                            *edit = None;
                            Response::Changed(Value::Color(e.draft))
                        } else if k == Key::B {
                            *edit = None;
                            Response::Consumed
                        } else if k == Key::Left || k == Key::Right {
                            let ch = if k == Key::Right {
                                (e.channel + 1) % 3
                            } else {
                                (e.channel + 2) % 3
                            };
                            *edit = Some(ColorEdit { channel: ch, ..e });
                            Response::Consumed
                        } else if k == Key::Up || k == Key::Down {
                            let d = nudge(e.draft, e.channel, k == Key::Up);
                            *edit = Some(ColorEdit { draft: d, ..e });
                            Response::Consumed
                        } else {
                            Response::Consumed
                        }
                    },
                }
            },
        }
    }

    /// Appends the primitive that paints the widget at `at`.
    pub fn draw(&self, at: Point, ops: &mut Vec<DrawOp>)
        requires
            self.wf(),
        ensures
            final(ops)@ == old(ops)@.push(self.spec_face(at)),
    {
        let op = match self {
            Widget::Toggle { on } => DrawOp::Toggle { at, on: *on },
            Widget::Select { index, options } => {
                let text = if *index < options.len() {
                    Some(options[*index].clone())
                } else {
                    None
                };
                DrawOp::Choice { at, option: text }
            },
            Widget::Number { value, .. } => DrawOp::Number { at, value: *value },
            Widget::ColorPicker { color, edit } => match edit {
                None => DrawOp::Swatch { at, color: *color, editing: None },
                Some(e) => DrawOp::Swatch { at, color: e.draft, editing: Some(e.channel) },
            },
        };
        ops.push(op);
    }
}

} // verus!
