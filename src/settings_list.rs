use vstd::prelude::*;

use crate::command::Command;
use crate::draw::DrawOp;
use crate::geom::{spec_acting_key, Alignment, Key, KeyEvent, Point, Rect};
use crate::widget::{Response, Widget};

verus! {

/// Why a settings list could not be built.
#[derive(Clone, Copy, Debug, PartialEq, Eq, Structural)]
pub enum SettingsListError {
    /// There are not as many labels as widgets.
    LengthMismatch,
    /// There are no rows: the cursor would have nothing to stand on.
    Empty,
}

/// A vertical list of labeled editable rows with a selection cursor.
///
/// Row `i` is the pair `(labels[i], widgets[i])`; its index is the one reported
/// in `Command::ValueChanged`. Each row has its own dirty flag.
pub struct SettingsList {
    rect: Rect,
    labels: Vec<String>,
    widgets: Vec<Widget>,
    selected: usize,
    row_height: u32,
    dirty: Vec<bool>,
}

/// The top edge of row `i`, held within the coordinate range.
pub open spec fn spec_row_top(rect: Rect, h: u32, i: int) -> i32 {
    if rect.y + i * h > i32::MAX {
        i32::MAX
    } else {
        (rect.y + i * h) as i32
    }
}

/// The right edge of `rect`, held within the coordinate range.
pub open spec fn spec_right_edge(rect: Rect) -> i32 {
    if rect.x + rect.w > i32::MAX {
        i32::MAX
    } else {
        (rect.x + rect.w) as i32
    }
}

/// The widget of a row after an event, and its response.
pub open spec fn spec_widget_outcome(w: Widget, e: KeyEvent) -> (Widget, Response) {
    match spec_acting_key(e) {
        Some(k) => w.spec_step(k),
        None => (w, Response::Ignored),
    }
}

/// The cursor after moving one row up (`up`) or down, without wrapping.
pub open spec fn spec_moved(sel: int, len: int, up: bool) -> int {
    if up {
        if sel > 0 {
            sel - 1
        } else {
            sel
        }
    } else {
        if sel + 1 < len {
            sel + 1
        } else {
            sel
        }
    }
}

/// The cursor after a run of Up (`true`) and Down (`false`) moves.
pub open spec fn spec_moves(sel: int, len: int, ups: Seq<bool>) -> int
    decreases ups.len(),
{
    if ups.len() == 0 {
        sel
    } else {
        spec_moved(spec_moves(sel, len, ups.drop_last()), len, ups.last())
    }
}

/// Any run of Up and Down moves keeps the cursor on a row of a non-empty list.
pub proof fn lemma_moves_stay_in_range(sel: int, len: int, ups: Seq<bool>)
    requires
        0 <= sel < len,
    ensures
        0 <= spec_moves(sel, len, ups) < len,
    decreases ups.len(),
{
    if ups.len() > 0 {
        lemma_moves_stay_in_range(sel, len, ups.drop_last());
    }
}

impl SettingsList {
    pub closed spec fn spec_rect(&self) -> Rect {
        self.rect
    }

    pub closed spec fn spec_labels(&self) -> Seq<String> {
        self.labels@
    }

    pub closed spec fn spec_widgets(&self) -> Seq<Widget> {
        self.widgets@
    }

    pub closed spec fn spec_selected(&self) -> int {
        self.selected as int
    }

    pub closed spec fn spec_row_height(&self) -> u32 {
        self.row_height
    }

    pub closed spec fn spec_dirty(&self) -> Seq<bool> {
        self.dirty@
    }

    pub open spec fn spec_len(&self) -> int {
        self.spec_widgets().len() as int
    }

    pub open spec fn wf(&self) -> bool {
        &&& self.spec_labels().len() == self.spec_len()
        &&& self.spec_dirty().len() == self.spec_len()
        &&& self.spec_len() > 0
        &&& 0 <= self.spec_selected() < self.spec_len()
        &&& forall|i: int| 0 <= i < self.spec_len() ==> (#[trigger] self.spec_widgets()[i]).wf()
    }

    pub open spec fn spec_should_draw(&self) -> bool {
        exists|i: int| 0 <= i < self.spec_dirty().len() && #[trigger] self.spec_dirty()[i]
    }

    /// Whether a key event moves the cursor rather than going to the
    /// selected widget: Up or Down while that widget holds no edit.
    pub open spec fn spec_is_navigation(&self, e: KeyEvent) -> bool {
        &&& !self.spec_widgets()[self.spec_selected()].spec_is_editing()
        &&& (spec_acting_key(e) == Some(Key::Up) || spec_acting_key(e) == Some(Key::Down))
    }

    /// Whether the list consumes a key event.
    pub open spec fn spec_consumes(&self, e: KeyEvent) -> bool {
        self.spec_is_navigation(e) || !(spec_widget_outcome(
            self.spec_widgets()[self.spec_selected()],
            e,
        ).1 is Ignored)
    }

    /// The cursor after a key event.
    pub open spec fn spec_cursor_after(&self, e: KeyEvent) -> int {
        if self.spec_is_navigation(e) {
            spec_moved(
                self.spec_selected(),
                self.spec_len(),
                spec_acting_key(e) == Some(Key::Up),
            )
        } else {
            self.spec_selected()
        }
    }

    /// The widgets after a key event.
    pub open spec fn spec_widgets_after(&self, e: KeyEvent) -> Seq<Widget> {
        if self.spec_is_navigation(e) {
            self.spec_widgets()
        } else {
            self.spec_widgets().update(
                self.spec_selected(),
                spec_widget_outcome(self.spec_widgets()[self.spec_selected()], e).0,
            )
        }
    }

    /// What the list reports on the bubble queue for a key event.
    pub open spec fn spec_reported(&self, e: KeyEvent) -> Seq<Command> {
        if self.spec_is_navigation(e) {
            Seq::empty()
        } else {
            match spec_widget_outcome(self.spec_widgets()[self.spec_selected()], e).1 {
                Response::Changed(v) => seq![Command::ValueChanged(self.spec_selected() as usize, v)],
                _ => Seq::empty(),
            }
        }
    }

    /// The primitives that paint row `i`.
    pub open spec fn spec_row_ops(&self, i: int) -> Seq<DrawOp> {
        let top = spec_row_top(self.spec_rect(), self.spec_row_height(), i);
        seq![
            DrawOp::Clear(
                Rect {
                    x: self.spec_rect().x,
                    y: top,
                    w: self.spec_rect().w,
                    h: self.spec_row_height(),
                },
            ),
            DrawOp::Label {
                at: Point { x: self.spec_rect().x, y: top },
                text: self.spec_labels()[i],
                selected: i == self.spec_selected(),
                align: Alignment::Left,
                width: self.spec_rect().w,
            },
            self.spec_widgets()[i].spec_face(
                Point { x: spec_right_edge(self.spec_rect()), y: top },
            ),
        ]
    }

    /// The primitives that repaint the dirty rows among the first `n`.
    pub open spec fn spec_frame(&self, n: int) -> Seq<DrawOp>
        decreases n,
    {
        if n <= 0 {
            Seq::empty()
        } else {
            self.spec_frame(n - 1) + if self.spec_dirty()[n - 1] {
                self.spec_row_ops(n - 1)
            } else {
                Seq::empty()
            }
        }
    }
}

fn row_top(rect: Rect, h: u32, i: usize) -> (y: i32)
    ensures
        y == spec_row_top(rect, h, i as int),
{
    let off: u64 = if h == 0 {
        0
    } else if i as u64 >= 0x1_0000_0000u64 {
        proof {
            assert((i as int) * (h as int) >= i as int) by (nonlinear_arith)
                requires
                    h >= 1,
                    i >= 0,
            ;
        }
        0x1_0000_0000u64
    } else {
        proof {
            assert((i as int) * (h as int) < 0x1_0000_0000_0000_0000) by (nonlinear_arith)
                requires
                    0 <= i < 0x1_0000_0000,
                    0 <= h < 0x1_0000_0000,
            ;
        }
        (i as u64) * (h as u64)
    };
    let off: u64 = if off > 0x1_0000_0000u64 {
        0x1_0000_0000u64
    } else {
        off
    };
    let y: i64 = rect.y as i64 + off as i64;
    if y > i32::MAX as i64 {
        i32::MAX
    } else {
        y as i32
    }
}

fn right_edge(rect: Rect) -> (x: i32)
    ensures
        x == spec_right_edge(rect),
{
    let x: i64 = rect.x as i64 + rect.w as i64;
    if x > i32::MAX as i64 {
        i32::MAX
    } else {
        x as i32
    }
}

impl SettingsList {
    /// Builds a list of `labels.len()` rows with the cursor on the first.
    /// Every row starts dirty.
    pub fn new(rect: Rect, labels: Vec<String>, widgets: Vec<Widget>, row_height: u32) -> (r:
        Result<SettingsList, SettingsListError>)
        requires
            forall|i: int| 0 <= i < widgets.len() ==> (#[trigger] widgets@[i]).wf(),
        ensures
            labels.len() != widgets.len() ==> r == Err::<SettingsList, _>(
                SettingsListError::LengthMismatch,
            ),
            labels.len() == widgets.len() && widgets.len() == 0 ==> r == Err::<SettingsList, _>(
                SettingsListError::Empty,
            ),
            labels.len() == widgets.len() && widgets.len() > 0 ==> (r matches Ok(l) && {
                &&& l.wf()
                &&& l.spec_rect() == rect
                &&& l.spec_labels() == labels@
                &&& l.spec_widgets() == widgets@
                &&& l.spec_selected() == 0
                &&& l.spec_row_height() == row_height
                &&& forall|i: int| 0 <= i < l.spec_len() ==> #[trigger] l.spec_dirty()[i]
            }),
    {
        if labels.len() != widgets.len() {
            return Err(SettingsListError::LengthMismatch);
        }
        if widgets.len() == 0 {
            return Err(SettingsListError::Empty);
        }
        let mut dirty: Vec<bool> = Vec::new();
        let n = widgets.len();
        while dirty.len() < n
            invariant
                dirty.len() <= n,
                forall|i: int| 0 <= i < dirty.len() ==> #[trigger] dirty@[i],
            decreases n - dirty.len(),
        {
            dirty.push(true);
        }
        Ok(SettingsList { rect, labels, widgets, selected: 0, row_height, dirty })
    }

    pub fn len(&self) -> (n: usize)
        ensures
            n == self.spec_len(),
    {
        self.widgets.len()
    }

    /// The index of the selected row.
    pub fn selected(&self) -> (i: usize)
        ensures
            i == self.spec_selected(),
    {
        self.selected
    }

    pub fn widget(&self, i: usize) -> (w: &Widget)
        requires
            i < self.spec_len(),
        ensures
            *w == self.spec_widgets()[i as int],
    {
        &self.widgets[i]
    }

    pub fn label(&self, i: usize) -> (s: &String)
        requires
            self.wf(),
            i < self.spec_len(),
        ensures
            *s == self.spec_labels()[i as int],
    {
        &self.labels[i]
    }

    pub fn bounding_box(&self) -> (r: Rect)
        ensures
            r == self.spec_rect(),
    {
        self.rect
    }

    /// Whether any row waits to be painted.
    pub fn should_draw(&self) -> (r: bool)
        ensures
            r == self.spec_should_draw(),
    {
        let mut i: usize = 0;
        while i < self.dirty.len()
            invariant
                i <= self.dirty.len(),
                forall|j: int| 0 <= j < i ==> !#[trigger] self.dirty@[j],
            decreases self.dirty.len() - i,
        {
            if self.dirty[i] {
                assert(self.spec_dirty()[i as int]);
                return true;
            }
            i += 1;
        }
        false
    }

    /// Marks every row to be painted by the next draw.
    pub fn set_should_draw(&mut self)
        requires
            old(self).wf(),
        ensures
            final(self).wf(),
            final(self).spec_rect() == old(self).spec_rect(),
            final(self).spec_labels() == old(self).spec_labels(),
            final(self).spec_widgets() == old(self).spec_widgets(),
            final(self).spec_selected() == old(self).spec_selected(),
            final(self).spec_row_height() == old(self).spec_row_height(),
            forall|i: int| 0 <= i < final(self).spec_len() ==> #[trigger] final(self).spec_dirty()[i],
    {
        let n = self.dirty.len();
        let mut i: usize = 0;
        while i < n
            invariant
                n == self.dirty.len(),
                n == self.widgets.len(),
                i <= n,
                self.rect == old(self).rect,
                self.labels == old(self).labels,
                self.widgets == old(self).widgets,
                self.selected == old(self).selected,
                self.row_height == old(self).row_height,
                forall|j: int| 0 <= j < i ==> #[trigger] self.dirty@[j],
            decreases n - i,
        {
            self.dirty.set(i, true);
            i += 1;
        }
    }

    /// Replaces the widget of row `index`, which is then painted anew.
    pub fn set_child(&mut self, index: usize, widget: Widget)
        requires
            old(self).wf(),
            index < old(self).spec_len(),
            widget.wf(),
        ensures
            final(self).wf(),
            final(self).spec_rect() == old(self).spec_rect(),
            final(self).spec_labels() == old(self).spec_labels(),
            final(self).spec_widgets() == old(self).spec_widgets().update(index as int, widget),
            final(self).spec_selected() == old(self).spec_selected(),
            final(self).spec_row_height() == old(self).spec_row_height(),
            final(self).spec_dirty() == old(self).spec_dirty().update(index as int, true),
    {
        self.widgets.set(index, widget);
        self.dirty.set(index, true);
        proof {
            assert forall|i: int| 0 <= i < self.spec_len() implies (
            #[trigger] self.spec_widgets()[i]).wf() by {
                if i != index {
                    assert(self.spec_widgets()[i] == old(self).spec_widgets()[i]);
                }
            }
        }
    }

    /// Routes a key event. Up and Down move the cursor, without wrapping,
    /// unless the selected widget holds an edit; every other event goes to
    /// the selected widget. A new value of that widget is reported as
    /// `ValueChanged(cursor, value)` at the back of `bubble`. Returns whether
    /// the event was consumed.
    pub fn handle_key_event(&mut self, event: KeyEvent, bubble: &mut std::collections::VecDeque<
        Command,
    >) -> (consumed: bool)
        requires
            old(self).wf(),
        ensures
            final(self).wf(),
            final(self).spec_rect() == old(self).spec_rect(),
            final(self).spec_labels() == old(self).spec_labels(),
            final(self).spec_row_height() == old(self).spec_row_height(),
            consumed == old(self).spec_consumes(event),
            final(self).spec_selected() == old(self).spec_cursor_after(event),
            final(self).spec_widgets() == old(self).spec_widgets_after(event),
            final(bubble)@ == old(bubble)@ + old(self).spec_reported(event),
            ({
                let sel = old(self).spec_selected();
                if old(self).spec_is_navigation(event) {
                    let to = spec_moved(
                        sel,
                        old(self).spec_len(),
                        spec_acting_key(event) == Some(Key::Up),
                    );
                    &&& consumed
                    &&& final(self).spec_selected() == to
                    &&& final(self).spec_widgets() == old(self).spec_widgets()
                    &&& final(self).spec_dirty() == old(self).spec_dirty().update(sel, true).update(
                        to,
                        true,
                    )
                    &&& final(bubble)@ == old(bubble)@
                } else {
                    let (w, resp) = spec_widget_outcome(old(self).spec_widgets()[sel], event);
                    &&& consumed == !(resp is Ignored)
                    &&& final(self).spec_selected() == sel
                    &&& final(self).spec_widgets() == old(self).spec_widgets().update(sel, w)
                    &&& final(self).spec_dirty() == if resp is Ignored {
                        old(self).spec_dirty()
                    } else {
                        old(self).spec_dirty().update(sel, true)
                    }
                    &&& final(bubble)@ == match resp {
                        Response::Changed(v) => old(bubble)@.push(
                            Command::ValueChanged(sel as usize, v),
                        ),
                        _ => old(bubble)@,
                    }
                }
            }),
    {
        let sel = self.selected;
        let key = event.acting_key();
        let editing = self.widgets[sel].is_editing();
        if !editing && (key == Some(Key::Up) || key == Some(Key::Down)) {
            let to = if key == Some(Key::Up) {
                if sel > 0 {
                    sel - 1
                } else {
                    sel
                }
            } else {
                if sel < self.widgets.len() - 1 {
                    sel + 1
                } else {
                    sel
                }
            };
            self.dirty.set(sel, true);
            self.dirty.set(to, true);
            self.selected = to;
            return true;
        }
        let resp = self.widgets[sel].handle_key_event(event);
        proof {
            assert forall|i: int| 0 <= i < self.spec_len() implies (
            #[trigger] self.spec_widgets()[i]).wf() by {
                if i != sel {
                    assert(self.spec_widgets()[i] == old(self).spec_widgets()[i]);
                }
            }
        }
        match resp {
            Response::Ignored => false,
            Response::Consumed => {
                self.dirty.set(sel, true);
                true
            },
            Response::Changed(v) => {
                self.dirty.set(sel, true);
                bubble.push_back(Command::ValueChanged(sel, v));
                true
            },
        }
    }

    /// Appends the primitives that repaint every dirty row, in row order, and
    /// clears the dirty flags. Returns whether anything was painted.
    pub fn draw(&mut self, ops: &mut Vec<DrawOp>) -> (drew: bool)
        requires
            old(self).wf(),
        ensures
            final(self).wf(),
            drew == old(self).spec_should_draw(),
            !final(self).spec_should_draw(),
            final(ops)@ == old(ops)@ + old(self).spec_frame(old(self).spec_len()),
            final(self).spec_rect() == old(self).spec_rect(),
            final(self).spec_labels() == old(self).spec_labels(),
            final(self).spec_widgets() == old(self).spec_widgets(),
            final(self).spec_selected() == old(self).spec_selected(),
            final(self).spec_row_height() == old(self).spec_row_height(),
    {
        let n = self.widgets.len();
        let right = right_edge(self.rect);
        let mut drew = false;
        let mut i: usize = 0;
        while i < n
            invariant
                n == self.widgets.len(),
                n == self.dirty.len(),
                n == self.labels.len(),
                i <= n,
                self.rect == old(self).rect,
                self.labels == old(self).labels,
                self.widgets == old(self).widgets,
                self.selected == old(self).selected,
                self.row_height == old(self).row_height,
                right == spec_right_edge(self.rect),
                forall|j: int| i <= j < n ==> self.dirty@[j] == old(self).dirty@[j],
                forall|j: int| 0 <= j < i ==> !#[trigger] self.dirty@[j],
                drew == exists|j: int| 0 <= j < i && #[trigger] old(self).dirty@[j],
                ops@ == old(ops)@ + old(self).spec_frame(i as int),
                forall|j: int| 0 <= j < n ==> (#[trigger] self.widgets@[j]).wf(),
            decreases n - i,
        {
            if self.dirty[i] {
                let top = row_top(self.rect, self.row_height, i);
                ops.push(DrawOp::Clear(Rect { x: self.rect.x, y: top, w: self.rect.w, h: self.row_height }));
                ops.push(
                    DrawOp::Label {
                        at: Point { x: self.rect.x, y: top },
                        text: self.labels[i].clone(),
                        selected: i == self.selected,
                        align: Alignment::Left,
                        width: self.rect.w,
                    },
                );
                self.widgets[i].draw(Point { x: right, y: top }, ops);
                self.dirty.set(i, false);
                drew = true;
                proof {
                    assert(ops@ == old(ops)@ + old(self).spec_frame(i + 1));
                }
            } else {
                assert(old(self).spec_frame(i + 1) == old(self).spec_frame(i as int));
            }
            i += 1;
        }
        drew
    }
}

} // verus!
