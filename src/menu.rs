use vstd::prelude::*;

use crate::draw::DrawOp;
use crate::geom::{Alignment, Key, KeyEvent, Point, Rect};
use crate::theme::{BUTTON_DIAMETER, SELECTION_HEIGHT};

verus! {

/// Vertical gap between two entries of the menu.
pub const SELECTION_MARGIN: u32 = 8;

/// Width of the text of an entry.
pub const ENTRY_WIDTH: u32 = 300;

/// Gap between the two button hints.
pub const HINT_SPACING: u32 = 18;

/// The number of entries that the menu area has room for.
pub const LISTING_SIZE: u32 = 10;

/// Height of the area that holds the entries.
pub const MENU_AREA_HEIGHT: u32 = LISTING_SIZE * (SELECTION_HEIGHT + SELECTION_MARGIN);

/// The top of the line of entry `k`.
pub open spec fn spec_entry_top(k: int) -> i32 {
    (58 + k * (SELECTION_HEIGHT + SELECTION_MARGIN)) as i32
}

/// The entries of the in-game menu, in their circular order.
#[derive(Clone, Copy, Debug, PartialEq, Eq, Structural)]
pub enum MenuEntry {
    Continue,
    Save,
    Load,
    Reset,
    Advanced,
    Quit,
}

/// A request to the emulation core.
#[derive(Clone, Copy, Debug, PartialEq, Eq, Structural)]
pub enum CoreRequest {
    SaveState,
    LoadState,
    Reset,
    MenuToggle,
    Quit,
}

/// What the menu made of a key event.
#[derive(Clone, Copy, Debug, PartialEq, Eq, Structural)]
pub enum MenuOutcome {
    /// Not a key of the menu.
    Ignored,
    /// The selection moved (possibly onto itself).
    Moved,
    /// The entry is activated: the caller carries out its action and ends the
    /// menu.
    Activate(MenuEntry),
}

/// The in-game menu: a selection among the entries.
#[derive(Clone, Debug)]
pub struct Menu {
    selected: MenuEntry,
}

impl MenuEntry {
    /// The position of the entry in the cycle.
    pub open spec fn spec_index(self) -> int {
        match self {
            MenuEntry::Continue => 0,
            MenuEntry::Save => 1,
            MenuEntry::Load => 2,
            MenuEntry::Reset => 3,
            MenuEntry::Advanced => 4,
            MenuEntry::Quit => 5,
        }
    }

    pub open spec fn spec_at(i: int) -> MenuEntry {
        if i == 0 {
            MenuEntry::Continue
        } else if i == 1 {
            MenuEntry::Save
        } else if i == 2 {
            MenuEntry::Load
        } else if i == 3 {
            MenuEntry::Reset
        } else if i == 4 {
            MenuEntry::Advanced
        } else {
            MenuEntry::Quit
        }
    }

    pub open spec fn spec_next(self) -> MenuEntry {
        MenuEntry::spec_at((self.spec_index() + 1) % 6)
    }

    pub open spec fn spec_prev(self) -> MenuEntry {
        MenuEntry::spec_at((self.spec_index() + 5) % 6)
    }

    /// The text of the entry.
    pub open spec fn spec_label(self) -> Seq<char> {
        match self {
            MenuEntry::Continue => "Continue"@,
            MenuEntry::Save => "Save"@,
            MenuEntry::Load => "Load"@,
            MenuEntry::Reset => "Reset"@,
            MenuEntry::Advanced => "Advanced"@,
            MenuEntry::Quit => "Quit"@,
        }
    }

    /// The request that activating the entry sends to the core.
    pub open spec fn spec_request(self) -> Option<CoreRequest> {
        match self {
            MenuEntry::Continue => None,
            MenuEntry::Save => Some(CoreRequest::SaveState),
            MenuEntry::Load => Some(CoreRequest::LoadState),
            MenuEntry::Reset => Some(CoreRequest::Reset),
            MenuEntry::Advanced => Some(CoreRequest::MenuToggle),
            MenuEntry::Quit => Some(CoreRequest::Quit),
        }
    }

    /// The entry after this one, from Quit back to Continue.
    pub fn next(&self) -> (e: MenuEntry)
        ensures
            e == self.spec_next(),
    {
        match self {
            MenuEntry::Continue => MenuEntry::Save,
            MenuEntry::Save => MenuEntry::Load,
            MenuEntry::Load => MenuEntry::Reset,
            MenuEntry::Reset => MenuEntry::Advanced,
            MenuEntry::Advanced => MenuEntry::Quit,
            MenuEntry::Quit => MenuEntry::Continue,
        }
    }

    /// The entry before this one, from Continue back to Quit.
    pub fn prev(&self) -> (e: MenuEntry)
        ensures
            e == self.spec_prev(),
    {
        match self {
            MenuEntry::Continue => MenuEntry::Quit,
            MenuEntry::Save => MenuEntry::Continue,
            MenuEntry::Load => MenuEntry::Save,
            MenuEntry::Reset => MenuEntry::Load,
            MenuEntry::Advanced => MenuEntry::Reset,
            MenuEntry::Quit => MenuEntry::Advanced,
        }
    }

    /// Every entry, in order.
    pub fn all() -> (v: Vec<MenuEntry>)
        ensures
            v@.len() == 6,
            forall|i: int| 0 <= i < 6 ==> #[trigger] v@[i] == MenuEntry::spec_at(i),
    {
        vec![
            MenuEntry::Continue,
            MenuEntry::Save,
            MenuEntry::Load,
            MenuEntry::Reset,
            MenuEntry::Advanced,
            MenuEntry::Quit,
        ]
    }

    /// The request that activating the entry sends to the core; Continue
    /// sends none.
    pub fn request(&self) -> (r: Option<CoreRequest>)
        ensures
            r == self.spec_request(),
    {
        match self {
            MenuEntry::Continue => None,
            MenuEntry::Save => Some(CoreRequest::SaveState),
            MenuEntry::Load => Some(CoreRequest::LoadState),
            MenuEntry::Reset => Some(CoreRequest::Reset),
            MenuEntry::Advanced => Some(CoreRequest::MenuToggle),
            MenuEntry::Quit => Some(CoreRequest::Quit),
        }
    }

    /// Whether activating the entry ends the game, so that the record of the
    /// running game is to be removed first.
    pub fn ends_game(&self) -> (r: bool)
        ensures
            r == (*self == MenuEntry::Quit),
    {
        match self {
            MenuEntry::Quit => true,
            _ => false,
        }
    }

    /// The text of the entry.
    pub fn label(&self) -> (r: &'static str)
        ensures
            r@ == self.spec_label(),
    {
        match self {
            MenuEntry::Continue => "Continue",
            MenuEntry::Save => "Save",
            MenuEntry::Load => "Load",
            MenuEntry::Reset => "Reset",
            MenuEntry::Advanced => "Advanced",
            MenuEntry::Quit => "Quit",
        }
    }
}

/// The selection after a key event, and the outcome. Autorepeat is ignored,
/// so that holding a button triggers nothing by accident.
pub open spec fn spec_menu_step(sel: MenuEntry, e: KeyEvent) -> (MenuEntry, MenuOutcome) {
    match e {
        KeyEvent::Pressed(Key::Up) => (sel.spec_prev(), MenuOutcome::Moved),
        KeyEvent::Pressed(Key::Down) => (sel.spec_next(), MenuOutcome::Moved),
        KeyEvent::Pressed(Key::Left) => (MenuEntry::Continue, MenuOutcome::Moved),
        KeyEvent::Pressed(Key::Right) => (MenuEntry::Quit, MenuOutcome::Moved),
        KeyEvent::Pressed(Key::A) => (sel, MenuOutcome::Activate(sel)),
        KeyEvent::Pressed(Key::B) => (
            MenuEntry::Continue,
            MenuOutcome::Activate(MenuEntry::Continue),
        ),
        _ => (sel, MenuOutcome::Ignored),
    }
}

/// Up pressed `n` times from `e`.
pub open spec fn spec_prev_n(e: MenuEntry, n: nat) -> MenuEntry
    decreases n,
{
    if n == 0 {
        e
    } else {
        spec_prev_n(e, (n - 1) as nat).spec_prev()
    }
}

/// Down pressed `n` times from `e`.
pub open spec fn spec_next_n(e: MenuEntry, n: nat) -> MenuEntry
    decreases n,
{
    if n == 0 {
        e
    } else {
        spec_next_n(e, (n - 1) as nat).spec_next()
    }
}

/// Six presses of Up, or of Down, go once round the cycle and come back.
#[verifier::rlimit(60)]
pub proof fn lemma_full_cycle(e: MenuEntry)
    ensures
        spec_prev_n(e, 6) == e,
        spec_next_n(e, 6) == e,
        forall|n: nat| 0 < n < 6 ==> spec_prev_n(e, n) != e,
{
    assert(spec_prev_n(e, 0) == e);
    assert(spec_prev_n(e, 1) == spec_prev_n(e, 0).spec_prev());
    assert(spec_prev_n(e, 2) == spec_prev_n(e, 1).spec_prev());
    assert(spec_prev_n(e, 3) == spec_prev_n(e, 2).spec_prev());
    assert(spec_prev_n(e, 4) == spec_prev_n(e, 3).spec_prev());
    assert(spec_prev_n(e, 5) == spec_prev_n(e, 4).spec_prev());
    assert(spec_prev_n(e, 6) == spec_prev_n(e, 5).spec_prev());
    assert(spec_next_n(e, 0) == e);
    assert(spec_next_n(e, 1) == spec_next_n(e, 0).spec_next());
    assert(spec_next_n(e, 2) == spec_next_n(e, 1).spec_next());
    assert(spec_next_n(e, 3) == spec_next_n(e, 2).spec_next());
    assert(spec_next_n(e, 4) == spec_next_n(e, 3).spec_next());
    assert(spec_next_n(e, 5) == spec_next_n(e, 4).spec_next());
    assert(spec_next_n(e, 6) == spec_next_n(e, 5).spec_next());
    assert forall|n: nat| 0 < n < 6 implies spec_prev_n(e, n) != e by {
        match e {
            MenuEntry::Continue => {},
            MenuEntry::Save => {},
            MenuEntry::Load => {},
            MenuEntry::Reset => {},
            MenuEntry::Advanced => {},
            MenuEntry::Quit => {},
        }
    }
}

/// Left, then Right, from any selection: Continue, then Quit.
pub proof fn lemma_left_then_right(e: MenuEntry)
    ensures
        spec_menu_step(e, KeyEvent::Pressed(Key::Left)).0 == MenuEntry::Continue,
        spec_menu_step(
            spec_menu_step(e, KeyEvent::Pressed(Key::Left)).0,
            KeyEvent::Pressed(Key::Right),
        ).0 == MenuEntry::Quit,
{
}

impl Menu {
    pub closed spec fn spec_selected(&self) -> MenuEntry {
        self.selected
    }

    /// A menu on Continue.
    pub fn new() -> (m: Menu)
        ensures
            m.spec_selected() == MenuEntry::Continue,
    {
        Menu { selected: MenuEntry::Continue }
    }

    pub fn selected(&self) -> (e: MenuEntry)
        ensures
            e == self.spec_selected(),
    {
        self.selected
    }

    /// Nothing changes between frames.
    pub fn update(&mut self)
        ensures
            final(self).spec_selected() == old(self).spec_selected(),
    {
    }

    /// Up and Down move round the cycle, Left jumps to Continue, Right to
    /// Quit, A activates the selection and B activates Continue.
    pub fn handle_key_event(&mut self, event: KeyEvent) -> (r: MenuOutcome)
        ensures
            (final(self).spec_selected(), r) == spec_menu_step(old(self).spec_selected(), event),
    {
        match event {
            KeyEvent::Pressed(Key::Up) => {
                self.selected = self.selected.prev();
                MenuOutcome::Moved
            },
            KeyEvent::Pressed(Key::Down) => {
                self.selected = self.selected.next();
                MenuOutcome::Moved
            },
            KeyEvent::Pressed(Key::Left) => {
                self.selected = MenuEntry::Continue;
                MenuOutcome::Moved
            },
            KeyEvent::Pressed(Key::Right) => {
                self.selected = MenuEntry::Quit;
                MenuOutcome::Moved
            },
            KeyEvent::Pressed(Key::A) => MenuOutcome::Activate(self.selected),
            KeyEvent::Pressed(Key::B) => {
                self.selected = MenuEntry::Continue;
                MenuOutcome::Activate(MenuEntry::Continue)
            },
            _ => MenuOutcome::Ignored,
        }
    }

    /// Paints the menu on a display of `width` by `height` pixels: the entry
    /// area is cleared, each entry drawn on a line of its own with the
    /// selection highlighted, and the button hints placed bottom right.
    pub fn draw(&self, width: u32, height: u32, ops: &mut Vec<DrawOp>)
        ensures
            final(ops)@.len() == old(ops)@.len() + 9,
            final(ops)@.subrange(0, old(ops)@.len() as int) == old(ops)@,
            final(ops)@[old(ops)@.len() as int] == DrawOp::Clear(
                Rect {
                    x: 12,
                    y: 54,
                    w: 336,
                    h: MENU_AREA_HEIGHT,
                },
            ),
            forall|k: int|
                0 <= k < 6 ==> (#[trigger] final(ops)@[old(ops)@.len() + 1 + k] matches DrawOp::Label {
                    at,
                    text,
                    selected,
                    align,
                    width,
                } && width == ENTRY_WIDTH && at == (Point { x: 24, y: spec_entry_top(k) }) && text@ == MenuEntry::spec_at(
                    k,
                ).spec_label()
                    && selected == (MenuEntry::spec_at(k) == self.spec_selected()) && align
                    == Alignment::Left),
            final(ops)@[old(ops)@.len() + 7int] matches DrawOp::Hint { at, slot, align, spacing, key, text }
                && text@ == "Select"@ && align == Alignment::Right && spacing == HINT_SPACING && at == (
            Point {
                x: spec_anchor(width as int - 12),
                y: spec_anchor(height as int - BUTTON_DIAMETER - 8),
            }) && slot == 0 && key == Key::A,
            final(ops)@[old(ops)@.len() + 8int] matches DrawOp::Hint { at, slot, align, spacing, key, text }
                && text@ == "Back"@ && align == Alignment::Right && spacing == HINT_SPACING && at == (
            Point {
                x: spec_anchor(width as int - 12),
                y: spec_anchor(height as int - BUTTON_DIAMETER - 8),
            }) && slot == 1 && key == Key::B,
    {
        let step: i32 = (SELECTION_HEIGHT + SELECTION_MARGIN) as i32;
        ops.push(
            DrawOp::Clear(
                Rect {
                    x: 12,
                    y: 54,
                    w: 336,
                    h: MENU_AREA_HEIGHT,
                },
            ),
        );
        let entries = MenuEntry::all();
        let base = ops.len();
        let mut k: usize = 0;
        let mut y: i32 = 58;
        while k < 6
            invariant
                entries@.len() == 6,
                forall|i: int| 0 <= i < 6 ==> #[trigger] entries@[i] == MenuEntry::spec_at(i),
                k <= 6,
                base == old(ops)@.len() + 1,
                ops@.len() == base + k,
                y == 58 + k * step,
                step == 50,
                ops@.subrange(0, base as int) == old(ops)@.push(
                    DrawOp::Clear(
                        Rect {
                            x: 12,
                            y: 54,
                            w: 336,
                            h: MENU_AREA_HEIGHT,
                        },
                    ),
                ),
                forall|j: int|
                    0 <= j < k ==> (#[trigger] ops@[base + j] matches DrawOp::Label {
                        at,
                        text,
                        selected,
                        align,
                        width,
                    } && width == ENTRY_WIDTH && at == (Point { x: 24, y: spec_entry_top(j) }) && text@ == MenuEntry::spec_at(
                        j,
                    ).spec_label() && selected == (
                    MenuEntry::spec_at(j) == self.spec_selected()) && align == Alignment::Left),
            decreases 6 - k,
        {
            let entry = entries[k];
            ops.push(
                DrawOp::Label {
                    at: Point { x: 24, y },
                    text: String::from_str(entry.label()),
                    selected: entry == self.selected,
                    align: Alignment::Left,
                    width: ENTRY_WIDTH,
                },
            );
            k += 1;
            y = y + step;
        }
        let ghost listed = ops@;
        let at = Point {
            x: anchor(width as i64 - 12),
            y: anchor(height as i64 - BUTTON_DIAMETER as i64 - 8),
        };
        ops.push(
            DrawOp::Hint {
                at,
                slot: 0,
                align: Alignment::Right,
                spacing: HINT_SPACING,
                key: Key::A,
                text: String::from_str("Select"),
            },
        );
        ops.push(
            DrawOp::Hint {
                at,
                slot: 1,
                align: Alignment::Right,
                spacing: HINT_SPACING,
                key: Key::B,
                text: String::from_str("Back"),
            },
        );
        proof {
            let n = old(ops)@.len() as int;
            assert(ops@.subrange(0, base as int) == listed.subrange(0, base as int));
            assert(ops@.subrange(0, n) =~= ops@.subrange(0, base as int).subrange(0, n));
            assert(ops@[n] == ops@.subrange(0, base as int)[n]);
            assert forall|k: int| 0 <= k < 6 implies #[trigger] ops@[n + 1 + k] == listed[base + k] by {}
        }
    }
}

/// `v` held within the coordinate range.
pub open spec fn spec_anchor(v: int) -> i32 {
    if v > i32::MAX {
        i32::MAX
    } else if v < i32::MIN {
        i32::MIN
    } else {
        v as i32
    }
}

fn anchor(v: i64) -> (r: i32)
    ensures
        r == spec_anchor(v as int),
{
    if v > i32::MAX as i64 {
        i32::MAX
    } else if v < i32::MIN as i64 {
        i32::MIN
    } else {
        v as i32
    }
}

} // verus!
