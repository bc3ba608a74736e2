use vstd::prelude::*;

use crate::draw::DrawOp;
use crate::geom::{Alignment, Key, Point};

verus! {

/// A button and what it does on the current screen.
#[derive(Clone, Debug, PartialEq, Eq)]
pub struct ButtonHint {
    pub key: Key,
    pub text: String,
}

/// A row of button hints anchored at a point: the first touches the anchor on
/// the side that `align` names, and the others follow `spacing` pixels apart.
pub struct ButtonHints {
    at: Point,
    align: Alignment,
    spacing: u32,
    hints: Vec<ButtonHint>,
    dirty: bool,
}

impl ButtonHints {
    pub closed spec fn spec_at(&self) -> Point {
        self.at
    }

    pub closed spec fn spec_align(&self) -> Alignment {
        self.align
    }

    pub closed spec fn spec_spacing(&self) -> u32 {
        self.spacing
    }

    pub closed spec fn spec_hints(&self) -> Seq<ButtonHint> {
        self.hints@
    }

    pub closed spec fn spec_should_draw(&self) -> bool {
        self.dirty
    }

    /// The primitives that paint the row.
    pub open spec fn spec_ops(&self) -> Seq<DrawOp> {
        Seq::new(
            self.spec_hints().len(),
            |i: int|
                DrawOp::Hint {
                    at: self.spec_at(),
                    slot: i as usize,
                    align: self.spec_align(),
                    spacing: self.spec_spacing(),
                    key: self.spec_hints()[i].key,
                    text: self.spec_hints()[i].text,
                },
        )
    }

    pub fn new(at: Point, hints: Vec<ButtonHint>, align: Alignment, spacing: u32) -> (r:
        ButtonHints)
        ensures
            r.spec_at() == at,
            r.spec_align() == align,
            r.spec_spacing() == spacing,
            r.spec_hints() == hints@,
            r.spec_should_draw(),
    {
        ButtonHints { at, align, spacing, hints, dirty: true }
    }

    pub fn should_draw(&self) -> (r: bool)
        ensures
            r == self.spec_should_draw(),
    {
        self.dirty
    }

    pub fn set_should_draw(&mut self)
        ensures
            final(self).spec_should_draw(),
            final(self).spec_at() == old(self).spec_at(),
            final(self).spec_hints() == old(self).spec_hints(),
            final(self).spec_align() == old(self).spec_align(),
            final(self).spec_spacing() == old(self).spec_spacing(),
    {
        self.dirty = true;
    }

    /// Appends the primitives of the row when it is dirty, and clears the flag.
    /// Returns whether anything was painted.
    pub fn draw(&mut self, ops: &mut Vec<DrawOp>) -> (drew: bool)
        ensures
            drew == old(self).spec_should_draw(),
            !final(self).spec_should_draw(),
            final(self).spec_at() == old(self).spec_at(),
            final(self).spec_hints() == old(self).spec_hints(),
            final(self).spec_align() == old(self).spec_align(),
            final(self).spec_spacing() == old(self).spec_spacing(),
            final(ops)@ == if drew {
                old(ops)@ + old(self).spec_ops()
            } else {
                old(ops)@
            },
    {
        if !self.dirty {
            return false;
        }
        let n = self.hints.len();
        let mut i: usize = 0;
        while i < n
            invariant
                n == self.hints.len(),
                i <= n,
                self.at == old(self).at,
                self.hints == old(self).hints,
                self.align == old(self).align,
                self.spacing == old(self).spacing,
                self.dirty == old(self).dirty,
                ops@ == old(ops)@ + old(self).spec_ops().take(i as int),
            decreases n - i,
        {
            ops.push(
                DrawOp::Hint {
                    at: self.at,
                    slot: i,
                    align: self.align,
                    spacing: self.spacing,
                    key: self.hints[i].key,
                    text: self.hints[i].text.clone(),
                },
            );
            assert(old(self).spec_ops().take(i + 1) == old(self).spec_ops().take(i as int).push(
                old(self).spec_ops()[i as int],
            ));
            i += 1;
        }
        assert(old(self).spec_ops().take(n as int) == old(self).spec_ops());
        self.dirty = false;
        true
    }
}

} // verus!
