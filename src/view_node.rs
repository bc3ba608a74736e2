use vstd::prelude::*;

use crate::button_hints::ButtonHints;
use crate::draw::DrawOp;
use crate::settings_list::SettingsList;
use crate::theme::Theme;

verus! {

/// The redraw protocol that every view follows. A view is dirty while it has
/// changes that no draw has painted yet; `set_should_draw` makes it dirty, and
/// only a draw makes it clean again.
pub trait ViewNode {
    /// The view's own invariant.
    spec fn view_wf(&self) -> bool;

    /// Whether the view, or anything inside it, waits to be painted.
    spec fn view_should_draw(&self) -> bool;

    fn should_draw(&self) -> (r: bool)
        requires
            self.view_wf(),
        ensures
            r == self.view_should_draw(),
    ;

    fn set_should_draw(&mut self)
        requires
            old(self).view_wf(),
        ensures
            final(self).view_wf(),
            final(self).view_should_draw(),
    ;

    /// Appends the primitives that paint what is dirty, and returns whether
    /// there were any.
    fn draw(&mut self, ops: &mut Vec<DrawOp>) -> (drew: bool)
        requires
            old(self).view_wf(),
        ensures
            final(self).view_wf(),
            drew == old(self).view_should_draw(),
            !final(self).view_should_draw(),
            old(ops)@.len() <= final(ops)@.len(),
            final(ops)@.subrange(0, old(ops)@.len() as int) == old(ops)@,
            !drew ==> final(ops)@ == old(ops)@,
    ;
}

/// A list with no dirty row among the first `n` paints nothing.
pub proof fn lemma_clean_frame_is_empty(l: SettingsList, n: int)
    requires
        0 <= n <= l.spec_dirty().len(),
        forall|i: int| 0 <= i < n ==> !#[trigger] l.spec_dirty()[i],
    ensures
        l.spec_frame(n) == Seq::<DrawOp>::empty(),
    decreases n,
{
    if n > 0 {
        lemma_clean_frame_is_empty(l, n - 1);
    }
}

impl ViewNode for SettingsList {
    open spec fn view_wf(&self) -> bool {
        self.wf()
    }

    open spec fn view_should_draw(&self) -> bool {
        self.spec_should_draw()
    }

    fn should_draw(&self) -> (r: bool) {
        SettingsList::should_draw(self)
    }

    fn set_should_draw(&mut self) {
        SettingsList::set_should_draw(self);
        assert(self.spec_dirty()[0]);
    }

    fn draw(&mut self, ops: &mut Vec<DrawOp>) -> (drew: bool) {
        let ghost before = *self;
        let drew = SettingsList::draw(self, ops);
        proof {
            if !drew {
                lemma_clean_frame_is_empty(before, before.spec_len());
            }
            assert(ops@.subrange(0, old(ops)@.len() as int) =~= old(ops)@);
        }
        drew
    }
}

impl ViewNode for ButtonHints {
    open spec fn view_wf(&self) -> bool {
        true
    }

    open spec fn view_should_draw(&self) -> bool {
        self.spec_should_draw()
    }

    fn should_draw(&self) -> (r: bool) {
        ButtonHints::should_draw(self)
    }

    fn set_should_draw(&mut self) {
        ButtonHints::set_should_draw(self);
    }

    fn draw(&mut self, ops: &mut Vec<DrawOp>) -> (drew: bool) {
        let drew = ButtonHints::draw(self, ops);
        assert(ops@.subrange(0, old(ops)@.len() as int) =~= old(ops)@);
        drew
    }
}

impl ViewNode for Theme {
    open spec fn view_wf(&self) -> bool {
        self.wf()
    }

    open spec fn view_should_draw(&self) -> bool {
        self.spec_should_draw()
    }

    fn should_draw(&self) -> (r: bool) {
        Theme::should_draw(self)
    }

    fn set_should_draw(&mut self) {
        Theme::set_should_draw(self);
    }

    fn draw(&mut self, ops: &mut Vec<DrawOp>) -> (drew: bool) {
        let ghost before = *self;
        let drew = Theme::draw(self, ops);
        proof {
            if !drew {
                let l = before.spec_list();
                lemma_clean_frame_is_empty(l, l.spec_len());
            }
            assert(ops@.subrange(0, old(ops)@.len() as int) =~= old(ops)@);
        }
        drew
    }
}

/// One pass of the render loop: paints the tree under `root` when anything in
/// it is dirty. Returns whether the frame changed and so needs flushing.
pub fn render_pass<V: ViewNode>(root: &mut V, ops: &mut Vec<DrawOp>) -> (drew: bool)
    requires
        old(root).view_wf(),
    ensures
        final(root).view_wf(),
        drew == old(root).view_should_draw(),
        !final(root).view_should_draw(),
        final(ops)@.subrange(0, old(ops)@.len() as int) == old(ops)@,
        !drew ==> final(ops)@ == old(ops)@,
{
    if root.should_draw() {
        root.draw(ops)
    } else {
        false
    }
}

} // verus!
