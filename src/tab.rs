use vstd::prelude::*;
use crate::action::Action;
use crate::buffer::Buffer;
use crate::window::{Window, buffers_indexed, shows_listed, render_pane, lemma_render_pane_keeps_ids};

verus! {

/// A tab: panes that share one screen, in paint order.
pub struct Tab {
    pub windows: Vec<Window>,
}

/// Every pane shows nothing or a buffer of the list.
pub open spec fn panes_show_listed(panes: Seq<Window>, count: nat) -> bool {
    forall|k: int| 0 <= k < panes.len() ==> #[trigger] shows_listed(panes[k], count)
}

/// The buffers and the appended actions after `panes` are rendered in order.
pub open spec fn render_panes(buffers: Seq<Buffer>, panes: Seq<Window>) -> (Seq<Buffer>, Seq<Action>)
    decreases panes.len(),
{
    if panes.len() == 0 {
        (buffers, Seq::empty())
    } else {
        let before = render_panes(buffers, panes.drop_last());
        let last = render_pane(before.0, panes.last());
        (last.0, before.1 + last.1)
    }
}

/// Rendering panes keeps the number and the identifiers of the buffers.
pub proof fn lemma_render_panes_keeps_ids(buffers: Seq<Buffer>, panes: Seq<Window>)
    requires
        panes_show_listed(panes, buffers.len()),
    ensures
        render_panes(buffers, panes).0.len() == buffers.len(),
        forall|i: int| 0 <= i < buffers.len() ==> #[trigger] render_panes(buffers, panes).0[i].id == buffers[i].id
            && render_panes(buffers, panes).0[i].window.buffer == buffers[i].window.buffer,
    decreases panes.len(),
{
    if panes.len() > 0 {
        let rest = panes.drop_last();
        assert(panes_show_listed(rest, buffers.len())) by {
            assert forall|k: int| 0 <= k < rest.len() implies #[trigger] shows_listed(rest[k], buffers.len()) by {
                assert(rest[k] == panes[k]);
            }
        }
        lemma_render_panes_keeps_ids(buffers, rest);
        let before = render_panes(buffers, rest);
        assert(shows_listed(panes[panes.len() - 1], buffers.len()));
        lemma_render_pane_keeps_ids(before.0, panes.last());
    }
}

impl Tab {
    /// A tab without panes.
    pub fn new() -> (r: Tab)
        ensures
            r.windows@.len() == 0,
    {
        Tab { windows: Vec::new() }
    }

    /// Appends a new empty pane and returns its index.
    pub fn open(&mut self) -> (r: usize)
        ensures
            final(self).windows@ == old(self).windows@.push(
                Window { buffer: None, width: 0, height: 0, x: 0, y: 0 },
            ),
            r == old(self).windows@.len(),
    {
        let r = self.windows.len();
        self.windows.push(Window::new());
        r
    }

    /// Renders every pane, in order.
    pub fn render(&self, buffers: &mut Vec<Buffer>, out: &mut Vec<Action>)
        requires
            panes_show_listed(self.windows@, old(buffers)@.len()),
            buffers_indexed(old(buffers)@),
        ensures
            final(buffers)@ == render_panes(old(buffers)@, self.windows@).0,
            final(out)@ == old(out)@ + render_panes(old(buffers)@, self.windows@).1,
            buffers_indexed(final(buffers)@),
    {
        let ghost start = buffers@;
        let ghost first = out@;
        let mut k: usize = 0;
        while k < self.windows.len()
            invariant
                k <= self.windows@.len(),
                panes_show_listed(self.windows@, start.len()),
                buffers_indexed(start),
                buffers@ == render_panes(start, self.windows@.take(k as int)).0,
                out@ == first + render_panes(start, self.windows@.take(k as int)).1,
                buffers_indexed(buffers@),
            decreases self.windows@.len() - k,
        {
            proof {
                let taken = self.windows@.take(k as int);
                assert(panes_show_listed(taken, start.len())) by {
                    assert forall|j: int| 0 <= j < taken.len() implies #[trigger] shows_listed(taken[j], start.len()) by {
                        assert(taken[j] == self.windows@[j]);
                    }
                }
                lemma_render_panes_keeps_ids(start, taken);
                assert(shows_listed(self.windows@[k as int], start.len()));
            }
            self.windows[k].render(buffers, out);
            proof {
                let next = self.windows@.take(k as int + 1);
                assert(next.drop_last() == self.windows@.take(k as int));
                assert(next.last() == self.windows@[k as int]);
                let done = render_panes(start, self.windows@.take(k as int)).1;
                let step = render_pane(render_panes(start, self.windows@.take(k as int)).0, next.last()).1;
                assert(first + done + step =~= first + (done + step));
            }
            k = k + 1;
        }
        assert(self.windows@.take(k as int) == self.windows@);
    }
}

} // verus!
