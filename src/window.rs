use vstd::prelude::*;
use crate::action::{Action, Instruction, engine};
use crate::buffer::{Buffer, after_viewport, viewport_actions};

verus! {

/// A pane: a rectangular region of the screen that may show one buffer.
///
/// `buffer` names the shown buffer by its identifier; assigning a buffer
/// shares it and never releases the one shown before.
pub struct Window {
    pub buffer: Option<usize>,
    pub width: u32,
    pub height: u32,
    pub x: u32,
    pub y: u32,
}

/// Buffer `i` of a buffer list sits at index `i`, and its host window
/// tags events with `i`.
pub open spec fn buffers_indexed(buffers: Seq<Buffer>) -> bool {
    forall|i: int| 0 <= i < buffers.len() ==> #[trigger] buffers[i].id == i && buffers[i].window.buffer == i
}

/// The pane shows nothing, or a buffer of the list.
pub open spec fn shows_listed(pane: Window, count: nat) -> bool {
    match pane.buffer {
        Some(i) => i < count,
        None => true,
    }
}

/// The buffers and the appended actions after `pane` is rendered.
pub open spec fn render_pane(buffers: Seq<Buffer>, pane: Window) -> (Seq<Buffer>, Seq<Action>) {
    match pane.buffer {
        Some(i) => {
            let b = buffers[i as int];
            (
                buffers.update(i as int, after_viewport(b, pane.width, pane.height)),
                viewport_actions(b, pane.x, pane.y, pane.width, pane.height).push(
                    engine(b.id, Instruction::Refresh),
                ),
            )
        },
        None => (buffers, seq![Action::Clear]),
    }
}

/// A viewport change keeps the buffer's identifier and its window's tag.
pub proof fn lemma_render_pane_keeps_ids(buffers: Seq<Buffer>, pane: Window)
    requires
        shows_listed(pane, buffers.len()),
    ensures
        render_pane(buffers, pane).0.len() == buffers.len(),
        forall|i: int| 0 <= i < buffers.len() ==> #[trigger] render_pane(buffers, pane).0[i].id == buffers[i].id
            && render_pane(buffers, pane).0[i].window.buffer == buffers[i].window.buffer,
{
}

/// The pane after `ids` are assigned to it in order.
pub open spec fn assign_all(pane: Window, ids: Seq<usize>) -> Window
    decreases ids.len(),
{
    if ids.len() == 0 {
        pane
    } else {
        Window { buffer: Some(ids.last()), ..assign_all(pane, ids.drop_last()) }
    }
}

/// After any non-empty sequence of assignments a pane renders the buffer
/// assigned last, and only that one: every engine instruction of the render
/// goes to it, and it gets exactly one redraw, at the end.
pub proof fn render_shows_last_assigned(buffers: Seq<Buffer>, pane: Window, ids: Seq<usize>)
    requires
        ids.len() > 0,
        ids.last() < buffers.len(),
        buffers_indexed(buffers),
    ensures
        assign_all(pane, ids).buffer == Some(ids.last()),
        ({
            let acts = render_pane(buffers, assign_all(pane, ids)).1;
            &&& acts.len() > 0
            &&& acts.last() == engine(ids.last(), Instruction::Refresh)
            &&& forall|k: int| 0 <= k < acts.len() ==> (#[trigger] acts[k] matches Action::Engine { buffer, .. }
                && buffer == ids.last())
            &&& forall|k: int| 0 <= k < acts.len() - 1 ==> #[trigger] acts[k]
                != engine(ids.last(), Instruction::Refresh)
        }),
{
    let p = assign_all(pane, ids);
    let b = buffers[ids.last() as int];
    let acts = render_pane(buffers, p).1;
    let vp = viewport_actions(b, p.x, p.y, p.width, p.height);
    assert(acts == vp.push(engine(b.id, Instruction::Refresh)));
    assert forall|k: int| 0 <= k < acts.len() implies (#[trigger] acts[k] matches Action::Engine { buffer, .. }
        && buffer == ids.last()) by {
        if k < vp.len() {
            assert(acts[k] == vp[k]);
        }
    }
    assert forall|k: int| 0 <= k < acts.len() - 1 implies #[trigger] acts[k]
        != engine(ids.last(), Instruction::Refresh) by {
        assert(acts[k] == vp[k]);
    }
}

impl Window {
    /// An empty pane at the origin, of size zero.
    pub fn new() -> (r: Window)
        ensures
            r == (Window { buffer: None, width: 0, height: 0, x: 0, y: 0 }),
    {
        Window { buffer: None, width: 0, height: 0, x: 0, y: 0 }
    }

    /// Sets the pane's size; the shown buffer learns of it at the next render.
    pub fn resize(&mut self, width: u32, height: u32)
        ensures
            *final(self) == (Window { width, height, ..*old(self) }),
    {
        self.width = width;
        self.height = height;
    }

    /// Moves the pane; the shown buffer learns of it at the next render.
    pub fn position(&mut self, x: u32, y: u32)
        ensures
            *final(self) == (Window { x, y, ..*old(self) }),
    {
        self.x = x;
        self.y = y;
    }

    /// Shows buffer `buffer` in place of whatever was shown before.
    pub fn assign(&mut self, buffer: usize)
        ensures
            *final(self) == (Window { buffer: Some(buffer), ..*old(self) }),
    {
        self.buffer = Some(buffer);
    }

    /// The shown buffer, if any.
    pub fn buffer(&self) -> (r: Option<usize>)
        ensures
            r == self.buffer,
    {
        self.buffer
    }

    /// Renders the pane: the shown buffer gets the pane's geometry and then a
    /// redraw; an empty pane is filled with the background color.
    pub fn render(&self, buffers: &mut Vec<Buffer>, out: &mut Vec<Action>)
        requires
            shows_listed(*self, old(buffers)@.len()),
            buffers_indexed(old(buffers)@),
        ensures
            final(buffers)@ == render_pane(old(buffers)@, *self).0,
            final(out)@ == old(out)@ + render_pane(old(buffers)@, *self).1,
            buffers_indexed(final(buffers)@),
    {
        match self.buffer {
            Some(i) => {
                let buffer = &mut buffers[i];
                buffer.viewport(out, (self.x, self.y), (self.width, self.height));
                buffer.render(out);
            },
            None => {
                out.push(Action::Clear);
            },
        }
        proof {
            lemma_render_pane_keeps_ids(old(buffers)@, *self);
        }
    }

    pub fn width(&self) -> (r: u32)
        ensures
            r == self.width,
    {
        self.width
    }

    pub fn height(&self) -> (r: u32)
        ensures
            r == self.height,
    {
        self.height
    }

    pub fn x(&self) -> (r: u32)
        ensures
            r == self.x,
    {
        self.x
    }

    pub fn y(&self) -> (r: u32)
        ensures
            r == self.y,
    {
        self.y
    }
}

} // verus!
