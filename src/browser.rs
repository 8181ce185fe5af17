use vstd::prelude::*;
use crate::action::{Action, Instruction, engine};
use crate::buffer::{Buffer, HostWindow, Load, Event as BufferEvent};
use crate::window::{Window, buffers_indexed};
use crate::tab::{Tab, panes_show_listed, render_panes, lemma_render_panes_keeps_ids};

verus! {

/// An event of the native window.
#[derive(Clone, Debug, PartialEq, Eq)]
pub enum NativeEvent {
    Refresh,
    Resized { width: u32, height: u32 },
    Closed,
    Other,
}

/// The one vocabulary of the shared event queue.
#[derive(Clone, Debug, PartialEq, Eq)]
pub enum Event {
    Idle,
    Window(NativeEvent),
    Buffer(usize, BufferEvent),
}

/// The application: every content buffer, the tabs, which tab is current,
/// and the event queue that all host windows share.
///
/// Buffer `i` of `buffers` has identifier `i`; panes name buffers by it.
pub struct Browser {
    pub events: Vec<Event>,
    pub buffers: Vec<Buffer>,
    pub tabs: Vec<Tab>,
    pub current: Option<usize>,
}

/// Every pane of every tab shows nothing or a buffer of `count` buffers.
pub open spec fn tabs_show_listed(tabs: Seq<Tab>, count: nat) -> bool {
    forall|t: int| 0 <= t < tabs.len() ==> #[trigger] panes_show_listed(tabs[t].windows@, count)
}

/// An idle tick for each buffer, in order.
pub open spec fn idle_actions(buffers: Seq<Buffer>) -> Seq<Action> {
    Seq::new(buffers.len(), |i: int| engine(buffers[i].id, Instruction::Idle))
}

/// A shutdown for each buffer, in order.
pub open spec fn shutdown_actions(buffers: Seq<Buffer>) -> Seq<Action> {
    Seq::new(buffers.len(), |i: int| engine(buffers[i].id, Instruction::Shutdown))
}

/// A render pass: the panes of the current tab, if any, then presenting the
/// surface.
pub open spec fn render_all(buffers: Seq<Buffer>, tabs: Seq<Tab>, current: Option<usize>) -> (Seq<Buffer>, Seq<Action>) {
    match current {
        Some(t) => {
            let r = render_panes(buffers, tabs[t as int].windows@);
            (r.0, r.1.push(Action::Present))
        },
        None => (buffers, seq![Action::Present]),
    }
}

/// The events that start a render pass: a refresh of the native window, and
/// the end of a navigation in any buffer.
pub open spec fn starts_render(event: Event) -> bool {
    match event {
        Event::Window(NativeEvent::Refresh) => true,
        Event::Buffer(_, BufferEvent::Load(Load::End { .. })) => true,
        _ => false,
    }
}

/// The buffers and the appended actions after one event is dispatched.
pub open spec fn dispatch(buffers: Seq<Buffer>, tabs: Seq<Tab>, current: Option<usize>, event: Event) -> (Seq<Buffer>, Seq<Action>) {
    if event is Idle {
        (buffers, idle_actions(buffers))
    } else if starts_render(event) {
        render_all(buffers, tabs, current)
    } else {
        (buffers, Seq::empty())
    }
}

/// The buffers and the appended actions after `events` are dispatched in order.
pub open spec fn dispatch_all(buffers: Seq<Buffer>, tabs: Seq<Tab>, current: Option<usize>, events: Seq<Event>) -> (Seq<Buffer>, Seq<Action>)
    decreases events.len(),
{
    if events.len() == 0 {
        (buffers, Seq::empty())
    } else {
        let before = dispatch_all(buffers, tabs, current, events.drop_last());
        let last = dispatch(before.0, tabs, current, events.last());
        (last.0, before.1 + last.1)
    }
}

/// Releasing the buffers sends each buffer's engine exactly one shutdown,
/// whether or not a pane shows the buffer.
pub proof fn one_shutdown_per_buffer(buffers: Seq<Buffer>, i: int)
    requires
        buffers_indexed(buffers),
        0 <= i < buffers.len(),
    ensures
        exists|k: int|
            0 <= k < shutdown_actions(buffers).len()
                && #[trigger] shutdown_actions(buffers)[k] == engine(i as usize, Instruction::Shutdown),
        forall|k: int, m: int|
            0 <= k < shutdown_actions(buffers).len() && 0 <= m < shutdown_actions(buffers).len()
                && #[trigger] shutdown_actions(buffers)[k] == engine(i as usize, Instruction::Shutdown)
                && #[trigger] shutdown_actions(buffers)[m] == engine(i as usize, Instruction::Shutdown)
                ==> k == m,
{
    assert(shutdown_actions(buffers)[i] == engine(i as usize, Instruction::Shutdown));
    assert forall|k: int, m: int|
        0 <= k < shutdown_actions(buffers).len() && 0 <= m < shutdown_actions(buffers).len()
            && #[trigger] shutdown_actions(buffers)[k] == engine(i as usize, Instruction::Shutdown)
            && #[trigger] shutdown_actions(buffers)[m] == engine(i as usize, Instruction::Shutdown)
            implies k == m by {
        assert(buffers[k].id == k);
        assert(buffers[m].id == m);
    }
}

/// Each call of `handle` dispatches a fixed batch: what was queued when it
/// started, then its own event. Over consecutive calls every event is
/// therefore dispatched exactly once, in arrival order: handling `first` and
/// then `second` has the effect of dispatching `first + second` in one go.
pub proof fn batches_dispatch_each_event_once(
    buffers: Seq<Buffer>,
    tabs: Seq<Tab>,
    current: Option<usize>,
    first: Seq<Event>,
    second: Seq<Event>,
)
    ensures
        ({
            let one = dispatch_all(buffers, tabs, current, first);
            let two = dispatch_all(one.0, tabs, current, second);
            dispatch_all(buffers, tabs, current, first + second) == (two.0, one.1 + two.1)
        }),
    decreases second.len(),
{
    let one = dispatch_all(buffers, tabs, current, first);
    if second.len() == 0 {
        assert(first + second =~= first);
        assert(one.1 + Seq::<Action>::empty() =~= one.1);
    } else {
        let rest = second.drop_last();
        batches_dispatch_each_event_once(buffers, tabs, current, first, rest);
        assert((first + second).drop_last() =~= first + rest);
        assert((first + second).last() == second.last());
        let mid = dispatch_all(one.0, tabs, current, rest);
        let step = dispatch(mid.0, tabs, current, second.last());
        assert(one.1 + mid.1 + step.1 =~= one.1 + (mid.1 + step.1));
    }
}

impl Browser {
    /// Well-formedness: buffers sit at their identifiers, every pane shows a
    /// listed buffer or nothing, and there is a current tab exactly when there
    /// are tabs.
    pub open spec fn wf(&self) -> bool {
        &&& buffers_indexed(self.buffers@)
        &&& tabs_show_listed(self.tabs@, self.buffers@.len())
        &&& match self.current {
            Some(t) => t < self.tabs@.len(),
            None => self.tabs@.len() == 0,
        }
    }

    /// An application without buffers, tabs or queued events.
    pub fn new() -> (r: Browser)
        ensures
            r.wf(),
            r.events@.len() == 0,
            r.buffers@.len() == 0,
            r.tabs@.len() == 0,
            r.current is None,
    {
        Browser { events: Vec::new(), buffers: Vec::new(), tabs: Vec::new(), current: None }
    }

    /// Creates the first tab, made current, if there is none; then has the
    /// native window shown.
    pub fn show(&mut self, out: &mut Vec<Action>)
        requires
            old(self).wf(),
        ensures
            final(self).wf(),
            final(self).events == old(self).events,
            final(self).buffers == old(self).buffers,
            old(self).tabs@.len() == 0 ==> final(self).tabs@.len() == 1
                && final(self).tabs@[0].windows@.len() == 0
                && final(self).current == Some(0usize),
            old(self).tabs@.len() > 0 ==> final(self).tabs == old(self).tabs
                && final(self).current == old(self).current,
            final(out)@ == old(out)@.push(Action::Show),
    {
        if self.tabs.len() == 0 {
            self.tabs.push(Tab::new());
            self.current = Some(0);
        }
        out.push(Action::Show);
    }

    /// A render pass: the current tab's panes, if there is a current tab,
    /// then presenting the surface.
    pub fn render(&mut self, out: &mut Vec<Action>)
        requires
            old(self).wf(),
        ensures
            final(self).wf(),
            final(self).events == old(self).events,
            final(self).tabs == old(self).tabs,
            final(self).current == old(self).current,
            final(self).buffers@ == render_all(old(self).buffers@, old(self).tabs@, old(self).current).0,
            final(out)@ == old(out)@ + render_all(old(self).buffers@, old(self).tabs@, old(self).current).1,
    {
        if let Some(t) = self.current {
            assert(panes_show_listed(self.tabs@[t as int].windows@, self.buffers@.len()));
            proof {
                lemma_render_panes_keeps_ids(self.buffers@, self.tabs@[t as int].windows@);
            }
            self.tabs[t].render(&mut self.buffers, out);
        }
        out.push(Action::Present);
    }

    /// Forwards an idle tick to every buffer, in order.
    fn idle(&self, out: &mut Vec<Action>)
        ensures
            final(out)@ == old(out)@ + idle_actions(self.buffers@),
    {
        let mut i: usize = 0;
        while i < self.buffers.len()
            invariant
                i <= self.buffers@.len(),
                out@ == old(out)@ + idle_actions(self.buffers@).take(i as int),
            decreases self.buffers@.len() - i,
        {
            self.buffers[i].idle(out);
            i = i + 1;
            assert(idle_actions(self.buffers@).take(i as int) =~= idle_actions(self.buffers@).take(i - 1).push(
                engine(self.buffers@[i - 1].id, Instruction::Idle),
            ));
        }
        assert(idle_actions(self.buffers@).take(i as int) =~= idle_actions(self.buffers@));
    }

    /// Acts on one event: an idle tick goes to every buffer, a refresh or the
    /// end of a navigation starts a render pass, and the rest has no effect.
    fn dispatch(&mut self, out: &mut Vec<Action>, event: &Event)
        requires
            old(self).wf(),
        ensures
            final(self).wf(),
            final(self).events == old(self).events,
            final(self).tabs == old(self).tabs,
            final(self).current == old(self).current,
            final(self).buffers@ == dispatch(old(self).buffers@, old(self).tabs@, old(self).current, *event).0,
            final(out)@ == old(out)@ + dispatch(old(self).buffers@, old(self).tabs@, old(self).current, *event).1,
    {
        match event {
            Event::Idle => {
                self.idle(out);
            },
            Event::Window(NativeEvent::Refresh) => {
                self.render(out);
            },
            Event::Buffer(_, BufferEvent::Load(Load::End { .. })) => {
                self.render(out);
            },
            _ => {
                assert(out@ =~= old(out)@ + Seq::<Action>::empty());
            },
        }
    }

    /// Drains the shared queue once: the events queued so far, then `event`,
    /// are dispatched in arrival order. Events queued after this call starts
    /// wait for the next call.
    pub fn handle(&mut self, out: &mut Vec<Action>, event: Event)
        requires
            old(self).wf(),
        ensures
            final(self).wf(),
            final(self).events@.len() == 0,
            final(self).tabs == old(self).tabs,
            final(self).current == old(self).current,
            final(self).buffers@ == dispatch_all(
                old(self).buffers@,
                old(self).tabs@,
                old(self).current,
                old(self).events@.push(event),
            ).0,
            final(out)@ == old(out)@ + dispatch_all(
                old(self).buffers@,
                old(self).tabs@,
                old(self).current,
                old(self).events@.push(event),
            ).1,
    {
        let mut events: Vec<Event> = Vec::new();
        std::mem::swap(&mut events, &mut self.events);
        events.push(event);
        let ghost start = self.buffers@;
        let ghost first = out@;
        let mut k: usize = 0;
        while k < events.len()
            invariant
                k <= events@.len(),
                self.wf(),
                self.events@.len() == 0,
                self.tabs == old(self).tabs,
                self.current == old(self).current,
                start == old(self).buffers@,
                first == old(out)@,
                events@ == old(self).events@.push(event),
                self.buffers@ == dispatch_all(start, self.tabs@, self.current, events@.take(k as int)).0,
                out@ == first + dispatch_all(start, self.tabs@, self.current, events@.take(k as int)).1,
            decreases events@.len() - k,
        {
            self.dispatch(out, &events[k]);
            proof {
                let next = events@.take(k as int + 1);
                assert(next.drop_last() == events@.take(k as int));
                assert(next.last() == events@[k as int]);
                let done = dispatch_all(start, self.tabs@, self.current, events@.take(k as int));
                let step = dispatch(done.0, self.tabs@, self.current, events@[k as int]);
                assert(first + done.1 + step.1 =~= first + (done.1 + step.1));
            }
            k = k + 1;
        }
        assert(events@.take(k as int) == events@);
    }

    /// Releases the application at the end of the process: the engine of
    /// every buffer is told to shut down, once, whether or not a pane shows it.
    pub fn shutdown(self, out: &mut Vec<Action>)
        ensures
            final(out)@ == old(out)@ + shutdown_actions(self.buffers@),
    {
        let ghost all = self.buffers@;
        let mut buffers = self.buffers;
        let n: usize = buffers.len();
        let mut i: usize = 0;
        while i < n
            invariant
                n == all.len(),
                i <= n,
                buffers@ == all.skip(i as int),
                out@ == old(out)@ + shutdown_actions(all).take(i as int),
            decreases buffers@.len(),
        {
            let buffer = buffers.remove(0);
            assert(buffer == all[i as int]);
            buffer.shutdown(out);
            i = i + 1;
            assert(buffers@ =~= all.skip(i as int));
            assert(shutdown_actions(all).take(i as int) =~= shutdown_actions(all).take(i - 1).push(
                engine(all[i - 1].id, Instruction::Shutdown),
            ));
        }
        assert(shutdown_actions(all).take(i as int) =~= shutdown_actions(all));
    }

    /// Opens `url` in a new buffer, kept in the buffer list, and shows it in
    /// a new pane of the current tab with the given size and position.
    pub fn open(&mut self, out: &mut Vec<Action>, url: String, size: (u32, u32), position: (u32, u32))
        requires
            old(self).wf(),
            old(self).buffers@.len() < usize::MAX,
        ensures
            final(self).wf(),
            final(self).events == old(self).events,
            final(self).current == old(self).current,
            final(self).buffers@ == old(self).buffers@.push(Buffer {
                id: old(self).buffers@.len() as usize,
                window: HostWindow::new_spec(old(self).buffers@.len() as usize),
                width: 0,
                height: 0,
            }),
            final(out)@ == old(out)@ + seq![
                engine(old(self).buffers@.len() as usize, Instruction::InitializeCompositing),
                engine(old(self).buffers@.len() as usize, Instruction::LoadUrl { url }),
            ],
            final(self).tabs@.len() == old(self).tabs@.len(),
            forall|t: usize| t < old(self).tabs@.len() && old(self).current != Some(t)
                ==> #[trigger] final(self).tabs@[t as int] == old(self).tabs@[t as int],
            old(self).current matches Some(t) ==> final(self).tabs@[t as int].windows@
                == old(self).tabs@[t as int].windows@.push(Window {
                    buffer: Some(old(self).buffers@.len() as usize),
                    width: size.0,
                    height: size.1,
                    x: position.0,
                    y: position.1,
                }),
    {
        let id = self.buffers.len();
        let buffer = Buffer::new(id, out);
        buffer.go(out, url);
        self.buffers.push(buffer);
        assert(out@ =~= old(out)@ + seq![
            engine(id, Instruction::InitializeCompositing),
            engine(id, Instruction::LoadUrl { url }),
        ]);
        if let Some(t) = self.current {
            let tab = &mut self.tabs[t];
            let k = tab.open();
            let pane = &mut tab.windows[k];
            pane.assign(id);
            pane.resize(size.0, size.1);
            pane.position(position.0, position.1);
        }
        assert(buffers_indexed(self.buffers@)) by {
            assert forall|i: int| 0 <= i < self.buffers@.len() implies #[trigger] self.buffers@[i].id == i
                && self.buffers@[i].window.buffer == i by {
                if i < id {
                    assert(self.buffers@[i] == old(self).buffers@[i]);
                }
            }
        }
        assert forall|t: int| 0 <= t < self.tabs@.len() implies #[trigger] panes_show_listed(
            self.tabs@[t].windows@,
            self.buffers@.len(),
        ) by {
            assert(panes_show_listed(old(self).tabs@[t].windows@, old(self).buffers@.len()));
            let panes = self.tabs@[t].windows@;
            assert forall|k: int| 0 <= k < panes.len() implies #[trigger] crate::window::shows_listed(
                panes[k],
                self.buffers@.len(),
            ) by {
                if k < old(self).tabs@[t].windows@.len() {
                    assert(crate::window::shows_listed(old(self).tabs@[t].windows@[k], old(self).buffers@.len()));
                    assert(panes[k] == old(self).tabs@[t].windows@[k]);
                }
            }
        }
    }
}

} // verus!
