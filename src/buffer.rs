use vstd::prelude::*;
use crate::action::{Action, Instruction, engine};
use crate::browser::Event as HostEvent;

verus! {

/// Navigation state of a page, as its engine instance reports it.
#[derive(Clone, Debug, PartialEq, Eq)]
pub enum Load {
    Start { back: bool, forward: bool },
    End { back: bool, forward: bool },
    Error { url: String },
}

/// What an engine instance reports about its page.
#[derive(Clone, Debug, PartialEq, Eq)]
pub enum Event {
    Present,
    Resize { width: u32, height: u32 },
    Position { x: i32, y: i32 },
    Title(Option<String>),
    Url(String),
    Favicon(String),
    Cursor(u32),
    Status(Option<String>),
    Load(Load),
    Head,
    Key { key: u32, modifiers: u32 },
}

/// The host window that one engine instance reports to.
///
/// It mirrors the last value of each property that the engine set, so that
/// a query sees the newest value even before the queue is drained, and it
/// tags every event it enqueues with the identifier of its buffer. The tag
/// is a plain number: it never keeps the buffer alive.
pub struct HostWindow {
    pub buffer: usize,
    pub size: (u32, u32),
    pub title: Option<String>,
    pub url: Option<String>,
    pub favicon: Option<String>,
    pub cursor: Option<u32>,
    pub status: Option<String>,
    pub load: Option<Load>,
}

/// Copy of an optional string.
fn copy_text(s: &Option<String>) -> (r: Option<String>)
    ensures
        r == *s,
{
    match s {
        Some(t) => Some(t.clone()),
        None => None,
    }
}

impl HostWindow {
    /// The host window of buffer `buffer` before anything was reported.
    pub open spec fn new_spec(buffer: usize) -> HostWindow {
        HostWindow {
            buffer,
            size: (0, 0),
            title: None,
            url: None,
            favicon: None,
            cursor: None,
            status: None,
            load: None,
        }
    }

    /// A host window for buffer `buffer`, with no size and nothing mirrored yet.
    pub fn new(buffer: usize) -> (r: HostWindow)
        ensures
            r == HostWindow::new_spec(buffer),
    {
        HostWindow {
            buffer,
            size: (0, 0),
            title: None,
            url: None,
            favicon: None,
            cursor: None,
            status: None,
            load: None,
        }
    }

    /// Enqueues `event`, tagged with this window's buffer.
    pub fn event(&self, queue: &mut Vec<HostEvent>, event: Event)
        ensures
            final(queue)@ == old(queue)@.push(HostEvent::Buffer(self.buffer, event)),
    {
        queue.push(HostEvent::Buffer(self.buffer, event));
    }

    /// Records the size that the owning buffer gave the page.
    pub fn resize(&mut self, width: u32, height: u32)
        ensures
            *final(self) == (HostWindow { size: (width, height), ..*old(self) }),
    {
        self.size = (width, height);
    }

    /// The host offers a clipboard.
    pub fn supports_clipboard(&self) -> (r: bool)
        ensures
            r,
    {
        true
    }

    /// Compositing is always permitted.
    pub fn prepare_for_composite(&self, _width: usize, _height: usize) -> (r: bool)
        ensures
            r,
    {
        true
    }

    /// The size in device pixels, for a whole-number pixel scale `factor`.
    pub fn framebuffer_size(&self, factor: u32) -> (r: (u32, u32))
        requires
            self.size.0 * factor <= u32::MAX,
            self.size.1 * factor <= u32::MAX,
        ensures
            r.0 == self.size.0 * factor,
            r.1 == self.size.1 * factor,
    {
        (self.size.0 * factor, self.size.1 * factor)
    }

    /// The client area: the recorded size, at the origin.
    pub fn client_window(&self) -> (r: ((u32, u32), (i32, i32)))
        ensures
            r == (self.size, (0i32, 0i32)),
    {
        (self.size, (0, 0))
    }

    /// The engine asks for another window size.
    pub fn set_inner_size(&self, queue: &mut Vec<HostEvent>, width: u32, height: u32)
        ensures
            final(queue)@ == old(queue)@.push(
                HostEvent::Buffer(self.buffer, Event::Resize { width, height }),
            ),
    {
        self.event(queue, Event::Resize { width, height });
    }

    /// The engine asks for another window position.
    pub fn set_position(&self, queue: &mut Vec<HostEvent>, x: i32, y: i32)
        ensures
            final(queue)@ == old(queue)@.push(HostEvent::Buffer(self.buffer, Event::Position { x, y })),
    {
        self.event(queue, Event::Position { x, y });
    }

    /// The engine finished a frame.
    pub fn present(&self, queue: &mut Vec<HostEvent>)
        ensures
            final(queue)@ == old(queue)@.push(HostEvent::Buffer(self.buffer, Event::Present)),
    {
        self.event(queue, Event::Present);
    }

    /// The page's title changed.
    pub fn set_page_title(&mut self, queue: &mut Vec<HostEvent>, title: Option<String>)
        ensures
            *final(self) == (HostWindow { title: title, ..*old(self) }),
            final(queue)@ == old(queue)@.push(HostEvent::Buffer(old(self).buffer, Event::Title(title))),
    {
        self.title = copy_text(&title);
        self.event(queue, Event::Title(title));
    }

    /// The page's address changed.
    pub fn set_page_url(&mut self, queue: &mut Vec<HostEvent>, url: String)
        ensures
            *final(self) == (HostWindow { url: Some(url), ..*old(self) }),
            final(queue)@ == old(queue)@.push(HostEvent::Buffer(old(self).buffer, Event::Url(url))),
    {
        self.url = Some(url.clone());
        self.event(queue, Event::Url(url));
    }

    /// The page's icon changed.
    pub fn set_favicon(&mut self, queue: &mut Vec<HostEvent>, url: String)
        ensures
            *final(self) == (HostWindow { favicon: Some(url), ..*old(self) }),
            final(queue)@ == old(queue)@.push(HostEvent::Buffer(old(self).buffer, Event::Favicon(url))),
    {
        self.favicon = Some(url.clone());
        self.event(queue, Event::Favicon(url));
    }

    /// The pointer's shape changed.
    pub fn set_cursor(&mut self, queue: &mut Vec<HostEvent>, cursor: u32)
        ensures
            *final(self) == (HostWindow { cursor: Some(cursor), ..*old(self) }),
            final(queue)@ == old(queue)@.push(HostEvent::Buffer(old(self).buffer, Event::Cursor(cursor))),
    {
        self.cursor = Some(cursor);
        self.event(queue, Event::Cursor(cursor));
    }

    /// The status text changed.
    pub fn status(&mut self, queue: &mut Vec<HostEvent>, status: Option<String>)
        ensures
            *final(self) == (HostWindow { status: status, ..*old(self) }),
            final(queue)@ == old(queue)@.push(HostEvent::Buffer(old(self).buffer, Event::Status(status))),
    {
        self.status = copy_text(&status);
        self.event(queue, Event::Status(status));
    }

    /// A navigation started.
    pub fn load_start(&mut self, queue: &mut Vec<HostEvent>, back: bool, forward: bool)
        ensures
            *final(self) == (HostWindow { load: Some(Load::Start { back, forward }), ..*old(self) }),
            final(queue)@ == old(queue)@.push(
                HostEvent::Buffer(old(self).buffer, Event::Load(Load::Start { back, forward })),
            ),
    {
        self.load = Some(Load::Start { back, forward });
        self.event(queue, Event::Load(Load::Start { back, forward }));
    }

    /// A navigation ended.
    pub fn load_end(&mut self, queue: &mut Vec<HostEvent>, back: bool, forward: bool)
        ensures
            *final(self) == (HostWindow { load: Some(Load::End { back, forward }), ..*old(self) }),
            final(queue)@ == old(queue)@.push(
                HostEvent::Buffer(old(self).buffer, Event::Load(Load::End { back, forward })),
            ),
    {
        self.load = Some(Load::End { back, forward });
        self.event(queue, Event::Load(Load::End { back, forward }));
    }

    /// A navigation to `url` failed.
    pub fn load_error(&mut self, queue: &mut Vec<HostEvent>, url: String)
        ensures
            *final(self) == (HostWindow { load: Some(Load::Error { url }), ..*old(self) }),
            final(queue)@ == old(queue)@.push(
                HostEvent::Buffer(old(self).buffer, Event::Load(Load::Error { url })),
            ),
    {
        self.load = Some(Load::Error { url: url.clone() });
        self.event(queue, Event::Load(Load::Error { url }));
    }

    /// The head of the document was parsed.
    pub fn head_parsed(&self, queue: &mut Vec<HostEvent>)
        ensures
            final(queue)@ == old(queue)@.push(HostEvent::Buffer(self.buffer, Event::Head)),
    {
        self.event(queue, Event::Head);
    }

    /// A key was pressed in the page; it is passed on as it came.
    pub fn handle_key(&self, queue: &mut Vec<HostEvent>, key: u32, modifiers: u32)
        ensures
            final(queue)@ == old(queue)@.push(HostEvent::Buffer(self.buffer, Event::Key { key, modifiers })),
    {
        self.event(queue, Event::Key { key, modifiers });
    }
}


/// A content buffer: one engine instance and the host window it reports to.
///
/// `width` and `height` are the size last sent to the engine, kept so that a
/// resize is only requested when the size really changes.
pub struct Buffer {
    pub id: usize,
    pub window: HostWindow,
    pub width: u32,
    pub height: u32,
}

/// The instructions that a viewport change at `(x, y)` with size
/// `(width, height)` sends to the engine of `b`.
pub open spec fn viewport_actions(b: Buffer, x: u32, y: u32, width: u32, height: u32) -> Seq<Action> {
    let shown = seq![engine(b.id, Instruction::Viewport { x, y, width, height })];
    if width != b.width || height != b.height {
        shown.push(engine(b.id, Instruction::Resize { width, height }))
    } else {
        shown
    }
}

/// The buffer `b` after a viewport change to size `(width, height)`.
pub open spec fn after_viewport(b: Buffer, width: u32, height: u32) -> Buffer {
    if width != b.width || height != b.height {
        Buffer {
            width,
            height,
            window: HostWindow { size: (width, height), ..b.window },
            ..b
        }
    } else {
        b
    }
}

/// A resize is requested exactly when the size differs from the recorded
/// one; once a size is recorded, a second viewport change to the same size,
/// at any position, requests no resize.
pub proof fn viewport_resizes_only_on_change(b: Buffer, first: (u32, u32), second: (u32, u32), size: (u32, u32))
    ensures
        (exists|k: int|
            0 <= k < viewport_actions(b, first.0, first.1, size.0, size.1).len()
                && #[trigger] viewport_actions(b, first.0, first.1, size.0, size.1)[k]
                == engine(b.id, Instruction::Resize { width: size.0, height: size.1 }))
            <==> (size.0 != b.width || size.1 != b.height),
        viewport_actions(after_viewport(b, size.0, size.1), second.0, second.1, size.0, size.1)
            == seq![engine(b.id, Instruction::Viewport { x: second.0, y: second.1, width: size.0, height: size.1 })],
{
    let acts = viewport_actions(b, first.0, first.1, size.0, size.1);
    if size.0 != b.width || size.1 != b.height {
        assert(acts[1] == engine(b.id, Instruction::Resize { width: size.0, height: size.1 }));
    }
}

impl Buffer {
    /// A buffer for the freshly started engine instance `id`; the engine is
    /// told to initialise compositing.
    pub fn new(id: usize, out: &mut Vec<Action>) -> (r: Buffer)
        ensures
            r.id == id,
            r.window == HostWindow::new_spec(id),
            r.width == 0,
            r.height == 0,
            final(out)@ == old(out)@.push(engine(id, Instruction::InitializeCompositing)),
    {
        out.push(Action::Engine { buffer: id, instruction: Instruction::InitializeCompositing });
        Buffer { id, window: HostWindow::new(id), width: 0, height: 0 }
    }

    /// Forwards an idle tick to the engine.
    pub fn idle(&self, out: &mut Vec<Action>)
        ensures
            final(out)@ == old(out)@.push(engine(self.id, Instruction::Idle)),
    {
        out.push(Action::Engine { buffer: self.id, instruction: Instruction::Idle });
    }

    /// Asks the engine to redraw the page.
    pub fn render(&self, out: &mut Vec<Action>)
        ensures
            final(out)@ == old(out)@.push(engine(self.id, Instruction::Refresh)),
    {
        out.push(Action::Engine { buffer: self.id, instruction: Instruction::Refresh });
    }

    /// Tells the engine the visible region; when the size differs from the
    /// recorded one, also has the surface resized and records the new size.
    pub fn viewport(&mut self, out: &mut Vec<Action>, position: (u32, u32), size: (u32, u32))
        ensures
            *final(self) == after_viewport(*old(self), size.0, size.1),
            final(out)@ == old(out)@ + viewport_actions(*old(self), position.0, position.1, size.0, size.1),
    {
        let (x, y) = position;
        let (width, height) = size;
        out.push(Action::Engine {
            buffer: self.id,
            instruction: Instruction::Viewport { x, y, width, height },
        });
        if self.width != width || self.height != height {
            self.width = width;
            self.height = height;
            self.window.resize(width, height);
            out.push(Action::Engine { buffer: self.id, instruction: Instruction::Resize { width, height } });
        }
    }

    /// Has the engine load `url`; completion is reported later as an event.
    pub fn go(&self, out: &mut Vec<Action>, url: String)
        ensures
            final(out)@ == old(out)@.push(engine(self.id, Instruction::LoadUrl { url })),
    {
        out.push(Action::Engine { buffer: self.id, instruction: Instruction::LoadUrl { url } });
    }

    /// The page's title, as last reported.
    pub fn title(&self) -> (r: Option<String>)
        ensures
            r == self.window.title,
    {
        copy_text(&self.window.title)
    }

    /// The page's address, as last reported.
    pub fn url(&self) -> (r: Option<String>)
        ensures
            r == self.window.url,
    {
        copy_text(&self.window.url)
    }

    /// Releases the buffer: its engine is told to shut down, once.
    pub fn shutdown(self, out: &mut Vec<Action>)
        ensures
            final(out)@ == old(out)@.push(engine(self.id, Instruction::Shutdown)),
    {
        out.push(Action::Engine { buffer: self.id, instruction: Instruction::Shutdown });
    }
}

} // verus!
