use miserve::action::{Action, Instruction};
use miserve::browser::{Browser, Event, NativeEvent};
use miserve::buffer::{Buffer, Event as BufferEvent, HostWindow, Load};
use miserve::tab::Tab;
use miserve::threads::{threads_for, worker_threads};
use miserve::window::Window;

fn engine(buffer: usize, instruction: Instruction) -> Action {
    Action::Engine { buffer, instruction }
}

fn shown_browser() -> Browser {
    let mut browser = Browser::new();
    let mut out = Vec::new();
    browser.show(&mut out);
    assert_eq!(out, vec![Action::Show]);
    browser
}

#[test]
fn two_buffers_side_by_side() {
    let mut browser = shown_browser();
    let mut out = Vec::new();
    browser.open(&mut out, "https://a.example".to_string(), (400, 600), (0, 0));
    browser.open(&mut out, "https://b.example".to_string(), (400, 600), (400, 0));

    assert_eq!(browser.tabs.len(), 1);
    assert_eq!(browser.buffers.len(), 2);
    let panes = &browser.tabs[0].windows;
    assert_eq!(panes.len(), 2);
    assert_eq!((panes[0].x(), panes[0].y(), panes[0].width(), panes[0].height()), (0, 0, 400, 600));
    assert_eq!((panes[1].x(), panes[1].y(), panes[1].width(), panes[1].height()), (400, 0, 400, 600));
    assert!(panes[0].x() + panes[0].width() <= panes[1].x());
    assert_eq!(panes[0].buffer(), Some(0));
    assert_eq!(panes[1].buffer(), Some(1));
    assert_eq!(
        out,
        vec![
            engine(0, Instruction::InitializeCompositing),
            engine(0, Instruction::LoadUrl { url: "https://a.example".to_string() }),
            engine(1, Instruction::InitializeCompositing),
            engine(1, Instruction::LoadUrl { url: "https://b.example".to_string() }),
        ]
    );
}

#[test]
fn idle_without_buffers_does_nothing() {
    let mut browser = shown_browser();
    let mut out = Vec::new();
    browser.handle(&mut out, Event::Idle);
    assert!(out.is_empty());
    assert!(browser.buffers.is_empty());
    assert!(browser.events.is_empty());
    assert_eq!(browser.tabs.len(), 1);
    assert_eq!(browser.current, Some(0));
}

#[test]
fn idle_reaches_every_buffer() {
    let mut browser = shown_browser();
    let mut out = Vec::new();
    browser.open(&mut out, "https://a.example".to_string(), (10, 10), (0, 0));
    browser.open(&mut out, "https://b.example".to_string(), (10, 10), (10, 0));
    out.clear();
    browser.handle(&mut out, Event::Idle);
    assert_eq!(out, vec![engine(0, Instruction::Idle), engine(1, Instruction::Idle)]);
}

#[test]
fn navigation_end_of_unshown_buffer_renders_current_tab() {
    let mut browser = Browser::new();
    let mut out = Vec::new();
    // Opened before any tab exists: buffer 0 is kept but shown nowhere.
    browser.open(&mut out, "https://x.example".to_string(), (100, 100), (0, 0));
    browser.show(&mut out);
    browser.open(&mut out, "https://y.example".to_string(), (300, 200), (5, 6));
    assert_eq!(browser.tabs[0].windows.len(), 1);
    assert_eq!(browser.tabs[0].windows[0].buffer(), Some(1));
    out.clear();

    let end = BufferEvent::Load(Load::End { back: false, forward: false });
    browser.handle(&mut out, Event::Buffer(0, end));
    assert_eq!(
        out,
        vec![
            engine(1, Instruction::Viewport { x: 5, y: 6, width: 300, height: 200 }),
            engine(1, Instruction::Resize { width: 300, height: 200 }),
            engine(1, Instruction::Refresh),
            Action::Present,
        ]
    );
    assert_eq!((browser.buffers[1].width, browser.buffers[1].height), (300, 200));
    assert_eq!(browser.buffers[1].window.size, (300, 200));
    assert_eq!((browser.buffers[0].width, browser.buffers[0].height), (0, 0));
}

#[test]
fn refresh_renders_and_other_events_do_not() {
    let mut browser = shown_browser();
    let mut out = Vec::new();
    browser.open(&mut out, "https://a.example".to_string(), (400, 600), (0, 0));
    out.clear();

    browser.handle(&mut out, Event::Window(NativeEvent::Closed));
    browser.handle(&mut out, Event::Window(NativeEvent::Resized { width: 1, height: 2 }));
    browser.handle(&mut out, Event::Buffer(0, BufferEvent::Load(Load::Start { back: true, forward: false })));
    browser.handle(&mut out, Event::Buffer(0, BufferEvent::Present));
    assert!(out.is_empty());

    browser.handle(&mut out, Event::Window(NativeEvent::Refresh));
    browser.handle(&mut out, Event::Window(NativeEvent::Refresh));
    assert_eq!(
        out,
        vec![
            engine(0, Instruction::Viewport { x: 0, y: 0, width: 400, height: 600 }),
            engine(0, Instruction::Resize { width: 400, height: 600 }),
            engine(0, Instruction::Refresh),
            Action::Present,
            engine(0, Instruction::Viewport { x: 0, y: 0, width: 400, height: 600 }),
            engine(0, Instruction::Refresh),
            Action::Present,
        ]
    );
}

#[test]
fn render_without_tab_only_presents() {
    let mut browser = Browser::new();
    let mut out = Vec::new();
    browser.render(&mut out);
    assert_eq!(out, vec![Action::Present]);
}

#[test]
fn empty_pane_clears_background() {
    let mut browser = shown_browser();
    browser.tabs[0].open();
    let mut out = Vec::new();
    browser.render(&mut out);
    assert_eq!(out, vec![Action::Clear, Action::Present]);
}

#[test]
fn show_keeps_existing_tabs() {
    let mut browser = shown_browser();
    let mut out = Vec::new();
    browser.show(&mut out);
    assert_eq!(browser.tabs.len(), 1);
    assert_eq!(browser.current, Some(0));
    assert_eq!(out, vec![Action::Show]);
}

#[test]
fn handle_drains_queue_once() {
    let mut browser = shown_browser();
    let mut out = Vec::new();
    browser.open(&mut out, "https://a.example".to_string(), (400, 600), (0, 0));
    out.clear();
    {
        let Browser { buffers, events, .. } = &mut browser;
        buffers[0].window.set_page_title(events, Some("A".to_string()));
        buffers[0].window.load_end(events, false, false);
    }
    assert_eq!(browser.events.len(), 2);

    browser.handle(&mut out, Event::Idle);
    assert!(browser.events.is_empty());
    assert_eq!(
        out,
        vec![
            engine(0, Instruction::Viewport { x: 0, y: 0, width: 400, height: 600 }),
            engine(0, Instruction::Resize { width: 400, height: 600 }),
            engine(0, Instruction::Refresh),
            Action::Present,
            engine(0, Instruction::Idle),
        ]
    );

    // An event queued after a call waits for the next one.
    {
        let Browser { buffers, events, .. } = &mut browser;
        buffers[0].window.present(events);
    }
    out.clear();
    browser.handle(&mut out, Event::Idle);
    assert!(browser.events.is_empty());
    assert_eq!(out, vec![engine(0, Instruction::Idle)]);
}

#[test]
fn viewport_resizes_only_when_size_changes() {
    let mut out = Vec::new();
    let mut buffer = Buffer::new(3, &mut out);
    assert_eq!(out, vec![engine(3, Instruction::InitializeCompositing)]);
    out.clear();

    buffer.viewport(&mut out, (1, 2), (0, 0));
    assert_eq!(out, vec![engine(3, Instruction::Viewport { x: 1, y: 2, width: 0, height: 0 })]);
    out.clear();

    buffer.viewport(&mut out, (1, 2), (50, 60));
    buffer.viewport(&mut out, (9, 9), (50, 60));
    buffer.viewport(&mut out, (9, 9), (50, 60));
    assert_eq!(
        out,
        vec![
            engine(3, Instruction::Viewport { x: 1, y: 2, width: 50, height: 60 }),
            engine(3, Instruction::Resize { width: 50, height: 60 }),
            engine(3, Instruction::Viewport { x: 9, y: 9, width: 50, height: 60 }),
            engine(3, Instruction::Viewport { x: 9, y: 9, width: 50, height: 60 }),
        ]
    );
    assert_eq!((buffer.width, buffer.height), (50, 60));
    assert_eq!(buffer.window.size, (50, 60));
}

#[test]
fn pane_renders_last_assigned_buffer() {
    let mut out = Vec::new();
    let mut buffers = vec![Buffer::new(0, &mut out), Buffer::new(1, &mut out), Buffer::new(2, &mut out)];
    out.clear();
    let mut pane = Window::new();
    pane.resize(30, 40);
    pane.position(7, 8);
    pane.assign(2);
    pane.assign(0);
    pane.assign(1);
    assert_eq!(pane.buffer(), Some(1));
    pane.render(&mut buffers, &mut out);
    assert_eq!(
        out,
        vec![
            engine(1, Instruction::Viewport { x: 7, y: 8, width: 30, height: 40 }),
            engine(1, Instruction::Resize { width: 30, height: 40 }),
            engine(1, Instruction::Refresh),
        ]
    );
    assert_eq!((buffers[0].width, buffers[2].width), (0, 0));
}

#[test]
fn tab_renders_panes_in_order() {
    let mut out = Vec::new();
    let mut buffers = vec![Buffer::new(0, &mut out)];
    out.clear();
    let mut tab = Tab::new();
    let first = tab.open();
    let second = tab.open();
    assert_eq!((first, second), (0, 1));
    tab.windows[1].assign(0);
    tab.render(&mut buffers, &mut out);
    assert_eq!(
        out,
        vec![
            Action::Clear,
            engine(0, Instruction::Viewport { x: 0, y: 0, width: 0, height: 0 }),
            engine(0, Instruction::Refresh),
        ]
    );
}

#[test]
fn shutdown_once_per_buffer() {
    let mut browser = shown_browser();
    let mut out = Vec::new();
    browser.open(&mut out, "https://a.example".to_string(), (1, 1), (0, 0));
    browser.open(&mut out, "https://b.example".to_string(), (1, 1), (1, 0));
    // Buffer 0 is no longer shown anywhere.
    browser.tabs[0].windows[0].assign(1);
    out.clear();
    browser.shutdown(&mut out);
    assert_eq!(out, vec![engine(0, Instruction::Shutdown), engine(1, Instruction::Shutdown)]);
}

#[test]
fn buffer_shutdown_sends_one_instruction() {
    let mut out = Vec::new();
    let buffer = Buffer::new(4, &mut out);
    out.clear();
    buffer.shutdown(&mut out);
    assert_eq!(out, vec![engine(4, Instruction::Shutdown)]);
}

#[test]
fn buffer_forwards_instructions() {
    let mut out = Vec::new();
    let buffer = Buffer::new(2, &mut out);
    out.clear();
    buffer.idle(&mut out);
    buffer.render(&mut out);
    buffer.go(&mut out, "https://c.example".to_string());
    assert_eq!(
        out,
        vec![
            engine(2, Instruction::Idle),
            engine(2, Instruction::Refresh),
            engine(2, Instruction::LoadUrl { url: "https://c.example".to_string() }),
        ]
    );
    assert_eq!(buffer.title(), None);
    assert_eq!(buffer.url(), None);
}

#[test]
fn host_window_mirrors_then_enqueues() {
    let mut queue = Vec::new();
    let mut window = HostWindow::new(5);
    window.set_page_title(&mut queue, Some("Title".to_string()));
    window.set_page_url(&mut queue, "https://d.example/".to_string());
    window.set_favicon(&mut queue, "https://d.example/icon".to_string());
    window.set_cursor(&mut queue, 3);
    window.status(&mut queue, Some("loading".to_string()));
    window.load_start(&mut queue, true, false);
    window.load_error(&mut queue, "https://bad".to_string());
    window.head_parsed(&mut queue);
    window.handle_key(&mut queue, 65, 2);
    window.set_inner_size(&mut queue, 10, 20);
    window.set_position(&mut queue, -1, 4);
    window.present(&mut queue);

    assert_eq!(window.title, Some("Title".to_string()));
    assert_eq!(window.url, Some("https://d.example/".to_string()));
    assert_eq!(window.favicon, Some("https://d.example/icon".to_string()));
    assert_eq!(window.cursor, Some(3));
    assert_eq!(window.status, Some("loading".to_string()));
    assert_eq!(window.load, Some(Load::Error { url: "https://bad".to_string() }));
    assert_eq!(window.size, (0, 0));

    let tagged = |e: BufferEvent| Event::Buffer(5, e);
    assert_eq!(
        queue,
        vec![
            tagged(BufferEvent::Title(Some("Title".to_string()))),
            tagged(BufferEvent::Url("https://d.example/".to_string())),
            tagged(BufferEvent::Favicon("https://d.example/icon".to_string())),
            tagged(BufferEvent::Cursor(3)),
            tagged(BufferEvent::Status(Some("loading".to_string()))),
            tagged(BufferEvent::Load(Load::Start { back: true, forward: false })),
            tagged(BufferEvent::Load(Load::Error { url: "https://bad".to_string() })),
            tagged(BufferEvent::Head),
            tagged(BufferEvent::Key { key: 65, modifiers: 2 }),
            tagged(BufferEvent::Resize { width: 10, height: 20 }),
            tagged(BufferEvent::Position { x: -1, y: 4 }),
            tagged(BufferEvent::Present),
        ]
    );
}

#[test]
fn host_window_geometry_and_capabilities() {
    let mut window = HostWindow::new(0);
    window.resize(120, 80);
    assert_eq!(window.framebuffer_size(2), (240, 160));
    assert_eq!(window.client_window(), ((120, 80), (0, 0)));
    assert!(window.supports_clipboard());
    assert!(window.prepare_for_composite(1, 1));

    let mut queue = Vec::new();
    window.load_end(&mut queue, false, true);
    assert_eq!(window.load, Some(Load::End { back: false, forward: true }));
    window.set_page_title(&mut queue, None);
    assert_eq!(window.title, None);
}

#[test]
fn buffer_reads_mirrored_state() {
    let mut out = Vec::new();
    let mut queue = Vec::new();
    let mut buffer = Buffer::new(0, &mut out);
    buffer.window.set_page_title(&mut queue, Some("Home".to_string()));
    buffer.window.set_page_url(&mut queue, "https://e.example/".to_string());
    assert_eq!(buffer.title(), Some("Home".to_string()));
    assert_eq!(buffer.url(), Some("https://e.example/".to_string()));
}

#[test]
fn thread_counts() {
    assert_eq!(threads_for(0), 1);
    assert_eq!(threads_for(1), 1);
    assert_eq!(threads_for(2), 1);
    assert_eq!(threads_for(4), 3);
    assert_eq!(threads_for(8), 6);
    assert_eq!(threads_for(7), 5);
    let big = usize::MAX;
    assert_eq!(threads_for(big) as u128, (big as u128) * 3 / 4);
    assert!(worker_threads() >= 1);
}

#[test]
fn events_of_unknown_buffers_are_harmless() {
    let mut browser = shown_browser();
    let mut out = Vec::new();
    browser.handle(&mut out, Event::Buffer(99, BufferEvent::Title(None)));
    assert!(out.is_empty());
    browser.handle(&mut out, Event::Buffer(99, BufferEvent::Load(Load::End { back: true, forward: true })));
    assert_eq!(out, vec![Action::Present]);
}
