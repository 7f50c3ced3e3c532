use smol_clip::atoms::Atoms;
use smol_clip::clipboard::{Clipboard, Entry};
use smol_clip::context::{ClipboardContext, ManagerHandoverState};
use smol_clip::error::Error;
use smol_clip::open::OpenContext;
use smol_clip::protocol::{NewWindow, Reply, Request};
use smol_clip::window::{OpenWindow, XContext};

fn connected() -> Reply {
    Reply::Connected { screen: 1, roots: vec![100, 200] }
}

fn unknown(description: &str) -> Error {
    Error::Unknown { description: description.to_string() }
}

#[test]
fn a_window_is_opened_on_the_preferred_screen() {
    let mut opening = XContext::new();
    assert_eq!(opening.request(), Some(Request::Connect));
    opening.step(connected());
    assert_eq!(opening.request(), Some(Request::GenerateId));
    opening.step(Reply::Id(77));
    assert_eq!(
        opening.request(),
        Some(Request::CreateWindow(NewWindow {
            depth: 0,
            wid: 77,
            parent: 200,
            x: 0,
            y: 0,
            width: 1,
            height: 1,
            border_width: 0,
            class: 0,
            visual: 0,
            event_mask: 0x0042_0000,
        }))
    );
    opening.step(Reply::Done);
    assert_eq!(opening.request(), Some(Request::Flush));
    opening.step(Reply::Done);
    assert_eq!(opening.request(), None);
    assert!(matches!(opening, OpenWindow::Opened(Ok(XContext { win_id: 77 }))));
}

#[test]
fn a_missing_screen_is_reported() {
    let mut opening = XContext::new();
    opening.step(Reply::Connected { screen: 2, roots: vec![100, 200] });
    match opening {
        OpenWindow::Opened(Err(error)) => assert_eq!(error, unknown("no screen found")),
        other => panic!("{:?}", other),
    }
}

#[test]
fn every_failure_while_opening_a_window_is_reported() {
    let replies = vec![connected(), Reply::Id(77), Reply::Done, Reply::Done];
    for failing in 0..replies.len() {
        let mut opening = XContext::new();
        for reply in &replies[..failing] {
            opening.step(reply.clone());
        }
        opening.step(Reply::Failed("refused".to_string()));
        assert_eq!(opening.request(), None);
        match opening {
            OpenWindow::Opened(Err(error)) => assert_eq!(error, unknown("refused")),
            other => panic!("{:?}", other),
        }
    }
}

#[test]
fn a_stray_reply_does_not_open_a_window() {
    let mut opening = XContext::new();
    opening.step(Reply::Done);
    opening.step(Reply::Id(3));
    assert!(matches!(opening, OpenWindow::Connecting));
}

#[test]
fn the_clipboard_is_opened_empty() {
    let mut opening = ClipboardContext::new();
    for reply in [connected(), Reply::Id(77), Reply::Done, Reply::Done] {
        opening.step(reply);
    }
    assert_eq!(opening.request(), Some(Request::InternAtoms));
    let ids: Vec<u32> = (1..15).collect();
    opening.step(Reply::Interned(ids.clone()));
    assert_eq!(opening.request(), None);
    match opening {
        OpenContext::Opened(Ok(context)) => {
            assert_eq!(context.server, XContext { win_id: 77 });
            assert_eq!(Some(context.atoms), Atoms::from_ids(&ids));
            assert!(context.data.is_none());
            assert_eq!(context.handover_state, ManagerHandoverState::Idle);
            assert!(!context.serve_stopped);
        }
        other => panic!("{:?}", other),
    }
}

#[test]
fn failures_while_opening_the_clipboard_are_reported() {
    let mut opening = ClipboardContext::new();
    opening.step(Reply::Failed("no display".to_string()));
    match opening {
        OpenContext::Opened(Err(error)) => assert_eq!(error, unknown("no display")),
        other => panic!("{:?}", other),
    }

    let mut opening = ClipboardContext::new();
    for reply in [connected(), Reply::Id(77), Reply::Done, Reply::Done] {
        opening.step(reply);
    }
    opening.step(Reply::Failed("lost".to_string()));
    match opening {
        OpenContext::Opened(Err(error)) => assert_eq!(error, unknown("lost")),
        other => panic!("{:?}", other),
    }
}

#[test]
fn a_running_clipboard_is_shared() {
    let running = String::from("the one in its place");
    for _ in 0..2 {
        match Clipboard::new(Some(&running)) {
            Entry::Shared(shared) => assert!(std::ptr::eq(shared, &running)),
            Entry::Opening(_) => panic!("one is running"),
        }
    }
}

#[test]
fn without_a_running_clipboard_one_is_opened() {
    match Clipboard::new::<String>(None) {
        Entry::Opening(opening) => assert_eq!(opening.request(), Some(Request::Connect)),
        Entry::Shared(_) => panic!("nothing is running"),
    }
}
