use smol_clip::atoms::Atoms;
use smol_clip::clipboard::Clipboard;
use smol_clip::context::{ClipboardContext, ClipboardData};
use smol_clip::error::Error;
use smol_clip::protocol::{
    Conversion, Event, PropertyQuery, PropertyReply, Reply, Request, SelectionNotifyEvent,
};
use smol_clip::read::{Read, ReadState};
use smol_clip::window::XContext;

fn clipboard() -> Clipboard {
    let ids: Vec<u32> = (1..15).collect();
    let atoms = Atoms::from_ids(&ids).unwrap();
    Clipboard::opened(ClipboardContext::fresh(XContext { win_id: 77 }, atoms))
}

fn contents(read: Read) -> Result<ClipboardData, Error> {
    match read.state {
        ReadState::Finished(result) => result,
        other => panic!("{:?}", other),
    }
}

/// Somebody else has the clipboard, and window 88 is opened to ask them.
fn ask_somebody_else(clipboard: &Clipboard, read: &mut Read) {
    for reply in [
        Reply::Owner(5),
        Reply::Connected { screen: 0, roots: vec![100] },
        Reply::Id(88),
        Reply::Done,
        Reply::Done,
    ] {
        read.step(&clipboard.inner, reply);
    }
}

fn answer(target: u32, property: u32) -> Reply {
    Reply::Event(Some(Event::SelectionNotify(SelectionNotifyEvent {
        response_type: 0x9f,
        sequence: 3,
        time: 0,
        requestor: 88,
        selection: 1,
        target,
        property,
    })))
}

/// The owner is asked for a format, and has answered with this.
fn ask_for_format(clipboard: &Clipboard, read: &mut Read, reply: Reply) {
    for reply in [Reply::Done, Reply::Done, Reply::Done, Reply::Clock(0), Reply::Clock(1), reply] {
        read.step(&clipboard.inner, reply);
    }
}

#[test]
fn the_owner_is_asked_for_first() {
    let clipboard = clipboard();
    let read = clipboard.get_text();
    assert_eq!(
        read.request(&clipboard.inner),
        Some(Request::GetSelectionOwner { selection: 1 })
    );
}

#[test]
fn our_own_contents_need_no_asking() {
    let mut clipboard = clipboard();
    clipboard.inner.data = Some(ClipboardData { bytes: vec![104, 105], format: 11 });
    let mut read = clipboard.get_text();
    read.step(&clipboard.inner, Reply::Owner(77));
    let data = contents(read).unwrap();
    assert_eq!(data.bytes, vec![104, 105]);
    assert_eq!(data.format, 11);
}

#[test]
fn our_own_contents_in_another_format_are_not_available() {
    let mut clipboard = clipboard();
    clipboard.inner.data = Some(ClipboardData { bytes: vec![1], format: 13 });
    let mut read = clipboard.get_text();
    read.step(&clipboard.inner, Reply::Owner(77));
    assert_eq!(contents(read).unwrap_err(), Error::ContentNotAvailable);
}

#[test]
fn without_contents_of_our_own_nothing_is_available() {
    let clipboard = clipboard();
    let mut read = clipboard.get_text();
    read.step(&clipboard.inner, Reply::Owner(77));
    assert_eq!(contents(read).unwrap_err(), Error::ContentNotAvailable);
}

#[test]
fn a_failed_question_for_the_owner_is_described() {
    let clipboard = clipboard();
    let mut read = clipboard.get_text();
    read.step(&clipboard.inner, Reply::Failed("lost".to_string()));
    assert_eq!(
        contents(read).unwrap_err(),
        Error::Unknown { description: "lost".to_string() }
    );
}

#[test]
fn somebody_else_is_asked_through_a_window() {
    let clipboard = clipboard();
    let mut read = clipboard.get_text();
    ask_somebody_else(&clipboard, &mut read);
    assert_eq!(
        read.request(&clipboard.inner),
        Some(Request::DeleteProperty { window: 88, property: 14 })
    );
    read.step(&clipboard.inner, Reply::Done);
    assert_eq!(
        read.request(&clipboard.inner),
        Some(Request::ConvertSelection(Conversion {
            requestor: 88,
            selection: 1,
            target: 7,
            property: 14,
            time: 0,
        }))
    );
}

#[test]
fn a_window_that_cannot_be_opened_ends_the_reading() {
    let clipboard = clipboard();
    let mut read = clipboard.get_text();
    read.step(&clipboard.inner, Reply::Owner(5));
    read.step(&clipboard.inner, Reply::Connected { screen: 3, roots: vec![100] });
    assert_eq!(
        contents(read).unwrap_err(),
        Error::Unknown { description: "no screen found".to_string() }
    );
}

#[test]
fn the_first_format_that_the_owner_has_is_read() {
    let clipboard = clipboard();
    let mut read = clipboard.get_text();
    ask_somebody_else(&clipboard, &mut read);
    for target in [7, 8, 9] {
        ask_for_format(&clipboard, &mut read, answer(target, 0));
    }
    ask_for_format(&clipboard, &mut read, answer(10, 14));
    assert_eq!(
        read.request(&clipboard.inner),
        Some(Request::GetProperty(PropertyQuery {
            delete: true,
            window: 88,
            property: 14,
            type_: 10,
            long_offset: 0,
            long_length: 0x3fff_ffff,
        }))
    );
    read.step(
        &clipboard.inner,
        Reply::Property(PropertyReply { format: 8, type_: 10, value_len: 1, value: vec![0xe9] }),
    );
    assert_eq!(read.request(&clipboard.inner), None);
    assert_eq!(clipboard.finish_text(contents(read)), Ok("\u{e9}".to_string()));
}

#[test]
fn no_format_that_the_owner_has_means_no_contents() {
    let clipboard = clipboard();
    let mut read = clipboard.get_text();
    ask_somebody_else(&clipboard, &mut read);
    for target in 7..13 {
        ask_for_format(&clipboard, &mut read, answer(target, 0));
    }
    assert_eq!(contents(read).unwrap_err(), Error::ContentNotAvailable);
}

#[test]
fn a_failure_ends_the_reading_at_once() {
    let clipboard = clipboard();
    let mut read = clipboard.get_text();
    ask_somebody_else(&clipboard, &mut read);
    ask_for_format(&clipboard, &mut read, Reply::Failed("gone".to_string()));
    assert_eq!(
        contents(read).unwrap_err(),
        Error::Unknown { description: "gone".to_string() }
    );
}

#[test]
fn no_formats_at_all_mean_no_contents() {
    let clipboard = clipboard();
    let mut read = clipboard.inner.read(vec![]);
    ask_somebody_else(&clipboard, &mut read);
    assert_eq!(contents(read).unwrap_err(), Error::ContentNotAvailable);
}

#[test]
fn a_stray_reply_does_not_read() {
    let clipboard = clipboard();
    let mut read = clipboard.get_text();
    read.step(&clipboard.inner, Reply::Done);
    read.step(&clipboard.inner, Reply::Id(77));
    assert!(matches!(read.state, ReadState::AskingOwner));
}
