use smol_clip::atoms::Atoms;
use smol_clip::clipboard::{Clipboard, Entry};
use smol_clip::context::{ClipboardContext, ClipboardData};
use smol_clip::error::Error;
use smol_clip::picture::ImageData;
use smol_clip::protocol::{Reply, Request};
use smol_clip::read::{Read, ReadState};
use smol_clip::window::XContext;
use smol_clip::write::Write;

fn clipboard() -> Clipboard {
    let ids: Vec<u32> = (1..15).collect();
    let atoms = Atoms::from_ids(&ids).unwrap();
    Clipboard::opened(ClipboardContext::fresh(XContext { win_id: 77 }, atoms))
}

fn outcome(write: Write) -> Result<(), Error> {
    match write {
        Write::Finished(result) => result,
        other => panic!("{:?}", other),
    }
}

fn contents(read: Read) -> Result<ClipboardData, Error> {
    match read.state {
        ReadState::Finished(result) => result,
        other => panic!("{:?}", other),
    }
}

#[test]
fn text_is_stored_when_the_selection_is_ours() {
    let mut clipboard = clipboard();
    let mut write = clipboard.set_text("h\u{e9}llo".to_string());
    assert_eq!(
        write.request(&clipboard.inner),
        Some(Request::GetSelectionOwner { selection: 1 })
    );
    write.step(&mut clipboard.inner, Reply::Owner(77));
    assert_eq!(write.request(&clipboard.inner), None);
    assert_eq!(outcome(write), Ok(()));
    let data = clipboard.inner.data.unwrap();
    assert_eq!(data.bytes, vec![b'h', 0xc3, 0xa9, b'l', b'l', b'o']);
    assert_eq!(data.format, 7);
}

#[test]
fn the_selection_is_claimed_from_others() {
    let mut clipboard = clipboard();
    let mut write = clipboard.set_text("x".to_string());
    write.step(&mut clipboard.inner, Reply::Owner(5));
    assert!(clipboard.inner.data.is_none());
    assert_eq!(
        write.request(&clipboard.inner),
        Some(Request::SetSelectionOwner { owner: 77, selection: 1, time: 0 })
    );
    write.step(&mut clipboard.inner, Reply::Done);
    assert!(clipboard.inner.data.is_none());
    assert_eq!(write.request(&clipboard.inner), Some(Request::Flush));
    write.step(&mut clipboard.inner, Reply::Done);
    assert_eq!(outcome(write), Ok(()));
    assert_eq!(clipboard.inner.data.unwrap().bytes, b"x".to_vec());
}

#[test]
fn an_occupied_selection_is_reported() {
    let mut clipboard = clipboard();
    let mut write = clipboard.set_text("x".to_string());
    write.step(&mut clipboard.inner, Reply::Owner(5));
    write.step(&mut clipboard.inner, Reply::Failed("whatever".to_string()));
    assert_eq!(outcome(write), Err(Error::ClipboardOccupied));
    assert!(clipboard.inner.data.is_none());
}

#[test]
fn other_failures_of_writing_are_described() {
    let mut clipboard = clipboard();
    let mut write = clipboard.set_text("x".to_string());
    write.step(&mut clipboard.inner, Reply::Failed("one".to_string()));
    assert_eq!(outcome(write), Err(Error::Unknown { description: "one".to_string() }));

    let mut write = clipboard.set_text("x".to_string());
    write.step(&mut clipboard.inner, Reply::Owner(5));
    write.step(&mut clipboard.inner, Reply::Done);
    write.step(&mut clipboard.inner, Reply::Failed("two".to_string()));
    assert_eq!(outcome(write), Err(Error::Unknown { description: "two".to_string() }));
    assert!(clipboard.inner.data.is_none());
}

#[test]
fn a_failed_writing_keeps_the_old_contents() {
    let mut clipboard = clipboard();
    let mut write = clipboard.set_text("old".to_string());
    write.step(&mut clipboard.inner, Reply::Owner(77));
    assert_eq!(outcome(write), Ok(()));
    let mut write = clipboard.set_text("new".to_string());
    write.step(&mut clipboard.inner, Reply::Failed("lost".to_string()));
    assert!(outcome(write).is_err());
    assert_eq!(clipboard.inner.data.unwrap().bytes, b"old".to_vec());
}

#[test]
fn nothing_is_written_once_serving_has_stopped() {
    let mut clipboard = clipboard();
    clipboard.inner.stop_serving();
    assert!(clipboard.inner.serve_stopped);
    let write = clipboard.set_text("x".to_string());
    assert_eq!(write.request(&clipboard.inner), None);
    assert_eq!(
        outcome(write),
        Err(Error::Unknown {
            description: "The clipboard handler thread seems to have stopped. Logging messages may reveal the cause. (See the `log` crate.)".to_string()
        })
    );
}

#[test]
fn a_stray_reply_does_not_write() {
    let mut clipboard = clipboard();
    let mut write = clipboard.set_text("x".to_string());
    write.step(&mut clipboard.inner, Reply::Done);
    write.step(&mut clipboard.inner, Reply::Clock(4));
    assert!(matches!(write, Write::AskingOwner(_)));
    assert!(clipboard.inner.data.is_none());
}

#[test]
fn written_text_comes_back() {
    let mut clipboard = clipboard();
    let text = "Hello Clipboard manager! \u{20ac} \u{1f600}".to_string();
    let mut write = clipboard.set_text(text.clone());
    write.step(&mut clipboard.inner, Reply::Owner(77));
    assert_eq!(outcome(write), Ok(()));
    let mut read = clipboard.get_text();
    read.step(&clipboard.inner, Reply::Owner(77));
    assert_eq!(clipboard.finish_text(contents(read)), Ok(text));
}

#[test]
fn written_image_comes_back() {
    let mut clipboard = clipboard();
    let image = ImageData {
        width: 2,
        height: 2,
        bytes: vec![255, 100, 100, 255, 100, 255, 100, 100, 100, 100, 255, 100, 0, 0, 0, 255],
    };
    let mut write = clipboard.set_image(image.clone());
    write.step(&mut clipboard.inner, Reply::Owner(77));
    assert_eq!(outcome(write), Ok(()));
    assert_eq!(clipboard.inner.data.as_ref().unwrap().format, 13);
    let mut read = clipboard.get_image();
    assert_eq!(read.formats, vec![13]);
    read.step(&clipboard.inner, Reply::Owner(77));
    assert_eq!(clipboard.try_finish_image(contents(read)), Some(Ok(image)));
}

#[test]
fn what_one_user_writes_another_reads() {
    let mut shared = clipboard();
    let mut write = match Clipboard::new(Some(&shared)) {
        Entry::Shared(clipboard) => clipboard.set_text("shared".to_string()),
        Entry::Opening(_) => panic!("one is running"),
    };
    write.step(&mut shared.inner, Reply::Owner(77));
    assert_eq!(outcome(write), Ok(()));
    match Clipboard::new(Some(&shared)) {
        Entry::Shared(clipboard) => {
            let mut read = clipboard.get_text();
            read.step(&clipboard.inner, Reply::Owner(77));
            assert_eq!(clipboard.finish_text(contents(read)), Ok("shared".to_string()));
        }
        Entry::Opening(_) => panic!("one is running"),
    }
}

#[test]
fn images_are_written_where_their_file_can_be_addressed() {
    let clipboard = clipboard();
    let image = ImageData { width: 1, height: 2, bytes: vec![1, 2, 3, 4, 5, 6, 7, 8] };
    match clipboard.try_set_image(image) {
        Some(Write::AskingOwner(data)) => assert_eq!(data.format, 13),
        other => panic!("{:?}", other),
    }
    let image = ImageData { width: 1, height: 2, bytes: vec![1] };
    assert_eq!(
        outcome(clipboard.try_set_image(image).unwrap()),
        Err(Error::ConversionFailure)
    );
}

#[test]
fn text_is_no_image() {
    let mut clipboard = clipboard();
    let mut write = clipboard.set_text("x".to_string());
    write.step(&mut clipboard.inner, Reply::Owner(77));
    assert_eq!(outcome(write), Ok(()));
    let mut read = clipboard.get_image();
    read.step(&clipboard.inner, Reply::Owner(77));
    assert_eq!(
        clipboard.try_finish_image(contents(read)),
        Some(Err(Error::ContentNotAvailable))
    );
}

#[test]
fn an_image_without_pixels_is_not_written() {
    let clipboard = clipboard();
    for (width, height) in [(0, 3), (3, 0), (0, 0)] {
        let write = clipboard.set_image(ImageData { width, height, bytes: vec![1, 2, 3] });
        assert_eq!(write.request(&clipboard.inner), None);
        assert_eq!(outcome(write), Ok(()));
    }
}

#[test]
fn an_image_with_the_wrong_number_of_bytes_is_not_written() {
    let clipboard = clipboard();
    let write = clipboard.set_image(ImageData { width: 2, height: 2, bytes: vec![0; 15] });
    assert_eq!(outcome(write), Err(Error::ConversionFailure));
}
