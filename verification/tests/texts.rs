use smol_clip::atoms::Atoms;
use smol_clip::clipboard::Clipboard;
use smol_clip::context::{ClipboardContext, ClipboardData};
use smol_clip::error::Error;
use smol_clip::text::text_from_latin1;
use smol_clip::window::XContext;

fn clipboard() -> Clipboard {
    let ids: Vec<u32> = (1..15).collect();
    let atoms = Atoms::from_ids(&ids).unwrap();
    Clipboard::opened(ClipboardContext::fresh(XContext { win_id: 77 }, atoms))
}

fn read_as(format: u32, bytes: &[u8]) -> Result<String, Error> {
    clipboard().finish_text(Ok(ClipboardData { bytes: bytes.to_vec(), format }))
}

#[test]
fn formats_of_text_are_tried_in_order() {
    assert_eq!(clipboard().get_text().formats, vec![7, 8, 9, 10, 11, 12]);
}

#[test]
fn utf8_text_is_decoded() {
    for format in [7, 8, 9, 11, 12] {
        assert_eq!(read_as(format, &[b'a', 0xc3, 0xa9]), Ok("a\u{e9}".to_string()));
    }
    assert_eq!(read_as(7, &[]), Ok(String::new()));
}

#[test]
fn broken_utf8_is_not_converted() {
    for format in [7, 8, 9, 11, 12] {
        assert_eq!(read_as(format, &[b'a', 0xc3]), Err(Error::ConversionFailure));
    }
    assert_eq!(read_as(7, &[0xff]), Err(Error::ConversionFailure));
    assert_eq!(read_as(7, &[0xed, 0xa0, 0x80]), Err(Error::ConversionFailure));
}

#[test]
fn latin1_text_is_decoded() {
    assert_eq!(read_as(10, &[b'a', 0xe9, 0xff, 0x80]), Ok("a\u{e9}\u{ff}\u{80}".to_string()));
    assert_eq!(text_from_latin1(&vec![]), "");
    let all: Vec<u8> = (0..=255).collect();
    let text = text_from_latin1(&all);
    let back: Vec<u32> = text.chars().map(u32::from).collect();
    let expected: Vec<u32> = (0..256).collect();
    assert_eq!(back, expected);
}

#[test]
fn a_failed_reading_of_text_is_passed_on() {
    assert_eq!(
        clipboard().finish_text(Err(Error::ContentNotAvailable)),
        Err(Error::ContentNotAvailable)
    );
}
