use smol_clip::error::{into_unknown, Error};

#[test]
fn missing_contents_are_described() {
    assert_eq!(
        Error::ContentNotAvailable.describe(),
        "The clipboard contents were not available in the requested format or the clipboard is empty."
    );
}

#[test]
fn a_missing_clipboard_is_described() {
    assert_eq!(
        Error::ClipboardNotSupported.describe(),
        "The selected clipboard is not supported with the current system configuration."
    );
}

#[test]
fn an_occupied_clipboard_is_described() {
    assert_eq!(
        Error::ClipboardOccupied.describe(),
        "The native clipboard is not accessible due to being held by an other party."
    );
}

#[test]
fn a_failed_conversion_is_described() {
    assert_eq!(
        Error::ConversionFailure.describe(),
        "The image or the text that was about the be transferred to/from the clipboard could not be converted to the appropriate format."
    );
}

#[test]
fn an_unknown_failure_is_described() {
    assert_eq!(
        into_unknown("broken pipe".to_string()),
        Error::Unknown { description: "broken pipe".to_string() }
    );
    assert_eq!(
        into_unknown("broken pipe".to_string()).describe(),
        "Unknown error while interacting with the clipboard: broken pipe"
    );
    assert_eq!(
        into_unknown(String::new()).describe(),
        "Unknown error while interacting with the clipboard: "
    );
}
