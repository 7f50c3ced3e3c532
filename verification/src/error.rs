//! What can go wrong with a clipboard operation.
use vstd::prelude::*;

verus! {

/// An error that might happen during a clipboard operation.
#[derive(Debug, Clone, PartialEq, Eq)]
pub enum Error {
    /// The clipboard is empty, or holds nothing in a requested format.
    ContentNotAvailable,
    /// The selected clipboard is not supported by the system.
    ClipboardNotSupported,
    /// The clipboard is held by another party.
    ClipboardOccupied,
    /// The image or the text could not be converted to the appropriate format.
    ConversionFailure,
    /// Anything else. The description is meant for people.
    Unknown { description: String },
}

/// The mathematical value of an [`Error`].
pub enum ErrorView {
    ContentNotAvailable,
    ClipboardNotSupported,
    ClipboardOccupied,
    ConversionFailure,
    Unknown { description: Seq<char> },
}

impl View for Error {
    type V = ErrorView;

    open spec fn view(&self) -> ErrorView {
        match self {
            Error::ContentNotAvailable => ErrorView::ContentNotAvailable,
            Error::ClipboardNotSupported => ErrorView::ClipboardNotSupported,
            Error::ClipboardOccupied => ErrorView::ClipboardOccupied,
            Error::ConversionFailure => ErrorView::ConversionFailure,
            Error::Unknown { description } => ErrorView::Unknown { description: description@ },
        }
    }
}

impl ErrorView {
    /// The sentence that an error is reported with.
    pub open spec fn text(self) -> Seq<char> {
        match self {
            ErrorView::ContentNotAvailable =>
                "The clipboard contents were not available in the requested format or the clipboard is empty."@,
            ErrorView::ClipboardNotSupported =>
                "The selected clipboard is not supported with the current system configuration."@,
            ErrorView::ClipboardOccupied =>
                "The native clipboard is not accessible due to being held by an other party."@,
            ErrorView::ConversionFailure =>
                "The image or the text that was about the be transferred to/from the clipboard could not be converted to the appropriate format."@,
            ErrorView::Unknown { description } =>
                "Unknown error while interacting with the clipboard: "@ + description,
        }
    }
}

/// `to_string` of `arboard::Error`: the sentence of each kind of error, which
/// for [`Error::Unknown`] is a fixed opening followed by the description.
#[verifier::external_body]
fn error_text(error: &Error) -> (text: String)
    ensures
        text@ == error@.text(),
{
    let error = match error {
        Error::ContentNotAvailable => arboard::Error::ContentNotAvailable,
        Error::ClipboardNotSupported => arboard::Error::ClipboardNotSupported,
        Error::ClipboardOccupied => arboard::Error::ClipboardOccupied,
        Error::ConversionFailure => arboard::Error::ConversionFailure,
        Error::Unknown { description } => arboard::Error::Unknown {
            description: description.clone(),
        },
    };
    error.to_string()
}

impl Error {
    /// The sentence that this error is reported with.
    pub fn describe(&self) -> (text: String)
        ensures
            text@ == self@.text(),
    {
        error_text(self)
    }
}

/// The error that stands for a failure known only by its description.
pub fn into_unknown(description: String) -> (error: Error)
    ensures
        error == (Error::Unknown { description }),
{
    Error::Unknown { description }
}

/// The mathematical value of the result of an operation that yields nothing.
pub open spec fn unit_result(result: Result<(), Error>) -> Result<(), ErrorView> {
    match result {
        Ok(()) => Ok(()),
        Err(error) => Err(error@),
    }
}

} // verus!
