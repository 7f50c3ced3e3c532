//! The clipboard as its users see it.
use vstd::prelude::*;
use vstd::utf8::{decode_utf8, encode_utf8, valid_utf8};
use crate::atoms::Atoms;
use crate::context::{data_result, ClipboardContext, ClipboardData, ContextView, DataView};
use crate::error::{Error, ErrorView};
use crate::handover::{Handover, HandoverView};
use crate::laws::writing::{
    finished_writing_stays, run_write, written_image_is_read_back, yields_image,
};
use crate::open::{OpenContext, OpenContextView};
use crate::picture::{
    addressable, decode_image, encode_image, file_of, holds, image_in, image_result, is_writable,
    try_decode_image, writable, ImageData, ImageView,
};
use crate::protocol::{request_view, Reply, ReplyView, Request, RequestView};
use crate::read::{Read, ReadView};
use crate::text::{decode_latin1, text_from_latin1, text_from_utf8};
use crate::write::{Write, WriteView};

verus! {

/// With a single user there are this many owners of the state of a clipboard at
/// most: its place in the process, the thread that serves requests, unless it has
/// ended, and that user.
pub const MIN_OWNERS: usize = 3;

/// The clipboard.
#[derive(Debug)]
pub struct Clipboard {
    pub inner: ClipboardContext,
}

/// The formats in which text is accepted, the preferred one first.
pub open spec fn text_formats(atoms: Atoms) -> Seq<u32> {
    seq![
        atoms.UTF8_STRING,
        atoms.UTF8_MIME_0,
        atoms.UTF8_MIME_1,
        atoms.STRING,
        atoms.TEXT,
        atoms.TEXT_MIME_UNKNOWN,
    ]
}

/// The formats in which images are accepted.
pub open spec fn image_formats(atoms: Atoms) -> Seq<u32> {
    seq![atoms.PNG_MIME]
}

/// The text in the contents of the clipboard: Latin-1 if that is the format,
/// UTF-8 otherwise.
pub open spec fn text_in(atoms: Atoms, contents: Result<DataView, ErrorView>) -> Result<
    Seq<char>,
    ErrorView,
> {
    match contents {
        Err(error) => Err(error),
        Ok(data) => if data.format == atoms.STRING {
            Ok(decode_latin1(data.bytes))
        } else if valid_utf8(data.bytes) {
            Ok(decode_utf8(data.bytes))
        } else {
            Err(ErrorView::ConversionFailure)
        },
    }
}

/// The mathematical value of the outcome of reading text.
pub open spec fn text_result(result: Result<String, Error>) -> Result<Seq<char>, ErrorView> {
    match result {
        Ok(text) => Ok(text@),
        Err(error) => Err(error@),
    }
}

/// The contents that stand for a text.
pub open spec fn text_contents(atoms: Atoms, text: Seq<char>) -> DataView {
    DataView { bytes: encode_utf8(text), format: atoms.UTF8_STRING }
}

/// The image in the contents of the clipboard.
pub open spec fn image_of(contents: Result<DataView, ErrorView>) -> Result<ImageView, ErrorView> {
    match contents {
        Err(error) => Err(error),
        Ok(data) => image_in(data.bytes),
    }
}

/// Whether memory can be addressed for the image in the contents.
pub open spec fn image_addressable(contents: Result<DataView, ErrorView>) -> bool {
    contents matches Ok(data) ==> addressable(data.bytes)
}

/// The putting of an image on the clipboard. An image without pixels counts as
/// put there, and nothing happens.
pub open spec fn image_write(context: ContextView, image: ImageData) -> WriteView {
    if image.width == 0 || image.height == 0 {
        WriteView::Finished(Ok(()))
    } else {
        match file_of(image) {
            Ok(file) => WriteView::start(
                context,
                DataView { bytes: file, format: context.atoms.PNG_MIME },
            ),
            Err(error) => WriteView::Finished(Err(error)),
        }
    }
}

/// Whether this is a putting of the image on the clipboard: what is put there is a
/// file of the image, and once it is there, the image is what is read, as long as
/// the selection is ours. Sides of more than 32 bits are cut, so they do not come
/// back.
pub open spec fn puts_image(write: WriteView, context: ContextView, image: ImageData) -> bool {
    &&& write == image_write(context, image)
    &&& write.data() matches Some(data) ==> holds(data.bytes, image)
    &&& 0 < image.width <= u32::MAX && 0 < image.height <= u32::MAX ==> forall|
        replies: Seq<ReplyView>,
    |
        (#[trigger] run_write(write, context, replies)).0 == WriteView::Finished(
            Ok::<(), ErrorView>(()),
        ) ==> yields_image(run_write(write, context, replies).1, image@)
}

/// How a user comes to the clipboard. `T` is what the users of one process share.
pub enum Entry<'a, T> {
    /// The clipboard has users already, and is shared with them.
    Shared(&'a T),
    /// There is none, and one is opened.
    Opening(OpenContext),
}

/// Whether a user comes to the clipboard this way, when this is in its place: to
/// the very clipboard that is there, if one is.
pub open spec fn enters<'a, T>(global: Option<&'a T>, entry: Entry<'a, T>) -> bool {
    match (global, entry) {
        (Some(global), Entry::Shared(shared)) => shared == global,
        (None, Entry::Opening(opening)) => opening@ == OpenContextView::start(),
        _ => false,
    }
}

impl Clipboard {
    /// Brings a user to the clipboard of this process. If it is in its `global`
    /// place, it is shared, and nothing is opened; if not, its opening starts.
    pub fn new<'a, T>(global: Option<&'a T>) -> (entry: Entry<'a, T>)
        ensures
            enters(global, entry),
    {
        match global {
            Some(global) => Entry::Shared(global),
            None => Entry::Opening(ClipboardContext::new()),
        }
    }

    /// The clipboard that was opened.
    pub fn opened(inner: ClipboardContext) -> (clipboard: Clipboard)
        ensures
            clipboard.inner == inner,
    {
        Clipboard { inner }
    }

    /// Starts to read text. [`Clipboard::finish_text`] does the rest.
    pub fn get_text(&self) -> (read: Read)
        ensures
            read@ == ReadView::start(text_formats(self.inner.atoms)),
            read@.well_formed(),
    {
        let formats: Vec<u32> = vec![
            self.inner.atoms.UTF8_STRING,
            self.inner.atoms.UTF8_MIME_0,
            self.inner.atoms.UTF8_MIME_1,
            self.inner.atoms.STRING,
            self.inner.atoms.TEXT,
            self.inner.atoms.TEXT_MIME_UNKNOWN,
        ];
        assert(formats@ == text_formats(self.inner.atoms));
        self.inner.read(formats)
    }

    /// The text in what was read.
    pub fn finish_text(&self, contents: Result<ClipboardData, Error>) -> (text: Result<
        String,
        Error,
    >)
        ensures
            text_result(text) == text_in(self.inner.atoms, data_result(contents)),
    {
        match contents {
            Err(error) => Err(error),
            Ok(data) => if data.format == self.inner.atoms.STRING {
                Ok(text_from_latin1(&data.bytes))
            } else {
                match text_from_utf8(data.bytes) {
                    Ok(text) => Ok(text),
                    Err(_) => Err(Error::ConversionFailure),
                }
            },
        }
    }

    /// Starts to put text on the clipboard.
    pub fn set_text(&self, message: String) -> (write: Write)
        ensures
            write@ == WriteView::start(
                self.inner@,
                text_contents(self.inner.atoms, message@),
            ),
    {
        let data = ClipboardData {
            bytes: message.into_bytes(),
            format: self.inner.atoms.UTF8_STRING,
        };
        self.inner.write(data)
    }

    /// Starts to read an image. [`Clipboard::try_finish_image`] or
    /// [`Clipboard::finish_image`] does the rest.
    pub fn get_image(&self) -> (read: Read)
        ensures
            read@ == ReadView::start(image_formats(self.inner.atoms)),
            read@.well_formed(),
    {
        let formats: Vec<u32> = vec![self.inner.atoms.PNG_MIME];
        assert(formats@ == image_formats(self.inner.atoms));
        self.inner.read(formats)
    }

    /// The image in what was read, where it can be addressed.
    pub fn finish_image(&self, contents: Result<ClipboardData, Error>) -> (image: Result<
        ImageData,
        Error,
    >)
        requires
            image_addressable(data_result(contents)),
        ensures
            image_result(image) == image_of(data_result(contents)),
            image matches Ok(image) ==> image@.well_formed(),
    {
        match contents {
            Err(error) => Err(error),
            Ok(data) => decode_image(&data.bytes),
        }
    }

    /// The image in what was read, or `None` if it cannot be addressed.
    pub fn try_finish_image(&self, contents: Result<ClipboardData, Error>) -> (image: Option<
        Result<ImageData, Error>,
    >)
        ensures
            image is Some <==> image_addressable(data_result(contents)),
            image matches Some(image) ==> image_result(image) == image_of(data_result(contents)),
            image matches Some(Ok(image)) ==> image@.well_formed(),
    {
        match contents {
            Err(error) => Some(Err(error)),
            Ok(data) => try_decode_image(&data.bytes),
        }
    }

    /// Starts to put an image on the clipboard.
    pub fn set_image(&self, image: ImageData) -> (write: Write)
        requires
            writable(image),
        ensures
            puts_image(write@, self.inner@, image),
    {
        if image.width == 0 || image.height == 0 {
            return Write::Finished(Ok(()));
        }
        let write = match encode_image(&image) {
            Ok(bytes) => self.inner.write(
                ClipboardData { bytes, format: self.inner.atoms.PNG_MIME },
            ),
            Err(error) => Write::Finished(Err(error)),
        };
        proof {
            assert forall|replies: Seq<ReplyView>|
                image.width <= u32::MAX && image.height <= u32::MAX && (#[trigger] run_write(
                    write@,
                    self.inner@,
                    replies,
                )).0 == WriteView::Finished(Ok::<(), ErrorView>(())) implies yields_image(
                run_write(write@, self.inner@, replies).1,
                image@,
            ) by {
                if write@ is Finished {
                    finished_writing_stays(write@, self.inner@, replies);
                } else {
                    written_image_is_read_back(self.inner@, image, replies);
                }
            }
        }
        write
    }

    /// Starts to put an image on the clipboard; `None` if its file could not be
    /// addressed.
    pub fn try_set_image(&self, image: ImageData) -> (write: Option<Write>)
        ensures
            write is Some <==> writable(image),
            write matches Some(write) ==> puts_image(write@, self.inner@, image),
    {
        if is_writable(&image) {
            Some(self.set_image(image))
        } else {
            None
        }
    }

    /// Starts what one user's leaving brings about. `owners` is the number of
    /// owners of the clipboard's state, this user among them.
    pub fn drop(&self, owners: usize) -> (teardown: Teardown)
        ensures
            teardown@ == TeardownView::start(self.inner@, owners as int),
            teardown@.well_formed(),
    {
        if owners <= MIN_OWNERS {
            Teardown::with_handover(self.inner.ask_clipboard_manager_to_request_our_data())
        } else {
            Teardown::Finished
        }
    }
}

/// The end of the clipboard, after its last user: our data is handed over, then
/// the window is destroyed, which ends the thread that serves requests.
#[derive(Debug)]
pub enum Teardown {
    HandingOver(Handover),
    /// The clipboard is taken out of its place in the process.
    Taking,
    /// `present` tells whether it was there.
    Destroying { present: bool },
    Flushing { present: bool },
    Joining,
    Finished,
}

/// The mathematical value of a [`Teardown`].
pub enum TeardownView {
    HandingOver(HandoverView),
    Taking,
    Destroying { present: bool },
    Flushing { present: bool },
    Joining,
    Finished,
}

impl View for Teardown {
    type V = TeardownView;

    open spec fn view(&self) -> TeardownView {
        match self {
            Teardown::HandingOver(handover) => TeardownView::HandingOver(handover@),
            Teardown::Taking => TeardownView::Taking,
            Teardown::Destroying { present } => TeardownView::Destroying { present: *present },
            Teardown::Flushing { present } => TeardownView::Flushing { present: *present },
            Teardown::Joining => TeardownView::Joining,
            Teardown::Finished => TeardownView::Finished,
        }
    }
}

impl TeardownView {
    /// A handover that is over is not waited for.
    pub open spec fn well_formed(self) -> bool {
        self matches TeardownView::HandingOver(handover) ==> !(handover is Finished)
    }

    /// What the leaving of one of this many owners brings about.
    pub open spec fn start(context: ContextView, owners: int) -> TeardownView {
        if owners <= MIN_OWNERS {
            Self::with_handover(HandoverView::start(context))
        } else {
            TeardownView::Finished
        }
    }

    /// The teardown, the handover having come this far. That it failed changes
    /// nothing about the rest.
    pub open spec fn with_handover(handover: HandoverView) -> TeardownView {
        if handover is Finished {
            TeardownView::Taking
        } else {
            TeardownView::HandingOver(handover)
        }
    }

    /// What has to be done next.
    pub open spec fn pending(self, context: ContextView) -> Option<RequestView> {
        match self {
            TeardownView::HandingOver(handover) => handover.pending(context),
            TeardownView::Taking => Some(RequestView::TakeGlobal),
            TeardownView::Destroying { .. } => Some(
                RequestView::DestroyWindow { window: context.server.win_id },
            ),
            TeardownView::Flushing { .. } => Some(RequestView::Flush),
            TeardownView::Joining => Some(RequestView::JoinServer),
            TeardownView::Finished => None,
        }
    }

    /// The teardown after a reply. A failure ends it. A reply to something else
    /// changes nothing.
    pub open spec fn next(self, context: ContextView, reply: ReplyView) -> TeardownView {
        match (self, reply) {
            (TeardownView::HandingOver(handover), _) => Self::with_handover(
                handover.next(context, reply),
            ),
            (TeardownView::Taking, ReplyView::GlobalTaken { present }) =>
                TeardownView::Destroying { present },
            (TeardownView::Destroying { present }, ReplyView::Done) => TeardownView::Flushing {
                present,
            },
            (TeardownView::Destroying { .. }, ReplyView::Failed(_)) => TeardownView::Finished,
            (TeardownView::Flushing { present }, ReplyView::Done) => if present {
                TeardownView::Joining
            } else {
                TeardownView::Finished
            },
            (TeardownView::Flushing { .. }, ReplyView::Failed(_)) => TeardownView::Finished,
            (TeardownView::Joining, ReplyView::Done) => TeardownView::Finished,
            (TeardownView::Joining, ReplyView::Failed(_)) => TeardownView::Finished,
            _ => self,
        }
    }

    /// The clipboard after a reply.
    pub open spec fn context_after(self, context: ContextView, reply: ReplyView) -> ContextView {
        match self {
            TeardownView::HandingOver(handover) => handover.context_after(context, reply),
            _ => context,
        }
    }
}

impl Teardown {
    fn with_handover(handover: Handover) -> (teardown: Teardown)
        ensures
            teardown@ == TeardownView::with_handover(handover@),
    {
        match handover {
            Handover::Finished(_) => Teardown::Taking,
            handover => Teardown::HandingOver(handover),
        }
    }

    /// What has to be done next; `None` once the teardown is over.
    pub fn request(&self, context: &ClipboardContext) -> (request: Option<Request>)
        ensures
            request_view(request) == self@.pending(context@),
    {
        match self {
            Teardown::HandingOver(handover) => handover.request(context),
            Teardown::Taking => Some(Request::TakeGlobal),
            Teardown::Destroying { .. } => Some(
                Request::DestroyWindow { window: context.server.win_id },
            ),
            Teardown::Flushing { .. } => Some(Request::Flush),
            Teardown::Joining => Some(Request::JoinServer),
            Teardown::Finished => None,
        }
    }

    /// Takes the reply to the request.
    pub fn step(&mut self, context: &mut ClipboardContext, reply: Reply)
        ensures
            final(self)@ == old(self)@.next(old(context)@, reply@),
            final(self)@.well_formed(),
            final(context)@ == old(self)@.context_after(old(context)@, reply@),
    {
        let mut state = Teardown::Finished;
        std::mem::swap(&mut state, self);
        *self = match (state, reply) {
            (Teardown::HandingOver(mut handover), reply) => {
                handover.step(context, reply);
                Self::with_handover(handover)
            },
            (Teardown::Taking, Reply::GlobalTaken { present }) => Teardown::Destroying { present },
            (Teardown::Destroying { present }, Reply::Done) => Teardown::Flushing { present },
            (Teardown::Destroying { .. }, Reply::Failed(_)) => Teardown::Finished,
            (Teardown::Flushing { present }, Reply::Done) => if present {
                Teardown::Joining
            } else {
                Teardown::Finished
            },
            (Teardown::Flushing { .. }, Reply::Failed(_)) => Teardown::Finished,
            (Teardown::Joining, Reply::Done) => Teardown::Finished,
            (Teardown::Joining, Reply::Failed(_)) => Teardown::Finished,
            (state, _) => state,
        };
    }
}

} // verus!
