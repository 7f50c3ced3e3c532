//! Laws of writing, and of reading back what was written.
use vstd::prelude::*;
use vstd::utf8::{encode_utf8_decode_utf8, encode_utf8_valid_utf8};
use crate::clipboard::{
    enters, image_addressable, image_formats, image_of, image_write, text_contents, text_formats,
    text_in, Entry,
};
use crate::atoms::Atoms;
use crate::context::{ClipboardContext, ContextView, DataView};
use crate::error::ErrorView;
use crate::picture::{holds, ImageData, ImageView};
use crate::protocol::ReplyView;
use crate::read::{ReadStateView, ReadView};
use crate::text::decode_latin1;
use crate::write::{stopped_text, WriteView};

verus! {

/// A writing and the clipboard after several replies.
pub open spec fn run_write(
    write: WriteView,
    context: ContextView,
    replies: Seq<ReplyView>,
) -> (WriteView, ContextView)
    decreases replies.len(),
{
    if replies.len() == 0 {
        (write, context)
    } else {
        let (write, context) = run_write(write, context, replies.drop_last());
        (write.next(context, replies.last()), write.context_after(context, replies.last()))
    }
}

/// A writing that succeeds leaves the data on the clipboard and all else as it
/// was; one that fails, or is not over, leaves everything as it was.
pub proof fn writing_stores_all_or_nothing(
    context: ContextView,
    data: DataView,
    replies: Seq<ReplyView>,
)
    ensures
        ({
            let (write, after) = run_write(WriteView::start(context, data), context, replies);
            if write == WriteView::Finished(Ok(())) {
                after == ContextView { data: Some(data), ..context }
            } else {
                after == context && (write is Finished || write.data() == Some(data))
            }
        }),
    decreases replies.len(),
{
    if replies.len() > 0 {
        writing_stores_all_or_nothing(context, data, replies.drop_last());
    }
}

/// Once requests are no longer answered, every writing is refused at once, and
/// nothing is asked of the server.
pub proof fn writing_is_refused_after_serving(
    context: ContextView,
    data: DataView,
    replies: Seq<ReplyView>,
)
    requires
        context.serve_stopped,
    ensures
        WriteView::start(context, data).pending(context) is None,
        run_write(WriteView::start(context, data), context, replies) == (
            WriteView::Finished(Err(ErrorView::Unknown { description: stopped_text() })),
            context,
        ),
{
    finished_writing_stays(WriteView::start(context, data), context, replies);
}

/// A writing succeeds just when we own the selection already, or when our claim
/// to it was sent.
pub proof fn writing_succeeds_with_the_selection(
    write: WriteView,
    context: ContextView,
    reply: ReplyView,
)
    requires
        !(write is Finished),
    ensures
        write.next(context, reply) == WriteView::Finished(Ok(())) <==> {
            ||| write is AskingOwner && (reply matches ReplyView::Owner(owner) && context.owns(
                owner,
            ))
            ||| write is Flushing && reply is Done
        },
{
}

/// The three replies that a claim to the selection takes are enough.
pub proof fn claim_takes_three_replies(context: ContextView, data: DataView, owner: u32)
    requires
        !context.serve_stopped,
        !context.owns(owner),
    ensures
        run_write(
            WriteView::start(context, data),
            context,
            seq![ReplyView::Owner(owner), ReplyView::Done, ReplyView::Done],
        ) == (
            WriteView::Finished(Ok::<(), ErrorView>(())),
            ContextView { data: Some(data), ..context },
        ),
{
    let replies = seq![ReplyView::Owner(owner), ReplyView::Done, ReplyView::Done];
    let start = WriteView::start(context, data);
    assert(replies.drop_last() == seq![ReplyView::Owner(owner), ReplyView::Done]);
    assert(replies.drop_last().drop_last() == seq![ReplyView::Owner(owner)]);
    assert(replies.drop_last().drop_last().drop_last() == Seq::<ReplyView>::empty());
    reveal_with_fuel(run_write, 4);
    assert(run_write(start, context, seq![ReplyView::Owner(owner)]) == (
        WriteView::Claiming(data),
        context,
    ));
}

/// Contents that are ours are read at once, in any of the formats that holds
/// theirs.
pub proof fn own_contents_are_read(context: ContextView, formats: Seq<u32>, data: DataView)
    requires
        context.data == Some(data),
        formats.contains(data.format),
    ensures
        ReadView::start(formats).next(
            context,
            ReplyView::Owner(context.server.win_id),
        ).state == ReadStateView::Finished(Ok::<DataView, ErrorView>(data)),
{
}

/// Without contents of ours in one of the formats there is nothing to read, as
/// long as the selection is ours.
pub proof fn nothing_else_is_read_from_ourselves(context: ContextView, formats: Seq<u32>)
    requires
        context.data matches Some(data) ==> !formats.contains(data.format),
    ensures
        ReadView::start(formats).next(
            context,
            ReplyView::Owner(context.server.win_id),
        ).state == ReadStateView::Finished(
            Err::<DataView, ErrorView>(ErrorView::ContentNotAvailable),
        ),
{
}

/// Text survives its way into the contents of the clipboard and out of them.
pub proof fn text_survives(atoms: Atoms, text: Seq<char>)
    requires
        atoms.distinct(),
    ensures
        text_in(atoms, Ok(text_contents(atoms, text))) == Ok::<Seq<char>, ErrorView>(text),
{
    encode_utf8_valid_utf8(text);
    encode_utf8_decode_utf8(text);
    assert(atoms.ids()[6] == atoms.UTF8_STRING);
    assert(atoms.ids()[9] == atoms.STRING);
}

/// Text that was put on the clipboard is what is read from it, as long as the
/// selection is ours.
pub proof fn written_text_is_read_back(
    context: ContextView,
    text: Seq<char>,
    replies: Seq<ReplyView>,
)
    requires
        context.atoms.distinct(),
        run_write(
            WriteView::start(context, text_contents(context.atoms, text)),
            context,
            replies,
        ).0 == WriteView::Finished(Ok::<(), ErrorView>(())),
    ensures
        ({
            let after = run_write(
                WriteView::start(context, text_contents(context.atoms, text)),
                context,
                replies,
            ).1;
            let read = ReadView::start(text_formats(after.atoms)).next(
                after,
                ReplyView::Owner(after.server.win_id),
            );
            &&& read.state is Finished
            &&& text_in(after.atoms, read.state->Finished_0) == Ok::<Seq<char>, ErrorView>(text)
        }),
{
    let data = text_contents(context.atoms, text);
    writing_stores_all_or_nothing(context, data, replies);
    text_survives(context.atoms, text);
    assert(text_formats(context.atoms)[0] == data.format);
}

/// All users of a process come to one clipboard, so what one of them has put there
/// is what any other reads: `before` is in the shared place when the one comes to
/// write, `after` when the other comes to read.
pub proof fn text_passes_between_users(
    before: ClipboardContext,
    writer: Entry<ClipboardContext>,
    text: Seq<char>,
    replies: Seq<ReplyView>,
    after: ClipboardContext,
    reader: Entry<ClipboardContext>,
)
    requires
        before.atoms.distinct(),
        enters(Some(&before), writer),
        enters(Some(&after), reader),
        run_write(
            WriteView::start(before@, text_contents(before.atoms, text)),
            before@,
            replies,
        ) == (WriteView::Finished(Ok::<(), ErrorView>(())), after@),
    ensures
        writer matches Entry::Shared(context) && *context == before,
        reader matches Entry::Shared(context) && {
            let read = ReadView::start(text_formats(context.atoms)).next(
                context@,
                ReplyView::Owner(context.server.win_id),
            );
            &&& read.state is Finished
            &&& text_in(context.atoms, read.state->Finished_0) == Ok::<Seq<char>, ErrorView>(
                text,
            )
        },
{
    written_text_is_read_back(before@, text, replies);
}

/// A writing that is over stays as it is, and so does the clipboard.
pub proof fn finished_writing_stays(
    write: WriteView,
    context: ContextView,
    replies: Seq<ReplyView>,
)
    requires
        write is Finished,
    ensures
        run_write(write, context, replies) == (write, context),
    decreases replies.len(),
{
    if replies.len() > 0 {
        finished_writing_stays(write, context, replies.drop_last());
    }
}

/// Whether this image is what is read from the clipboard, as long as the
/// selection is ours: the contents can be addressed, and are the image.
pub open spec fn yields_image(context: ContextView, image: ImageView) -> bool {
    let read = ReadView::start(image_formats(context.atoms)).next(
        context,
        ReplyView::Owner(context.server.win_id),
    );
    read.state matches ReadStateView::Finished(contents) && {
        &&& image_addressable(contents)
        &&& image_of(contents) == Ok::<ImageView, ErrorView>(image)
    }
}

/// An image that was put on the clipboard is what is read from it, as long as
/// the selection is ours, if it is kept in a file that holds it.
/// [`crate::clipboard::Clipboard::set_image`] sees to that, and promises the rest
/// on its strength. Sides of more than 32 bits are cut, so they do not come back.
pub proof fn written_image_is_read_back(
    context: ContextView,
    image: ImageData,
    replies: Seq<ReplyView>,
)
    requires
        image.width <= u32::MAX,
        image.height <= u32::MAX,
        image_write(context, image).data() matches Some(data) && holds(data.bytes, image),
        run_write(image_write(context, image), context, replies).0 == WriteView::Finished(
            Ok::<(), ErrorView>(()),
        ),
    ensures
        yields_image(run_write(image_write(context, image), context, replies).1, image@),
{
    let data = image_write(context, image).data().unwrap();
    writing_stores_all_or_nothing(context, data, replies);
    assert(image_formats(context.atoms)[0] == data.format);
}

/// Text in Latin-1 can always be read: it has a character for each byte, of the
/// same number.
pub proof fn latin1_text_keeps_its_bytes(atoms: Atoms, bytes: Seq<u8>)
    ensures
        text_in(atoms, Ok(DataView { bytes, format: atoms.STRING })) == Ok::<
            Seq<char>,
            ErrorView,
        >(decode_latin1(bytes)),
        decode_latin1(bytes).len() == bytes.len(),
        forall|i: int|
            0 <= i < bytes.len() ==> (#[trigger] decode_latin1(bytes)[i]) as u32 == bytes[i],
{
}

/// An image without pixels is accepted, and changes nothing.
pub proof fn empty_image_changes_nothing(
    context: ContextView,
    image: ImageData,
    replies: Seq<ReplyView>,
)
    requires
        image.width == 0 || image.height == 0,
    ensures
        run_write(image_write(context, image), context, replies) == (
            WriteView::Finished(Ok::<(), ErrorView>(())),
            context,
        ),
{
    finished_writing_stays(image_write(context, image), context, replies);
}

} // verus!
