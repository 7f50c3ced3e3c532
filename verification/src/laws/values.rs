//! Laws of the values that the other laws speak of: the contents of the clipboard,
//! atoms, errors and pictures.
use vstd::prelude::*;
use vstd::utf8::{decode_utf8, encode_utf8, valid_utf8};
use crate::atoms::{atom_name_list, Atoms};
use crate::clipboard::{
    enters, image_addressable, image_formats, image_of, image_write, puts_image, text_contents,
    text_formats, text_in, Entry,
};
use crate::context::{ContextView, DataView, ManagerHandoverState};
use crate::error::ErrorView;
use crate::laws::writing::run_write;
use crate::picture::{
    addressable, end_name, file_of, header_name, headers, headers_from, holds, image_in,
    png_file, png_layout, png_picture, writable, ImageData, ImageView,
};
use crate::protocol::{
    Event, PropertyNotifyEvent, PropertyReplyView, ReplyView, RequestView, SelectionNotifyEvent,
};
use crate::read::{ReadStateView, ReadView};
use crate::read_single::{timely, ReadPhaseView, ReadSingleView};
use crate::text::decode_latin1;
use crate::window::XContext;
use crate::write::WriteView;

verus! {

// ---------------------------------------------------------------- atoms

/// Each atom has the id that the server gave for its name, which stands in the same
/// place among the names.
pub proof fn atoms_are_interned_by_name(ids: Seq<u32>)
    requires
        ids.len() == 14,
    ensures
        ({
            let atoms = Atoms::of_ids(ids);
            let names = atom_name_list();
            &&& names.len() == 14
            &&& atoms.CLIPBOARD == ids[0] && names[0] == "CLIPBOARD"@
            &&& atoms.CLIPBOARD_MANAGER == ids[1] && names[1] == "CLIPBOARD_MANAGER"@
            &&& atoms.SAVE_TARGETS == ids[2] && names[2] == "SAVE_TARGETS"@
            &&& atoms.TARGETS == ids[3] && names[3] == "TARGETS"@
            &&& atoms.ATOM == ids[4] && names[4] == "ATOM"@
            &&& atoms.INCR == ids[5] && names[5] == "INCR"@
            &&& atoms.UTF8_STRING == ids[6] && names[6] == "UTF8_STRING"@
            &&& atoms.UTF8_MIME_0 == ids[7] && names[7] == "text/plain;charset=utf-8"@
            &&& atoms.UTF8_MIME_1 == ids[8] && names[8] == "text/plain;charset=UTF-8"@
            &&& atoms.STRING == ids[9] && names[9] == "STRING"@
            &&& atoms.TEXT == ids[10] && names[10] == "TEXT"@
            &&& atoms.TEXT_MIME_UNKNOWN == ids[11] && names[11] == "text/plain"@
            &&& atoms.PNG_MIME == ids[12] && names[12] == "image/png"@
            &&& atoms.ARBOARD_CLIPBOARD == ids[13] && names[13] == "ARBOARD_CLIPBOARD"@
        }),
        Atoms::of_ids(ids).ids() == ids,
        Atoms::of_ids(ids).distinct() <==> (forall|i: int, j: int|
            0 <= i < j < 14 ==> #[trigger] ids[i] != #[trigger] ids[j]),
{
    let atoms = Atoms::of_ids(ids);
    assert(atoms.ids() == ids);
    if forall|i: int, j: int| 0 <= i < j < 14 ==> #[trigger] ids[i] != #[trigger] ids[j] {
        assert forall|i: int, j: int|
            0 <= i < 14 && 0 <= j < 14 && i != j implies ids[i] != ids[j] by {
            if j < i {
                assert(ids[j] != ids[i]);
            }
        }
    }
}

// ---------------------------------------------------------------- errors

/// The sentence of each error.
pub proof fn errors_are_told(description: Seq<char>)
    ensures
        ErrorView::ContentNotAvailable.text()
            == "The clipboard contents were not available in the requested format or the clipboard is empty."@,
        ErrorView::ClipboardNotSupported.text()
            == "The selected clipboard is not supported with the current system configuration."@,
        ErrorView::ClipboardOccupied.text()
            == "The native clipboard is not accessible due to being held by an other party."@,
        ErrorView::ConversionFailure.text()
            == "The image or the text that was about the be transferred to/from the clipboard could not be converted to the appropriate format."@,
        (ErrorView::Unknown { description }).text()
            == "Unknown error while interacting with the clipboard: "@ + description,
{
}

// ---------------------------------------------------------------- the clipboard

/// A clipboard that was just opened has its window and atoms, no data and no
/// handover, and its requests are answered. A window is ours just if it is that one.
pub proof fn a_fresh_clipboard(server: XContext, atoms: Atoms, owner: u32)
    ensures
        ({
            let context = ContextView::fresh(server, atoms);
            &&& context.server == server
            &&& context.atoms == atoms
            &&& context.data is None
            &&& context.handover_state == ManagerHandoverState::Idle
            &&& !context.serve_stopped
        }),
        forall|context: ContextView| #[trigger]
            context.owns(owner) <==> owner == context.server.win_id,
{
}

/// Our data is read in any format that is its own, and in no other; it is offered
/// and served under its format, and UTF-8 text under its two other names, too.
pub proof fn our_data_and_its_names(context: ContextView, formats: Seq<u32>, target: u32)
    ensures
        ({
            let atoms = context.atoms;
            match context.data {
                None => {
                    &&& context.own_contents(formats) == Err::<DataView, ErrorView>(
                        ErrorView::ContentNotAvailable,
                    )
                    &&& context.targets() == seq![atoms.TARGETS, atoms.SAVE_TARGETS]
                    &&& context.serves(target) <==> target == atoms.TARGETS
                },
                Some(data) => {
                    let text = data.format == atoms.UTF8_STRING;
                    &&& (exists|i: int| 0 <= i < formats.len() && formats[i] == data.format)
                        ==> context.own_contents(formats) == Ok::<DataView, ErrorView>(data)
                    &&& (forall|i: int| 0 <= i < formats.len() ==> formats[i] != data.format)
                        ==> context.own_contents(formats) == Err::<DataView, ErrorView>(
                        ErrorView::ContentNotAvailable,
                    )
                    &&& text ==> context.targets() == seq![
                        atoms.TARGETS,
                        atoms.SAVE_TARGETS,
                        atoms.UTF8_STRING,
                        atoms.UTF8_MIME_0,
                        atoms.UTF8_MIME_1,
                    ]
                    &&& !text ==> context.targets() == seq![
                        atoms.TARGETS,
                        atoms.SAVE_TARGETS,
                        data.format,
                    ]
                    &&& context.serves(target) <==> {
                        ||| target == atoms.TARGETS
                        ||| target == data.format
                        ||| text && target == atoms.UTF8_MIME_0
                        ||| text && target == atoms.UTF8_MIME_1
                    }
                },
            }
        }),
        forall|format: u32| #[trigger]
            context.goes_by(format, target) <==> {
                ||| format == target
                ||| format == context.atoms.UTF8_STRING && target == context.atoms.UTF8_MIME_0
                ||| format == context.atoms.UTF8_STRING && target == context.atoms.UTF8_MIME_1
            },
{
}

/// A user comes to what is in the shared place, whatever it is, and to nothing else;
/// only where there is nothing, one is opened, from the beginning.
pub proof fn a_user_comes_to_the_clipboard<T>(global: &T, entry: Entry<T>)
    ensures
        enters(Some(global), entry) <==> entry == Entry::Shared(global),
        enters(None, entry) ==> (entry matches Entry::Opening(opening) && opening@.pending()
            == Some(RequestView::Connect)),
{
}

/// Every time that a clock can show, which is at most the longest duration, is one
/// that a reading takes.
pub proof fn every_time_is_timely(now: u128, reply: ReplyView)
    requires
        now <= 18_446_744_073_709_551_615 * 1_000_000_000 + 999_999_999,
    ensures
        timely(ReplyView::Clock(now)),
        !(reply is Clock) ==> timely(reply),
{
}

// ---------------------------------------------------------------- text

/// The formats that text and images are asked for in, the preferred one first.
pub proof fn formats_are_asked_for_in_order(atoms: Atoms)
    ensures
        text_formats(atoms).len() == 6,
        text_formats(atoms)[0] == atoms.UTF8_STRING,
        text_formats(atoms)[1] == atoms.UTF8_MIME_0,
        text_formats(atoms)[2] == atoms.UTF8_MIME_1,
        text_formats(atoms)[3] == atoms.STRING,
        text_formats(atoms)[4] == atoms.TEXT,
        text_formats(atoms)[5] == atoms.TEXT_MIME_UNKNOWN,
        image_formats(atoms).len() == 1,
        image_formats(atoms)[0] == atoms.PNG_MIME,
{
}

/// Text is kept as UTF-8, under that name. What was read is Latin-1 if that is its
/// format, a character for each byte; in any other format it is UTF-8, and where it
/// is not, it cannot be converted. An error of the reading is the outcome.
pub proof fn text_is_converted(
    atoms: Atoms,
    text: Seq<char>,
    data: DataView,
    error: ErrorView,
    i: int,
)
    ensures
        text_contents(atoms, text).bytes == encode_utf8(text),
        text_contents(atoms, text).format == atoms.UTF8_STRING,
        data.format == atoms.STRING ==> (text_in(atoms, Ok::<DataView, ErrorView>(data)) matches Ok(
            read,
        ) && read.len() == data.bytes.len() && (0 <= i < read.len() ==> read[i] as u32
            == data.bytes[i])),
        data.format != atoms.STRING && valid_utf8(data.bytes) ==> text_in(
            atoms,
            Ok::<DataView, ErrorView>(data),
        ) == Ok::<Seq<char>, ErrorView>(decode_utf8(data.bytes)),
        data.format != atoms.STRING && !valid_utf8(data.bytes) ==> text_in(
            atoms,
            Ok::<DataView, ErrorView>(data),
        ) == Err::<Seq<char>, ErrorView>(ErrorView::ConversionFailure),
        text_in(atoms, Err::<DataView, ErrorView>(error)) == Err::<Seq<char>, ErrorView>(error),
        decode_latin1(data.bytes).len() == data.bytes.len(),
        0 <= i < data.bytes.len() ==> decode_latin1(data.bytes)[i] as u32 == data.bytes[i],
{
}

// ---------------------------------------------------------------- images

/// An image that is read is the picture in the file, as wide and as high, with its
/// bytes; what is no picture cannot be converted; an error of the reading is the
/// outcome, and asks for no memory.
pub proof fn an_image_is_read(file: Seq<u8>, format: u32, error: ErrorView)
    ensures
        ({
            let data = DataView { bytes: file, format };
            &&& image_of(Ok::<DataView, ErrorView>(data)) == image_in(file)
            &&& image_addressable(Ok::<DataView, ErrorView>(data)) <==> addressable(file)
            &&& match png_picture(file) {
                Some((width, height, pixels)) => image_in(file) == Ok::<ImageView, ErrorView>(
                    ImageView { width: width as int, height: height as int, bytes: pixels },
                ),
                None => image_in(file) == Err::<ImageView, ErrorView>(ErrorView::ConversionFailure),
            }
        }),
        image_of(Err::<DataView, ErrorView>(error)) == Err::<ImageView, ErrorView>(error),
        image_addressable(Err::<DataView, ErrorView>(error)),
{
}

/// What becomes of an image that is put on the clipboard. One without pixels is
/// accepted, and nothing is done. Any other with four bytes for each pixel is kept as
/// a PNG file, unless requests are no longer answered; one with another number of
/// bytes cannot be converted.
pub proof fn an_image_is_written(context: ContextView, image: ImageData)
    ensures
        ({
            let width = image.width as u32;
            let height = image.height as u32;
            let write = image_write(context, image);
            let fits = width != 0 && height != 0 && image.bytes@.len() == 4 * (width * height);
            &&& image.width == 0 || image.height == 0 ==> write == WriteView::Finished(
                Ok::<(), ErrorView>(()),
            )
            &&& image.width != 0 && image.height != 0 && fits && !context.serve_stopped ==> write
                == WriteView::AskingOwner(
                DataView {
                    bytes: png_file(width, height, image.bytes@),
                    format: context.atoms.PNG_MIME,
                },
            )
            &&& image.width != 0 && image.height != 0 && fits && context.serve_stopped ==> (
            write matches WriteView::Finished(Err(ErrorView::Unknown { .. })))
            &&& image.width != 0 && image.height != 0 && !fits ==> write == WriteView::Finished(
                Err::<(), ErrorView>(ErrorView::ConversionFailure),
            )
            &&& fits ==> file_of(image) == Ok::<Seq<u8>, ErrorView>(
                png_file(width, height, image.bytes@),
            )
            &&& !fits ==> file_of(image) == Err::<Seq<u8>, ErrorView>(ErrorView::ConversionFailure)
            &&& writable(image) <==> (image.bytes@.len() == 4 * (width * height) ==> 4
                * image.bytes@.len() + 0x40_0000 <= isize::MAX)
        }),
{
}

/// The promise about an image that is put on the clipboard, spelled out: what is
/// put there is a file of it that can be decoded, and once it is there, what is read
/// is the image.
pub proof fn an_image_is_promised(
    write: WriteView,
    context: ContextView,
    image: ImageData,
    replies: Seq<ReplyView>,
)
    requires
        puts_image(write, context, image),
    ensures
        write == image_write(context, image),
        write matches WriteView::AskingOwner(data) ==> {
            &&& png_picture(data.bytes) == Some(
                (image.width as u32, image.height as u32, image.bytes@),
            )
            &&& addressable(data.bytes)
        },
        0 < image.width <= u32::MAX && 0 < image.height <= u32::MAX && run_write(
            write,
            context,
            replies,
        ).0 == WriteView::Finished(Ok::<(), ErrorView>(())) ==> {
            let after = run_write(write, context, replies).1;
            let read = ReadView::start(image_formats(after.atoms)).next(
                after,
                ReplyView::Owner(after.server.win_id),
            );
            &&& read.state matches ReadStateView::Finished(contents) && image_of(contents)
                == Ok::<ImageView, ErrorView>(
                ImageView {
                    width: image.width as int,
                    height: image.height as int,
                    bytes: image.bytes@,
                },
            ) && image_addressable(contents)
        },
{
}

/// A file holds an image if its picture is as wide and as high as the image, in 32
/// bits, and has its bytes, if it says so in the beginning, and if it can be decoded.
pub proof fn a_file_holds_an_image(file: Seq<u8>, image: ImageData)
    ensures
        holds(file, image) <==> {
            &&& png_picture(file) == Some((image.width as u32, image.height as u32, image.bytes@))
            &&& png_layout(file) == Some((image.width as u32, image.height as u32, 4u8))
            &&& addressable(file)
        },
{
}

/// Which files can be decoded with the addresses of this machine, in numbers: those
/// of half of what can be addressed at most, whose picture can be addressed as it is
/// and in four bytes per pixel, whose rows can be, twice, and whose bits can be
/// counted, if they may be interlaced.
pub proof fn what_can_be_decoded(file: Seq<u8>)
    ensures
        addressable(file) <==> {
            &&& 2 * file.len() <= isize::MAX
            &&& forall|i: int|
                0 <= i < headers(file).len() ==> ({
                    let header = #[trigger] headers(file)[i];
                    let width = header[0] * 0x100_0000 + header[1] * 0x1_0000 + header[2] * 0x100
                        + header[3];
                    let height = header[4] * 0x100_0000 + header[5] * 0x1_0000 + header[6] * 0x100
                        + header[7];
                    let gray = header[9] == 0 || header[9] == 4;
                    let row = if gray && header[8] != 16 {
                        2 * width
                    } else if gray || header[8] != 16 {
                        4 * width
                    } else {
                        8 * width
                    };
                    let legible = header.len() >= 13 && (header[8] == 1 || header[8] == 2
                        || header[8] == 4 || header[8] == 8 || header[8] == 16) && (header[9] == 0
                        || header[9] == 2 || header[9] == 3 || header[9] == 4 || header[9] == 6)
                        && header[10] == 0 && header[11] == 0 && header[12] <= 1;
                    &&& header.len() > 0x8000 ==> 16 * 0xffff_ffff + 0x10_0000 <= isize::MAX
                    &&& header.len() <= 0x8000 && legible ==> 2 * row + 0x10_0000 <= isize::MAX
                    &&& headers(file).len() > 1 ==> header.len() <= 0x8000 && (legible ==> row
                        * height <= usize::MAX)
                })
            &&& png_layout(file) matches Some((width, height, unit)) ==> {
                &&& 4 * (width * height) <= isize::MAX
                &&& unit * (width * height) <= isize::MAX
                &&& (exists|i: int|
                    0 <= i < headers(file).len() && ((#[trigger] headers(file)[i]).len() > 0x8000
                        || (headers(file)[i].len() >= 13 && headers(file)[i][12] != 0))) ==> 8 * (
                unit * (width * height)) <= usize::MAX
            }
        },
{
}

/// A chunk of a PNG file.
pub struct Chunk {
    pub name: Seq<u8>,
    pub contents: Seq<u8>,
    pub checksum: Seq<u8>,
}

impl Chunk {
    /// Whether the parts have the lengths that they have in a file.
    pub open spec fn sound(self) -> bool {
        &&& self.name.len() == 4
        &&& self.contents.len() <= 0xffff_ffff
        &&& self.checksum.len() == 4
    }

    /// The chunk as it stands in a file, its length first.
    pub open spec fn bytes(self) -> Seq<u8> {
        let length = self.contents.len() as int;
        seq![
            (length / 0x100_0000) as u8,
            (length / 0x1_0000 % 0x100) as u8,
            (length / 0x100 % 0x100) as u8,
            (length % 0x100) as u8,
        ] + self.name + self.contents + self.checksum
    }
}

/// Chunks, one behind the other.
pub open spec fn chunk_bytes(chunks: Seq<Chunk>) -> Seq<u8>
    decreases chunks.len(),
{
    if chunks.len() == 0 {
        seq![]
    } else {
        chunks[0].bytes() + chunk_bytes(chunks.skip(1))
    }
}

/// The contents of the chunks named `IHDR` before any that is named `IEND`.
pub open spec fn headers_among(chunks: Seq<Chunk>) -> Seq<Seq<u8>>
    decreases chunks.len(),
{
    if chunks.len() == 0 || chunks[0].name == seq![0x49u8, 0x45, 0x4e, 0x44] {
        seq![]
    } else if chunks[0].name == seq![0x49u8, 0x48, 0x44, 0x52] {
        seq![chunks[0].contents] + headers_among(chunks.skip(1))
    } else {
        headers_among(chunks.skip(1))
    }
}

/// Whether bytes break off before the contents of a chunk are complete.
pub open spec fn breaks_off(tail: Seq<u8>) -> bool {
    tail.len() < 8 || tail[0] * 0x100_0000 + tail[1] * 0x1_0000 + tail[2] * 0x100 + tail[3]
        > tail.len() - 8
}

/// The headers found in a file are those among its chunks, and letters elsewhere are
/// none, nor are any in a chunk that breaks off. What does not begin as a PNG file
/// has none.
pub proof fn headers_are_found(chunks: Seq<Chunk>, tail: Seq<u8>, other: Seq<u8>)
    requires
        forall|i: int| 0 <= i < chunks.len() ==> (#[trigger] chunks[i]).sound(),
        breaks_off(tail),
        !(seq![137u8, 80, 78, 71, 13, 10, 26, 10].is_prefix_of(other)),
    ensures
        headers(seq![137u8, 80, 78, 71, 13, 10, 26, 10] + chunk_bytes(chunks) + tail)
            == headers_among(chunks),
        headers(other) == Seq::<Seq<u8>>::empty(),
{
    let signature = seq![137u8, 80, 78, 71, 13, 10, 26, 10];
    let file = signature + chunk_bytes(chunks) + tail;
    assert(file.subrange(0, 4) == seq![137u8, 80, 78, 71]);
    assert(file.subrange(4, 8) == seq![13u8, 10, 26, 10]);
    headers_are_found_behind(signature, chunks, tail);
    if headers(other).len() > 0 {
        assert forall|i: int| 0 <= i < 8 implies signature[i] == other[i] by {
            if i < 4 {
                assert(other.subrange(0, 4)[i] == other[i]);
            } else {
                assert(other.subrange(4, 8)[i - 4] == other[i]);
            }
        }
        assert(other.take(8) == signature);
    }
}

/// The same, wherever the chunks begin.
proof fn headers_are_found_behind(before: Seq<u8>, chunks: Seq<Chunk>, tail: Seq<u8>)
    requires
        breaks_off(tail),
        forall|i: int| 0 <= i < chunks.len() ==> (#[trigger] chunks[i]).sound(),
    ensures
        headers_from(before + chunk_bytes(chunks) + tail, before.len() as int) == headers_among(
            chunks,
        ),
    decreases chunks.len(),
{
    let file = before + chunk_bytes(chunks) + tail;
    let pos = before.len() as int;
    if chunks.len() == 0 {
        reveal_with_fuel(headers_from, 2);
        assert(file == before + tail);
        if tail.len() >= 8 {
            assert(file[pos] == tail[0] && file[pos + 1] == tail[1] && file[pos + 2] == tail[2]
                && file[pos + 3] == tail[3]);
        }
    } else {
        let chunk = chunks[0];
        let rest = chunks.skip(1);
        let bytes = chunk.bytes();
        let length = chunk.contents.len() as int;
        assert(chunk.sound());
        assert(file == before + bytes + chunk_bytes(rest) + tail);
        assert(bytes.len() == 12 + length);
        assert(file[pos] == bytes[0] && file[pos + 1] == bytes[1] && file[pos + 2] == bytes[2]
            && file[pos + 3] == bytes[3]);
        assert(0 <= length / 0x100_0000 < 0x100);
        assert(length == (length / 0x100_0000) * 0x100_0000 + (length / 0x1_0000 % 0x100)
            * 0x1_0000 + (length / 0x100 % 0x100) * 0x100 + length % 0x100);
        assert(file.subrange(pos + 4, pos + 8) == chunk.name);
        assert(file.subrange(pos + 8, pos + 8 + length) == chunk.contents);
        assert forall|i: int| 0 <= i < rest.len() implies (#[trigger] rest[i]).sound() by {
            assert(rest[i] == chunks[i + 1]);
        }
        headers_are_found_behind(before + bytes, rest, tail);
        assert(end_name() == seq![0x49u8, 0x45, 0x4e, 0x44]);
        assert(header_name() == seq![0x49u8, 0x48, 0x44, 0x52]);
    }
}

// ---------------------------------------------------------------- parts of a turn

/// Each part of a turn of a reading does what the whole turn does when it comes to
/// that part.
pub proof fn parts_of_a_reading(
    read: ReadSingleView,
    told: SelectionNotifyEvent,
    news: PropertyNotifyEvent,
    reply: PropertyReplyView,
)
    ensures
        ({
            let at = |phase: ReadPhaseView| ReadSingleView { phase, ..read };
            &&& read.after_selection_notify(told) == at(ReadPhaseView::Polling).next(
                ReplyView::Event(Some(Event::SelectionNotify(told))),
            )
            &&& read.after_property_notify(news) == at(ReadPhaseView::Polling).next(
                ReplyView::Event(Some(Event::PropertyNotify(news))),
            )
            &&& read.after_selection(told, reply) == at(
                ReadPhaseView::FetchingSelection(told),
            ).next(ReplyView::Property(reply))
            &&& read.after_announcement() == at(ReadPhaseView::FetchingAnnouncement(told)).next(
                ReplyView::Property(reply),
            )
            &&& read.after_piece(reply) == at(ReadPhaseView::FetchingPiece(news)).next(
                ReplyView::Property(reply),
            )
        }),
{
}

} // verus!
