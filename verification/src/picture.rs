//! Images as PNG files.
use vstd::prelude::*;
use crate::error::{Error, ErrorView};

verus! {

/// The error of the `image` crate.
#[verifier::external_type_specification]
#[verifier::external_body]
pub struct ExImageError(image::ImageError);

/// The width, the height and the number of bytes per pixel of the picture in a
/// PNG file as it will be decoded, if its beginning can be read. One that takes
/// more bytes than the machine can count counts as unreadable.
pub uninterp spec fn png_layout(file: Seq<u8>) -> Option<(u32, u32, u8)>;

/// The width, the height and the RGBA bytes of the picture in a PNG file, if
/// it is one, and takes no more bytes than the machine can count.
pub uninterp spec fn png_picture(file: Seq<u8>) -> Option<(u32, u32, Seq<u8>)>;

/// The PNG file of a picture of this width and height with these RGBA bytes.
pub uninterp spec fn png_file(width: u32, height: u32, pixels: Seq<u8>) -> Seq<u8>;

/// The most bytes of a chunk that the decoder looks at together.
pub const CHUNK_PIECE: u32 = 0x8000;

/// The number of bytes in the header of a PNG file.
pub const HEADER_LENGTH: u32 = 13;

/// How much more than a row the decoder may have to keep, in bytes.
pub const ROW_SLACK: u64 = 0x10_0000;

/// How much more than the pixels themselves a file may take, in bytes.
pub const FILE_SLACK: u64 = 0x40_0000;

/// The number that four bytes make from `i` on, the most significant first.
pub open spec fn word_at(bytes: Seq<u8>, i: int) -> int {
    bytes[i] * 0x100_0000 + bytes[i + 1] * 0x1_0000 + bytes[i + 2] * 0x100 + bytes[i + 3]
}

/// Whether the file begins as every PNG file does.
pub open spec fn signed(file: Seq<u8>) -> bool {
    &&& file.len() >= 8
    &&& file.subrange(0, 4) == seq![137u8, 80, 78, 71]
    &&& file.subrange(4, 8) == seq![13u8, 10, 26, 10]
}

/// The name of the chunk that holds a header: `IHDR`.
pub open spec fn header_name() -> Seq<u8> {
    seq![0x49, 0x48, 0x44, 0x52]
}

/// The name of the last chunk: `IEND`.
pub open spec fn end_name() -> Seq<u8> {
    seq![0x49, 0x45, 0x4e, 0x44]
}

/// The contents of the header chunks from the chunk at `pos` on. A chunk is the
/// length of its contents, its name, its contents and a checksum.
pub open spec fn headers_from(file: Seq<u8>, pos: int) -> Seq<Seq<u8>>
    decreases
            if pos <= file.len() {
                file.len() - pos
            } else {
                0
            },
{
    if pos < 0 || pos + 8 > file.len() {
        seq![]
    } else {
        let name = file.subrange(pos + 4, pos + 8);
        let end = pos + 8 + word_at(file, pos);
        if name == end_name() {
            seq![]
        } else if name == header_name() && end <= file.len() {
            seq![file.subrange(pos + 8, end)] + headers_from(file, end + 4)
        } else {
            headers_from(file, end + 4)
        }
    }
}

/// The contents of the header chunks of a PNG file. There should be one.
pub open spec fn headers(file: Seq<u8>) -> Seq<Seq<u8>> {
    if signed(file) {
        headers_from(file, 8)
    } else {
        seq![]
    }
}

/// Whether a header says what a header can say: the bits per sample, the kind of
/// color, the methods of compression and filtering, and whether it is interlaced.
/// The decoder gives up on any other.
pub open spec fn readable(header: Seq<u8>) -> bool {
    &&& header.len() >= HEADER_LENGTH
    &&& header[8] == 1 || header[8] == 2 || header[8] == 4 || header[8] == 8 || header[8] == 16
    &&& header[9] == 0 || header[9] == 2 || header[9] == 3 || header[9] == 4 || header[9] == 6
    &&& header[10] == 0
    &&& header[11] == 0
    &&& header[12] <= 1
}

/// How many bytes a row can have, read or expanded: that of a gray picture has up
/// to two samples per pixel, that of any other up to four, each of one byte or two.
pub open spec fn row_bytes(header: Seq<u8>) -> int {
    let gray = header[9] == 0 || header[9] == 4;
    let wide = header[8] == 16;
    let width = word_at(header, 0);
    if gray && !wide {
        2 * width
    } else if gray || !wide {
        4 * width
    } else {
        8 * width
    }
}

/// Whether memory can be addressed for twice a row of this many bytes. The
/// decoder sets a row aside, and may double what it has when it reads on.
pub open spec fn row_fits(bytes: int) -> bool {
    2 * bytes + ROW_SLACK <= isize::MAX
}

/// Whether memory can be addressed for the rows that a header declares. Of one
/// that is not looked at as a whole, only the last piece counts, so it counts as
/// declaring the widest rows there are.
pub open spec fn row_addressable(header: Seq<u8>) -> bool {
    if header.len() > CHUNK_PIECE {
        row_fits(8 * 0xffff_ffffint)
    } else {
        readable(header) ==> row_fits(row_bytes(header))
    }
}

/// Whether memory can be addressed for the rows that these headers declare.
pub open spec fn all_rows_addressable(headers: Seq<Seq<u8>>) -> bool {
    forall|i: int| 0 <= i < headers.len() ==> row_addressable(#[trigger] headers[i])
}

/// Whether a header may declare an interlaced picture.
pub open spec fn may_interlace(header: Seq<u8>) -> bool {
    header.len() > CHUNK_PIECE || (header.len() >= HEADER_LENGTH && header[12] != 0)
}

/// Whether one of these headers may declare an interlaced picture.
pub open spec fn any_may_interlace(headers: Seq<Seq<u8>>) -> bool {
    exists|i: int| 0 <= i < headers.len() && may_interlace(#[trigger] headers[i])
}

/// Whether the bytes of the picture that a header declares can be counted. Of one
/// that is not looked at as a whole, this is not known.
pub open spec fn countable(header: Seq<u8>) -> bool {
    &&& header.len() <= CHUNK_PIECE
    &&& readable(header) ==> row_bytes(header) * word_at(header, 4) <= usize::MAX
}

/// Whether the bytes of the pictures that these headers declare can be counted.
pub open spec fn all_countable(headers: Seq<Seq<u8>>) -> bool {
    forall|i: int| 0 <= i < headers.len() ==> countable(#[trigger] headers[i])
}

/// Whether, where a file has several headers, the pictures of all of them can be
/// counted. Each may take effect after the decoder has made room for the picture of
/// another, and then its size is not tested again.
pub open spec fn headers_countable(file: Seq<u8>) -> bool {
    headers(file).len() > 1 ==> all_countable(headers(file))
}

/// Whether memory can be addressed for every row that the file declares.
pub open spec fn rows_addressable(file: Seq<u8>) -> bool {
    all_rows_addressable(headers(file))
}

/// Whether memory can be addressed for twice the file. The decoder keeps what
/// comes after the end of the compressed data, and doubles the space for it.
pub open spec fn file_addressable(file: Seq<u8>) -> bool {
    2 * file.len() <= isize::MAX
}

/// Whether memory can be addressed for the picture that the file declares, as it
/// is decoded and at four bytes per pixel. The bits of an interlaced picture have
/// to be counted, too.
pub open spec fn picture_addressable(file: Seq<u8>) -> bool {
    png_layout(file) matches Some((width, height, unit)) ==> {
        &&& 4 * (width * height) <= isize::MAX
        &&& unit * (width * height) <= isize::MAX
        &&& any_may_interlace(headers(file)) ==> 8 * (unit * (width * height)) <= usize::MAX
    }
}

/// Whether a PNG file can be decoded with the addresses of this machine.
pub open spec fn addressable(file: Seq<u8>) -> bool {
    &&& file_addressable(file)
    &&& rows_addressable(file)
    &&& headers_countable(file)
    &&& picture_addressable(file)
}

/// Whether a header is that of a picture of this size, not interlaced, with one
/// byte for each of four samples per pixel.
pub open spec fn declares(header: Seq<u8>, width: u32, height: u32) -> bool {
    &&& header.len() == HEADER_LENGTH
    &&& word_at(header, 0) == width
    &&& word_at(header, 4) == height
    &&& header.subrange(8, 13) == seq![8u8, 6, 0, 0, 0]
}

/// Whether memory can be addressed for the file of a picture with this many RGBA
/// bytes, however badly they compress, and for the space to grow it in.
pub open spec fn file_fits(bytes: nat) -> bool {
    4 * bytes + FILE_SLACK <= isize::MAX
}

/// `image::png::PngDecoder::new`, then the `dimensions` and the bytes per pixel of
/// the `color_type`: the layout of the picture, as the decoder learns it from the
/// beginning of the file. A file that declares rows which cannot be addressed is
/// left out, since the decoder sets a row aside before it returns.
#[verifier::external_body]
fn read_png_layout(file: &Vec<u8>) -> (layout: Result<(u32, u32, u8), image::ImageError>)
    requires
        rows_addressable(file@),
    ensures
        layout is Ok <==> png_layout(file@) is Some,
        layout matches Ok(layout) ==> png_layout(file@) == Some(layout),
{
    let decoder = image::png::PngDecoder::new(std::io::Cursor::new(file))?;
    let (width, height) = image::ImageDecoder::dimensions(&decoder);
    let unit = image::ImageDecoder::color_type(&decoder).bytes_per_pixel();
    Ok((width, height, unit))
}

/// `image::io::Reader::decode` for the PNG format, then `into_rgba8`: the
/// picture, with four bytes for each pixel. What cannot be addressed is left out:
/// the decoder asks for the memory of the whole picture at once, and counts the
/// bits of an interlaced one. It takes any number of headers, and where there are
/// several, may multiply the sides of each.
#[verifier::external_body]
fn decode_png(file: &Vec<u8>) -> (picture: Result<(u32, u32, Vec<u8>), image::ImageError>)
    requires
        addressable(file@),
    ensures
        picture is Ok <==> png_picture(file@) is Some,
        picture matches Ok((width, height, pixels)) ==> {
            &&& png_picture(file@) == Some((width, height, pixels@))
            &&& pixels@.len() == 4 * (width * height)
        },
{
    let mut reader = image::io::Reader::new(std::io::Cursor::new(file));
    reader.set_format(image::ImageFormat::Png);
    let picture = reader.decode()?.into_rgba8();
    let (width, height) = picture.dimensions();
    Ok((width, height, picture.into_raw()))
}

/// `image::png::PngEncoder::encode` of RGBA bytes into memory. It succeeds just
/// if neither side is zero and there are four bytes for each pixel. What it writes
/// is a file of that very picture, with one header, which declares it; the file
/// takes less than twice the space of the pixels and a little more, since the
/// compressor stores what it cannot compress. Sizes that overflow, and pictures
/// whose file may not find an address, are left out.
#[verifier::external_body]
fn encode_png(
    width: u32,
    height: u32,
    pixels: &Vec<u8>,
) -> (written: Result<Vec<u8>, image::ImageError>)
    requires
        4 * width <= isize::MAX,
        4 * (width * height) <= usize::MAX,
        pixels@.len() == 4 * (width * height) ==> file_fits(pixels@.len()),
    ensures
        written is Ok <==> (width != 0 && height != 0 && pixels@.len() == 4 * (width * height)),
        written matches Ok(file) ==> file@ == png_file(width, height, pixels@),
        written matches Ok(file) ==> png_layout(file@) == Some((width, height, 4u8)),
        written matches Ok(file) ==> png_picture(file@) == Some((width, height, pixels@)),
        written matches Ok(file) ==> headers(file@).len() == 1 && declares(
            headers(file@)[0],
            width,
            height,
        ),
        written matches Ok(file) ==> file@.len() <= 2 * pixels@.len() + 0x10_0000,
{
    let mut file = Vec::new();
    let encoder = image::png::PngEncoder::new(&mut file);
    encoder.encode(pixels, width, height, image::ColorType::Rgba8)?;
    Ok(file)
}

/// An image as a clipboard client has it: rows of pixels from the top, four
/// bytes (red, green, blue, alpha) for each.
#[derive(Debug, Clone, PartialEq, Eq)]
pub struct ImageData {
    pub width: usize,
    pub height: usize,
    pub bytes: Vec<u8>,
}

/// The mathematical value of an [`ImageData`].
pub struct ImageView {
    pub width: int,
    pub height: int,
    pub bytes: Seq<u8>,
}

impl View for ImageData {
    type V = ImageView;

    open spec fn view(&self) -> ImageView {
        ImageView { width: self.width as int, height: self.height as int, bytes: self.bytes@ }
    }
}

impl ImageView {
    /// Whether there are four bytes for each pixel.
    pub open spec fn well_formed(self) -> bool {
        self.bytes.len() == 4 * (self.width * self.height)
    }
}

/// The mathematical value of the outcome of reading an image.
pub open spec fn image_result(result: Result<ImageData, Error>) -> Result<ImageView, ErrorView> {
    match result {
        Ok(image) => Ok(image@),
        Err(error) => Err(error@),
    }
}

/// The image in a PNG file; what is no PNG file cannot be converted.
pub open spec fn image_in(file: Seq<u8>) -> Result<ImageView, ErrorView> {
    match png_picture(file) {
        Some((width, height, pixels)) => Ok(
            ImageView { width: width as int, height: height as int, bytes: pixels },
        ),
        None => Err(ErrorView::ConversionFailure),
    }
}

/// Whether there are as many bytes as a picture of this image's sides has, cut to
/// 32 bits: four for each pixel.
pub open spec fn sides_match(image: ImageData) -> bool {
    image.bytes@.len() == 4 * ((image.width as u32) * (image.height as u32))
}

/// Whether the image has a file that can be addressed, or none.
pub open spec fn writable(image: ImageData) -> bool {
    sides_match(image) ==> file_fits(image.bytes@.len())
}

/// The outcome of writing an image as a PNG file. The sides are cut to 32 bits;
/// then neither may be zero, and there must be four bytes for each pixel.
pub open spec fn file_of(image: ImageData) -> Result<Seq<u8>, ErrorView> {
    let width = image.width as u32;
    let height = image.height as u32;
    if width != 0 && height != 0 && sides_match(image) {
        Ok(png_file(width, height, image.bytes@))
    } else {
        Err(ErrorView::ConversionFailure)
    }
}

/// Whether a file holds this image, its sides cut to 32 bits, and can be decoded.
pub open spec fn holds(file: Seq<u8>, image: ImageData) -> bool {
    let width = image.width as u32;
    let height = image.height as u32;
    &&& png_layout(file) == Some((width, height, 4u8))
    &&& png_picture(file) == Some((width, height, image.bytes@))
    &&& addressable(file)
}

/// The image in a PNG file that can be addressed.
pub fn decode_image(file: &Vec<u8>) -> (image: Result<ImageData, Error>)
    requires
        addressable(file@),
    ensures
        image_result(image) == image_in(file@),
        image matches Ok(image) ==> image@.well_formed(),
{
    match decode_png(file) {
        Ok((width, height, bytes)) => Ok(
            ImageData { width: width as usize, height: height as usize, bytes },
        ),
        Err(_) => Err(Error::ConversionFailure),
    }
}

/// The number of pixels of a picture.
fn area(width: u32, height: u32) -> (pixels: u64)
    ensures
        pixels == width * height,
{
    assert(width * height <= 0xffff_ffff * 0xffff_ffff) by (nonlinear_arith)
        requires
            width <= 0xffff_ffff,
            height <= 0xffff_ffff,
    ;
    width as u64 * height as u64
}

/// The number of bytes of a picture.
fn volume(width: u32, height: u32, unit: u8) -> (bytes: u128)
    ensures
        bytes == unit * (width * height),
        bytes <= 0xff * 0xffff_ffff_ffff_ffff,
{
    let pixels: u64 = area(width, height);
    assert(unit * pixels <= 0xff * 0xffff_ffff_ffff_ffff) by (nonlinear_arith)
        requires
            unit <= 0xff,
            pixels <= 0xffff_ffff_ffff_ffff,
    ;
    unit as u128 * pixels as u128
}

/// The number that four bytes make from `i` on, the most significant first.
fn read_word(bytes: &Vec<u8>, i: usize) -> (word: u32)
    requires
        i + 4 <= bytes.len(),
    ensures
        word == word_at(bytes@, i as int),
{
    bytes[i] as u32 * 0x100_0000 + bytes[i + 1] as u32 * 0x1_0000 + bytes[i + 2] as u32 * 0x100
        + bytes[i + 3] as u32
}

/// Whether memory can be addressed for twice a row of this many bytes.
fn check_row_bytes(bytes: u64) -> (fit: bool)
    requires
        bytes <= 8 * 0xffff_ffff,
    ensures
        fit == row_fits(bytes as int),
{
    let limit: usize = usize::MAX / 2;
    2 * bytes + ROW_SLACK <= limit as u64
}

/// How many bytes a row can have by the header at `start`, if it is readable.
fn read_row_bytes(file: &Vec<u8>, start: usize, length: u32) -> (bytes: Option<u64>)
    requires
        start + length <= file.len(),
    ensures
        ({
            let header = file@.subrange(start as int, start + length);
            &&& bytes is Some <==> readable(header)
            &&& bytes matches Some(bytes) ==> bytes == row_bytes(header) && bytes <= 8
                * 0xffff_ffff
        }),
{
    let ghost header = file@.subrange(start as int, start + length);
    if length < HEADER_LENGTH {
        return None;
    }
    let depth: u8 = file[start + 8];
    let color: u8 = file[start + 9];
    assert(depth == header[8] && color == header[9]);
    if !(depth == 1 || depth == 2 || depth == 4 || depth == 8 || depth == 16) {
        return None;
    }
    if !(color == 0 || color == 2 || color == 3 || color == 4 || color == 6) {
        return None;
    }
    if file[start + 10] != 0 || file[start + 11] != 0 || file[start + 12] > 1 {
        return None;
    }
    let width: u32 = read_word(file, start);
    assert(word_at(file@, start as int) == word_at(header, 0));
    let gray = color == 0 || color == 4;
    let wide = depth == 16;
    if gray && !wide {
        Some(2 * width as u64)
    } else if gray || !wide {
        Some(4 * width as u64)
    } else {
        Some(8 * width as u64)
    }
}

/// Whether memory can be addressed for the rows that the header at `start`
/// declares.
fn check_row(file: &Vec<u8>, start: usize, length: u32) -> (fit: bool)
    requires
        start + length <= file.len(),
    ensures
        fit == row_addressable(file@.subrange(start as int, start + length)),
{
    if length > CHUNK_PIECE {
        return check_row_bytes(8 * 0xffff_ffff);
    }
    match read_row_bytes(file, start, length) {
        Some(bytes) => check_row_bytes(bytes),
        None => true,
    }
}

/// Whether the bytes of the picture that the header at `start` declares can be
/// counted.
fn check_count(file: &Vec<u8>, start: usize, length: u32) -> (fit: bool)
    requires
        start + length <= file.len(),
    ensures
        fit == countable(file@.subrange(start as int, start + length)),
{
    if length > CHUNK_PIECE {
        return false;
    }
    match read_row_bytes(file, start, length) {
        Some(bytes) => {
            let height: u32 = read_word(file, start + 4);
            let ghost header = file@.subrange(start as int, start + length);
            assert(word_at(file@, start + 4) == word_at(header, 4));
            assert(bytes * height <= 8 * 0xffff_ffff * 0xffff_ffff) by (nonlinear_arith)
                requires
                    bytes <= 8 * 0xffff_ffff,
                    height <= 0xffff_ffff,
            ;
            bytes as u128 * height as u128 <= usize::MAX as u128
        },
        None => true,
    }
}

/// Whether the file begins as every PNG file does.
fn check_signature(file: &Vec<u8>) -> (fit: bool)
    ensures
        fit == signed(file@),
{
    file.len() >= 8 && check_name(file, 0, 137, 80, 78, 71) && check_name(file, 4, 13, 10, 26, 10)
}

/// Whether the four bytes from `i` on are these.
fn check_name(file: &Vec<u8>, i: usize, b0: u8, b1: u8, b2: u8, b3: u8) -> (same: bool)
    requires
        i + 4 <= file.len(),
    ensures
        same == (file@.subrange(i as int, i + 4) == seq![b0, b1, b2, b3]),
{
    let same = file[i] == b0 && file[i + 1] == b1 && file[i + 2] == b2 && file[i + 3] == b3;
    assert(same ==> file@.subrange(i as int, i + 4) == seq![b0, b1, b2, b3]);
    proof {
        let name = file@.subrange(i as int, i + 4);
        assert(name[0] == file@[i as int] && name[1] == file@[i + 1] && name[2] == file@[i + 2]
            && name[3] == file@[i + 3]);
    }
    same
}

/// What the headers of a file let expect.
struct Survey {
    /// Whether memory can be addressed for every row.
    rows: bool,
    /// Whether the picture may be interlaced.
    interlaced: bool,
    /// Whether the pictures of several headers can be counted.
    countable: bool,
}

/// Looks through the headers of a file.
fn check_headers(file: &Vec<u8>) -> (survey: Survey)
    ensures
        survey.rows == rows_addressable(file@),
        survey.interlaced == any_may_interlace(headers(file@)),
        survey.countable == headers_countable(file@),
{
    let mut rows = true;
    let mut interlaced = false;
    let mut counted = true;
    let mut one = false;
    let mut several = false;
    if !check_signature(file) {
        return Survey { rows, interlaced, countable: true };
    }
    let mut pos: usize = 8;
    let ghost mut seen: Seq<Seq<u8>> = seq![];
    assert(seen + headers_from(file@, 8) == headers(file@));
    while pos <= file.len() - 8
        invariant_except_break
            seen + headers_from(file@, pos as int) == headers(file@),
        invariant
            file@.len() >= 8,
            rows == all_rows_addressable(seen),
            interlaced == any_may_interlace(seen),
            counted == all_countable(seen),
            one == (seen.len() > 0),
            several == (seen.len() > 1),
        ensures
            seen == headers(file@),
        decreases file@.len() - pos,
    {
        let length: u32 = read_word(file, pos);
        if check_name(file, pos + 4, 0x49, 0x45, 0x4e, 0x44) {
            assert(headers_from(file@, pos as int) == Seq::<Seq<u8>>::empty());
            assert(seen + headers_from(file@, pos as int) == seen);
            break;
        }
        let room: usize = file.len() - pos - 8;
        let whole = length as u64 <= room as u64;
        if whole && check_name(file, pos + 4, 0x49, 0x48, 0x44, 0x52) {
            let start: usize = pos + 8;
            let fit = check_row(file, start, length);
            let count = check_count(file, start, length);
            let crossed = length > CHUNK_PIECE || (length >= HEADER_LENGTH && file[start + 12]
                != 0);
            proof {
                let header = file@.subrange(start as int, start + length);
                let after = seen.push(header);
                assert(crossed == may_interlace(header));
                header_is_added(seen, header);
                assert(seen + (seq![header] + headers_from(file@, start + length + 4)) == after
                    + headers_from(file@, start + length + 4));
                seen = after;
            }
            rows = rows && fit;
            interlaced = interlaced || crossed;
            counted = counted && count;
            several = one;
            one = true;
        }
        if !whole || room - (length as usize) < 4 {
            assert(headers_from(file@, pos + 8 + length + 4) == Seq::<Seq<u8>>::empty());
            assert(seen + headers_from(file@, pos + 8 + length + 4) == seen);
            break;
        }
        pos = pos + 8 + length as usize + 4;
    }
    Survey { rows, interlaced, countable: !several || counted }
}

/// What one more header changes.
proof fn header_is_added(seen: Seq<Seq<u8>>, header: Seq<u8>)
    ensures
        all_rows_addressable(seen.push(header)) == (all_rows_addressable(seen) && row_addressable(
            header,
        )),
        all_countable(seen.push(header)) == (all_countable(seen) && countable(header)),
        any_may_interlace(seen.push(header)) == (any_may_interlace(seen) || may_interlace(header)),
{
    let after = seen.push(header);
    assert(after[seen.len() as int] == header);
    if all_rows_addressable(after) {
        assert forall|i: int| 0 <= i < seen.len() implies row_addressable(#[trigger] seen[i]) by {
            assert(after[i] == seen[i]);
        }
    }
    if all_countable(after) {
        assert forall|i: int| 0 <= i < seen.len() implies countable(#[trigger] seen[i]) by {
            assert(after[i] == seen[i]);
        }
    }
    if any_may_interlace(seen) {
        let i = choose|i: int| 0 <= i < seen.len() && may_interlace(#[trigger] seen[i]);
        assert(may_interlace(after[i]));
    }
}

/// The image in a PNG file, or `None` if it cannot be addressed.
pub fn try_decode_image(file: &Vec<u8>) -> (image: Option<Result<ImageData, Error>>)
    ensures
        image is Some <==> addressable(file@),
        image matches Some(image) ==> image_result(image) == image_in(file@),
        image matches Some(Ok(image)) ==> image@.well_formed(),
{
    let limit: usize = usize::MAX / 2;
    if file.len() > limit / 2 {
        return None;
    }
    let survey = check_headers(file);
    if !survey.rows || !survey.countable {
        return None;
    }
    if let Ok((width, height, unit)) = read_png_layout(file) {
        let bytes: u128 = volume(width, height, unit);
        if 4 * (area(width, height) as u128) > limit as u128 || bytes > limit as u128 {
            return None;
        }
        if survey.interlaced && 8 * bytes > usize::MAX as u128 {
            return None;
        }
    }
    Some(decode_image(file))
}

/// Whether the image has a file that can be addressed, or none.
pub fn is_writable(image: &ImageData) -> (fit: bool)
    ensures
        fit == writable(*image),
{
    let width: u32 = #[verifier::truncate] (image.width as u32);
    let height: u32 = #[verifier::truncate] (image.height as u32);
    let limit: usize = usize::MAX / 2;
    image.bytes.len() as u128 != 4 * (area(width, height) as u128) || 4 * (
    image.bytes.len() as u128) + FILE_SLACK as u128 <= limit as u128
}

/// The PNG file of an image.
pub fn encode_image(image: &ImageData) -> (file: Result<Vec<u8>, Error>)
    requires
        writable(*image),
    ensures
        match file {
            Ok(file) => file_of(*image) == Ok::<Seq<u8>, ErrorView>(file@),
            Err(error) => file_of(*image) == Err::<Seq<u8>, ErrorView>(error@),
        },
        file matches Ok(file) ==> holds(file@, *image),
{
    let width: u32 = #[verifier::truncate] (image.width as u32);
    let height: u32 = #[verifier::truncate] (image.height as u32);
    let limit: usize = usize::MAX / 2;
    if width == 0 || height == 0 || 4 * (area(width, height) as u128) > limit as u128 {
        return Err(Error::ConversionFailure);
    }
    assert(4 * width <= 4 * (width * height)) by (nonlinear_arith)
        requires
            height >= 1,
    ;
    match encode_png(width, height, &image.bytes) {
        Ok(file) => {
            proof {
                let header = headers(file@)[0];
                assert(header[8] == header.subrange(8, 13)[0]);
                assert(header[9] == header.subrange(8, 13)[1]);
                assert(header[12] == header.subrange(8, 13)[4]);
            }
            Ok(file)
        },
        Err(_) => Err(Error::ConversionFailure),
    }
}

} // verus!
