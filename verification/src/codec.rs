//! The calls into the `png` and `base64` crates and into std's text decoding,
//! with what is taken on trust about each of them.
use base64::engine::general_purpose::STANDARD;
use base64::Engine;
use vstd::prelude::*;

verus! {

/// The error of base64 decoding, carried through unread.
#[verifier::external_type_specification]
#[verifier::external_body]
pub struct ExBase64DecodeError(base64::DecodeError);

/// The error of PNG decoding, carried through unread.
#[verifier::external_type_specification]
#[verifier::external_body]
pub struct ExPngDecodingError(png::DecodingError);

/// The error of PNG encoding, carried through unread.
#[verifier::external_type_specification]
#[verifier::external_body]
pub struct ExPngEncodingError(png::EncodingError);

/// Calls `Engine::encode` of `base64::engine::general_purpose::STANDARD`. Trusted:
/// the text is the padded base64 of the bytes in the standard alphabet. The length
/// of the text does not overflow, since a slice holds at most `isize::MAX` bytes;
/// that there is memory for the text is taken for granted, as with every other
/// allocation.
#[verifier::external_body]
pub(crate) fn base64_encode(bytes: &[u8]) -> (text: String)
    ensures
        text@ == crate::payload::base64_text(bytes@),
{
    STANDARD.encode(bytes)
}

/// Calls `Engine::decode` of `base64::engine::general_purpose::STANDARD`, which takes
/// canonically padded text of the standard alphabet without stray bits and nothing
/// else. Trusted: it gives back bytes whose base64 is the text, and fails exactly
/// where there are none. Which error it then gives is left unsaid.
#[verifier::external_body]
pub(crate) fn base64_decode(text: &str) -> (bytes: Result<Vec<u8>, base64::DecodeError>)
    ensures
        match bytes {
            Ok(bytes) => crate::payload::base64_text(bytes@) == text@,
            Err(_) => forall|other: Seq<u8>| #[trigger]
                crate::payload::base64_text(other) != text@,
        },
{
    STANDARD.decode(text)
}

/// The width, height and output color type of the canvas that
/// `png::Decoder::read_info` finds in a file, read so that palettes,
/// transparency and low depths are expanded and samples of 16 bits are cut to 8;
/// `None` where it fails.
pub uninterp spec fn png_canvas(file: Seq<u8>) -> Option<(u32, u32, u8)>;

/// Calls `png::Decoder::read_info` with the transformations `EXPAND` and
/// `STRIP_16`, then `Info::size` and `Reader::output_color_type`. Trusted: the
/// outcome depends on the file alone; the canvas is not empty; the color type is none
/// with a palette. Which error it gives is left unsaid.
#[verifier::external_body]
pub(crate) fn read_png_canvas(file: &[u8]) -> (canvas: Result<
    (u32, u32, u8),
    png::DecodingError,
>)
    ensures
        match canvas {
            Ok(canvas) => {
                &&& png_canvas(file@) == Some(canvas)
                &&& 0 < canvas.0
                &&& 0 < canvas.1
                &&& canvas.2 == 0 || canvas.2 == 2 || canvas.2 == 4 || canvas.2 == 6
            },
            Err(_) => png_canvas(file@) is None,
        },
{
    let mut decoder = png::Decoder::new(std::io::Cursor::new(file));
    decoder.set_transformations(png::Transformations::EXPAND | png::Transformations::STRIP_16);
    let reader = decoder.read_info()?;
    let (width, height) = reader.info().size();
    Ok((width, height, reader.output_color_type().0 as u8))
}

/// The color type in the header, whether the image is interlaced, the length of the
/// palette, the number of frames that the file announces for an animation, and
/// whether frame control comes before the image data, as `png::Decoder::read_info`
/// finds them in a file; `None` where it fails.
pub uninterp spec fn png_layout(file: Seq<u8>) -> Option<
    (u8, bool, Option<usize>, Option<u32>, bool),
>;

/// Calls `png::Decoder::read_info` with the transformations `EXPAND` and `STRIP_16`,
/// and reads `Info::color_type`, `Info::interlaced`, the length of `Info::palette`,
/// `AnimationControl::num_frames` and whether there is an `Info::frame_control`.
/// Trusted: the outcome depends on the file alone. Which error it gives is left
/// unsaid.
#[verifier::external_body]
pub(crate) fn read_png_layout(file: &[u8]) -> (layout: Result<
    (u8, bool, Option<usize>, Option<u32>, bool),
    png::DecodingError,
>)
    ensures
        match layout {
            Ok(layout) => png_layout(file@) == Some(layout),
            Err(_) => png_layout(file@) is None,
        },
{
    let mut decoder = png::Decoder::new(std::io::Cursor::new(file));
    decoder.set_transformations(png::Transformations::EXPAND | png::Transformations::STRIP_16);
    let reader = decoder.read_info()?;
    let info = reader.info();
    let palette = info.palette.as_ref().map(|palette| palette.len());
    let frames = info.animation_control.map(|animation| animation.num_frames);
    Ok((info.color_type as u8, info.interlaced, palette, frames, info.frame_control.is_some()))
}

/// Whether the palette of an indexed image, where there is one, holds whole entries,
/// 256 at most.
pub open spec fn palette_is_whole(file: Seq<u8>) -> bool {
    match png_layout(file) {
        Some((3, _, Some(len), _, _)) => len % 3 == 0 && len <= 768,
        _ => true,
    }
}

/// Whether the file is an animation of no frames at all.
pub open spec fn has_no_frame(file: Seq<u8>) -> bool {
    png_layout(file) matches Some((_, _, _, frames, controlled)) && frames == Some(0u32)
        && controlled
}

/// Whether `png::Reader::next_row` gets the first row of a file, without any
/// transformation.
pub uninterp spec fn png_first_row(file: Seq<u8>) -> bool;

/// Calls `png::Decoder::read_info` and `Reader::next_row` without transformations.
/// Trusted: whether there is a row depends on the file alone. An animation of no
/// frames, on which the reader may panic, is left out. Which error it gives is left
/// unsaid.
#[verifier::external_body]
pub(crate) fn read_png_first_row(file: &[u8]) -> (row: Result<(), png::DecodingError>)
    requires
        png_layout(file@) is Some,
        !has_no_frame(file@),
    ensures
        row is Ok <==> png_first_row(file@),
{
    let mut reader = png::Decoder::new(std::io::Cursor::new(file)).read_info()?;
    reader.next_row()?;
    Ok(())
}

/// One decoded frame: its size, the codes of its color type and depth, and its
/// pixels row by row.
pub struct PngFrame {
    pub width: u32,
    pub height: u32,
    pub color: u8,
    pub depth: u8,
    pub pixels: Vec<u8>,
}

/// The width, height, color type, depth and pixels of the first frame of a file,
/// as `png::Reader::next_frame` decodes it under the same transformations as for
/// [`png_canvas`]; `None` where that fails.
pub uninterp spec fn png_frame(file: Seq<u8>) -> Option<(u32, u32, u8, u8, Seq<u8>)>;

/// The number of bytes that the decoder fills for a canvas.
pub open spec fn canvas_len(canvas: (u32, u32, u8)) -> int {
    match crate::image::ColorType::of_code(canvas.2) {
        Some(color_type) => canvas.0 * canvas.1 * color_type.samples(),
        None => 0,
    }
}

/// Whether a row of that many pixels stays within the 64 MiB that the decoder allows
/// itself.
pub open spec fn row_fits(width: u32, color: u8) -> bool {
    canvas_len((width, 1, color)) <= 0x400_0000
}

/// Whether the decoder comes to an end with the pixels of a file with that canvas: it
/// never gets to the palette of an indexed image unless that is whole, and the bits
/// of an interlaced image can be counted.
pub open spec fn layout_fits(file: Seq<u8>, canvas: (u32, u32, u8)) -> bool {
    &&& palette_is_whole(file) || has_no_frame(file) || !png_first_row(file)
    &&& match png_layout(file) {
        Some((_, true, _, _, _)) => canvas_len(canvas) * 8 <= usize::MAX,
        _ => true,
    }
}

/// Calls `png::Decoder::read_info`, `Reader::output_buffer_size` and
/// `Reader::next_frame` with the transformations `EXPAND` and `STRIP_16`, and
/// keeps the first `OutputInfo::buffer_size` bytes. Trusted: the outcome depends
/// on the file alone; the frame is not empty, no larger than the canvas, of its color
/// type and within the row limit, holds one byte per sample, and comes from a whole
/// palette if from any. Left out are a canvas whose buffer cannot be allocated, a
/// malformed palette that is used, on which the decoder panics (it is used once the
/// first row was read), and an interlaced image whose bits cannot be counted. Which
/// error it gives is left unsaid.
#[verifier::external_body]
pub(crate) fn decode_png_frame(file: &[u8]) -> (frame: Result<PngFrame, png::DecodingError>)
    requires
        png_canvas(file@) matches Some(canvas) && canvas_len(canvas) <= isize::MAX
            && layout_fits(file@, canvas),
    ensures
        match frame {
            Ok(frame) => {
                &&& png_frame(file@) == Some(
                    (frame.width, frame.height, frame.color, frame.depth, frame.pixels@),
                )
                &&& 0 < frame.width <= (png_canvas(file@)->0).0
                &&& 0 < frame.height <= (png_canvas(file@)->0).1
                &&& frame.color == (png_canvas(file@)->0).2
                &&& frame.depth == 8
                &&& frame.pixels@.len() == canvas_len((frame.width, frame.height, frame.color))
                &&& row_fits(frame.width, frame.color)
                &&& palette_is_whole(file@)
            },
            Err(_) => png_frame(file@) is None,
        },
{
    let mut decoder = png::Decoder::new(std::io::Cursor::new(file));
    decoder.set_transformations(png::Transformations::EXPAND | png::Transformations::STRIP_16);
    let mut reader = decoder.read_info()?;
    let mut pixels = vec![0; reader.output_buffer_size()];
    let info = reader.next_frame(&mut pixels)?;
    pixels.truncate(info.buffer_size());
    let (color, depth) = (info.color_type as u8, info.bit_depth as u8);
    Ok(PngFrame { width: info.width, height: info.height, color, depth, pixels })
}

/// The file that `png::Encoder` writes for an image of that size and color type
/// with 8 bits per sample; `None` where it fails.
pub uninterp spec fn png_file(width: u32, height: u32, color: u8, pixels: Seq<u8>) -> Option<
    Seq<u8>,
>;

/// Calls `png::Encoder::write_header` and `Writer::write_image_data` for samples
/// of 8 bits and closes the file. Trusted: the outcome depends on the arguments
/// alone; the file starts with a header that gives the size; what the decoder
/// reads from the file is the image that was written, in that color type and not
/// interlaced, and it does read it where a row is within its limit. The header is
/// refused for an empty image only, which is left out, so that an error is one of
/// writing the pixels. Which error it is is left unsaid.
#[verifier::external_body]
pub(crate) fn encode_png(width: u32, height: u32, color: u8, pixels: &[u8]) -> (file: Result<
    Vec<u8>,
    png::EncodingError,
>)
    requires
        0 < width,
        0 < height,
        color == 0 || color == 2 || color == 4 || color == 6,
        pixels@.len() == canvas_len((width, height, color)),
    ensures
        match file {
            Ok(file) => {
                &&& png_file(width, height, color, pixels@) == Some(file@)
                &&& crate::png_header::png_size(file@) == Ok::<
                    (u32, u32),
                    crate::png_header::PngHeaderError,
                >((width, height))
                &&& row_fits(width, color) ==> png_canvas(file@) is Some && png_frame(
                    file@,
                ) is Some
                &&& png_canvas(file@) matches Some(canvas) ==> canvas == (width, height, color)
                &&& png_layout(file@) matches Some((coded, interlaced, _, _, _)) ==> coded
                    == color && !interlaced
                &&& png_frame(file@) matches Some(frame) ==> frame == (
                    width,
                    height,
                    color,
                    8u8,
                    pixels@,
                )
            },
            Err(_) => png_file(width, height, color, pixels@) is None,
        },
{
    let mut file = Vec::new();
    let mut encoder = png::Encoder::new(&mut file, width, height);
    encoder.set_color(png::ColorType::from_u8(color).unwrap());
    encoder.set_depth(png::BitDepth::Eight);
    let mut writer = encoder.write_header()?;
    writer.write_image_data(pixels)?;
    drop(writer);
    Ok(file)
}

/// The text that `String::from_utf8_lossy` makes of bytes.
pub uninterp spec fn lossy_text(bytes: Seq<u8>) -> Seq<char>;

/// Calls `String::from_utf8_lossy`. Trusted: the text depends on the bytes alone,
/// and valid UTF-8 is taken over unchanged.
#[verifier::external_body]
pub(crate) fn text_from_utf8_lossy(bytes: &[u8]) -> (text: String)
    ensures
        text@ == lossy_text(bytes@),
        vstd::utf8::valid_utf8(bytes@) ==> text@ == vstd::utf8::decode_utf8(bytes@),
{
    String::from_utf8_lossy(bytes).into_owned()
}

} // verus!
