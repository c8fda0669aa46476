//! Cropping a PNG file to an area of the screen.
use crate::area::{clip_area_to_image, AreaError, OutsideImage, ScreenshotArea};
use crate::codec::{
    decode_png_frame, encode_png, read_png_canvas, read_png_first_row, read_png_layout,
};
use crate::image::{crop_pixels, BitDepth, ColorType, DecodedImage, ImageView};
use crate::png_header::PngHeaderError;
use vstd::pervasive::unreached;
use vstd::prelude::*;

verus! {

/// Why a screenshot could not be cropped.
#[derive(Debug)]
pub enum CropError {
    /// The area is not a valid one.
    Area(AreaError),
    /// The data URL does not hold a base64 PNG.
    NotPngDataUrl,
    /// The base64 text of the data URL is broken.
    Payload(base64::DecodeError),
    /// The PNG file could not be read up to its pixels.
    DecodeHeader(png::DecodingError),
    /// The pixels of the PNG file could not be read.
    DecodePixels(png::DecodingError),
    /// The decoded samples do not take one byte each.
    Depth(BitDepth),
    /// The decoded pixels still refer to a palette.
    IndexedColor,
    /// The area shares no pixel with the screenshot.
    Outside(OutsideImage),
    /// The cropped PNG file could not be written.
    EncodePixels(png::EncodingError),
    /// The cropped PNG file does not start as one.
    Header(PngHeaderError),
}

/// The number of bytes per pixel of an image with one byte per sample.
pub fn channels_for_color_type(color_type: ColorType) -> (channels: Result<usize, CropError>)
    ensures
        channels == (if color_type is Indexed {
            Err::<usize, CropError>(CropError::IndexedColor)
        } else {
            Ok::<usize, CropError>(color_type.samples() as usize)
        }),
        match channels {
            Ok(1) => color_type is Grayscale,
            Ok(2) => color_type is GrayscaleAlpha,
            Ok(3) => color_type is Rgb,
            Ok(4) => color_type is Rgba,
            Ok(_) => false,
            Err(error) => color_type is Indexed && error is IndexedColor,
        },
{
    match color_type {
        ColorType::Grayscale => Ok(1),
        ColorType::Rgb => Ok(3),
        ColorType::Indexed => Err(CropError::IndexedColor),
        ColorType::GrayscaleAlpha => Ok(2),
        ColorType::Rgba => Ok(4),
    }
}

/// The pixels that are left of `image` and the part of `area` that they show, or
/// the error that cropping ends in.
pub open spec fn image_crop(image: ImageView, area: ScreenshotArea) -> Result<
    (Seq<u8>, ScreenshotArea),
    CropError,
> {
    if !(image.bit_depth is Eight) {
        Err(CropError::Depth(image.bit_depth))
    } else if image.color_type is Indexed {
        Err(CropError::IndexedColor)
    } else {
        match crate::area::clipped_area(area, image.width, image.height) {
            Some(clipped) => Ok(
                (
                    crate::image::cropped_pixels(
                        image.pixels,
                        image.width as int,
                        image.color_type.samples() as int,
                        clipped,
                    ),
                    clipped,
                ),
            ),
            None => Err(
                CropError::Outside(
                    OutsideImage { area, image_width: image.width, image_height: image.height },
                ),
            ),
        }
    }
}

/// The number of bytes per pixel for the code of a color type without a palette, with
/// one byte per sample.
pub open spec fn channels_of(color: u8) -> int {
    if color == 0 {
        1
    } else if color == 4 {
        2
    } else if color == 2 {
        3
    } else {
        4
    }
}

/// Whether an area and an image of that size have a pixel in common.
pub open spec fn overlaps(area: ScreenshotArea, image_width: int, image_height: int) -> bool {
    &&& area.width > 0 && area.height > 0
    &&& image_width > 0 && image_height > 0
    &&& area.x < image_width && 0 < area.x + area.width
    &&& area.y < image_height && 0 < area.y + area.height
}

/// Crops a decoded image to the part of `area` that lies inside it.
pub fn crop_image(image: &DecodedImage, area: ScreenshotArea) -> (cropped: Result<
    (Vec<u8>, ScreenshotArea),
    CropError,
>)
    requires
        image@.well_formed(),
    ensures
        match cropped {
            Ok((pixels, clipped)) => image_crop(image@, area) == Ok::<
                (Seq<u8>, ScreenshotArea),
                CropError,
            >((pixels@, clipped)),
            Err(error) => image_crop(image@, area) == Err::<(Seq<u8>, ScreenshotArea), CropError>(
                error,
            ),
        },
        match cropped {
            Ok((pixels, clipped)) => {
                let channels = channels_of(image@.color_type.code());
                &&& image@.bit_depth is Eight
                &&& !(image@.color_type is Indexed)
                &&& crate::area::is_overlap(
                    area,
                    image@.width as int,
                    image@.height as int,
                    clipped,
                )
                &&& pixels@.len() == clipped.width * clipped.height * channels
                &&& forall|column: int, row: int, sample: int|
                    0 <= column < clipped.width && 0 <= row < clipped.height && 0 <= sample
                        < channels ==> #[trigger] crate::image::sample_at(
                        pixels@,
                        clipped.width as int,
                        channels,
                        column,
                        row,
                        sample,
                    ) == crate::image::sample_at(
                        image@.pixels,
                        image@.width as int,
                        channels,
                        clipped.x + column,
                        clipped.y + row,
                        sample,
                    )
            },
            Err(CropError::Depth(depth)) => depth == image@.bit_depth && !(depth is Eight),
            Err(CropError::IndexedColor) => image@.bit_depth is Eight
                && image@.color_type is Indexed,
            Err(CropError::Outside(outside)) => {
                &&& image@.bit_depth is Eight
                &&& !(image@.color_type is Indexed)
                &&& !overlaps(area, image@.width as int, image@.height as int)
                &&& outside.area == area
                &&& outside.image_width == image@.width
                &&& outside.image_height == image@.height
            },
            Err(_) => false,
        },
{
    match image.bit_depth {
        BitDepth::Eight => {},
        _ => {
            return Err(CropError::Depth(image.bit_depth));
        },
    }
    let channels: usize = match channels_for_color_type(image.color_type) {
        Ok(channels) => channels,
        Err(error) => {
            return Err(error);
        },
    };
    match clip_area_to_image(area, image.width, image.height) {
        Ok(clipped) => {
            let pixels = crop_pixels(
                image.pixels.as_slice(),
                image.width,
                image.height,
                channels,
                clipped,
            );
            Ok((pixels, clipped))
        },
        Err(outside) => Err(CropError::Outside(outside)),
    }
}

/// The first image of a PNG file, if it can be decoded.
pub open spec fn image_of_png(file: Seq<u8>) -> Option<ImageView> {
    match crate::codec::png_frame(file) {
        Some((width, height, color, depth, pixels)) => match (
            ColorType::of_code(color),
            BitDepth::of_bits(depth),
        ) {
            (Some(color_type), Some(bit_depth)) => Some(
                ImageView { width, height, color_type, bit_depth, pixels },
            ),
            _ => None,
        },
        None => None,
    }
}

/// Whether the decoder can be let loose on a PNG file, should the file have a canvas
/// at all: a buffer for the canvas can be allocated, and the decoder either fails in
/// good time or is not tripped up by the palette or the interlacing.
pub open spec fn canvas_fits(file: Seq<u8>) -> bool {
    crate::codec::png_canvas(file) matches Some(canvas) ==> crate::codec::canvas_len(canvas)
        <= isize::MAX && crate::codec::layout_fits(file, canvas)
}

/// Whether the decoder can be let loose on `file`. Cropping asks for that.
pub fn png_canvas_fits(file: &[u8]) -> (fits: bool)
    ensures
        fits == canvas_fits(file@),
{
    let (width, height, color) = match read_png_canvas(file) {
        Ok(canvas) => canvas,
        Err(_) => {
            return true;
        },
    };
    let samples: u128 = match color {
        0 => 1,
        2 => 3,
        4 => 2,
        _ => 4,
    };
    assert(width * height <= u32::MAX * u32::MAX) by (nonlinear_arith)
        requires
            0 <= width <= u32::MAX,
            0 <= height <= u32::MAX,
    ;
    let len: u128 = width as u128 * height as u128 * samples;
    if len > isize::MAX as u128 {
        return false;
    }
    let (coded, interlaced, palette, frames, controlled) = match read_png_layout(file) {
        Ok(layout) => layout,
        Err(_) => {
            return true;
        },
    };
    let whole: bool = match palette {
        Some(entries) => coded != 3 || (entries % 3 == 0 && entries <= 768),
        None => true,
    };
    let empty: bool = match frames {
        Some(count) => count == 0 && controlled,
        None => false,
    };
    let unharmed: bool = whole || empty || read_png_first_row(file).is_err();
    unharmed && (!interlaced || len * 8 <= usize::MAX as u128)
}

/// Decodes the first image of a PNG file.
pub fn decode_png(file: &[u8]) -> (image: Result<DecodedImage, CropError>)
    requires
        canvas_fits(file@),
    ensures
        match image {
            Ok(image) => {
                &&& crate::codec::png_canvas(file@) is Some
                &&& image_of_png(file@) == Some(image@)
                &&& image@.well_formed()
                &&& image@.pixels.len() <= isize::MAX
                &&& crate::codec::row_fits(image@.width, image@.color_type.code())
                &&& crate::codec::palette_is_whole(file@)
                &&& image@.bit_depth is Eight
                &&& !(image@.color_type is Indexed)
                &&& image@.width > 0 && image@.height > 0
                &&& crate::codec::png_frame(file@) == Some(
                    (
                        image@.width,
                        image@.height,
                        image@.color_type.code(),
                        8u8,
                        image@.pixels,
                    ),
                )
            },
            Err(CropError::DecodeHeader(_)) => crate::codec::png_canvas(file@) is None,
            Err(CropError::DecodePixels(_)) => {
                &&& crate::codec::png_canvas(file@) is Some
                &&& image_of_png(file@) is None
                &&& crate::codec::png_frame(file@) is None
            },
            Err(_) => false,
        },
{
    if let Err(error) = read_png_canvas(file) {
        return Err(CropError::DecodeHeader(error));
    }
    let frame = match decode_png_frame(file) {
        Ok(frame) => frame,
        Err(error) => {
            return Err(CropError::DecodePixels(error));
        },
    };
    let color_type = match ColorType::from_code(frame.color) {
        Some(color_type) => color_type,
        None => unreached(),
    };
    let bit_depth = match BitDepth::from_bits(frame.depth) {
        Some(bit_depth) => bit_depth,
        None => unreached(),
    };
    proof {
        let canvas = crate::codec::png_canvas(file@)->0;
        assert(frame.width * frame.height * color_type.samples() <= canvas.0 * canvas.1
            * color_type.samples()) by (nonlinear_arith)
            requires
                0 < frame.width <= canvas.0,
                0 < frame.height <= canvas.1,
                0 <= color_type.samples(),
        {
            assert(frame.width * frame.height <= canvas.0 * canvas.1);
        }
    }
    Ok(
        DecodedImage {
            width: frame.width,
            height: frame.height,
            color_type,
            bit_depth,
            pixels: frame.pixels,
        },
    )
}

/// The cropped PNG file and the part of `area` that it shows, where cropping
/// succeeds.
pub open spec fn cropped_png(file: Seq<u8>, area: ScreenshotArea) -> Option<
    (Seq<u8>, ScreenshotArea),
> {
    match (area.validation(), crate::codec::png_canvas(file), image_of_png(file)) {
        (Ok(_), Some(_), Some(image)) => match image_crop(image, area) {
            Ok((pixels, clipped)) => match crate::codec::png_file(
                clipped.width,
                clipped.height,
                image.color_type.code(),
                pixels,
            ) {
                Some(cropped) => Some((cropped, clipped)),
                None => None,
            },
            Err(_) => None,
        },
        _ => None,
    }
}

/// Whether `error` is the one that cropping `file` to `area` ends in: the area is
/// looked at first, then the file, then where they meet.
pub open spec fn crop_fails_with(file: Seq<u8>, area: ScreenshotArea, error: CropError) -> bool {
    match (area.validation(), crate::codec::png_canvas(file), image_of_png(file)) {
        (Err(invalid), _, _) => error == CropError::Area(invalid),
        (Ok(_), None, _) => error is DecodeHeader,
        (Ok(_), Some(_), None) => error is DecodePixels,
        (Ok(_), Some(_), Some(image)) => match image_crop(image, area) {
            Err(expected) => error == expected,
            Ok(_) => cropped_png(file, area) is None && error is EncodePixels,
        },
    }
}

/// Crops a PNG file to the part of `area` that lies inside it, and says which
/// part that is.
///
/// The cropped file has the size of that part in its header, and decodes to the
/// pixels of that part. It can be cropped in turn.
pub fn crop_png_bytes(bytes: &[u8], area: ScreenshotArea) -> (cropped: Result<
    (Vec<u8>, ScreenshotArea),
    CropError,
>)
    requires
        area.validation() is Ok ==> canvas_fits(bytes@),
    ensures
        match cropped {
            Ok((file, clipped)) => {
                &&& cropped_png(bytes@, area) == Some((file@, clipped))
                &&& crate::png_header::png_size(file@) == Ok::<(u32, u32), PngHeaderError>(
                    (clipped.width, clipped.height),
                )
                &&& canvas_fits(file@)
                &&& crate::codec::png_canvas(file@) is Some
                &&& image_of_png(file@) matches Some(shown) && {
                    &&& shown.width == clipped.width
                    &&& shown.height == clipped.height
                    &&& shown.color_type == (image_of_png(bytes@)->0).color_type
                    &&& shown.bit_depth is Eight
                    &&& image_crop(image_of_png(bytes@)->0, area) == Ok::<
                        (Seq<u8>, ScreenshotArea),
                        CropError,
                    >((shown.pixels, clipped))
                }
            },
            Err(error) => {
                &&& cropped_png(bytes@, area) is None
                &&& crop_fails_with(bytes@, area, error)
                &&& !(error is Depth)
                &&& !(error is IndexedColor)
            },
        },
        match (cropped, crate::codec::png_frame(bytes@)) {
            (Ok((file, clipped)), Some((width, height, color, _, pixels))) => {
                &&& 0 < area.width <= i32::MAX && 0 < area.height <= i32::MAX
                &&& crate::codec::png_canvas(bytes@) is Some
                &&& crate::area::is_overlap(area, width as int, height as int, clipped)
                &&& crate::png_header::has_png_header(file@)
                &&& crate::png_header::is_big_endian(file@, 16, clipped.width)
                &&& crate::png_header::is_big_endian(file@, 20, clipped.height)
                &&& crate::codec::png_frame(file@) matches Some(
                    (shown_width, shown_height, shown_color, shown_depth, shown),
                ) && {
                    &&& shown_width == clipped.width && shown_height == clipped.height
                    &&& shown_color == color && shown_depth == 8
                    &&& shown.len() == clipped.width * clipped.height * channels_of(color)
                    &&& forall|column: int, row: int, sample: int|
                        0 <= column < clipped.width && 0 <= row < clipped.height && 0 <= sample
                            < channels_of(color) ==> #[trigger] crate::image::sample_at(
                            shown,
                            clipped.width as int,
                            channels_of(color),
                            column,
                            row,
                            sample,
                        ) == crate::image::sample_at(
                            pixels,
                            width as int,
                            channels_of(color),
                            clipped.x + column,
                            clipped.y + row,
                            sample,
                        )
                }
            },
            (Ok(_), None) => false,
            (Err(CropError::Area(_)), _) => !(0 < area.width <= i32::MAX && 0 < area.height
                <= i32::MAX),
            (Err(error), frame) => {
                &&& 0 < area.width <= i32::MAX && 0 < area.height <= i32::MAX
                &&& match error {
                    CropError::DecodeHeader(_) => crate::codec::png_canvas(bytes@) is None,
                    CropError::DecodePixels(_) => crate::codec::png_canvas(bytes@) is Some
                        && frame is None,
                    CropError::Outside(outside) => {
                        &&& frame matches Some((width, height, _, _, _))
                        &&& !overlaps(area, width as int, height as int)
                        &&& outside.area == area
                        &&& outside.image_width == width
                        &&& outside.image_height == height
                    },
                    CropError::EncodePixels(_) => {
                        &&& frame matches Some((width, height, _, _, _))
                        &&& overlaps(area, width as int, height as int)
                    },
                    _ => false,
                }
            },
        },
{
    if let Err(invalid) = area.validate() {
        return Err(CropError::Area(invalid));
    }
    let image = match decode_png(bytes) {
        Ok(image) => image,
        Err(error) => {
            return Err(error);
        },
    };
    let (pixels, clipped) = match crop_image(&image, area) {
        Ok(cropped) => cropped,
        Err(error) => {
            return Err(error);
        },
    };
    proof {
        crate::area::clipping_keeps_exactly_the_shared_pixels(
            area,
            image.width,
            image.height,
        );
        crate::image::lemma_crop_fits(
            image@.pixels.len() as int,
            image.width as int,
            image.height as int,
            image.color_type.samples() as int,
            clipped,
        );
        assert(clipped.width * 1 * image@.color_type.samples() <= image.width * 1
            * image@.color_type.samples()) by (nonlinear_arith)
            requires
                clipped.width <= image.width,
                0 <= image@.color_type.samples(),
        ;
        assert(pixels@.len() == clipped.width * clipped.height * image@.color_type.samples())
            by (nonlinear_arith)
            requires
                pixels@.len() == clipped.height * (clipped.width * image@.color_type.samples()),
        ;
    }
    match encode_png(clipped.width, clipped.height, image.color_type.to_code(), pixels.as_slice()) {
        Ok(file) => {
            proof {
                lemma_size_is_in_the_header(file@, clipped.width, clipped.height);
            }
            Ok((file, clipped))
        },
        Err(error) => Err(CropError::EncodePixels(error)),
    }
}

proof fn lemma_size_is_in_the_header(file: Seq<u8>, width: u32, height: u32)
    requires
        crate::png_header::png_size(file) == Ok::<(u32, u32), PngHeaderError>((width, height)),
    ensures
        crate::png_header::has_png_header(file),
        crate::png_header::is_big_endian(file, 16, width),
        crate::png_header::is_big_endian(file, 20, height),
{
    if !crate::png_header::has_png_header(file) {
        crate::png_header::other_files_have_no_size(file);
    }
    crate::png_header::lemma_bytes_of_a_number(
        file[16] as int,
        file[17] as int,
        file[18] as int,
        file[19] as int,
    );
    crate::png_header::lemma_bytes_of_a_number(
        file[20] as int,
        file[21] as int,
        file[22] as int,
        file[23] as int,
    );
}

impl CropError {
    /// The text of [`CropError::message`].
    pub open spec fn text(self) -> Seq<char> {
        match self {
            CropError::Area(error) => error.text(),
            CropError::NotPngDataUrl =>
                "screenshot data URL was not an image/png base64 payload"@,
            CropError::Payload(_) => "failed to decode screenshot data URL"@,
            CropError::DecodeHeader(_) => "failed to decode screenshot PNG header"@,
            CropError::DecodePixels(_) => "failed to decode screenshot PNG pixels"@,
            CropError::Depth(depth) => "unsupported screenshot PNG bit depth after decoding: "@
                + depth.text(),
            CropError::IndexedColor => "indexed screenshot PNG did not expand to RGB"@,
            CropError::Outside(outside) => outside.text(),
            CropError::EncodePixels(_) => "failed to encode cropped screenshot PNG pixels"@,
            CropError::Header(error) => error.text(),
        }
    }

    /// The error in words, without the error of the codec below it.
    pub fn message(&self) -> (message: String)
        ensures
            message@ == self.text(),
            match *self {
                CropError::Area(error) => message@ == error.text(),
                CropError::NotPngDataUrl => message@
                    == "screenshot data URL was not an image/png base64 payload"@,
                CropError::Payload(_) => message@ == "failed to decode screenshot data URL"@,
                CropError::DecodeHeader(_) => message@ == "failed to decode screenshot PNG header"@,
                CropError::DecodePixels(_) => message@ == "failed to decode screenshot PNG pixels"@,
                CropError::Depth(depth) => message@
                    == "unsupported screenshot PNG bit depth after decoding: "@ + (match depth {
                    BitDepth::One => "One"@,
                    BitDepth::Two => "Two"@,
                    BitDepth::Four => "Four"@,
                    BitDepth::Eight => "Eight"@,
                    BitDepth::Sixteen => "Sixteen"@,
                }),
                CropError::IndexedColor => message@
                    == "indexed screenshot PNG did not expand to RGB"@,
                CropError::Outside(outside) => message@ == outside.text(),
                CropError::EncodePixels(_) => message@
                    == "failed to encode cropped screenshot PNG pixels"@,
                CropError::Header(error) => message@ == error.text(),
            },
    {
        match self {
            CropError::Area(error) => error.message(),
            CropError::NotPngDataUrl =>
                "screenshot data URL was not an image/png base64 payload".to_string(),
            CropError::Payload(_) => "failed to decode screenshot data URL".to_string(),
            CropError::DecodeHeader(_) => "failed to decode screenshot PNG header".to_string(),
            CropError::DecodePixels(_) => "failed to decode screenshot PNG pixels".to_string(),
            CropError::Depth(depth) => {
                let mut message =
                    "unsupported screenshot PNG bit depth after decoding: ".to_string();
                message.append(depth.name());
                message
            },
            CropError::IndexedColor => "indexed screenshot PNG did not expand to RGB".to_string(),
            CropError::Outside(outside) => outside.message(),
            CropError::EncodePixels(_) =>
                "failed to encode cropped screenshot PNG pixels".to_string(),
            CropError::Header(error) => error.message(),
        }
    }
}

/// A crop of an image shows, at every place, the sample of the image that lies as far
/// right of and below the corner of the clipped area; the clipped area is the overlap
/// of the area and the image; and the crop holds nothing else.
pub proof fn crops_show_the_overlap(
    image: ImageView,
    area: ScreenshotArea,
    pixels: Seq<u8>,
    clipped: ScreenshotArea,
    channels: int,
    column: int,
    row: int,
    sample: int,
)
    requires
        image_crop(image, area) == Ok::<(Seq<u8>, ScreenshotArea), CropError>((pixels, clipped)),
        match image.color_type {
            ColorType::Grayscale => channels == 1,
            ColorType::GrayscaleAlpha => channels == 2,
            ColorType::Rgb => channels == 3,
            ColorType::Rgba => channels == 4,
            ColorType::Indexed => true,
        },
        0 <= column < clipped.width,
        0 <= row < clipped.height,
        0 <= sample < channels,
    ensures
        clipped.x == vstd::math::max(area.x as int, 0),
        clipped.y == vstd::math::max(area.y as int, 0),
        clipped.x + clipped.width == vstd::math::min(area.x + area.width, image.width as int),
        clipped.y + clipped.height == vstd::math::min(area.y + area.height, image.height as int),
        pixels.len() == clipped.width * clipped.height * channels,
        pixels[(row * clipped.width + column) * channels + sample] == image.pixels[((clipped.y
            + row) * image.width + (clipped.x + column)) * channels + sample],
{
    crate::image::cropped_samples_come_from_their_place(
        image.pixels,
        image.width as int,
        channels,
        clipped,
        column,
        row,
        sample,
    );
}

/// Two crops of an image show the same sample wherever both show the same pixel.
pub proof fn crops_of_an_image_agree(
    image: ImageView,
    area: ScreenshotArea,
    pixels: Seq<u8>,
    clipped: ScreenshotArea,
    other_area: ScreenshotArea,
    other_pixels: Seq<u8>,
    other_clipped: ScreenshotArea,
    px: int,
    py: int,
    sample: int,
)
    requires
        image_crop(image, area) == Ok::<(Seq<u8>, ScreenshotArea), CropError>((pixels, clipped)),
        image_crop(image, other_area) == Ok::<(Seq<u8>, ScreenshotArea), CropError>(
            (other_pixels, other_clipped),
        ),
        clipped.x <= px < clipped.x + clipped.width,
        clipped.y <= py < clipped.y + clipped.height,
        other_clipped.x <= px < other_clipped.x + other_clipped.width,
        other_clipped.y <= py < other_clipped.y + other_clipped.height,
        0 <= sample < image.color_type.samples(),
    ensures
        ({
            let channels = image.color_type.samples() as int;
            pixels[((py - clipped.y) * clipped.width + (px - clipped.x)) * channels + sample]
                == other_pixels[((py - other_clipped.y) * other_clipped.width + (px
                - other_clipped.x)) * channels + sample]
        }),
{
    let channels = image.color_type.samples() as int;
    crops_show_the_overlap(
        image,
        area,
        pixels,
        clipped,
        channels,
        px - clipped.x,
        py - clipped.y,
        sample,
    );
    crops_show_the_overlap(
        image,
        other_area,
        other_pixels,
        other_clipped,
        channels,
        px - other_clipped.x,
        py - other_clipped.y,
        sample,
    );
}

/// An image is cropped exactly where it has one byte per sample and no palette, and
/// shares a pixel with the area; else the first of these that fails is the error.
pub proof fn images_are_cropped_where_they_overlap(image: ImageView, area: ScreenshotArea)
    ensures
        image_crop(image, area) is Ok <==> image.bit_depth is Eight && !(
        image.color_type is Indexed) && area.width > 0 && area.height > 0 && image.width > 0
            && image.height > 0 && area.x < image.width && area.y < image.height && 0 < area.x
            + area.width && 0 < area.y + area.height,
        match image_crop(image, area) {
            Ok(_) => true,
            Err(CropError::Depth(depth)) => depth == image.bit_depth && !(depth is Eight),
            Err(CropError::IndexedColor) => image.bit_depth is Eight && image.color_type is Indexed,
            Err(CropError::Outside(outside)) => {
                &&& image.bit_depth is Eight
                &&& !(image.color_type is Indexed)
                &&& outside.area == area
                &&& outside.image_width == image.width
                &&& outside.image_height == image.height
            },
            Err(_) => false,
        },
{
}

/// The image of a PNG file is what the decoder gives for its first frame.
pub proof fn images_are_the_frames_of_their_file(
    file: Seq<u8>,
    width: u32,
    height: u32,
    color: u8,
    depth: u8,
    pixels: Seq<u8>,
)
    requires
        crate::codec::png_frame(file) == Some((width, height, color, depth, pixels)),
        color == 0 || color == 2 || color == 3 || color == 4 || color == 6,
        depth == 1 || depth == 2 || depth == 4 || depth == 8 || depth == 16,
    ensures
        image_of_png(file) matches Some(image) && {
            &&& image.width == width
            &&& image.height == height
            &&& image.pixels == pixels
            &&& match image.color_type {
                ColorType::Grayscale => color == 0,
                ColorType::Rgb => color == 2,
                ColorType::Indexed => color == 3,
                ColorType::GrayscaleAlpha => color == 4,
                ColorType::Rgba => color == 6,
            }
            &&& match image.bit_depth {
                BitDepth::One => depth == 1,
                BitDepth::Two => depth == 2,
                BitDepth::Four => depth == 4,
                BitDepth::Eight => depth == 8,
                BitDepth::Sixteen => depth == 16,
            }
        },
{
}

/// A cropped file is the encoding, in the color type of the image, of the samples of
/// the image that the clipped area shows.
pub proof fn cropped_files_hold_the_samples_of_the_area(
    file: Seq<u8>,
    area: ScreenshotArea,
    out: Seq<u8>,
    clipped: ScreenshotArea,
)
    requires
        cropped_png(file, area) == Some((out, clipped)),
    ensures
        0 < area.width <= i32::MAX && 0 < area.height <= i32::MAX,
        image_of_png(file) matches Some(image) && {
            &&& crate::area::is_overlap(area, image.width as int, image.height as int, clipped)
            &&& exists|pixels: Seq<u8>| #[trigger]
                crate::codec::png_file(
                    clipped.width,
                    clipped.height,
                    image.color_type.code(),
                    pixels,
                ) == Some(out) && pixels.len() == clipped.width * clipped.height
                    * image.color_type.samples() && forall|column: int, row: int, sample: int|
                    0 <= column < clipped.width && 0 <= row < clipped.height && 0 <= sample
                        < image.color_type.samples() ==> #[trigger] crate::image::sample_at(
                        pixels,
                        clipped.width as int,
                        image.color_type.samples() as int,
                        column,
                        row,
                        sample,
                    ) == crate::image::sample_at(
                        image.pixels,
                        image.width as int,
                        image.color_type.samples() as int,
                        clipped.x + column,
                        clipped.y + row,
                        sample,
                    )
        },
{
    let image = image_of_png(file)->0;
    let channels = image.color_type.samples() as int;
    crate::image::lemma_crop_shows_every_sample(
        image.pixels,
        image.width as int,
        channels,
        clipped,
    );
    let pixels = crate::image::cropped_pixels(
        image.pixels,
        image.width as int,
        channels,
        clipped,
    );
    assert(crate::codec::png_file(
        clipped.width,
        clipped.height,
        image.color_type.code(),
        pixels,
    ) == Some(out));
}

/// A valid area is cropped out of a file that decodes and shares a pixel with it,
/// unless the encoder fails; every failure before that has its own error.
pub proof fn files_are_cropped_where_they_can_be(
    file: Seq<u8>,
    area: ScreenshotArea,
    error: CropError,
)
    ensures
        cropped_png(file, area) is Some ==> crate::codec::png_canvas(file) is Some && image_of_png(
            file,
        ) is Some,
        0 < area.width <= i32::MAX && 0 < area.height <= i32::MAX && crate::codec::png_canvas(
            file,
        ) is Some && image_of_png(file) is Some ==> match image_crop(image_of_png(file)->0, area) {
            Ok((pixels, clipped)) => match crate::codec::png_file(
                clipped.width,
                clipped.height,
                (image_of_png(file)->0).color_type.code(),
                pixels,
            ) {
                Some(out) => cropped_png(file, area) == Some((out, clipped)),
                None => cropped_png(file, area) is None,
            },
            Err(_) => cropped_png(file, area) is None,
        },
        crop_fails_with(file, area, error) ==> {
            &&& error is Area <==> !(0 < area.width <= i32::MAX && 0 < area.height <= i32::MAX)
            &&& error is DecodeHeader <==> 0 < area.width <= i32::MAX && 0 < area.height
                <= i32::MAX && crate::codec::png_canvas(file) is None
            &&& error is DecodePixels <==> 0 < area.width <= i32::MAX && 0 < area.height
                <= i32::MAX && crate::codec::png_canvas(file) is Some && image_of_png(file) is None
            &&& !(error is NotPngDataUrl) && !(error is Payload) && !(error is Header)
            &&& cropped_png(file, area) is None
        },
{
    if let Some(image) = image_of_png(file) {
        images_are_cropped_where_they_overlap(image, area);
    }
}

/// A file is left out of decoding only if its canvas does not fit the memory, or its
/// palette is malformed and would be used, or its bits cannot be counted.
pub proof fn few_files_are_left_out(file: Seq<u8>)
    ensures
        crate::codec::png_canvas(file) is None ==> canvas_fits(file),
        crate::codec::png_canvas(file) matches Some((width, height, color)) ==> (color == 0
            || color == 2 || color == 4 || color == 6) ==> {
            &&& canvas_fits(file) ==> width * height * channels_of(color) <= isize::MAX
            &&& width * height * channels_of(color)
                <= isize::MAX ==> match crate::codec::png_layout(file) {
                None => canvas_fits(file),
                Some((coded, interlaced, palette, frames, controlled)) => canvas_fits(file) <==> ((
                coded != 3 || palette is None || (palette->0 % 3 == 0 && palette->0 <= 768) || (
                frames == Some(0u32) && controlled) || !crate::codec::png_first_row(file)) && (
                !interlaced || width * height * channels_of(color) * 8 <= usize::MAX)),
            }
        },
{
}

} // verus!
