//! Decoded images and the rectangle of pixels that a crop keeps.
use crate::area::ScreenshotArea;
use vstd::arithmetic::div_mod::lemma_fundamental_div_mod_converse;
use vstd::prelude::*;

verus! {

/// How the samples of a pixel are to be read.
#[derive(Debug, Clone, Copy, PartialEq, Eq, Structural)]
pub enum ColorType {
    Grayscale,
    Rgb,
    Indexed,
    GrayscaleAlpha,
    Rgba,
}

impl ColorType {
    /// The number that stands for the color type in a PNG header.
    pub open spec fn code(self) -> u8 {
        match self {
            ColorType::Grayscale => 0,
            ColorType::Rgb => 2,
            ColorType::Indexed => 3,
            ColorType::GrayscaleAlpha => 4,
            ColorType::Rgba => 6,
        }
    }

    /// The number of samples per pixel.
    pub open spec fn samples(self) -> nat {
        match self {
            ColorType::Grayscale => 1,
            ColorType::Rgb => 3,
            ColorType::Indexed => 1,
            ColorType::GrayscaleAlpha => 2,
            ColorType::Rgba => 4,
        }
    }

    /// The color type that a number stands for in a PNG header.
    pub open spec fn of_code(code: u8) -> Option<ColorType> {
        if code == 0 {
            Some(ColorType::Grayscale)
        } else if code == 2 {
            Some(ColorType::Rgb)
        } else if code == 3 {
            Some(ColorType::Indexed)
        } else if code == 4 {
            Some(ColorType::GrayscaleAlpha)
        } else if code == 6 {
            Some(ColorType::Rgba)
        } else {
            None
        }
    }

    /// The color type that `code` stands for in a PNG header.
    pub fn from_code(code: u8) -> (color_type: Option<ColorType>)
        ensures
            color_type == ColorType::of_code(code),
            match color_type {
                Some(ColorType::Grayscale) => code == 0,
                Some(ColorType::Rgb) => code == 2,
                Some(ColorType::Indexed) => code == 3,
                Some(ColorType::GrayscaleAlpha) => code == 4,
                Some(ColorType::Rgba) => code == 6,
                None => code == 1 || code == 5 || code > 6,
            },
    {
        match code {
            0 => Some(ColorType::Grayscale),
            2 => Some(ColorType::Rgb),
            3 => Some(ColorType::Indexed),
            4 => Some(ColorType::GrayscaleAlpha),
            6 => Some(ColorType::Rgba),
            _ => None,
        }
    }

    /// The number that stands for the color type in a PNG header.
    pub fn to_code(self) -> (code: u8)
        ensures
            code == self.code(),
            ColorType::of_code(code) == Some(self),
            match self {
                ColorType::Grayscale => code == 0,
                ColorType::Rgb => code == 2,
                ColorType::Indexed => code == 3,
                ColorType::GrayscaleAlpha => code == 4,
                ColorType::Rgba => code == 6,
            },
    {
        match self {
            ColorType::Grayscale => 0,
            ColorType::Rgb => 2,
            ColorType::Indexed => 3,
            ColorType::GrayscaleAlpha => 4,
            ColorType::Rgba => 6,
        }
    }
}

/// The number of bits per sample.
#[derive(Debug, Clone, Copy, PartialEq, Eq, Structural)]
pub enum BitDepth {
    One,
    Two,
    Four,
    Eight,
    Sixteen,
}

impl BitDepth {
    /// The depth with that many bits.
    pub open spec fn of_bits(bits: u8) -> Option<BitDepth> {
        if bits == 1 {
            Some(BitDepth::One)
        } else if bits == 2 {
            Some(BitDepth::Two)
        } else if bits == 4 {
            Some(BitDepth::Four)
        } else if bits == 8 {
            Some(BitDepth::Eight)
        } else if bits == 16 {
            Some(BitDepth::Sixteen)
        } else {
            None
        }
    }

    /// The depth with that many bits.
    pub fn from_bits(bits: u8) -> (depth: Option<BitDepth>)
        ensures
            depth == BitDepth::of_bits(bits),
            match depth {
                Some(BitDepth::One) => bits == 1,
                Some(BitDepth::Two) => bits == 2,
                Some(BitDepth::Four) => bits == 4,
                Some(BitDepth::Eight) => bits == 8,
                Some(BitDepth::Sixteen) => bits == 16,
                None => bits != 1 && bits != 2 && bits != 4 && bits != 8 && bits != 16,
            },
    {
        match bits {
            1 => Some(BitDepth::One),
            2 => Some(BitDepth::Two),
            4 => Some(BitDepth::Four),
            8 => Some(BitDepth::Eight),
            16 => Some(BitDepth::Sixteen),
            _ => None,
        }
    }

    /// The text of [`BitDepth::name`].
    pub open spec fn text(self) -> Seq<char> {
        match self {
            BitDepth::One => "One"@,
            BitDepth::Two => "Two"@,
            BitDepth::Four => "Four"@,
            BitDepth::Eight => "Eight"@,
            BitDepth::Sixteen => "Sixteen"@,
        }
    }

    /// The depth in words.
    pub fn name(self) -> (name: &'static str)
        ensures
            name@ == self.text(),
    {
        match self {
            BitDepth::One => "One",
            BitDepth::Two => "Two",
            BitDepth::Four => "Four",
            BitDepth::Eight => "Eight",
            BitDepth::Sixteen => "Sixteen",
        }
    }
}

/// A decoded image, row by row from the top.
pub struct DecodedImage {
    pub width: u32,
    pub height: u32,
    pub color_type: ColorType,
    pub bit_depth: BitDepth,
    pub pixels: Vec<u8>,
}

/// What a [`DecodedImage`] holds.
pub struct ImageView {
    pub width: u32,
    pub height: u32,
    pub color_type: ColorType,
    pub bit_depth: BitDepth,
    pub pixels: Seq<u8>,
}

impl View for DecodedImage {
    type V = ImageView;

    open spec fn view(&self) -> ImageView {
        ImageView {
            width: self.width,
            height: self.height,
            color_type: self.color_type,
            bit_depth: self.bit_depth,
            pixels: self.pixels@,
        }
    }
}

impl ImageView {
    /// An image with one byte per sample holds as many bytes as its size and
    /// color type ask for.
    pub open spec fn well_formed(self) -> bool {
        self.bit_depth is Eight ==> self.pixels.len() == self.width * self.height
            * self.color_type.samples()
    }
}

/// The position of the first sample of the pixel in column `column` and row
/// `row`, in rows of `width` pixels of `channels` bytes.
pub open spec fn pixel_offset(width: int, channels: int, column: int, row: int) -> int {
    (row * width + column) * channels
}

/// The sample that stands for a pixel in rows of `width` pixels of `channels` bytes.
pub open spec fn sample_at(
    pixels: Seq<u8>,
    width: int,
    channels: int,
    column: int,
    row: int,
    sample: int,
) -> u8 {
    pixels[(row * width + column) * channels + sample]
}

/// The bytes of the rectangle `area`, row by row, out of an image whose rows
/// hold `image_width` pixels of `channels` bytes.
pub open spec fn cropped_pixels(
    pixels: Seq<u8>,
    image_width: int,
    channels: int,
    area: ScreenshotArea,
) -> Seq<u8> {
    let row_len = area.width * channels;
    Seq::new(
        (area.height * row_len) as nat,
        |i: int|
            pixels[pixel_offset(image_width, channels, area.x as int, area.y + i / row_len) + i
                % row_len],
    )
}

proof fn lemma_row_fits(
    pixel_count: int,
    image_width: int,
    image_height: int,
    channels: int,
    area: ScreenshotArea,
    row: int,
)
    requires
        area.within(image_width, image_height),
        0 < channels,
        pixel_count == image_width * image_height * channels,
        0 <= row < area.height,
    ensures
        0 <= pixel_offset(image_width, channels, area.x as int, area.y + row),
        pixel_offset(image_width, channels, area.x as int, area.y + row) + area.width * channels
            <= pixel_count,
        (area.y + row) * image_width + area.x <= pixel_count,
        (area.y + row) * image_width <= pixel_count,
{
    let first = (area.y + row) * image_width + area.x;
    let total = image_width * image_height;
    assert(0 <= (area.y + row) * image_width) by (nonlinear_arith)
        requires
            0 <= area.y + row,
            0 <= image_width,
    ;
    assert((area.y + row) * image_width + image_width <= total) by (nonlinear_arith)
        requires
            area.y + row + 1 <= image_height,
            0 <= image_width,
            total == image_width * image_height,
    ;
    assert(0 <= first * channels) by (nonlinear_arith)
        requires
            0 <= first,
            0 < channels,
    ;
    assert(first * channels + area.width * channels <= total * channels) by (nonlinear_arith)
        requires
            first + area.width <= total,
            0 < channels,
    ;
    assert(first <= total * channels) by (nonlinear_arith)
        requires
            0 <= first <= total,
            0 < channels,
    ;
}

pub(crate) proof fn lemma_crop_fits(
    pixel_count: int,
    image_width: int,
    image_height: int,
    channels: int,
    area: ScreenshotArea,
)
    requires
        area.within(image_width, image_height),
        0 < channels,
        pixel_count == image_width * image_height * channels,
    ensures
        0 < area.width * channels <= pixel_count,
        area.height * (area.width * channels) <= pixel_count,
{
    let row_len = area.width * channels;
    assert(0 < row_len) by (nonlinear_arith)
        requires
            0 < area.width,
            0 < channels,
            row_len == area.width * channels,
    ;
    assert(row_len <= area.height * row_len) by (nonlinear_arith)
        requires
            0 < row_len,
            1 <= area.height,
    ;
    assert(area.height * row_len <= pixel_count) by (nonlinear_arith)
        requires
            row_len == area.width * channels,
            pixel_count == image_width * image_height * channels,
            0 < area.width <= image_width,
            0 < area.height <= image_height,
            0 < channels,
    {
        assert(area.height * (area.width * channels) == (area.width * area.height) * channels);
        assert(area.width * area.height <= image_width * image_height);
    }
}

/// Copies the rectangle `area` out of an image of the given size, whose pixels
/// take `channels` bytes each.
pub fn crop_pixels(
    pixels: &[u8],
    image_width: u32,
    image_height: u32,
    channels: usize,
    area: ScreenshotArea,
) -> (cropped: Vec<u8>)
    requires
        area.within(image_width as int, image_height as int),
        0 < channels,
        pixels@.len() == image_width * image_height * channels,
    ensures
        cropped@ == cropped_pixels(pixels@, image_width as int, channels as int, area),
        cropped@.len() == area.width * area.height * channels,
        forall|column: int, row: int, sample: int|
            0 <= column < area.width && 0 <= row < area.height && 0 <= sample < channels
                ==> #[trigger] sample_at(
                cropped@,
                area.width as int,
                channels as int,
                column,
                row,
                sample,
            ) == sample_at(
                pixels@,
                image_width as int,
                channels as int,
                area.x + column,
                area.y + row,
                sample,
            ),
{
    proof {
        assert(pixels@.len() == pixels.len());
        lemma_crop_fits(
            pixels@.len() as int,
            image_width as int,
            image_height as int,
            channels as int,
            area,
        );
    }
    let x: usize = area.x as usize;
    let y: usize = area.y as usize;
    let stride: usize = image_width as usize;
    let height: usize = area.height as usize;
    let row_len: usize = area.width as usize * channels;
    let mut cropped: Vec<u8> = Vec::with_capacity(height * row_len);
    let mut row: usize = 0;
    while row < height
        invariant
            row <= height,
            height == area.height,
            x == area.x,
            y == area.y,
            stride == image_width,
            row_len == area.width * channels,
            0 < row_len,
            0 < channels,
            area.within(image_width as int, image_height as int),
            pixels@.len() == image_width * image_height * channels,
            pixels@.len() <= usize::MAX,
            cropped@.len() == row * row_len,
            forall|i: int|
                0 <= i < row * row_len ==> #[trigger] cropped@[i] == pixels@[pixel_offset(
                    image_width as int,
                    channels as int,
                    area.x as int,
                    area.y + i / (row_len as int),
                ) + i % (row_len as int)],
        decreases height - row,
    {
        proof {
            lemma_row_fits(
                pixels@.len() as int,
                image_width as int,
                image_height as int,
                channels as int,
                area,
                row as int,
            );
        }
        let start: usize = ((y + row) * stride + x) * channels;
        let ghost done = cropped@;
        cropped.extend_from_slice(&pixels[start..start + row_len]);
        proof {
            let next = row + 1;
            assert(next * row_len == row * row_len + row_len) by (nonlinear_arith)
                requires
                    next == row + 1,
            ;
            assert forall|i: int| 0 <= i < next * row_len implies #[trigger] cropped@[i]
                == pixels@[pixel_offset(
                image_width as int,
                channels as int,
                area.x as int,
                area.y + i / (row_len as int),
            ) + i % (row_len as int)] by {
                if i < row * row_len {
                    assert(cropped@[i] == done[i]);
                } else {
                    let column = i - row * row_len;
                    lemma_fundamental_div_mod_converse(i, row_len as int, row as int, column);
                    assert(cropped@[i] == pixels@.subrange(
                        start as int,
                        start + row_len,
                    )[column]);
                }
            }
        }
        row += 1;
    }
    assert(cropped@ =~= cropped_pixels(pixels@, image_width as int, channels as int, area));
    proof {
        lemma_crop_shows_every_sample(pixels@, image_width as int, channels as int, area);
    }
    cropped
}

/// The pixel that a crop shows in column `column` and row `row` is the one that
/// the image shows that far right of and below the corner of the cropped area,
/// sample by sample.
pub proof fn crop_shows_the_pixels_of_the_area(
    pixels: Seq<u8>,
    image_width: int,
    channels: int,
    area: ScreenshotArea,
    column: int,
    row: int,
    sample: int,
)
    requires
        0 <= column < area.width,
        0 <= row < area.height,
        0 <= sample < channels,
    ensures
        0 <= pixel_offset(area.width as int, channels, column, row) + sample < cropped_pixels(
            pixels,
            image_width,
            channels,
            area,
        ).len(),
        cropped_pixels(pixels, image_width, channels, area)[pixel_offset(
            area.width as int,
            channels,
            column,
            row,
        ) + sample] == pixels[pixel_offset(image_width, channels, area.x + column, area.y + row)
            + sample],
{
    let row_len = area.width * channels;
    let within_row = column * channels + sample;
    let i = pixel_offset(area.width as int, channels, column, row) + sample;
    assert(0 <= within_row < row_len) by (nonlinear_arith)
        requires
            within_row == column * channels + sample,
            row_len == area.width * channels,
            0 <= column <= area.width - 1,
            0 <= sample < channels,
    ;
    assert(i == row * row_len + within_row) by (nonlinear_arith)
        requires
            i == (row * area.width + column) * channels + sample,
            row_len == area.width * channels,
            within_row == column * channels + sample,
    ;
    assert(0 <= i < area.height * row_len) by (nonlinear_arith)
        requires
            i == row * row_len + within_row,
            0 <= within_row < row_len,
            0 <= row <= area.height - 1,
    ;
    lemma_fundamental_div_mod_converse(i, row_len, row, within_row);
    assert(((area.y + row) * image_width + area.x) * channels + within_row == ((area.y + row)
        * image_width + (area.x + column)) * channels + sample) by (nonlinear_arith)
        requires
            within_row == column * channels + sample,
    ;
}

/// Cropping to the whole image changes nothing.
pub proof fn cropping_to_the_whole_image_changes_nothing(
    pixels: Seq<u8>,
    image_width: u32,
    image_height: u32,
    channels: int,
    area: ScreenshotArea,
)
    requires
        0 < channels,
        area.x == 0,
        area.y == 0,
        area.width == image_width,
        area.height == image_height,
        0 < image_width,
        pixels.len() == image_width * image_height * channels,
    ensures
        cropped_pixels(pixels, image_width as int, channels, area) == pixels,
{
    let row_len = image_width * channels;
    let cropped = cropped_pixels(pixels, image_width as int, channels, area);
    assert(0 < row_len) by (nonlinear_arith)
        requires
            row_len == image_width * channels,
            0 < image_width,
            0 < channels,
    ;
    assert(image_height * row_len == pixels.len()) by (nonlinear_arith)
        requires
            row_len == image_width * channels,
            pixels.len() == image_width * image_height * channels,
    ;
    assert forall|i: int| 0 <= i < pixels.len() implies cropped[i] == pixels[i] by {
        vstd::arithmetic::div_mod::lemma_fundamental_div_mod(i, row_len);
        let row = i / row_len;
        assert((row * image_width + 0) * channels == row_len * row) by (nonlinear_arith)
            requires
                row_len == image_width * channels,
        ;
    }
    assert(cropped =~= pixels);
}

/// Cropping a crop gives the same pixels as cropping the image once, to the inner
/// area moved by the corner of the outer one.
pub proof fn cropping_twice_is_cropping_once(
    pixels: Seq<u8>,
    image_width: int,
    image_height: int,
    channels: int,
    outer: ScreenshotArea,
    inner: ScreenshotArea,
    moved: ScreenshotArea,
)
    requires
        0 < channels,
        outer.within(image_width, image_height),
        inner.within(outer.width as int, outer.height as int),
        moved.x == outer.x + inner.x,
        moved.y == outer.y + inner.y,
        moved.width == inner.width,
        moved.height == inner.height,
    ensures
        cropped_pixels(
            cropped_pixels(pixels, image_width, channels, outer),
            outer.width as int,
            channels,
            inner,
        ) == cropped_pixels(pixels, image_width, channels, moved),
{
    let once = cropped_pixels(pixels, image_width, channels, moved);
    let first = cropped_pixels(pixels, image_width, channels, outer);
    let twice = cropped_pixels(first, outer.width as int, channels, inner);
    let row_len = inner.width * channels;
    assert(0 < row_len) by (nonlinear_arith)
        requires
            row_len == inner.width * channels,
            0 < inner.width,
            0 < channels,
    ;
    assert forall|i: int| 0 <= i < twice.len() implies twice[i] == once[i] by {
        let row = i / row_len;
        let within_row = i % row_len;
        let column = within_row / channels;
        let sample = within_row % channels;
        vstd::arithmetic::div_mod::lemma_fundamental_div_mod(i, row_len);
        vstd::arithmetic::div_mod::lemma_fundamental_div_mod(within_row, channels);
        assert(0 <= within_row < row_len && 0 <= row) by (nonlinear_arith)
            requires
                0 < row_len,
                0 <= i,
                row == i / row_len,
                within_row == i % row_len,
        ;
        assert(row < inner.height) by (nonlinear_arith)
            requires
                i == row_len * row + within_row,
                0 <= within_row,
                0 < row_len,
                i < inner.height * row_len,
        ;
        assert(0 <= sample < channels && 0 <= column) by (nonlinear_arith)
            requires
                0 < channels,
                0 <= within_row,
                column == within_row / channels,
                sample == within_row % channels,
        ;
        assert(column < inner.width) by (nonlinear_arith)
            requires
                within_row == channels * column + sample,
                0 <= sample,
                0 < channels,
                within_row < inner.width * channels,
        ;
        assert(i == pixel_offset(inner.width as int, channels, column, row) + sample)
            by (nonlinear_arith)
            requires
                i == row_len * row + within_row,
                within_row == channels * column + sample,
                row_len == inner.width * channels,
                pixel_offset(inner.width as int, channels, column, row) == (row * inner.width
                    + column) * channels,
        ;
        crop_shows_the_pixels_of_the_area(
            first,
            outer.width as int,
            channels,
            inner,
            column,
            row,
            sample,
        );
        crop_shows_the_pixels_of_the_area(
            pixels,
            image_width,
            channels,
            outer,
            inner.x + column,
            inner.y + row,
            sample,
        );
        crop_shows_the_pixels_of_the_area(
            pixels,
            image_width,
            channels,
            moved,
            column,
            row,
            sample,
        );
    }
    assert(twice =~= once);
}

/// Every sample of a crop is the one that stands, in the image, as far right of and
/// below the corner of the area, and the crop holds no other samples.
pub proof fn cropped_samples_come_from_their_place(
    pixels: Seq<u8>,
    image_width: int,
    channels: int,
    area: ScreenshotArea,
    column: int,
    row: int,
    sample: int,
)
    requires
        0 <= column < area.width,
        0 <= row < area.height,
        0 <= sample < channels,
    ensures
        cropped_pixels(pixels, image_width, channels, area).len() == area.width * area.height
            * channels,
        cropped_pixels(pixels, image_width, channels, area)[(row * area.width + column) * channels
            + sample] == pixels[((area.y + row) * image_width + (area.x + column)) * channels
            + sample],
{
    crop_shows_the_pixels_of_the_area(pixels, image_width, channels, area, column, row, sample);
    assert(area.height * (area.width * channels) == area.width * area.height * channels)
        by (nonlinear_arith);
    assert(0 <= area.height * (area.width * channels)) by (nonlinear_arith)
        requires
            0 < channels,
    ;
}

pub(crate) proof fn lemma_crop_shows_every_sample(
    pixels: Seq<u8>,
    image_width: int,
    channels: int,
    area: ScreenshotArea,
)
    requires
        0 < area.width,
        0 < area.height,
        0 < channels,
    ensures
        cropped_pixels(pixels, image_width, channels, area).len() == area.width * area.height
            * channels,
        forall|column: int, row: int, sample: int|
            0 <= column < area.width && 0 <= row < area.height && 0 <= sample < channels
                ==> #[trigger] sample_at(
                cropped_pixels(pixels, image_width, channels, area),
                area.width as int,
                channels,
                column,
                row,
                sample,
            ) == sample_at(
                pixels,
                image_width,
                channels,
                area.x + column,
                area.y + row,
                sample,
            ),
{
    cropped_samples_come_from_their_place(pixels, image_width, channels, area, 0, 0, 0);
    let cropped = cropped_pixels(pixels, image_width, channels, area);
    assert forall|column: int, row: int, sample: int|
        0 <= column < area.width && 0 <= row < area.height && 0 <= sample < channels implies
        #[trigger] sample_at(cropped, area.width as int, channels, column, row, sample)
            == sample_at(
        pixels,
        image_width,
        channels,
        area.x + column,
        area.y + row,
        sample,
    ) by {
        cropped_samples_come_from_their_place(
            pixels,
            image_width,
            channels,
            area,
            column,
            row,
            sample,
        );
    }
}

/// The codes of the color types are those of the PNG header, and a pixel has a sample
/// for gray or three for color, and one more for transparency.
pub proof fn color_types_have_their_codes_and_samples(color_type: ColorType, code: u8)
    ensures
        match color_type {
            ColorType::Grayscale => color_type.code() == 0 && color_type.samples() == 1,
            ColorType::Rgb => color_type.code() == 2 && color_type.samples() == 3,
            ColorType::Indexed => color_type.code() == 3 && color_type.samples() == 1,
            ColorType::GrayscaleAlpha => color_type.code() == 4 && color_type.samples() == 2,
            ColorType::Rgba => color_type.code() == 6 && color_type.samples() == 4,
        },
        ColorType::of_code(color_type.code()) == Some(color_type),
        ColorType::of_code(code) matches Some(named) ==> named.code() == code,
        ColorType::of_code(code) is None ==> color_type.code() != code,
{
}

/// A number of bits names at most one depth, and each depth is named.
pub proof fn depths_have_their_bits(bits: u8)
    ensures
        match BitDepth::of_bits(bits) {
            Some(BitDepth::One) => bits == 1,
            Some(BitDepth::Two) => bits == 2,
            Some(BitDepth::Four) => bits == 4,
            Some(BitDepth::Eight) => bits == 8,
            Some(BitDepth::Sixteen) => bits == 16,
            None => bits != 1 && bits != 2 && bits != 4 && bits != 8 && bits != 16,
        },
{
}

} // verus!
