//! The size of a PNG image, read from the first bytes of the file.
use crate::text::push_decimal_pair;
use vstd::arithmetic::div_mod::lemma_fundamental_div_mod_converse;
use vstd::prelude::*;

verus! {

/// Why the size of a PNG file could not be read.
#[derive(Debug, Clone, Copy, PartialEq, Eq, Structural)]
pub enum PngHeaderError {
    /// The bytes do not start with the PNG signature and an `IHDR` chunk.
    NotPng,
    /// The header gives a width or a height of zero.
    InvalidDimensions { width: u32, height: u32 },
}

/// The eight bytes that every PNG file starts with.
pub open spec fn png_signature() -> Seq<u8> {
    seq![0x89u8, 0x50u8, 0x4eu8, 0x47u8, 0x0du8, 0x0au8, 0x1au8, 0x0au8]
}

/// The chunk type `IHDR`.
pub open spec fn ihdr_type() -> Seq<u8> {
    seq![0x49u8, 0x48u8, 0x44u8, 0x52u8]
}

/// The big-endian number in the four bytes from position `at`.
pub open spec fn big_endian(bytes: Seq<u8>, at: int) -> u32 {
    (bytes[at] * 0x100_0000 + bytes[at + 1] * 0x1_0000 + bytes[at + 2] * 0x100 + bytes[at
        + 3]) as u32
}

/// Whether the bytes start with the PNG signature and a first chunk of type
/// `IHDR`, long enough to hold a width and a height.
pub open spec fn starts_as_png(bytes: Seq<u8>) -> bool {
    &&& bytes.len() >= 24
    &&& bytes.subrange(0, 8) == png_signature()
    &&& bytes.subrange(12, 16) == ihdr_type()
}

/// The verdict of [`png_dimensions`].
pub open spec fn png_size(bytes: Seq<u8>) -> Result<(u32, u32), PngHeaderError> {
    let width = big_endian(bytes, 16);
    let height = big_endian(bytes, 20);
    if !starts_as_png(bytes) {
        Err(PngHeaderError::NotPng)
    } else if width == 0 || height == 0 {
        Err(PngHeaderError::InvalidDimensions { width, height })
    } else {
        Ok((width, height))
    }
}

/// Whether the bytes are long enough to hold a size and have the eight bytes of the
/// signature and the four of `IHDR` at their places.
pub open spec fn has_png_header(bytes: Seq<u8>) -> bool {
    &&& bytes.len() >= 24
    &&& bytes[0] == 0x89 && bytes[1] == 0x50 && bytes[2] == 0x4e && bytes[3] == 0x47
    &&& bytes[4] == 0x0d && bytes[5] == 0x0a && bytes[6] == 0x1a && bytes[7] == 0x0a
    &&& bytes[12] == 0x49 && bytes[13] == 0x48 && bytes[14] == 0x44 && bytes[15] == 0x52
}

/// Whether the four bytes from position `at` are those of `value`, the highest first.
pub open spec fn is_big_endian(bytes: Seq<u8>, at: int, value: u32) -> bool {
    &&& bytes[at] == value / 0x100_0000
    &&& bytes[at + 1] == value / 0x1_0000 % 0x100
    &&& bytes[at + 2] == value / 0x100 % 0x100
    &&& bytes[at + 3] == value % 0x100
}

fn read_big_endian(bytes: &[u8], at: usize) -> (value: u32)
    requires
        at + 4 <= bytes@.len(),
    ensures
        value == big_endian(bytes@, at as int),
        is_big_endian(bytes@, at as int, value),
{
    let (a, b, c, d) = (bytes[at], bytes[at + 1], bytes[at + 2], bytes[at + 3]);
    let value: u32 = a as u32 * 0x100_0000 + b as u32 * 0x1_0000 + c as u32 * 0x100 + d as u32;
    proof {
        lemma_bytes_of_a_number(a as int, b as int, c as int, d as int);
    }
    value
}

pub(crate) proof fn lemma_bytes_of_a_number(a: int, b: int, c: int, d: int)
    requires
        0 <= a < 0x100,
        0 <= b < 0x100,
        0 <= c < 0x100,
        0 <= d < 0x100,
    ensures
        ({
            let value = a * 0x100_0000 + b * 0x1_0000 + c * 0x100 + d;
            &&& value / 0x100_0000 == a
            &&& value / 0x1_0000 % 0x100 == b
            &&& value / 0x100 % 0x100 == c
            &&& value % 0x100 == d
        }),
{
    let value = a * 0x100_0000 + b * 0x1_0000 + c * 0x100 + d;
    lemma_fundamental_div_mod_converse(
        value,
        0x100_0000,
        a,
        b * 0x1_0000 + c * 0x100 + d,
    );
    lemma_fundamental_div_mod_converse(value, 0x1_0000, a * 0x100 + b, c * 0x100 + d);
    lemma_fundamental_div_mod_converse(a * 0x100 + b, 0x100, a, b);
    lemma_fundamental_div_mod_converse(value, 0x100, a * 0x1_0000 + b * 0x100 + c, d);
    lemma_fundamental_div_mod_converse(
        a * 0x1_0000 + b * 0x100 + c,
        0x100,
        a * 0x100 + b,
        c,
    );
}

/// The width and height that a PNG file gives in its header.
pub fn png_dimensions(bytes: &[u8]) -> (size: Result<(u32, u32), PngHeaderError>)
    ensures
        size == png_size(bytes@),
        size == Err::<(u32, u32), PngHeaderError>(PngHeaderError::NotPng) <==> !has_png_header(
            bytes@,
        ),
        match size {
            Ok((width, height)) => {
                &&& width > 0 && height > 0
                &&& is_big_endian(bytes@, 16, width)
                &&& is_big_endian(bytes@, 20, height)
            },
            Err(PngHeaderError::InvalidDimensions { width, height }) => {
                &&& width == 0 || height == 0
                &&& is_big_endian(bytes@, 16, width)
                &&& is_big_endian(bytes@, 20, height)
            },
            Err(PngHeaderError::NotPng) => true,
        },
{
    proof {
        if !has_png_header(bytes@) {
            other_files_have_no_size(bytes@);
        }
    }
    if bytes.len() < 24 {
        return Err(PngHeaderError::NotPng);
    }
    let signed: bool = bytes[0] == 0x89 && bytes[1] == 0x50 && bytes[2] == 0x4e && bytes[3] == 0x47
        && bytes[4] == 0x0d && bytes[5] == 0x0a && bytes[6] == 0x1a && bytes[7] == 0x0a;
    let typed: bool = bytes[12] == 0x49 && bytes[13] == 0x48 && bytes[14] == 0x44 && bytes[15]
        == 0x52;
    if !signed || !typed {
        return Err(PngHeaderError::NotPng);
    }
    let width: u32 = read_big_endian(bytes, 16);
    let height: u32 = read_big_endian(bytes, 20);
    proof {
        headers_give_their_size(bytes@, width, height);
    }
    if width == 0 || height == 0 {
        return Err(PngHeaderError::InvalidDimensions { width, height });
    }
    Ok((width, height))
}

/// Only the first 24 bytes of a file decide about its size: whatever follows
/// them leaves the verdict as it is.
pub proof fn size_depends_on_the_header_alone(header: Seq<u8>, rest: Seq<u8>)
    requires
        header.len() >= 24,
    ensures
        png_size(header + rest) == png_size(header),
{
    let file = header + rest;
    assert(file.subrange(0, 8) =~= header.subrange(0, 8));
    assert(file.subrange(12, 16) =~= header.subrange(12, 16));
}

impl PngHeaderError {
    /// The text of [`PngHeaderError::message`].
    pub open spec fn text(self) -> Seq<char> {
        match self {
            PngHeaderError::NotPng => "screenshot file was not a valid PNG"@,
            PngHeaderError::InvalidDimensions { width, height } =>
                "screenshot PNG had invalid dimensions "@ + crate::text::decimal_pair(
                width,
                height,
            ),
        }
    }

    /// The error in words.
    pub fn message(&self) -> (message: String)
        ensures
            message@ == self.text(),
            match *self {
                PngHeaderError::NotPng => message@ == "screenshot file was not a valid PNG"@,
                PngHeaderError::InvalidDimensions { width, height } => message@
                    == "screenshot PNG had invalid dimensions "@ + crate::text::decimal(
                    width as nat,
                ) + "x"@ + crate::text::decimal(height as nat),
            },
    {
        match *self {
            PngHeaderError::NotPng => "screenshot file was not a valid PNG".to_string(),
            PngHeaderError::InvalidDimensions { width, height } => {
                let mut message = "screenshot PNG had invalid dimensions ".to_string();
                push_decimal_pair(&mut message, width, height);
                message
            },
        }
    }
}

/// A file that starts with the signature, any length, `IHDR` and the bytes of a width
/// and a height is judged by that size, whatever follows.
pub proof fn headers_give_their_size(bytes: Seq<u8>, width: u32, height: u32)
    requires
        has_png_header(bytes),
        is_big_endian(bytes, 16, width),
        is_big_endian(bytes, 20, height),
    ensures
        width > 0 && height > 0 ==> png_size(bytes) == Ok::<(u32, u32), PngHeaderError>(
            (width, height),
        ),
        width == 0 || height == 0 ==> png_size(bytes) == Err::<(u32, u32), PngHeaderError>(
            PngHeaderError::InvalidDimensions { width, height },
        ),
{
    assert(bytes.subrange(0, 8) =~= png_signature());
    assert(bytes.subrange(12, 16) =~= ihdr_type());
}

/// A file without such a start is refused as none.
pub proof fn other_files_have_no_size(bytes: Seq<u8>)
    requires
        !has_png_header(bytes),
    ensures
        png_size(bytes) == Err::<(u32, u32), PngHeaderError>(PngHeaderError::NotPng),
{
    if starts_as_png(bytes) {
        let start = bytes.subrange(0, 8);
        let chunk = bytes.subrange(12, 16);
        assert(start[0] == bytes[0] && start[1] == bytes[1] && start[2] == bytes[2] && start[3]
            == bytes[3] && start[4] == bytes[4] && start[5] == bytes[5] && start[6] == bytes[6]
            && start[7] == bytes[7]);
        assert(chunk[0] == bytes[12] && chunk[1] == bytes[13] && chunk[2] == bytes[14] && chunk[3]
            == bytes[15]);
    }
}

pub(crate) proof fn lemma_verdicts_name_their_bytes(bytes: Seq<u8>)
    ensures
        match png_size(bytes) {
            Ok((width, height)) => {
                &&& has_png_header(bytes)
                &&& width > 0 && height > 0
                &&& is_big_endian(bytes, 16, width)
                &&& is_big_endian(bytes, 20, height)
            },
            Err(PngHeaderError::InvalidDimensions { width, height }) => {
                &&& has_png_header(bytes)
                &&& width == 0 || height == 0
                &&& is_big_endian(bytes, 16, width)
                &&& is_big_endian(bytes, 20, height)
            },
            Err(PngHeaderError::NotPng) => !has_png_header(bytes),
        },
{
    if has_png_header(bytes) {
        lemma_bytes_of_a_number(
            bytes[16] as int,
            bytes[17] as int,
            bytes[18] as int,
            bytes[19] as int,
        );
        lemma_bytes_of_a_number(
            bytes[20] as int,
            bytes[21] as int,
            bytes[22] as int,
            bytes[23] as int,
        );
        headers_give_their_size(bytes, big_endian(bytes, 16), big_endian(bytes, 20));
    } else {
        other_files_have_no_size(bytes);
    }
}

} // verus!
