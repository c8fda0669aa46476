//! The `file://` URIs that the desktop portal answers with.
use crate::codec::text_from_utf8_lossy;
use crate::text::strip_prefix;
use vstd::prelude::*;

verus! {

/// A URI that does not name a local file.
#[derive(Debug)]
pub struct UnsupportedUri {
    pub uri: String,
}

/// The value of a hexadecimal digit.
pub open spec fn hex_digit(byte: u8) -> Option<u8> {
    if 0x30 <= byte <= 0x39 {
        Some((byte - 0x30) as u8)
    } else if 0x41 <= byte <= 0x46 {
        Some((byte - 0x41 + 10) as u8)
    } else if 0x61 <= byte <= 0x66 {
        Some((byte - 0x61 + 10) as u8)
    } else {
        None
    }
}

/// The byte that the two characters behind a `%` stand for: two hexadecimal
/// digits, or a plus sign and one digit.
pub open spec fn escaped_byte(first: u8, second: u8) -> Option<u8> {
    match (hex_digit(first), hex_digit(second)) {
        (Some(high), Some(low)) => Some((high * 16 + low) as u8),
        (None, Some(low)) => if first == 0x2b {
            Some(low)
        } else {
            None
        },
        _ => None,
    }
}

/// The bytes with every percent escape replaced by the byte it stands for. A `%`
/// that starts no escape stands for itself.
pub open spec fn unescaped(bytes: Seq<u8>) -> Seq<u8>
    decreases bytes.len(),
{
    if bytes.len() == 0 {
        bytes
    } else if bytes[0] == 0x25 && bytes.len() >= 3 && escaped_byte(bytes[1], bytes[2]) is Some {
        seq![escaped_byte(bytes[1], bytes[2])->0] + unescaped(bytes.skip(3))
    } else {
        seq![bytes[0]] + unescaped(bytes.skip(1))
    }
}

/// The text that percent-decoding makes of `value`.
pub open spec fn percent_decoded(value: Seq<char>) -> Seq<char> {
    crate::codec::lossy_text(unescaped(vstd::utf8::encode_utf8(value)))
}

fn hex_value(byte: u8) -> (value: Option<u8>)
    ensures
        value == hex_digit(byte),
{
    if 0x30 <= byte && byte <= 0x39 {
        Some(byte - 0x30)
    } else if 0x41 <= byte && byte <= 0x46 {
        Some(byte - 0x41 + 10)
    } else if 0x61 <= byte && byte <= 0x66 {
        Some(byte - 0x61 + 10)
    } else {
        None
    }
}

fn escape_value(first: u8, second: u8) -> (value: Option<u8>)
    ensures
        value == escaped_byte(first, second),
{
    match (hex_value(first), hex_value(second)) {
        (Some(high), Some(low)) => Some(high * 16 + low),
        (None, Some(low)) => if first == 0x2b {
            Some(low)
        } else {
            None
        },
        _ => None,
    }
}

/// Replaces every percent escape by the byte it stands for.
pub fn unescape(bytes: &[u8]) -> (decoded: Vec<u8>)
    ensures
        decoded@ == unescaped(bytes@),
{
    let mut decoded: Vec<u8> = Vec::with_capacity(bytes.len());
    let mut index: usize = 0;
    assert(bytes@.skip(0) =~= bytes@);
    while index < bytes.len()
        invariant
            index <= bytes@.len(),
            decoded@ + unescaped(bytes@.skip(index as int)) == unescaped(bytes@),
        decreases bytes@.len() - index,
    {
        let ghost rest = bytes@.skip(index as int);
        let ghost done = decoded@;
        if bytes[index] == 0x25 && bytes.len() - index > 2 {
            if let Some(byte) = escape_value(bytes[index + 1], bytes[index + 2]) {
                decoded.push(byte);
                index += 3;
                proof {
                    assert(rest.skip(3) =~= bytes@.skip(index as int));
                    assert(decoded@ + unescaped(rest.skip(3)) =~= done + unescaped(rest));
                }
                continue ;
            }
        }
        decoded.push(bytes[index]);
        index += 1;
        proof {
            assert(rest.skip(1) =~= bytes@.skip(index as int));
            assert(decoded@ + unescaped(rest.skip(1)) =~= done + unescaped(rest));
        }
    }
    assert(decoded@ + unescaped(bytes@.skip(index as int)) =~= decoded@);
    decoded
}

/// Whether `text` spells `bytes` with some of them, and every `%` among them, written
/// as percent escapes, in hexadecimal digits of either case.
pub open spec fn is_escaping(text: Seq<u8>, bytes: Seq<u8>) -> bool
    decreases bytes.len(),
{
    if bytes.len() == 0 {
        text.len() == 0
    } else {
        ||| {
            &&& text.len() >= 1
            &&& text[0] == bytes[0]
            &&& bytes[0] != 0x25
            &&& is_escaping(text.skip(1), bytes.skip(1))
        }
        ||| {
            &&& text.len() >= 3
            &&& text[0] == 0x25
            &&& hex_digit(text[1]) == Some((bytes[0] / 16) as u8)
            &&& hex_digit(text[2]) == Some((bytes[0] % 16) as u8)
            &&& is_escaping(text.skip(3), bytes.skip(1))
        }
    }
}

/// Decoding undoes escaping: whichever of the bytes are written as percent escapes,
/// and in whichever case, replacing the escapes gives the bytes back.
pub proof fn unescaping_undoes_escaping(text: Seq<u8>, bytes: Seq<u8>)
    requires
        is_escaping(text, bytes),
    ensures
        unescaped(text) == bytes,
    decreases bytes.len(),
{
    if bytes.len() == 0 {
        assert(unescaped(text) =~= bytes);
    } else if text[0] == 0x25 {
        unescaping_undoes_escaping(text.skip(3), bytes.skip(1));
        assert(escaped_byte(text[1], text[2]) == Some(bytes[0]));
        assert(unescaped(text) =~= bytes);
    } else {
        unescaping_undoes_escaping(text.skip(1), bytes.skip(1));
        assert(unescaped(text) =~= bytes);
    }
}

/// Every byte string can be written with all of its bytes as percent escapes.
pub proof fn every_byte_string_has_an_escaping(bytes: Seq<u8>) -> (text: Seq<u8>)
    ensures
        is_escaping(text, bytes),
        text.len() == 3 * bytes.len(),
    decreases bytes.len(),
{
    if bytes.len() == 0 {
        bytes
    } else {
        let rest = every_byte_string_has_an_escaping(bytes.skip(1));
        let (high, low) = ((bytes[0] / 16) as int, (bytes[0] % 16) as int);
        let first = (if high < 10 {
            0x30 + high
        } else {
            0x41 + high - 10
        }) as u8;
        let second = (if low < 10 {
            0x30 + low
        } else {
            0x41 + low - 10
        }) as u8;
        let text = seq![0x25u8, first, second] + rest;
        assert(text.skip(3) =~= rest);
        text
    }
}

/// Bytes without a `%` are left as they are.
pub proof fn bytes_without_percent_are_left_alone(bytes: Seq<u8>)
    requires
        !bytes.contains(0x25),
    ensures
        unescaped(bytes) == bytes,
    decreases bytes.len(),
{
    if bytes.len() > 0 {
        let rest = bytes.skip(1);
        assert(bytes.contains(bytes[0]));
        assert forall|byte: u8| rest.contains(byte) implies bytes.contains(byte) by {
            let i = choose|i: int| 0 <= i < rest.len() && rest[i] == byte;
            assert(bytes[i + 1] == byte);
        }
        bytes_without_percent_are_left_alone(rest);
        assert(unescaped(bytes) =~= bytes);
    }
}

/// Replacing escapes never makes a text longer.
pub proof fn unescaping_never_lengthens(bytes: Seq<u8>)
    ensures
        unescaped(bytes).len() <= bytes.len(),
    decreases bytes.len(),
{
    if bytes.len() == 0 {
    } else if bytes[0] == 0x25 && bytes.len() >= 3 && escaped_byte(bytes[1], bytes[2]) is Some {
        unescaping_never_lengthens(bytes.skip(3));
    } else {
        unescaping_never_lengthens(bytes.skip(1));
    }
}

proof fn lemma_scalar_without_percent(scalar: u32)
    requires
        scalar != 0x25,
        vstd::utf8::is_scalar(scalar),
    ensures
        !vstd::utf8::encode_scalar(scalar).contains(0x25),
{
    assert(scalar != 0x25 && scalar <= 0x7f ==> (scalar & 0x7f) as u8 != 0x25 && scalar as u8
        != 0x25) by (bit_vector);
    assert((0xc0u8 | ((scalar >> 6) & 0x1f) as u8) != 0x25) by (bit_vector);
    assert((0xe0u8 | ((scalar >> 12) & 0x0f) as u8) != 0x25) by (bit_vector);
    assert((0xf0u8 | ((scalar >> 18) & 0x07) as u8) != 0x25) by (bit_vector);
    assert((0x80u8 | (scalar & 0x3f) as u8) != 0x25) by (bit_vector);
    assert((0x80u8 | ((scalar >> 6) & 0x3f) as u8) != 0x25) by (bit_vector);
    assert((0x80u8 | ((scalar >> 12) & 0x3f) as u8) != 0x25) by (bit_vector);
}

proof fn lemma_text_without_percent(text: Seq<char>)
    requires
        !text.contains('%'),
    ensures
        !vstd::utf8::encode_utf8(text).contains(0x25),
    decreases text.len(),
{
    if text.len() > 0 {
        let rest = text.drop_first();
        assert(text.contains(text[0]));
        assert forall|c: char| rest.contains(c) implies text.contains(c) by {
            let i = choose|i: int| 0 <= i < rest.len() && rest[i] == c;
            assert(text[i + 1] == c);
        }
        lemma_text_without_percent(rest);
        vstd::utf8::char_is_scalar(text[0]);
        vstd::utf8::char_u32_cast(text[0], text[0] as u32);
        assert('%' as u32 == 0x25);
        lemma_scalar_without_percent(text[0] as u32);
        let first = vstd::utf8::encode_scalar(text[0] as u32);
        let others = vstd::utf8::encode_utf8(rest);
        if (first + others).contains(0x25) {
            let i = choose|i: int| 0 <= i < (first + others).len() && (first + others)[i] == 0x25;
            if i < first.len() {
                assert(first[i] == 0x25);
            } else {
                assert(others[i - first.len()] == 0x25);
            }
        }
    }
}

/// Whether `decoded` is the text that percent-decoding makes of `value`: what
/// [`percent_decoded`] names, which is the unescaped text where that is valid UTF-8,
/// a text without `%` itself, and whatever text was escaped to `value`.
pub open spec fn is_decoding(value: Seq<char>, decoded: Seq<char>) -> bool {
    let bytes = unescaped(vstd::utf8::encode_utf8(value));
    &&& decoded == percent_decoded(value)
    &&& vstd::utf8::valid_utf8(bytes) ==> decoded == vstd::utf8::decode_utf8(bytes)
    &&& !value.contains('%') ==> decoded == value
    &&& forall|plain: Seq<char>|
        is_escaping(vstd::utf8::encode_utf8(value), #[trigger] vstd::utf8::encode_utf8(plain))
            ==> decoded == plain
}

/// Replaces the percent escapes of `value` and reads the bytes as UTF-8, with
/// replacement characters for what is none.
///
/// A text without `%` comes back unchanged, and a text of which any part was escaped
/// comes back as it was before.
pub fn percent_decode(value: &str) -> (decoded: String)
    ensures
        is_decoding(value@, decoded@),
        decoded@ == crate::codec::lossy_text(unescaped(vstd::utf8::encode_utf8(value@))),
        vstd::utf8::valid_utf8(unescaped(vstd::utf8::encode_utf8(value@))) ==> decoded@
            == vstd::utf8::decode_utf8(unescaped(vstd::utf8::encode_utf8(value@))),
        !value@.contains('%') ==> decoded@ == value@,
{
    let decoded = unescape(value.as_bytes());
    let text = text_from_utf8_lossy(decoded.as_slice());
    proof {
        if !value@.contains('%') {
            lemma_text_without_percent(value@);
            bytes_without_percent_are_left_alone(vstd::utf8::encode_utf8(value@));
            vstd::utf8::encode_utf8_valid_utf8(value@);
            vstd::utf8::encode_utf8_decode_utf8(value@);
        }
        assert forall|plain: Seq<char>|
            is_escaping(
                vstd::utf8::encode_utf8(value@),
                #[trigger] vstd::utf8::encode_utf8(plain),
            ) implies text@ == plain by {
            unescaping_undoes_escaping(
                vstd::utf8::encode_utf8(value@),
                vstd::utf8::encode_utf8(plain),
            );
            vstd::utf8::encode_utf8_valid_utf8(plain);
            vstd::utf8::encode_utf8_decode_utf8(plain);
        }
    }
    text
}

/// What every URI of a local file starts with.
pub open spec fn file_scheme() -> Seq<char> {
    "file://"@
}

/// Whether `path` is the one that a `file://` URI names.
pub open spec fn names_path(uri: Seq<char>, path: Seq<char>) -> bool {
    &&& file_scheme().is_prefix_of(uri)
    &&& is_decoding(uri.skip(file_scheme().len() as int), path)
    &&& !uri.contains('%') ==> file_scheme() + path == uri
}

/// The path that a `file://` URI names.
pub fn file_uri_to_path(uri: &str) -> (path: Result<String, UnsupportedUri>)
    ensures
        match path {
            Ok(path) => names_path(uri@, path@),
            Err(error) => !file_scheme().is_prefix_of(uri@) && error.uri@ == uri@,
        },
        match path {
            Ok(path) => {
                &&& "file://"@.is_prefix_of(uri@)
                &&& path@ == crate::codec::lossy_text(
                    unescaped(vstd::utf8::encode_utf8(uri@.skip("file://"@.len() as int))),
                )
                &&& !uri@.contains('%') ==> "file://"@ + path@ == uri@
            },
            Err(error) => !"file://"@.is_prefix_of(uri@) && error.uri@ == uri@,
        },
{
    match strip_prefix(uri, "file://") {
        Some(rest) => {
            proof {
                assert(uri@.skip(file_scheme().len() as int) =~= rest@);
                if rest@.contains('%') {
                    let i = choose|i: int| 0 <= i < rest@.len() && rest@[i] == '%';
                    assert(uri@[file_scheme().len() + i] == '%');
                }
            }
            Ok(percent_decode(rest))
        },
        None => Err(UnsupportedUri { uri: uri.to_string() }),
    }
}

impl UnsupportedUri {
    /// The text of [`UnsupportedUri::message`].
    pub open spec fn text(self) -> Seq<char> {
        "unsupported screenshot uri: "@ + self.uri@
    }

    /// The error in words.
    pub fn message(&self) -> (message: String)
        ensures
            message@ == self.text(),
            message@ == "unsupported screenshot uri: "@ + self.uri@,
    {
        let mut message = "unsupported screenshot uri: ".to_string();
        message.append(self.uri.as_str());
        message
    }
}

/// A byte is the hexadecimal digit of a value exactly where it is the numeral for a
/// value below ten, or the small or capital letter for one from ten to fifteen.
pub proof fn hex_digits_are_numerals_and_letters(byte: u8, value: u8)
    ensures
        hex_digit(byte) == Some(value) <==> (value < 10 && byte == '0' as u8 + value) || (10
            <= value < 16 && (byte == 'a' as u8 + value - 10 || byte == 'A' as u8 + value - 10)),
{
}

/// Escapes are replaced from left to right: a byte other than `%` stands for itself,
/// and so does a `%` that is not followed by two hexadecimal digits or by a plus sign
/// and one; else the three bytes stand for the one that the digits give. What comes
/// behind is decoded as if it stood alone.
pub proof fn unescaping_goes_from_left_to_right(
    first: u8,
    second: u8,
    third: u8,
    rest: Seq<u8>,
    high: u8,
    low: u8,
)
    ensures
        unescaped(Seq::<u8>::empty()) == Seq::<u8>::empty(),
        first != 0x25 ==> unescaped(seq![first] + rest) == seq![first] + unescaped(rest),
        rest.len() < 2 ==> unescaped(seq![first] + rest) == seq![first] + unescaped(rest),
        first == 0x25 && hex_digit(second) == Some(high) && hex_digit(third) == Some(low)
            ==> unescaped(seq![first, second, third] + rest) == seq![(high * 16 + low) as u8]
            + unescaped(rest),
        first == 0x25 && second == 0x2b && hex_digit(third) == Some(low) ==> unescaped(
            seq![first, second, third] + rest,
        ) == seq![low] + unescaped(rest),
        first == 0x25 && (hex_digit(third) is None || (hex_digit(second) is None && second != 0x2b))
            ==> unescaped(seq![first, second, third] + rest) == seq![first] + unescaped(
            seq![second, third] + rest,
        ),
{
    assert(unescaped(Seq::<u8>::empty()) =~= Seq::<u8>::empty());
    let one = seq![first] + rest;
    assert(one.skip(1) =~= rest);
    let three = seq![first, second, third] + rest;
    assert(three.skip(3) =~= rest);
    assert(three.skip(1) =~= seq![second, third] + rest);
}

/// A URI names a path exactly where it is `file://` and a text that decodes to the
/// path; such a text without `%` is the path.
pub proof fn uris_name_what_follows_the_scheme(rest: Seq<char>, path: Seq<char>)
    requires
        names_path("file://"@ + rest, path),
    ensures
        path == crate::codec::lossy_text(unescaped(vstd::utf8::encode_utf8(rest))),
        vstd::utf8::valid_utf8(unescaped(vstd::utf8::encode_utf8(rest))) ==> path
            == vstd::utf8::decode_utf8(unescaped(vstd::utf8::encode_utf8(rest))),
        !rest.contains('%') ==> path == rest,
{
    let uri = "file://"@ + rest;
    assert(uri.skip("file://"@.len() as int) =~= rest);
}

/// No other URI names a path.
pub proof fn other_uris_name_no_path(uri: Seq<char>, path: Seq<char>)
    requires
        !"file://"@.is_prefix_of(uri),
    ensures
        !names_path(uri, path),
{
}

} // verus!
