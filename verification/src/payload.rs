//! The base64 text that carries a file inside a data URL.
use vstd::prelude::*;

verus! {

/// The base64 digit for a value below 64: capital letters, small letters, decimal
/// digits, `+` and `/`.
pub open spec fn base64_digit(value: int) -> char {
    if value < 26 {
        (value + 65) as char
    } else if value < 52 {
        (value - 26 + 97) as char
    } else if value < 62 {
        (value - 52 + 48) as char
    } else if value == 62 {
        '+'
    } else {
        '/'
    }
}

/// The base64 text of bytes: four digits for every three bytes, filled up with `=`
/// at the end.
pub open spec fn base64_text(bytes: Seq<u8>) -> Seq<char>
    decreases bytes.len(),
{
    let (first, second, third) = (bytes[0] as int, bytes[1] as int, bytes[2] as int);
    if bytes.len() == 0 {
        Seq::empty()
    } else if bytes.len() == 1 {
        seq![base64_digit(first / 4), base64_digit(first % 4 * 16), '=', '=']
    } else if bytes.len() == 2 {
        seq![
            base64_digit(first / 4),
            base64_digit(first % 4 * 16 + second / 16),
            base64_digit(second % 16 * 4),
            '=',
        ]
    } else {
        seq![
            base64_digit(first / 4),
            base64_digit(first % 4 * 16 + second / 16),
            base64_digit(second % 16 * 4 + third / 64),
            base64_digit(third % 64),
        ] + base64_text(bytes.skip(3))
    }
}

proof fn lemma_digits_differ()
    ensures
        forall|value: int, other: int|
            0 <= value < 64 && 0 <= other < 64 && #[trigger] base64_digit(value) == #[trigger]
            base64_digit(other) ==> value == other,
        forall|value: int| 0 <= value < 64 ==> #[trigger] base64_digit(value) != '=',
{
}

/// No two byte strings have the same base64 text.
pub proof fn base64_text_tells_bytes_apart(bytes: Seq<u8>, other: Seq<u8>)
    requires
        base64_text(bytes) == base64_text(other),
    ensures
        bytes == other,
    decreases bytes.len(),
{
    let text = base64_text(bytes);
    lemma_digits_differ();
    if bytes.len() >= 3 && other.len() >= 3 {
        assert(text.skip(4) =~= base64_text(bytes.skip(3)));
        assert(text.skip(4) =~= base64_text(other.skip(3)));
        base64_text_tells_bytes_apart(bytes.skip(3), other.skip(3));
        assert(text[0] == base64_digit(bytes[0] as int / 4));
        assert(text[1] == base64_digit(bytes[0] as int % 4 * 16 + bytes[1] as int / 16));
        assert(text[2] == base64_digit(bytes[1] as int % 16 * 4 + bytes[2] as int / 64));
        assert(text[3] == base64_digit(bytes[2] as int % 64));
        assert(bytes =~= bytes.take(3) + bytes.skip(3));
        assert(other =~= other.take(3) + other.skip(3));
        assert(bytes.take(3) =~= other.take(3));
    } else if bytes.len() > 0 && other.len() > 0 {
        assert(text[0] == base64_digit(bytes[0] as int / 4));
        assert(text[3] == base64_text(other)[3]);
        assert(text[2] == base64_text(other)[2]);
        assert(bytes.len() == other.len());
        assert(bytes =~= other);
    } else {
        assert(text.len() == 0);
        assert(bytes =~= other);
    }
}

} // verus!
