use linux_screenshot::uri::{file_uri_to_path, percent_decode, unescape};

fn escape_all(text: &str) -> String {
    text.bytes().map(|byte| format!("%{byte:02X}")).collect()
}

#[test]
fn escapes_are_the_pairs_that_std_reads_as_hexadecimal() {
    for first in 0..=255u8 {
        for second in 0..=255u8 {
            let pair = [first, second];
            let byte = std::str::from_utf8(&pair)
                .ok()
                .and_then(|hex| u8::from_str_radix(hex, 16).ok());
            let expected = match byte {
                Some(byte) => vec![byte, b'!'],
                None => vec![b'%', first, second, b'!'],
            };
            assert_eq!(unescape(&[b'%', first, second, b'!']), expected);
        }
    }
}

#[test]
fn incomplete_and_foreign_escapes_stand_for_themselves() {
    for text in ["", "%", "%%", "%4", "a%", "a%4", "%zz", "%4g", "%g4", "% 4", "%-4", "100%"] {
        assert_eq!(percent_decode(text), text);
    }
    assert_eq!(percent_decode("%41"), "A");
    assert_eq!(percent_decode("%4a%4A"), "JJ");
    assert_eq!(percent_decode("%%41"), "%A");
    assert_eq!(percent_decode("%2541"), "%41");
    assert_eq!(percent_decode("a%20b%2Fc"), "a b/c");
}

#[test]
fn a_plus_sign_and_one_digit_are_an_escape() {
    assert_eq!(percent_decode("%+9x"), "\tx");
}

#[test]
fn escaped_utf8_is_put_together_again() {
    assert_eq!(percent_decode("/tmp/Bildschirmfoto%20%C3%BC.png"), "/tmp/Bildschirmfoto \u{fc}.png");
    assert_eq!(percent_decode("%E2%82%AC"), "\u{20ac}");
}

#[test]
fn bytes_that_are_no_utf8_are_replaced() {
    assert_eq!(percent_decode("a%FFb"), "a\u{fffd}b");
    assert_eq!(percent_decode("%C3"), "\u{fffd}");
    assert_eq!(percent_decode("%F0%9F%98"), "\u{fffd}");
}

#[test]
fn decoding_undoes_escaping_of_every_byte() {
    for text in ["", "plain", "100% +%41", "\u{fc}\u{20ac}\u{1f600}\u{0}", "/tmp/a b/c.png"] {
        assert_eq!(percent_decode(&escape_all(text)), text);
        assert_eq!(file_uri_to_path(&format!("file://{}", escape_all(text))).unwrap(), text);
    }
    let every_byte: Vec<u8> = (0..=255).collect();
    let escaped: String = every_byte.iter().map(|byte| format!("%{byte:02X}")).collect();
    assert_eq!(unescape(escaped.as_bytes()), every_byte);
}

#[test]
fn decoding_undoes_escaping_of_any_part_in_either_case() {
    let text = "/tmp/100% \u{fc}.png";
    for choice in 0..1u32 << 8 {
        let mut escaped = String::new();
        for (i, c) in text.chars().enumerate() {
            let wanted = choice >> (i % 8) & 1 == 1;
            if !wanted && c != '%' {
                escaped.push(c);
                continue;
            }
            for (j, byte) in c.to_string().bytes().enumerate() {
                if (i + j) % 2 == 0 {
                    escaped.push_str(&format!("%{byte:02X}"));
                } else {
                    escaped.push_str(&format!("%{byte:02x}"));
                }
            }
        }
        assert_eq!(percent_decode(&escaped), text);
        assert_eq!(file_uri_to_path(&format!("file://{escaped}")).unwrap(), text);
    }
}

#[test]
fn text_without_percent_is_left_alone() {
    for text in ["", "abc", "+41", "\u{fc} \u{20ac}", "/run/user/1000/doc"] {
        assert_eq!(percent_decode(text), text);
        assert_eq!(file_uri_to_path(&format!("file://{text}")).unwrap(), text);
    }
}

#[test]
fn decoding_never_lengthens_the_bytes() {
    for text in ["%41%42", "%%%", "abc%2", "%+1%-1"] {
        assert!(unescape(text.as_bytes()).len() <= text.len());
    }
}

#[test]
fn other_schemes_are_refused_by_name() {
    for uri in ["http://example.org/a.png", "file:/tmp/a.png", "/tmp/a.png", "FILE:///tmp/a.png", ""] {
        let error = file_uri_to_path(uri).unwrap_err();
        assert_eq!(error.uri, uri);
        assert_eq!(error.message(), format!("unsupported screenshot uri: {uri}"));
    }
    assert_eq!(file_uri_to_path("file://host/tmp/a.png").unwrap(), "host/tmp/a.png");
    assert_eq!(file_uri_to_path("file://").unwrap(), "");
}
