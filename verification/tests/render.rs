use magic_number::check_magic_number;
use magic_number::compare_magic_number;
use magic_number::render::hex_listing_of;
use magic_number::render::render_bytes;
use magic_number::ByteStream;
use magic_number::MagicNumberCheckError;
use magic_number::StreamError;

#[test]
fn message_of_two_texts_is_exact() {
    let detail = compare_magic_number(b"NEST".to_vec(), b"TEST".to_vec()).unwrap_err();
    assert_eq!(
        detail.message(),
        "Incorrect Magic Number: Expected 'TEST', Read 'NEST'"
    );
}

#[test]
fn message_of_the_check_names_the_magic_number_as_expected() {
    let mut reader = ByteStream::new(vec![0x54, 0x45, 0x53, 0x54]);
    let error = check_magic_number(&mut reader, vec![0x4E, 0x45, 0x53, 0x54]).unwrap_err();
    assert_eq!(
        error.message(),
        "Incorrect Magic Number: Expected 'NEST', Read 'TEST'"
    );
    assert_eq!(error.description(), "A Magic Number check Failed");
}

#[test]
fn message_shows_hexadecimal_where_the_bytes_are_no_text() {
    let detail = compare_magic_number(vec![0xFF, 0x00, 0x1A], vec![0x80, 0x0A, 0xC3]).unwrap_err();
    assert_eq!(
        detail.message(),
        "Incorrect Magic Number: Expected '[80, A, C3]', Read '[FF, 0, 1A]'"
    );
}

#[test]
fn message_renders_each_sequence_on_its_own() {
    let detail = compare_magic_number(vec![0x89, b'P', b'N', b'G'], b"%PDF".to_vec()).unwrap_err();
    assert_eq!(
        detail.message(),
        "Incorrect Magic Number: Expected '%PDF', Read '[89, 50, 4E, 47]'"
    );
    let detail = compare_magic_number(b"%PDF".to_vec(), vec![0x89, b'P', b'N', b'G']).unwrap_err();
    assert_eq!(
        detail.message(),
        "Incorrect Magic Number: Expected '[89, 50, 4E, 47]', Read '%PDF'"
    );
}

#[test]
fn message_of_an_io_error_is_the_stream_errors_own() {
    let mut reader = ByteStream::new(vec![1]);
    let error = check_magic_number(&mut reader, vec![1, 2]).unwrap_err();
    assert_eq!(error.message(), "failed to fill whole buffer");
    assert_eq!(error.description(), "failed to fill whole buffer");
    assert_eq!(error.message(), StreamError::UnexpectedEof.message());
}

#[test]
fn description_of_a_mismatch_is_fixed() {
    let detail = compare_magic_number(vec![1], vec![2]).unwrap_err();
    assert_eq!(detail.description(), "A Magic Number check Failed");
    let error = MagicNumberCheckError::from(detail);
    assert_eq!(error.description(), "A Magic Number check Failed");
}

#[test]
fn text_is_decoded_not_copied() {
    assert_eq!(render_bytes(b"TEST"), "TEST");
    assert_eq!(render_bytes(&[0xC3, 0xA9]), "\u{e9}");
    assert_eq!(render_bytes(&[0xE2, 0x82, 0xAC]), "\u{20ac}");
    assert_eq!(render_bytes(&[0xF0, 0x9F, 0x98, 0x80]), "\u{1F600}");
    assert_eq!(render_bytes(&[0xF0, 0x9F, 0x98, 0x80]).chars().count(), 1);
    assert_eq!(render_bytes(&[]), "");
}

#[test]
fn control_bytes_are_text_too() {
    assert_eq!(render_bytes(&[0x00, 0x0A, 0x7F]), "\u{0}\n\u{7f}");
}

#[test]
fn malformed_utf8_is_listed_in_hexadecimal() {
    // a lone continuation byte
    assert_eq!(render_bytes(&[0x80]), "[80]");
    // a leading byte without its continuation
    assert_eq!(render_bytes(&[0xC3]), "[C3]");
    assert_eq!(render_bytes(&[b'a', 0xC3]), "[61, C3]");
    // an overlong encoding of '/'
    assert_eq!(render_bytes(&[0xC0, 0xAF]), "[C0, AF]");
    // a surrogate
    assert_eq!(render_bytes(&[0xED, 0xA0, 0x80]), "[ED, A0, 80]");
    // beyond the last scalar value
    assert_eq!(render_bytes(&[0xF4, 0x90, 0x80, 0x80]), "[F4, 90, 80, 80]");
    // bytes that no encoding uses
    assert_eq!(render_bytes(&[0xFF, 0xFE]), "[FF, FE]");
}

#[test]
fn rendering_leaves_the_bytes_alone() {
    let bytes = vec![0xFF, b'x', 0x00];
    let before = bytes.clone();
    let _ = render_bytes(&bytes);
    let _ = hex_listing_of(&bytes);
    assert_eq!(bytes, before);
}

#[test]
fn hex_listing_has_no_padding_and_no_trailing_separator() {
    assert_eq!(hex_listing_of(&[]), "[]");
    assert_eq!(hex_listing_of(&[0x00]), "[0]");
    assert_eq!(hex_listing_of(&[0x0F]), "[F]");
    assert_eq!(hex_listing_of(&[0x10]), "[10]");
    assert_eq!(hex_listing_of(&[0x9A]), "[9A]");
    assert_eq!(hex_listing_of(&[0xFF]), "[FF]");
    assert_eq!(hex_listing_of(&[0x54, 0x45, 0x53, 0x54]), "[54, 45, 53, 54]");
    assert_eq!(hex_listing_of(&[1, 2, 3]), "[1, 2, 3]");
}

#[test]
fn hex_listing_agrees_with_upper_hex_debug_for_every_byte() {
    let mut all: Vec<u8> = Vec::new();
    for byte in 0..=255u8 {
        assert_eq!(hex_listing_of(&[byte]), format!("{:X?}", vec![byte]));
        all.push(byte);
    }
    assert_eq!(hex_listing_of(&all), format!("{:X?}", all));
}

#[test]
fn every_ascii_byte_is_rendered_as_its_character() {
    let mut all: Vec<u8> = Vec::new();
    let mut text = String::new();
    for byte in 0..128u8 {
        assert_eq!(render_bytes(&[byte]), char::from(byte).to_string());
        all.push(byte);
        text.push(char::from(byte));
    }
    assert_eq!(render_bytes(&all), text);
}

#[test]
fn a_stray_first_byte_makes_the_whole_sequence_hexadecimal() {
    for byte in (0x80..=0xBFu8).chain(0xF8..=0xFFu8) {
        assert_eq!(
            render_bytes(&[byte, b'a']),
            format!("[{:X}, 61]", byte)
        );
    }
}
