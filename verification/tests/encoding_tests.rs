use ksj2gp::{TextEncoding, decode_cp437cp932_to_utf8, encode_utf8_to_cp437cp932,
    encoding_from_header, resolve_encoding};

#[test]
fn encodes_ascii_text() {
    let result = decode_cp437cp932_to_utf8("Hello, world!").unwrap();
    assert_eq!(result, "Hello, world!");
}

#[test]
fn encodes_extended_characters() {
    let result = decode_cp437cp932_to_utf8("ÄDûyÄs").unwrap();
    assert_eq!(result, "札幌市");
}

#[test]
fn skip_utf8_characters() {
    let result = decode_cp437cp932_to_utf8("札幌市").unwrap();
    assert_eq!(result, "札幌市");
}

#[test]
fn encodes_utf8_back_to_code_page_form() {
    let encoded = encode_utf8_to_cp437cp932("札幌市").unwrap();
    assert_eq!(encoded, "ÄDûyÄs");
    let decoded = decode_cp437cp932_to_utf8(&encoded).unwrap();
    assert_eq!(decoded, "札幌市");
}

#[test]
fn language_driver_byte_wins_over_declaration() {
    let enc = resolve_encoding(13, Some("UTF-8"), "test.shp").unwrap();
    assert_eq!(enc, TextEncoding::ShiftJis);
}

#[test]
fn declaration_decides_without_language_driver() {
    assert_eq!(resolve_encoding(0, Some("UTF-8"), "test.shp").unwrap(), TextEncoding::Utf8);
    assert_eq!(resolve_encoding(0, Some("CP932"), "test.shp").unwrap(), TextEncoding::ShiftJis);
}

#[test]
fn unknown_declaration_is_an_error() {
    assert!(resolve_encoding(0, Some("EUC-JP"), "test.shp").is_err());
}

#[test]
fn filename_heuristic_spots_utf8() {
    let enc = resolve_encoding(0, None, "N03-20240101_UTF-8.shp").unwrap();
    assert_eq!(enc, TextEncoding::Utf8);
    let enc = resolve_encoding(0, None, "N03-20240101_utf_8.shp").unwrap();
    assert_eq!(enc, TextEncoding::Utf8);
}

#[test]
fn shift_jis_is_the_default() {
    let enc = resolve_encoding(0, None, "N03-20240101.shp").unwrap();
    assert_eq!(enc, TextEncoding::ShiftJis);
}

#[test]
fn header_byte_feeds_the_precedence_rule() {
    let mut header = vec![0u8; 32];
    header[28] = 13;
    assert_eq!(
        encoding_from_header(&header, Some("UTF-8"), "test.shp").unwrap(),
        TextEncoding::ShiftJis
    );
    header[28] = 0;
    assert_eq!(
        encoding_from_header(&header, Some("UTF-8"), "test.shp").unwrap(),
        TextEncoding::Utf8
    );
    assert_eq!(
        encoding_from_header(&header, None, "N03_UTF8.shp").unwrap(),
        TextEncoding::Utf8
    );
    assert_eq!(
        encoding_from_header(&header, None, "test.shp").unwrap(),
        TextEncoding::ShiftJis
    );
}

#[test]
fn short_header_is_an_error() {
    let header = vec![0u8; 28];
    assert!(encoding_from_header(&header, None, "test.shp").is_err());
}
