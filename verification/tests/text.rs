use x_win::text::{class_name, decode_text, file_name, last_segment_of};

#[test]
fn decode_text_reads_ascii() {
    assert_eq!(decode_text(b"xterm"), "xterm");
}

#[test]
fn decode_text_of_nothing_is_empty() {
    assert_eq!(decode_text(b""), "");
}

#[test]
fn decode_text_reads_well_formed_utf8_as_utf8() {
    // "Mon frère" in UTF-8: the e with a grave accent takes two bytes.
    let bytes = [0x4d, 0x6f, 0x6e, 0x20, 0x66, 0x72, 0xc3, 0xa8, 0x72, 0x65];
    assert_eq!(decode_text(&bytes), "Mon frère");
}

#[test]
fn decode_text_reads_other_bytes_as_latin1() {
    // "Mon frère est là." in Latin-1 is not well-formed UTF-8.
    let bytes = [
        0x4d, 0x6f, 0x6e, 0x20, 0x66, 0x72, 0xe8, 0x72, 0x65, 0x20, 0x65, 0x73, 0x74, 0x20, 0x6c,
        0xe0, 0x2e,
    ];
    assert_eq!(decode_text(&bytes), "Mon frère est là.");
}

#[test]
fn decode_text_maps_each_latin1_byte_to_its_code_point() {
    let text = decode_text(&[0xff, 0x80, 0x41]);
    let chars: Vec<char> = text.chars().collect();
    assert_eq!(chars, vec!['\u{ff}', '\u{80}', 'A']);
}

#[test]
fn decode_text_keeps_a_truncated_sequence_byte_for_byte() {
    // The first byte of a two-byte sequence, and nothing after it.
    let text = decode_text(&[0x61, 0xc3]);
    let chars: Vec<char> = text.chars().collect();
    assert_eq!(chars, vec!['a', '\u{c3}']);
}

#[test]
fn last_segment_is_what_follows_the_last_separator() {
    assert_eq!(last_segment_of("a,b,c", ','), "c");
}

#[test]
fn last_segment_skips_empty_segments_at_the_end() {
    assert_eq!(last_segment_of("a,b,,,", ','), "b");
}

#[test]
fn last_segment_of_text_without_separator_is_the_text() {
    assert_eq!(last_segment_of("plain", ','), "plain");
}

#[test]
fn last_segment_of_separators_only_is_empty() {
    assert_eq!(last_segment_of(",,,", ','), "");
    assert_eq!(last_segment_of("", ','), "");
}

#[test]
fn last_segment_counts_characters_not_bytes() {
    assert_eq!(last_segment_of("é/ü/ß", '/'), "ß");
    assert_eq!(last_segment_of("日本/東京/", '/'), "東京");
}

#[test]
fn class_name_is_the_last_name_of_the_record() {
    assert_eq!(class_name(b"navigator\0Firefox\0"), "Firefox");
}

#[test]
fn class_name_without_final_nul() {
    assert_eq!(class_name(b"xterm\0XTerm"), "XTerm");
}

#[test]
fn class_name_skips_empty_names() {
    assert_eq!(class_name(b"code\0\0\0"), "code");
    assert_eq!(class_name(b"\0\0code"), "code");
}

#[test]
fn class_name_of_an_empty_record_is_empty() {
    assert_eq!(class_name(b""), "");
    assert_eq!(class_name(b"\0\0"), "");
}

#[test]
fn class_name_of_ill_formed_utf8_is_empty() {
    // The last name is plain ASCII, but the record as a whole is not UTF-8.
    assert_eq!(class_name(&[0xe8, 0x00, 0x41, 0x42, 0x00]), "");
}

#[test]
fn class_name_may_hold_more_than_ascii() {
    let value = "terminal\0Términal\0".as_bytes();
    assert_eq!(class_name(value), "Términal");
}

#[test]
fn file_name_is_the_last_component() {
    assert_eq!(file_name("/usr/lib/firefox/firefox"), "firefox");
    assert_eq!(file_name("/opt/My Apps/éditeur"), "éditeur");
}

#[test]
fn file_name_of_a_bare_name_is_the_name() {
    assert_eq!(file_name("bash"), "bash");
}

#[test]
fn file_name_ignores_slashes_at_the_end() {
    assert_eq!(file_name("/usr/bin/"), "bin");
}

#[test]
fn file_name_of_the_root_or_of_nothing_is_empty() {
    assert_eq!(file_name("/"), "");
    assert_eq!(file_name(""), "");
}
