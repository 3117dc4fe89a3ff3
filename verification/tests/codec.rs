use base64::Engine;
use jobfuscator::codec::{pack_text, unpack_text};
use std::io::{Read, Write};

fn zlib_best(bytes: &[u8]) -> Vec<u8> {
    let mut enc = flate2::write::ZlibEncoder::new(Vec::new(), flate2::Compression::best());
    enc.write_all(bytes).unwrap();
    enc.finish().unwrap()
}

#[test]
fn pack_text_of_hello_is_known_value() {
    assert_eq!(pack_text("hello"), "eNrLSM3JyQcABiwCFQ==");
}

#[test]
fn pack_text_is_base64_of_zlib_stream() {
    let source = "class Ideone { public static void main(String[] a) { int x = 1; } }";
    let packed = pack_text(source);
    assert_ne!(packed, source);
    let stream = base64::engine::general_purpose::STANDARD
        .decode(packed.as_bytes())
        .unwrap();
    assert_eq!(stream, zlib_best(source.as_bytes()));
    let mut text = String::new();
    flate2::read::ZlibDecoder::new(&stream[..])
        .read_to_string(&mut text)
        .unwrap();
    assert_eq!(text, source);
}

#[test]
fn unpack_text_undoes_pack_text() {
    for source in ["", "a", "import java.util.*;\nclass Ł { /* ünïcödé */ }", "x".repeat(5000).as_str()] {
        let packed = pack_text(source);
        assert_eq!(unpack_text(&packed).unwrap(), source);
    }
}

#[test]
fn unpack_text_of_server_style_output() {
    let obfuscated = "class A { int f() { return 42; } }";
    let wire = base64::engine::general_purpose::STANDARD.encode(zlib_best(obfuscated.as_bytes()));
    assert_eq!(unpack_text(&wire).as_deref(), Some(obfuscated));
}

#[test]
fn unpack_text_rejects_non_base64() {
    assert_eq!(unpack_text("not base64 !!"), None);
}

#[test]
fn unpack_text_rejects_non_zlib() {
    let wire = base64::engine::general_purpose::STANDARD.encode(b"plain bytes, no zlib header");
    assert_eq!(unpack_text(&wire), None);
}

#[test]
fn unpack_text_rejects_non_utf8_stream() {
    let wire = base64::engine::general_purpose::STANDARD.encode(zlib_best(&[0xff, 0xfe, 0x80]));
    assert_eq!(unpack_text(&wire), None);
}

#[test]
fn packed_text_is_padded_standard_base64() {
    for source in ["", "a", "ab", "class Q { String s = \"x+y/z\"; }"] {
        let packed = pack_text(source);
        assert!(!packed.is_empty());
        assert_eq!(packed.len() % 4, 0);
        assert!(packed
            .chars()
            .all(|c| c.is_ascii_alphanumeric() || c == '+' || c == '/' || c == '='));
        let trimmed = packed.trim_end_matches('=');
        assert!(packed.len() - trimmed.len() <= 2);
        assert!(!trimmed.contains('='));
    }
}
