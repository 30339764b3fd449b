use nebula_mdx::codec::{read_text, read_u16, read_u32, write_text, write_u32};
use nebula_mdx::error::FormatError;

fn le(v: u32) -> [u8; 4] {
    v.to_le_bytes()
}

#[test]
fn read_u32_is_little_endian() {
    let b = [0x56u8, 0x45, 0x52, 0x53, 0x20, 0x03, 0x00, 0x00];
    assert_eq!(read_u32(&b, 0), 1397900630);
    assert_eq!(read_u32(&b, 4), 800);
    assert_eq!(read_u16(&b, 4), 800);
}

#[test]
fn write_u32_is_little_endian() {
    let mut out = vec![9u8];
    write_u32(&mut out, 0x0403_0201);
    assert_eq!(out, vec![9, 1, 2, 3, 4]);
}

#[test]
fn read_text_stops_at_nul_and_drops_padding() {
    let mut b = vec![0u8; 12];
    b[2..5].copy_from_slice(b"Foo");
    b[7] = b'x';
    let s = read_text(&b, 2, 8).unwrap();
    assert_eq!(s, "Foo");
}

#[test]
fn read_text_without_nul_takes_the_whole_field() {
    let b = b"abcdefgh".to_vec();
    assert_eq!(read_text(&b, 0, 8).unwrap(), "abcdefgh");
    assert_eq!(read_text(&b, 2, 3).unwrap(), "cde");
}

#[test]
fn read_text_rejects_invalid_utf8() {
    let b = vec![0xffu8, 0xfe, 0, 0];
    assert_eq!(read_text(&b, 0, 4), Err(FormatError::InvalidText));
}

#[test]
fn read_text_out_of_bounds() {
    let b = vec![b'a'; 10];
    assert_eq!(read_text(&b, 4, 80), Err(FormatError::OutOfBounds));
}

#[test]
fn fixed_text_round_trip_below_width() {
    let s = String::from("Hero_Bone01");
    let mut out = Vec::new();
    write_text(&mut out, &s, 80).unwrap();
    assert_eq!(out.len(), 80);
    assert!(out[11..].iter().all(|b| *b == 0));
    assert_eq!(read_text(&out, 0, 80).unwrap(), s);
}

#[test]
fn fixed_text_round_trip_multibyte() {
    let s = String::from("Ödön ✓");
    let mut out = Vec::new();
    write_text(&mut out, &s, 16).unwrap();
    assert_eq!(read_text(&out, 0, 16).unwrap(), s);
}

#[test]
fn fixed_text_exactly_width_round_trips() {
    let s = String::from("abcd");
    let mut out = Vec::new();
    write_text(&mut out, &s, 4).unwrap();
    assert_eq!(out, b"abcd".to_vec());
    assert_eq!(read_text(&out, 0, 4).unwrap(), s);
}

#[test]
fn fixed_text_too_long_is_refused() {
    let s = String::from("abcde");
    let mut out = Vec::new();
    assert_eq!(write_text(&mut out, &s, 4), Err(FormatError::StringTooLong));
    let long = "x".repeat(81);
    assert_eq!(write_text(&mut Vec::new(), &long, 80), Err(FormatError::StringTooLong));
}

#[test]
fn model_chunk_model_chunk_read_test() {
    let mut buffer = [0u8; 348];
    buffer[0..4].copy_from_slice(&le(1279545165));
    buffer[4..8].copy_from_slice(&le(372));
    buffer[8..16].copy_from_slice(&8386058079685669444u64.to_le_bytes());
    buffer[344..348].copy_from_slice(&le(800));

    assert_eq!(read_u32(&buffer, 0), nebula_mdx::consts::MODL_TAG);
    assert_eq!(read_u32(&buffer, 4), 372);
    assert_eq!(read_text(&buffer, 8, 336).unwrap(), "DruidCat");
    assert_eq!(read_u32(&buffer, 8 + 336), 800);
}

#[test]
fn tests_model_chunk_read_test() {
    let mut buffer = [0u8; 348];
    buffer[0..4].copy_from_slice(&le(1279545165));
    buffer[4..8].copy_from_slice(&le(372));
    buffer[8..16].copy_from_slice(&8386058079685669444u64.to_le_bytes());
    buffer[344..348].copy_from_slice(&le(800));

    let name = read_text(&buffer, 8, 336).unwrap();
    assert_eq!(name, "DruidCat");
    assert_eq!(read_u32(&buffer, 344), 800);
}
