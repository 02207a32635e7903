use dan_world::cursor::{read_string, Cursor};
use dan_world::extra::DanExtra;
use dan_world::DecodeError;

#[test]
fn cursor_reads_big_endian_integers() {
    let mut c = Cursor::new(vec![0x12, 0x34, 0x56, 0x78, 0x9A]);
    assert_eq!(c.read_u8(), Ok(0x12));
    assert_eq!(c.read_u16_be(), Ok(0x3456));
    assert_eq!(c.read_u8(), Ok(0x78));
    assert_eq!(c.read_u8(), Ok(0x9A));
    assert_eq!(c.read_u8(), Err(DecodeError::UnexpectedEnd));
}

#[test]
fn cursor_u32_and_exact_reads() {
    let mut c = Cursor::new(vec![0x00, 0x01, 0x02, 0x03, 0xAA, 0xBB, 0xCC]);
    assert_eq!(c.read_u32_be(), Ok(0x00010203));
    assert_eq!(c.read_exact(2), Ok(vec![0xAA, 0xBB]));
    // two bytes wanted, one left: no short read, the position stays put
    assert_eq!(c.read_exact(2), Err(DecodeError::UnexpectedEnd));
    assert_eq!(c.read_u8(), Ok(0xCC));
}

#[test]
fn cursor_multi_byte_reads_never_short_read() {
    let mut c = Cursor::new(vec![0x01]);
    assert_eq!(c.read_u16_be(), Err(DecodeError::UnexpectedEnd));
    let mut c = Cursor::new(vec![0x01, 0x02, 0x03]);
    assert_eq!(c.read_u32_be(), Err(DecodeError::UnexpectedEnd));
}

#[test]
fn read_string_length_prefixed() {
    let mut c = Cursor::new(vec![5, b'h', b'e', b'l', b'l', b'o', 0xFF]);
    assert_eq!(read_string(&mut c), Ok(String::from("hello")));
    let mut c = Cursor::new(vec![0]);
    assert_eq!(read_string(&mut c), Ok(String::new()));
}

#[test]
fn read_string_truncated_is_unexpected_end() {
    let mut c = Cursor::new(vec![5, b'h', b'i']);
    assert_eq!(read_string(&mut c), Err(DecodeError::UnexpectedEnd));
    let mut c = Cursor::new(vec![]);
    assert_eq!(read_string(&mut c), Err(DecodeError::UnexpectedEnd));
}

#[test]
fn read_string_bad_utf8_is_invalid_text() {
    let mut c = Cursor::new(vec![2, 0xC3, 0x28]);
    assert_eq!(read_string(&mut c), Err(DecodeError::InvalidText));
}

#[test]
fn extra_from_buf_reads_key_and_blob() {
    let mut c = Cursor::new(vec![3, b'k', b'e', b'y', 0x00, 0x04, 9, 8, 7, 6, 0x55]);
    let (key, extra) = DanExtra::from_buf(&mut c).unwrap();
    assert_eq!(key, "key");
    assert_eq!(extra.data, vec![9, 8, 7, 6]);
    // the cursor stops right after the blob
    assert_eq!(c.read_u8(), Ok(0x55));
}

#[test]
fn extra_from_buf_short_blob_is_unexpected_end() {
    let mut c = Cursor::new(vec![1, b'k', 0x00, 0x04, 9, 8]);
    assert_eq!(DanExtra::from_buf(&mut c).unwrap_err(), DecodeError::UnexpectedEnd);
}

#[test]
fn extra_to_string_reads_length_prefixed_text() {
    let e = DanExtra { data: vec![0, 0, 0, 5, b'h', b'e', b'l', b'l', b'o', 0xEE] };
    assert_eq!(e.to_string(), Ok(String::from("hello")));
}

#[test]
fn extra_to_string_truncated_payload() {
    // prefix shorter than four bytes
    let e = DanExtra { data: vec![0, 0, 0] };
    assert_eq!(e.to_string(), Err(DecodeError::TruncatedPayload));
    // declared length runs past the blob
    let e = DanExtra { data: vec![0, 0, 0, 6, b'h', b'e', b'l', b'l', b'o'] };
    assert_eq!(e.to_string(), Err(DecodeError::TruncatedPayload));
}

#[test]
fn extra_to_string_bad_utf8_is_invalid_text() {
    let e = DanExtra { data: vec![0, 0, 0, 2, 0xC3, 0x28] };
    assert_eq!(e.to_string(), Err(DecodeError::InvalidText));
}

#[test]
fn extra_coord_bits_reads_five_big_endian_values() {
    let mut data: Vec<u8> = Vec::new();
    for i in 0..32u8 {
        data.push(i);
    }
    let e = DanExtra { data };
    let (x, y, z, yaw, pitch) = e.coord_bits().unwrap();
    assert_eq!(x, 0x0001020304050607);
    assert_eq!(y, 0x08090A0B0C0D0E0F);
    assert_eq!(z, 0x1011121314151617);
    assert_eq!(yaw, 0x18191A1B);
    assert_eq!(pitch, 0x1C1D1E1F);
}

#[test]
fn extra_coord_bits_truncated_payload() {
    let e = DanExtra { data: vec![0; 31] };
    assert_eq!(e.coord_bits(), Err(DecodeError::TruncatedPayload));
    let e = DanExtra { data: vec![] };
    assert_eq!(e.coord_bits(), Err(DecodeError::TruncatedPayload));
}
