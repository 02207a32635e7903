use dan_world::biomes::DanBiome;
use dan_world::blockdata::DanBlockData;
use dan_world::{DanDimension, DanWorld, DecodeError};
use std::io::Write;

fn push_str(out: &mut Vec<u8>, s: &str) {
    out.push(s.len() as u8);
    out.extend_from_slice(s.as_bytes());
}

fn push_u16(out: &mut Vec<u8>, v: u16) {
    out.extend_from_slice(&v.to_be_bytes());
}

fn push_u32(out: &mut Vec<u8>, v: u32) {
    out.extend_from_slice(&v.to_be_bytes());
}

/// Header for a world with the given grid; chunks and extras are appended
/// by the caller.
fn world_header(version: u8, dimension: u8, width: u16, depth: u16) -> Vec<u8> {
    let mut out = Vec::new();
    push_str(&mut out, "DanWorld");
    out.push(version);
    out.push(dimension);
    push_u16(&mut out, width);
    push_u16(&mut out, depth);
    out
}

#[test]
fn decode_full_world_fixture() {
    let mut bytes = world_header(7, 1, 1, 2);

    // chunk (0, 0) with one section
    push_u16(&mut bytes, 0);
    push_u16(&mut bytes, 0);
    bytes.push(1);
    // palette: two names
    bytes.push(2);
    push_str(&mut bytes, "stone");
    push_str(&mut bytes, "air");
    // four blocks, then four biome codes
    push_u16(&mut bytes, 4);
    bytes.extend_from_slice(&[0, 1, 1, 0]);
    bytes.extend_from_slice(&[9, 9, 9, 9]);
    // two property records: one real, one with count zero
    push_u16(&mut bytes, 2);
    push_u16(&mut bytes, 0x1232); // x=1 y=2 z=3, count=2
    push_u16(&mut bytes, 0x1005); // Age(5)
    push_u16(&mut bytes, 0xF000); // unassigned tag: no value
    push_u16(&mut bytes, 0x0110); // x=0 y=1 z=1, count=0

    // chunk (0, 1) with no sections
    push_u16(&mut bytes, 0);
    push_u16(&mut bytes, 1);
    bytes.push(0);

    // two extra entries under one key: the last write wins
    push_u32(&mut bytes, 2);
    push_str(&mut bytes, "spawn");
    push_u16(&mut bytes, 3);
    bytes.extend_from_slice(&[1, 2, 3]);
    push_str(&mut bytes, "spawn");
    push_u16(&mut bytes, 2);
    bytes.extend_from_slice(&[4, 5]);

    let world = DanWorld::decode(bytes).unwrap();
    assert_eq!(world.version, 7);
    assert_eq!(world.dimension, DanDimension::Nether);
    assert_eq!(world.width, 1);
    assert_eq!(world.depth, 2);
    assert_eq!(world.chunks.len(), 2);

    let chunk = &world.chunks[0];
    assert_eq!((chunk.x, chunk.z), (0, 0));
    assert_eq!(chunk.sections.len(), 1);
    let section = &chunk.sections[0];
    assert_eq!(section.palette, vec!["stone".to_string(), "air".to_string()]);
    assert_eq!(section.blocks, vec![0, 1, 1, 0]);
    assert_eq!(section.biomes, vec![DanBiome::Plains; 4]);

    // only the record with a decoded value made it into the table
    assert_eq!(section.data.len(), 1);
    let props = section.get_block_data(1, 2, 3).unwrap();
    assert_eq!(props, &vec![DanBlockData::Age(5)]);
    assert!(section.get_block_data(0, 1, 1).is_none());

    let other = &world.chunks[1];
    assert_eq!((other.x, other.z), (0, 1));
    assert!(other.sections.is_empty());

    assert_eq!(world.get_extra("spawn").unwrap().data, vec![4, 5]);
    assert!(world.get_extra("elsewhere").is_none());
}

#[test]
fn wrong_magic_is_corrupt_header() {
    let mut bytes = Vec::new();
    push_str(&mut bytes, "BadWorld");
    bytes.extend_from_slice(&[0, 0, 0, 0, 0, 0]);
    assert_eq!(DanWorld::decode(bytes).unwrap_err(), DecodeError::CorruptHeader);
}

#[test]
fn empty_stream_is_unexpected_end() {
    assert_eq!(DanWorld::decode(Vec::new()).unwrap_err(), DecodeError::UnexpectedEnd);
}

#[test]
fn truncated_block_array_is_unexpected_end() {
    let mut bytes = world_header(1, 0, 1, 1);
    // chunk (0, 0), one section
    push_u16(&mut bytes, 0);
    push_u16(&mut bytes, 0);
    bytes.push(1);
    // empty palette, then a block array cut off half way
    bytes.push(0);
    push_u16(&mut bytes, 16);
    bytes.extend_from_slice(&[0; 7]);
    let r = DanWorld::decode(bytes);
    assert_eq!(r.unwrap_err(), DecodeError::UnexpectedEnd);
}

#[test]
fn bad_palette_text_is_invalid_text() {
    let mut bytes = world_header(1, 0, 1, 1);
    push_u16(&mut bytes, 0);
    push_u16(&mut bytes, 0);
    bytes.push(1);
    bytes.push(1);
    bytes.extend_from_slice(&[2, 0xC3, 0x28]); // not UTF-8
    assert_eq!(DanWorld::decode(bytes).unwrap_err(), DecodeError::InvalidText);
}

#[test]
fn dimension_codes_and_fallback() {
    for (code, want) in [
        (0u8, DanDimension::Overworld),
        (1, DanDimension::Nether),
        (2, DanDimension::End),
        (3, DanDimension::Overworld),
        (200, DanDimension::Overworld),
    ] {
        let mut bytes = world_header(1, code, 0, 0);
        push_u32(&mut bytes, 0);
        let world = DanWorld::decode(bytes).unwrap();
        assert_eq!(world.dimension, want);
    }
}

#[test]
fn record_count_zero_inserts_nothing() {
    let mut bytes = world_header(1, 0, 1, 1);
    push_u16(&mut bytes, 0);
    push_u16(&mut bytes, 0);
    bytes.push(1);
    bytes.push(0); // empty palette
    push_u16(&mut bytes, 0); // no blocks
    push_u16(&mut bytes, 1); // one record
    push_u16(&mut bytes, 0xABC0); // x=10 y=11 z=12, count=0
    push_u32(&mut bytes, 0);
    let world = DanWorld::decode(bytes).unwrap();
    assert!(world.chunks[0].sections[0].data.is_empty());
}

#[test]
fn record_of_only_absent_values_inserts_nothing() {
    let mut bytes = world_header(1, 0, 1, 1);
    push_u16(&mut bytes, 0);
    push_u16(&mut bytes, 0);
    bytes.push(1);
    bytes.push(0);
    push_u16(&mut bytes, 0);
    push_u16(&mut bytes, 1);
    push_u16(&mut bytes, 0x0002); // x=0 y=0 z=0, count=2
    push_u16(&mut bytes, 0xF000); // no value
    push_u16(&mut bytes, 0xFFFF); // no value
    push_u32(&mut bytes, 0);
    let world = DanWorld::decode(bytes).unwrap();
    assert!(world.chunks[0].sections[0].data.is_empty());
}

#[test]
fn record_count_governs_how_many_values_are_read() {
    let mut bytes = world_header(1, 0, 1, 1);
    push_u16(&mut bytes, 0);
    push_u16(&mut bytes, 0);
    bytes.push(1);
    bytes.push(0);
    push_u16(&mut bytes, 0);
    push_u16(&mut bytes, 1);
    // count=7: exactly seven 16-bit values follow, whatever they decode to
    push_u16(&mut bytes, 0x0007);
    push_u16(&mut bytes, 0x1001); // Age(1)
    push_u16(&mut bytes, 0xF000); // no value
    push_u16(&mut bytes, 0x6001); // Waterlogged(true)
    push_u16(&mut bytes, 0xF111); // no value
    push_u16(&mut bytes, 0xF222); // no value
    push_u16(&mut bytes, 0x2002); // SnowLevel(2)
    push_u16(&mut bytes, 0xFABC); // no value
    // the decoder must resume exactly here for the rest of the stream
    push_u32(&mut bytes, 1);
    push_str(&mut bytes, "k");
    push_u16(&mut bytes, 1);
    bytes.push(42);

    let world = DanWorld::decode(bytes).unwrap();
    let section = &world.chunks[0].sections[0];
    assert_eq!(
        section.get_block_data(0, 0, 0).unwrap(),
        &vec![
            DanBlockData::Age(1),
            DanBlockData::Waterlogged(true),
            DanBlockData::SnowLevel(2),
        ]
    );
    assert_eq!(world.get_extra("k").unwrap().data, vec![42]);
}

#[test]
fn duplicate_record_key_keeps_last() {
    let mut bytes = world_header(1, 0, 1, 1);
    push_u16(&mut bytes, 0);
    push_u16(&mut bytes, 0);
    bytes.push(1);
    bytes.push(0);
    push_u16(&mut bytes, 0);
    push_u16(&mut bytes, 2);
    push_u16(&mut bytes, 0x1231);
    push_u16(&mut bytes, 0x1005); // Age(5)
    push_u16(&mut bytes, 0x1231);
    push_u16(&mut bytes, 0x1009); // Age(9)
    push_u32(&mut bytes, 0);
    let world = DanWorld::decode(bytes).unwrap();
    let section = &world.chunks[0].sections[0];
    assert_eq!(section.data.len(), 1);
    assert_eq!(section.get_block_data(1, 2, 3).unwrap(), &vec![DanBlockData::Age(9)]);
}

#[test]
fn load_from_bytes_inflates_before_decoding() {
    let mut bytes = world_header(3, 2, 0, 0);
    push_u32(&mut bytes, 1);
    push_str(&mut bytes, "note");
    push_u16(&mut bytes, 2);
    bytes.extend_from_slice(&[7, 8]);

    let mut enc = flate2::write::GzEncoder::new(Vec::new(), flate2::Compression::default());
    enc.write_all(&bytes).unwrap();
    let compressed = enc.finish().unwrap();
    // the compressed stream is not the plain stream
    assert_ne!(compressed, bytes);

    let world = DanWorld::load_from_bytes(&compressed).unwrap();
    assert_eq!(world.version, 3);
    assert_eq!(world.dimension, DanDimension::End);
    assert_eq!(world.get_extra("note").unwrap().data, vec![7, 8]);
}

#[test]
fn load_from_bytes_rejects_garbage() {
    // not a gzip stream: nothing inflates, so the magic is never found
    let r = DanWorld::load_from_bytes(&vec![0x13, 0x37, 0x00]);
    assert_eq!(r.unwrap_err(), DecodeError::UnexpectedEnd);
}
