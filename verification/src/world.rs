use vstd::prelude::*;
use std::collections::HashMap;
use crate::biomes::{DanBiome, spec_biome};
use crate::blockdata::{BlockDataView, DanBlockData, spec_block_data};
use crate::cursor::{
    Cursor, read_string, spec_read_exact, spec_read_string, spec_read_u16, spec_read_u32,
    spec_read_u8,
};
use crate::error::DecodeError;
use crate::extra::{DanExtra, spec_extra_entry};

verus! {

broadcast use vstd::std_specs::hash::group_hash_axioms;

// ---------------------------------------------------------------------------
// The decoded world and its parts.
// ---------------------------------------------------------------------------

/// A fully decoded world: header fields, a row-major grid of
/// `width * depth` chunks, and a table of named extra blobs.
#[derive(Debug)]
pub struct DanWorld {
    pub version: u8,
    pub dimension: DanDimension,
    pub width: u16,
    pub depth: u16,
    pub chunks: Vec<DanChunk>,
    /// The extra table, kept as the entries were read; a later entry with
    /// the same key shadows an earlier one, which `get_extra` honours.
    extra: Vec<(String, DanExtra)>,
}

#[derive(Clone, Copy, Debug, PartialEq, Eq, Structural)]
pub enum DanDimension {
    Overworld,
    Nether,
    End,
}

#[derive(Debug)]
pub struct DanChunk {
    pub x: u16,
    pub z: u16,
    pub sections: Vec<DanChunkSection>,
}

/// One vertical slice of a chunk. The property table is keyed by the
/// packed local coordinate `x * 256 + y * 16 + z` (each component in
/// 0..16), and no entry of it is ever an empty sequence.
#[derive(Debug)]
pub struct DanChunkSection {
    pub palette: Vec<String>,
    pub blocks: Vec<u8>,
    pub biomes: Vec<DanBiome>,
    pub data: HashMap<u16, Vec<DanBlockData>>,
}

// ---------------------------------------------------------------------------
// Ghost images of the decoded types.
// ---------------------------------------------------------------------------

#[verifier::ext_equal]
pub struct WorldView {
    pub version: u8,
    pub dimension: DanDimension,
    pub width: u16,
    pub depth: u16,
    pub chunks: Seq<ChunkView>,
    pub extra: Map<Seq<char>, Seq<u8>>,
}

#[verifier::ext_equal]
pub struct ChunkView {
    pub x: u16,
    pub z: u16,
    pub sections: Seq<SectionView>,
}

#[verifier::ext_equal]
pub struct SectionView {
    pub palette: Seq<Seq<char>>,
    pub blocks: Seq<u8>,
    pub biomes: Seq<DanBiome>,
    pub data: Map<u16, Seq<BlockDataView>>,
}

/// The mapping an association list denotes: entries folded left to right,
/// so a later entry with the same key wins.
pub open spec fn assoc_view(s: Seq<(String, DanExtra)>) -> Map<Seq<char>, Seq<u8>>
    decreases s.len(),
{
    if s.len() == 0 {
        Map::empty()
    } else {
        assoc_view(s.drop_last()).insert(s.last().0@, s.last().1@)
    }
}

/// The ghost image of a section's property table.
pub open spec fn section_data_view(m: Map<u16, Vec<DanBlockData>>) -> Map<u16, Seq<BlockDataView>> {
    m.map_values(|v: Vec<DanBlockData>| v@.map_values(|d: DanBlockData| d@))
}

impl DanChunkSection {
    /// The packed table key of the local position (x, y, z).
    pub open spec fn spec_data_key(x: u8, y: u8, z: u8) -> u16 {
        (x * 256 + y * 16 + z) as u16
    }

    /// The properties stored for the local position (x, y, z), or nothing
    /// when that position has none.
    pub fn get_block_data(&self, x: u8, y: u8, z: u8) -> (r: Option<&Vec<DanBlockData>>)
        requires
            x < 16,
            y < 16,
            z < 16,
        ensures
            match r {
                Some(v) => self@.data.contains_key(Self::spec_data_key(x, y, z))
                    && v@.map_values(|d: DanBlockData| d@) == self@.data[
                    Self::spec_data_key(x, y, z)],
                None => !self@.data.contains_key(Self::spec_data_key(x, y, z)),
            },
    {
        let key: u16 = (x as u16) * 256 + (y as u16) * 16 + (z as u16);
        self.data.get(&key)
    }
}

impl View for DanChunkSection {
    type V = SectionView;

    open spec fn view(&self) -> SectionView {
        SectionView {
            palette: self.palette@.map_values(|s: String| s@),
            blocks: self.blocks@,
            biomes: self.biomes@,
            data: section_data_view(self.data@),
        }
    }
}

impl View for DanChunk {
    type V = ChunkView;

    open spec fn view(&self) -> ChunkView {
        ChunkView {
            x: self.x,
            z: self.z,
            sections: self.sections@.map_values(|s: DanChunkSection| s@),
        }
    }
}

impl View for DanWorld {
    type V = WorldView;

    closed spec fn view(&self) -> WorldView {
        WorldView {
            version: self.version,
            dimension: self.dimension,
            width: self.width,
            depth: self.depth,
            chunks: self.chunks@.map_values(|c: DanChunk| c@),
            extra: assoc_view(self.extra@),
        }
    }
}

// ---------------------------------------------------------------------------
// The stream model: what each part of the byte stream decodes to.
// ---------------------------------------------------------------------------

/// Dimension codes 0, 1 and 2; any other code falls back to Overworld.
pub open spec fn spec_dimension(code: u8) -> DanDimension {
    match code {
        0 => DanDimension::Overworld,
        1 => DanDimension::Nether,
        2 => DanDimension::End,
        _ => DanDimension::Overworld,
    }
}

/// `n` length-prefixed strings in a row, appended to `acc`.
pub open spec fn spec_strings(b: Seq<u8>, p: int, n: nat, acc: Seq<Seq<char>>) -> Result<
    (Seq<Seq<char>>, int),
    DecodeError,
>
    decreases n,
{
    if n == 0 {
        Ok((acc, p))
    } else {
        match spec_read_string(b, p) {
            Ok((s, p1)) => spec_strings(b, p1, (n - 1) as nat, acc.push(s)),
            Err(e) => Err(e),
        }
    }
}

/// `n` packed 16-bit property values in a row, appended to `acc`; a value
/// that decodes to no value is read but omitted.
pub open spec fn spec_prop_values(b: Seq<u8>, p: int, n: nat, acc: Seq<BlockDataView>) -> Result<
    (Seq<BlockDataView>, int),
    DecodeError,
>
    decreases n,
{
    if n == 0 {
        Ok((acc, p))
    } else {
        match spec_read_u16(b, p) {
            Ok((bits, p1)) => match spec_block_data(bits) {
                Some(v) => spec_prop_values(b, p1, (n - 1) as nat, acc.push(v)),
                None => spec_prop_values(b, p1, (n - 1) as nat, acc),
            },
            Err(e) => Err(e),
        }
    }
}

/// One property record: a packed header carrying the local coordinate in
/// its top 12 bits and a count in its bottom 4 bits, then exactly `count`
/// property values. The key is the header's top 12 bits, packed.
pub open spec fn spec_record(b: Seq<u8>, p: int) -> Result<((u16, Seq<BlockDataView>), int), DecodeError> {
    match spec_read_u16(b, p) {
        Ok((header, p1)) => match spec_prop_values(b, p1, (header & 0xF) as nat, Seq::empty()) {
            Ok((vals, p2)) => Ok(((header >> 4, vals), p2)),
            Err(e) => Err(e),
        },
        Err(e) => Err(e),
    }
}

/// `n` property records folded into the table `m`: a record inserts its
/// value list at its key only when that list is non-empty.
pub open spec fn spec_records(b: Seq<u8>, p: int, n: nat, m: Map<u16, Seq<BlockDataView>>) -> Result<
    (Map<u16, Seq<BlockDataView>>, int),
    DecodeError,
>
    decreases n,
{
    if n == 0 {
        Ok((m, p))
    } else {
        match spec_record(b, p) {
            Ok(((key, vals), p1)) => spec_records(
                b,
                p1,
                (n - 1) as nat,
                if vals.len() > 0 {
                    m.insert(key, vals)
                } else {
                    m
                },
            ),
            Err(e) => Err(e),
        }
    }
}

/// One chunk section: palette length and strings, block count, the block
/// array, the equally long biome-code array (each code put through the
/// biome lookup), then the property records.
pub open spec fn spec_section(b: Seq<u8>, p: int) -> Result<(SectionView, int), DecodeError> {
    match spec_read_u8(b, p) {
        Ok((plen, p1)) => match spec_strings(b, p1, plen as nat, Seq::empty()) {
            Ok((palette, p2)) => match spec_read_u16(b, p2) {
                Ok((nblocks, p3)) => match spec_read_exact(b, p3, nblocks as int) {
                    Ok((blocks, p4)) => match spec_read_exact(b, p4, nblocks as int) {
                        Ok((codes, p5)) => match spec_read_u16(b, p5) {
                            Ok((ndata, p6)) => match spec_records(b, p6, ndata as nat, Map::empty()) {
                                Ok((data, p7)) => Ok(
                                    (
                                        SectionView {
                                            palette,
                                            blocks,
                                            biomes: codes.map_values(|c: u8| spec_biome(c)),
                                            data,
                                        },
                                        p7,
                                    ),
                                ),
                                Err(e) => Err(e),
                            },
                            Err(e) => Err(e),
                        },
                        Err(e) => Err(e),
                    },
                    Err(e) => Err(e),
                },
                Err(e) => Err(e),
            },
            Err(e) => Err(e),
        },
        Err(e) => Err(e),
    }
}

/// `n` sections in a row, appended to `acc`.
pub open spec fn spec_sections(b: Seq<u8>, p: int, n: nat, acc: Seq<SectionView>) -> Result<
    (Seq<SectionView>, int),
    DecodeError,
>
    decreases n,
{
    if n == 0 {
        Ok((acc, p))
    } else {
        match spec_section(b, p) {
            Ok((s, p1)) => spec_sections(b, p1, (n - 1) as nat, acc.push(s)),
            Err(e) => Err(e),
        }
    }
}

/// One chunk: its coordinates, a section count, then that many sections
/// in stream order.
pub open spec fn spec_chunk(b: Seq<u8>, p: int) -> Result<(ChunkView, int), DecodeError> {
    match spec_read_u16(b, p) {
        Ok((x, p1)) => match spec_read_u16(b, p1) {
            Ok((z, p2)) => match spec_read_u8(b, p2) {
                Ok((nsec, p3)) => match spec_sections(b, p3, nsec as nat, Seq::empty()) {
                    Ok((sections, p4)) => Ok((ChunkView { x, z, sections }, p4)),
                    Err(e) => Err(e),
                },
                Err(e) => Err(e),
            },
            Err(e) => Err(e),
        },
        Err(e) => Err(e),
    }
}

/// `n` chunks in a row, appended to `acc`.
pub open spec fn spec_chunks(b: Seq<u8>, p: int, n: nat, acc: Seq<ChunkView>) -> Result<
    (Seq<ChunkView>, int),
    DecodeError,
>
    decreases n,
{
    if n == 0 {
        Ok((acc, p))
    } else {
        match spec_chunk(b, p) {
            Ok((c, p1)) => spec_chunks(b, p1, (n - 1) as nat, acc.push(c)),
            Err(e) => Err(e),
        }
    }
}

/// `n` extra entries folded into the table `m`; a duplicate key keeps the
/// last entry read.
pub open spec fn spec_extras(b: Seq<u8>, p: int, n: nat, m: Map<Seq<char>, Seq<u8>>) -> Result<
    (Map<Seq<char>, Seq<u8>>, int),
    DecodeError,
>
    decreases n,
{
    if n == 0 {
        Ok((m, p))
    } else {
        match spec_extra_entry(b, p) {
            Ok(((key, data), p1)) => spec_extras(b, p1, (n - 1) as nat, m.insert(key, data)),
            Err(e) => Err(e),
        }
    }
}

/// The whole stream: the magic string (anything but `"DanWorld"` is a
/// corrupt header), version and dimension bytes, the grid extents, exactly
/// `width * depth` chunks in row-major order, then the extra table. The
/// extra-entry count is a 32-bit field whatever the version byte says;
/// the version byte read here is where a revision that narrows it would
/// branch. Bytes after the extra table are ignored.
pub open spec fn spec_world(b: Seq<u8>) -> Result<WorldView, DecodeError> {
    match spec_read_string(b, 0) {
        Ok((magic, p1)) => if magic != "DanWorld"@ {
            Err(DecodeError::CorruptHeader)
        } else {
            match spec_read_u8(b, p1) {
                Ok((version, p2)) => match spec_read_u8(b, p2) {
                    Ok((dim, p3)) => match spec_read_u16(b, p3) {
                        Ok((width, p4)) => match spec_read_u16(b, p4) {
                            Ok((depth, p5)) => match spec_chunks(
                                b,
                                p5,
                                (width * depth) as nat,
                                Seq::empty(),
                            ) {
                                Ok((chunks, p6)) => match spec_read_u32(b, p6) {
                                    Ok((nextra, p7)) => match spec_extras(
                                        b,
                                        p7,
                                        nextra as nat,
                                        Map::empty(),
                                    ) {
                                        Ok((extra, _p8)) => Ok(
                                            WorldView {
                                                version,
                                                dimension: spec_dimension(dim),
                                                width,
                                                depth,
                                                chunks,
                                                extra,
                                            },
                                        ),
                                        Err(e) => Err(e),
                                    },
                                    Err(e) => Err(e),
                                },
                                Err(e) => Err(e),
                            },
                            Err(e) => Err(e),
                        },
                        Err(e) => Err(e),
                    },
                    Err(e) => Err(e),
                },
                Err(e) => Err(e),
            }
        },
        Err(e) => Err(e),
    }
}

// ---------------------------------------------------------------------------
// The exec decoders, each proved against its stream model.
// ---------------------------------------------------------------------------

/// Decodes one chunk section.
#[verifier::loop_isolation(false)]
pub fn read_chunk_section(c: &mut Cursor) -> (r: Result<DanChunkSection, DecodeError>)
    ensures
        final(c).data@ == old(c).data@,
        match spec_section(old(c).data@, old(c).pos as int) {
            Ok((v, p)) => r is Ok && r.unwrap()@ == v && final(c).pos == p,
            Err(e) => r is Err && r.unwrap_err() == e,
        },
{
    let ghost b = c.data@;
    let ghost p0 = c.pos as int;

    let palette_len = match c.read_u8() {
        Ok(v) => v,
        Err(e) => { return Err(e); },
    };

    let ghost p_strings = c.pos as int;
    let mut palette: Vec<String> = Vec::new();
    proof {
        assert(palette@.map_values(|s: String| s@) =~= Seq::<Seq<char>>::empty());
    }
    let mut i: usize = 0;
    while i < palette_len as usize
        invariant
            c.data@ == b,
            i <= palette_len as usize,
            spec_strings(b, p_strings, palette_len as nat, Seq::empty()) == spec_strings(
                b,
                c.pos as int,
                (palette_len - i) as nat,
                palette@.map_values(|s: String| s@),
            ),
        decreases palette_len - i,
    {
        let ghost acc = palette@.map_values(|s: String| s@);
        match read_string(c) {
            Ok(s) => {
                let ghost sv = s@;
                palette.push(s);
                proof {
                    assert(palette@.map_values(|s: String| s@) =~= acc.push(sv));
                }
            },
            Err(e) => { return Err(e); },
        }
        i = i + 1;
    }

    let num_blocks = match c.read_u16_be() {
        Ok(v) => v,
        Err(e) => { return Err(e); },
    };
    let blocks = match c.read_exact(num_blocks as usize) {
        Ok(v) => v,
        Err(e) => { return Err(e); },
    };
    let codes = match c.read_exact(num_blocks as usize) {
        Ok(v) => v,
        Err(e) => { return Err(e); },
    };

    let mut biomes: Vec<DanBiome> = Vec::new();
    let mut i: usize = 0;
    while i < codes.len()
        invariant
            i <= codes@.len(),
            biomes@.len() == i,
            forall|j: int| 0 <= j < i ==> biomes@[j] == spec_biome(codes@[j]),
        decreases codes@.len() - i,
    {
        biomes.push(DanBiome::from_code(codes[i]));
        i = i + 1;
    }
    proof {
        assert(biomes@ =~= codes@.map_values(|cd: u8| spec_biome(cd)));
    }

    let num_data = match c.read_u16_be() {
        Ok(v) => v,
        Err(e) => { return Err(e); },
    };

    let ghost p_records = c.pos as int;
    let mut data: HashMap<u16, Vec<DanBlockData>> = HashMap::new();
    proof {
        assert(section_data_view(data@) =~= Map::<u16, Seq<BlockDataView>>::empty());
    }
    let mut j: usize = 0;
    while j < num_data as usize
        invariant
            c.data@ == b,
            j <= num_data as usize,
            spec_records(b, p_records, num_data as nat, Map::empty()) == spec_records(
                b,
                c.pos as int,
                (num_data - j) as nat,
                section_data_view(data@),
            ),
        decreases num_data - j,
    {
        let ghost pos_rec = c.pos as int;
        let ghost m_before = section_data_view(data@);
        let header = match c.read_u16_be() {
            Ok(v) => v,
            Err(e) => { return Err(e); },
        };
        let data_len = header & 0xF;
        let key = header >> 4;

        let ghost p_vals = c.pos as int;
        let mut current: Vec<DanBlockData> = Vec::new();
        proof {
            assert(current@.map_values(|d: DanBlockData| d@) =~= Seq::<BlockDataView>::empty());
        }
        let mut k: usize = 0;
        while k < data_len as usize
            invariant
                c.data@ == b,
                k <= data_len as usize,
                spec_prop_values(b, p_vals, data_len as nat, Seq::empty()) == spec_prop_values(
                    b,
                    c.pos as int,
                    (data_len - k) as nat,
                    current@.map_values(|d: DanBlockData| d@),
                ),
            decreases data_len - k,
        {
            let ghost vacc = current@.map_values(|d: DanBlockData| d@);
            let bits = match c.read_u16_be() {
                Ok(v) => v,
                Err(e) => { return Err(e); },
            };
            match crate::blockdata::from(bits) {
                Some(d) => {
                    let ghost dv = d@;
                    current.push(d);
                    proof {
                        assert(current@.map_values(|d: DanBlockData| d@) =~= vacc.push(dv));
                    }
                },
                None => {},
            }
            k = k + 1;
        }
        proof {
            assert(spec_record(b, pos_rec) == Ok::<((u16, Seq<BlockDataView>), int), DecodeError>(
                ((key, current@.map_values(|d: DanBlockData| d@)), c.pos as int),
            ));
        }

        if current.len() > 0 {
            let ghost cur_views = current@.map_values(|d: DanBlockData| d@);
            data.insert(key, current);
            proof {
                assert(section_data_view(data@) =~= m_before.insert(key, cur_views));
            }
        }
        j = j + 1;
    }

    let section = DanChunkSection { palette, blocks, biomes, data };
    proof {
        match spec_section(b, p0) {
            Ok((v, p)) => {
                assert(section@ =~= v);
            },
            Err(_) => {},
        }
    }
    Ok(section)
}

/// Decodes one chunk: its coordinates, then its sections in stream order.
#[verifier::loop_isolation(false)]
pub fn read_chunk(c: &mut Cursor) -> (r: Result<DanChunk, DecodeError>)
    ensures
        final(c).data@ == old(c).data@,
        match spec_chunk(old(c).data@, old(c).pos as int) {
            Ok((v, p)) => r is Ok && r.unwrap()@ == v && final(c).pos == p,
            Err(e) => r is Err && r.unwrap_err() == e,
        },
{
    let ghost b = c.data@;
    let x = match c.read_u16_be() {
        Ok(v) => v,
        Err(e) => { return Err(e); },
    };
    let z = match c.read_u16_be() {
        Ok(v) => v,
        Err(e) => { return Err(e); },
    };
    let num_sections = match c.read_u8() {
        Ok(v) => v,
        Err(e) => { return Err(e); },
    };

    let ghost p_secs = c.pos as int;
    let mut sections: Vec<DanChunkSection> = Vec::new();
    proof {
        assert(sections@.map_values(|s: DanChunkSection| s@) =~= Seq::<SectionView>::empty());
    }
    let mut i: usize = 0;
    while i < num_sections as usize
        invariant
            c.data@ == b,
            i <= num_sections as usize,
            spec_sections(b, p_secs, num_sections as nat, Seq::empty()) == spec_sections(
                b,
                c.pos as int,
                (num_sections - i) as nat,
                sections@.map_values(|s: DanChunkSection| s@),
            ),
        decreases num_sections - i,
    {
        let ghost acc = sections@.map_values(|s: DanChunkSection| s@);
        match read_chunk_section(c) {
            Ok(s) => {
                let ghost sv = s@;
                sections.push(s);
                proof {
                    assert(sections@.map_values(|s: DanChunkSection| s@) =~= acc.push(sv));
                }
            },
            Err(e) => { return Err(e); },
        }
        i = i + 1;
    }

    let chunk = DanChunk { x, z, sections };
    proof {
        match spec_chunk(b, old(c).pos as int) {
            Ok((v, p)) => {
                assert(chunk@ =~= v);
            },
            Err(_) => {},
        }
    }
    Ok(chunk)
}

impl DanWorld {
    /// Decodes a whole world from an uncompressed byte buffer.
    #[verifier::loop_isolation(false)]
    pub fn decode(bytes: Vec<u8>) -> (r: Result<DanWorld, DecodeError>)
        ensures
            match spec_world(bytes@) {
                Ok(w) => r is Ok && r.unwrap()@ == w,
                Err(e) => r is Err && r.unwrap_err() == e,
            },
    {
        let mut c = Cursor::new(bytes);
        let ghost b = c.data@;

        let magic = match read_string(&mut c) {
            Ok(v) => v,
            Err(e) => { return Err(e); },
        };
        if !crate::text::str_eq(magic.as_str(), "DanWorld") {
            return Err(DecodeError::CorruptHeader);
        }

        let version = match c.read_u8() {
            Ok(v) => v,
            Err(e) => { return Err(e); },
        };
        let dim_code = match c.read_u8() {
            Ok(v) => v,
            Err(e) => { return Err(e); },
        };
        let dimension = match dim_code {
            0 => DanDimension::Overworld,
            1 => DanDimension::Nether,
            2 => DanDimension::End,
            _ => DanDimension::Overworld,
        };
        let width = match c.read_u16_be() {
            Ok(v) => v,
            Err(e) => { return Err(e); },
        };
        let depth = match c.read_u16_be() {
            Ok(v) => v,
            Err(e) => { return Err(e); },
        };

        proof {
            assert((width as int) * (depth as int) <= 0xFFFF * 0xFFFF) by (nonlinear_arith)
                requires
                    width <= 0xFFFF,
                    depth <= 0xFFFF,
            ;
        }
        let total = (width as usize) * (depth as usize);

        let ghost p_chunks = c.pos as int;
        let mut chunks: Vec<DanChunk> = Vec::new();
        proof {
            assert(chunks@.map_values(|ch: DanChunk| ch@) =~= Seq::<ChunkView>::empty());
        }
        let mut i: usize = 0;
        while i < total
            invariant
                c.data@ == b,
                i <= total,
                spec_chunks(b, p_chunks, (width * depth) as nat, Seq::empty()) == spec_chunks(
                    b,
                    c.pos as int,
                    (total - i) as nat,
                    chunks@.map_values(|ch: DanChunk| ch@),
                ),
            decreases total - i,
        {
            let ghost acc = chunks@.map_values(|ch: DanChunk| ch@);
            match read_chunk(&mut c) {
                Ok(ch) => {
                    let ghost chv = ch@;
                    chunks.push(ch);
                    proof {
                        assert(chunks@.map_values(|ch: DanChunk| ch@) =~= acc.push(chv));
                    }
                },
                Err(e) => { return Err(e); },
            }
            i = i + 1;
        }

        let num_extra = match c.read_u32_be() {
            Ok(v) => v,
            Err(e) => { return Err(e); },
        };

        let ghost p_extras = c.pos as int;
        let mut extra: Vec<(String, DanExtra)> = Vec::new();
        let mut i: usize = 0;
        while i < num_extra as usize
            invariant
                c.data@ == b,
                i <= num_extra as usize,
                spec_extras(b, p_extras, num_extra as nat, Map::empty()) == spec_extras(
                    b,
                    c.pos as int,
                    (num_extra - i) as nat,
                    assoc_view(extra@),
                ),
            decreases num_extra - i,
        {
            let ghost acc_seq = extra@;
            match DanExtra::from_buf(&mut c) {
                Ok((key, value)) => {
                    let ghost kv = key@;
                    let ghost dv = value@;
                    extra.push((key, value));
                    proof {
                        assert(extra@.drop_last() =~= acc_seq);
                        assert(assoc_view(extra@) == assoc_view(acc_seq).insert(kv, dv));
                    }
                },
                Err(e) => { return Err(e); },
            }
            i = i + 1;
        }

        let world = DanWorld { version, dimension, width, depth, chunks, extra };
        proof {
            match spec_world(b) {
                Ok(w) => {
                    assert(world@ =~= w);
                },
                Err(_) => {},
            }
        }
        Ok(world)
    }

    /// Decodes a whole world from a gzip-compressed byte buffer, as read
    /// from a world file.
    pub fn load_from_bytes(bytes: &Vec<u8>) -> (r: Result<DanWorld, DecodeError>)
        ensures
            match spec_world(inflated_of(bytes@)) {
                Ok(w) => r is Ok && r.unwrap()@ == w,
                Err(e) => r is Err && r.unwrap_err() == e,
            },
    {
        let inflated = gunzip(bytes);
        Self::decode(inflated)
    }

    /// Looks a named extra blob up; when the stream held several entries
    /// under one key, the last one read is returned.
    pub fn get_extra(&self, key: &str) -> (r: Option<&DanExtra>)
        ensures
            match r {
                Some(e) => self@.extra.contains_key(key@) && e@ == self@.extra[key@],
                None => !self@.extra.contains_key(key@),
            },
    {
        let mut i: usize = self.extra.len();
        while i > 0
            invariant
                i <= self.extra@.len(),
                forall|j: int| i <= j < self.extra@.len() ==> self.extra@[j].0@ != key@,
            decreases i,
        {
            i = i - 1;
            if crate::text::str_eq(self.extra[i].0.as_str(), key) {
                proof {
                    lemma_assoc_view_found(self.extra@, i as int, key@);
                }
                return Some(&self.extra[i].1);
            }
        }
        proof {
            lemma_assoc_view_absent(self.extra@, key@);
        }
        None
    }
}

/// A key that appears in no entry of an association list is absent from
/// the mapping the list denotes.
proof fn lemma_assoc_view_absent(s: Seq<(String, DanExtra)>, k: Seq<char>)
    requires
        forall|j: int| 0 <= j < s.len() ==> s[j].0@ != k,
    ensures
        !assoc_view(s).contains_key(k),
    decreases s.len(),
{
    if s.len() > 0 {
        lemma_assoc_view_absent(s.drop_last(), k);
    }
}

/// The mapping an association list denotes sends a key to the value of
/// its last entry under that key.
proof fn lemma_assoc_view_found(s: Seq<(String, DanExtra)>, i: int, k: Seq<char>)
    requires
        0 <= i < s.len(),
        s[i].0@ == k,
        forall|j: int| i < j < s.len() ==> s[j].0@ != k,
    ensures
        assoc_view(s).contains_key(k),
        assoc_view(s)[k] == s[i].1@,
    decreases s.len(),
{
    if i < s.len() - 1 {
        lemma_assoc_view_found(s.drop_last(), i, k);
    }
}

// ---------------------------------------------------------------------------
// Laws of the record decoder.
// ---------------------------------------------------------------------------

/// A property record whose header count field is zero decodes to the
/// empty value list and leaves the property table exactly as it was.
pub proof fn lemma_record_count_zero(b: Seq<u8>, p: int, n: nat, m: Map<u16, Seq<BlockDataView>>)
    requires
        n > 0,
        spec_read_u16(b, p) is Ok,
        spec_read_u16(b, p).unwrap().0 & 0xF == 0,
    ensures
        spec_record(b, p) == Ok::<((u16, Seq<BlockDataView>), int), DecodeError>(
            ((spec_read_u16(b, p).unwrap().0 >> 4, Seq::empty()), p + 2),
        ),
        spec_records(b, p, n, m) == spec_records(b, p + 2, (n - 1) as nat, m),
{
}

/// Property values that all decode to no value are still read in full —
/// two bytes each — but contribute nothing to the value list.
pub proof fn lemma_prop_values_all_absent(b: Seq<u8>, p: int, n: nat, acc: Seq<BlockDataView>)
    requires
        forall|j: int| 0 <= j < n ==> (#[trigger] spec_read_u16(b, p + 2 * j)) is Ok
            && spec_block_data(spec_read_u16(b, p + 2 * j).unwrap().0) is None,
    ensures
        spec_prop_values(b, p, n, acc) == Ok::<(Seq<BlockDataView>, int), DecodeError>(
            (acc, p + 2 * n),
        ),
    decreases n,
{
    if n > 0 {
        assert(spec_read_u16(b, p + 2 * 0) is Ok);
        assert forall|j: int| 0 <= j < n - 1 implies (#[trigger] spec_read_u16(b, (p + 2) + 2 * j)) is Ok
            && spec_block_data(spec_read_u16(b, (p + 2) + 2 * j).unwrap().0) is None by {
            assert((p + 2) + 2 * j == p + 2 * (j + 1));
            assert(spec_read_u16(b, p + 2 * (j + 1)) is Ok && spec_block_data(
                spec_read_u16(b, p + 2 * (j + 1)).unwrap().0,
            ) is None);
        }
        lemma_prop_values_all_absent(b, p + 2, (n - 1) as nat, acc);
    }
}

/// A record whose declared values all decode to no value inserts no entry:
/// the table after the record equals the table before it, even though the
/// header's count said values would follow and every one of them was read.
pub proof fn lemma_record_all_absent(b: Seq<u8>, p: int, n: nat, m: Map<u16, Seq<BlockDataView>>)
    requires
        n > 0,
        spec_read_u16(b, p) is Ok,
        forall|j: int| 0 <= j < (spec_read_u16(b, p).unwrap().0 & 0xF) ==> (
        #[trigger] spec_read_u16(b, p + 2 + 2 * j)) is Ok && spec_block_data(
            spec_read_u16(b, p + 2 + 2 * j).unwrap().0,
        ) is None,
    ensures
        spec_record(b, p) is Ok,
        spec_record(b, p).unwrap().0.1 == Seq::<BlockDataView>::empty(),
        spec_records(b, p, n, m) == spec_records(
            b,
            p + 2 + 2 * (spec_read_u16(b, p).unwrap().0 & 0xF),
            (n - 1) as nat,
            m,
        ),
{
    let header = spec_read_u16(b, p).unwrap().0;
    assert forall|j: int| 0 <= j < (header & 0xF) implies (#[trigger] spec_read_u16(b, (p + 2) + 2 * j)) is Ok
        && spec_block_data(spec_read_u16(b, (p + 2) + 2 * j).unwrap().0) is None by {
        assert((p + 2) + 2 * j == p + 2 + 2 * j);
        assert(spec_read_u16(b, p + 2 + 2 * j) is Ok && spec_block_data(
            spec_read_u16(b, p + 2 + 2 * j).unwrap().0,
        ) is None);
    }
    lemma_prop_values_all_absent(b, p + 2, (header & 0xF) as nat, Seq::empty());
}

/// Decoding records keeps the table free of empty entries: a record only
/// ever inserts a non-empty value list.
pub proof fn lemma_records_no_empty_entries(
    b: Seq<u8>,
    p: int,
    n: nat,
    m: Map<u16, Seq<BlockDataView>>,
)
    requires
        forall|k: u16| #[trigger] m.contains_key(k) ==> m[k].len() > 0,
        spec_records(b, p, n, m) is Ok,
    ensures
        forall|k: u16| #[trigger] spec_records(b, p, n, m).unwrap().0.contains_key(k)
            ==> spec_records(b, p, n, m).unwrap().0[k].len() > 0,
    decreases n,
{
    if n > 0 {
        match spec_record(b, p) {
            Ok(((key, vals), p1)) => {
                let m1 = if vals.len() > 0 {
                    m.insert(key, vals)
                } else {
                    m
                };
                lemma_records_no_empty_entries(b, p1, (n - 1) as nat, m1);
            },
            Err(_) => {},
        }
    }
}

/// No entry of a decoded section's property table is ever empty.
pub proof fn lemma_section_no_empty_entries(b: Seq<u8>, p: int)
    requires
        spec_section(b, p) is Ok,
    ensures
        forall|k: u16| #[trigger] spec_section(b, p).unwrap().0.data.contains_key(k)
            ==> spec_section(b, p).unwrap().0.data[k].len() > 0,
{
    match spec_read_u8(b, p) {
        Ok((plen, p1)) => match spec_strings(b, p1, plen as nat, Seq::empty()) {
            Ok((_palette, p2)) => match spec_read_u16(b, p2) {
                Ok((nblocks, p3)) => match spec_read_exact(b, p3, nblocks as int) {
                    Ok((_blocks, p4)) => match spec_read_exact(b, p4, nblocks as int) {
                        Ok((_codes, p5)) => match spec_read_u16(b, p5) {
                            Ok((ndata, p6)) => {
                                lemma_records_no_empty_entries(
                                    b,
                                    p6,
                                    ndata as nat,
                                    Map::empty(),
                                );
                            },
                            Err(_) => {},
                        },
                        Err(_) => {},
                    },
                    Err(_) => {},
                },
                Err(_) => {},
            },
            Err(_) => {},
        },
        Err(_) => {},
    }
}

/// What inflating a gzip byte buffer yields: all the decompressed bytes
/// for a well-formed stream, the bytes up to the fault for a damaged one.
pub uninterp spec fn inflated_of(b: Seq<u8>) -> Seq<u8>;

/// Relies on flate2's `read::GzDecoder` driven by `Read::read_to_end`:
/// the bytes the decoder yields — everything for a well-formed stream,
/// the bytes before the first fault otherwise — are a function of the
/// compressed input alone.
#[verifier::external_body]
fn gunzip(bytes: &Vec<u8>) -> (r: Vec<u8>)
    ensures
        r@ == inflated_of(bytes@),
{
    let mut gz = flate2::read::GzDecoder::new(bytes.as_slice());
    let mut out = Vec::new();
    let _ = std::io::Read::read_to_end(&mut gz, &mut out);
    out
}

} // verus!
