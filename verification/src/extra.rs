use vstd::prelude::*;
use crate::cursor::{Cursor, be32, be64, spec_read_string, spec_read_u16, spec_read_exact, read_string, utf8_to_string};
use crate::error::DecodeError;

verus! {

/// A named opaque binary blob attached to the world. The blob is stored
/// as raw bytes and reinterpreted on demand; the reinterpretations are
/// independent of each other and of storage.
#[derive(Clone, Debug, PartialEq)]
pub struct DanExtra {
    pub data: Vec<u8>,
}

impl View for DanExtra {
    type V = Seq<u8>;

    open spec fn view(&self) -> Seq<u8> {
        self.data@
    }
}

/// One stored extra entry: a length-prefixed string key, a big-endian
/// 16-bit byte count, then that many raw bytes.
pub open spec fn spec_extra_entry(b: Seq<u8>, p: int) -> Result<((Seq<char>, Seq<u8>), int), DecodeError> {
    match spec_read_string(b, p) {
        Ok((key, p1)) => match spec_read_u16(b, p1) {
            Ok((len, p2)) => match spec_read_exact(b, p2, len as int) {
                Ok((data, p3)) => Ok(((key, data), p3)),
                Err(e) => Err(e),
            },
            Err(e) => Err(e),
        },
        Err(e) => Err(e),
    }
}

/// The string view of a blob: a big-endian 32-bit length, then that many
/// UTF-8 bytes. A blob shorter than the prefix asks for is
/// `TruncatedPayload`; bytes that are not UTF-8 are `InvalidText`.
pub open spec fn spec_extra_string(d: Seq<u8>) -> Result<Seq<char>, DecodeError> {
    if d.len() < 4 {
        Err(DecodeError::TruncatedPayload)
    } else {
        let n = be32(d, 0) as int;
        if d.len() < 4 + n {
            Err(DecodeError::TruncatedPayload)
        } else {
            let raw = d.subrange(4, 4 + n);
            if vstd::utf8::valid_utf8(raw) {
                Ok(vstd::utf8::decode_utf8(raw))
            } else {
                Err(DecodeError::InvalidText)
            }
        }
    }
}

/// The coordinate view of a blob: three 8-byte big-endian values then two
/// 4-byte big-endian values, given here as raw bit patterns. A blob with
/// fewer than the 32 bytes required is `TruncatedPayload`.
pub open spec fn spec_extra_coords(d: Seq<u8>) -> Result<(u64, u64, u64, u32, u32), DecodeError> {
    if d.len() < 32 {
        Err(DecodeError::TruncatedPayload)
    } else {
        Ok((be64(d, 0), be64(d, 8), be64(d, 16), be32(d, 24), be32(d, 28)))
    }
}

impl DanExtra {
    /// Decodes one (key, blob) pair from the stream.
    pub fn from_buf(c: &mut Cursor) -> (r: Result<(String, DanExtra), DecodeError>)
        ensures
            final(c).data@ == old(c).data@,
            match spec_extra_entry(old(c).data@, old(c).pos as int) {
                Ok(((key, data), p)) => r is Ok && r.unwrap().0@ == key && r.unwrap().1@ == data
                    && final(c).pos == p,
                Err(e) => r is Err && r.unwrap_err() == e,
            },
    {
        let key = match read_string(c) {
            Ok(v) => v,
            Err(e) => { return Err(e); },
        };
        let len = match c.read_u16_be() {
            Ok(v) => v,
            Err(e) => { return Err(e); },
        };
        let data = match c.read_exact(len as usize) {
            Ok(v) => v,
            Err(e) => { return Err(e); },
        };
        Ok((key, DanExtra { data }))
    }

    /// Reinterprets the blob as a length-prefixed UTF-8 string.
    pub fn to_string(&self) -> (r: Result<String, DecodeError>)
        ensures
            match spec_extra_string(self@) {
                Ok(s) => r is Ok && r.unwrap()@ == s,
                Err(e) => r is Err && r.unwrap_err() == e,
            },
    {
        if self.data.len() < 4 {
            return Err(DecodeError::TruncatedPayload);
        }
        let n = (self.data[0] as u32) * 0x1000000 + (self.data[1] as u32) * 0x10000
            + (self.data[2] as u32) * 0x100 + (self.data[3] as u32);
        let n = n as usize;
        if self.data.len() - 4 < n {
            return Err(DecodeError::TruncatedPayload);
        }
        let mut raw: Vec<u8> = Vec::new();
        let mut i: usize = 0;
        while i < n
            invariant
                i <= n,
                4 + n <= self.data.len(),
                raw@ =~= self@.subrange(4, 4 + i as int),
            decreases n - i,
        {
            raw.push(self.data[4 + i]);
            i = i + 1;
        }
        match utf8_to_string(raw) {
            Some(s) => Ok(s),
            None => Err(DecodeError::InvalidText),
        }
    }

    /// Reinterprets the blob as a position and orientation: the raw bit
    /// patterns of three 8-byte values (x, y, z) followed by two 4-byte
    /// values (yaw, pitch), all big-endian.
    pub fn coord_bits(&self) -> (r: Result<(u64, u64, u64, u32, u32), DecodeError>)
        ensures
            match spec_extra_coords(self@) {
                Ok(v) => r == Ok::<(u64, u64, u64, u32, u32), DecodeError>(v),
                Err(e) => r == Err::<(u64, u64, u64, u32, u32), DecodeError>(e),
            },
    {
        if self.data.len() < 32 {
            return Err(DecodeError::TruncatedPayload);
        }
        let x = self.read_u64_at(0);
        let y = self.read_u64_at(8);
        let z = self.read_u64_at(16);
        let yaw = (self.data[24] as u32) * 0x1000000 + (self.data[25] as u32) * 0x10000
            + (self.data[26] as u32) * 0x100 + (self.data[27] as u32);
        let pitch = (self.data[28] as u32) * 0x1000000 + (self.data[29] as u32) * 0x10000
            + (self.data[30] as u32) * 0x100 + (self.data[31] as u32);
        Ok((x, y, z, yaw, pitch))
    }

    /// The big-endian 8-byte value stored at byte offset `p` of the blob.
    fn read_u64_at(&self, p: usize) -> (r: u64)
        requires
            p + 8 <= self@.len(),
        ensures
            r == be64(self@, p as int),
    {
        let len = self.data.len();
        assert(p + 8 <= len);
        (self.data[p] as u64) * 0x100000000000000 + (self.data[p + 1] as u64) * 0x1000000000000
            + (self.data[p + 2] as u64) * 0x10000000000 + (self.data[p + 3] as u64) * 0x100000000
            + (self.data[p + 4] as u64) * 0x1000000 + (self.data[p + 5] as u64) * 0x10000
            + (self.data[p + 6] as u64) * 0x100 + (self.data[p + 7] as u64)
    }
}

} // verus!
