use vstd::prelude::*;
use crate::error::DecodeError;

verus! {

// ---------------------------------------------------------------------------
// The byte-level model: what each primitive read yields, as spec functions
// over the byte sequence and the current position. Every exec read below is
// proved to agree with its spec function exactly.
// ---------------------------------------------------------------------------

/// Big-endian 16-bit value stored at position `p`.
pub open spec fn be16(b: Seq<u8>, p: int) -> u16 {
    (b[p] * 0x100 + b[p + 1]) as u16
}

/// Big-endian 32-bit value stored at position `p`.
pub open spec fn be32(b: Seq<u8>, p: int) -> u32 {
    (b[p] * 0x1000000 + b[p + 1] * 0x10000 + b[p + 2] * 0x100 + b[p + 3]) as u32
}

/// Big-endian 64-bit value stored at position `p`.
pub open spec fn be64(b: Seq<u8>, p: int) -> u64 {
    (b[p] * 0x100000000000000 + b[p + 1] * 0x1000000000000 + b[p + 2] * 0x10000000000
        + b[p + 3] * 0x100000000 + b[p + 4] * 0x1000000 + b[p + 5] * 0x10000 + b[p + 6] * 0x100
        + b[p + 7]) as u64
}

/// One byte read: the byte at `p`, or `UnexpectedEnd` past the end.
pub open spec fn spec_read_u8(b: Seq<u8>, p: int) -> Result<(u8, int), DecodeError> {
    if p + 1 <= b.len() {
        Ok((b[p], p + 1))
    } else {
        Err(DecodeError::UnexpectedEnd)
    }
}

/// Big-endian 16-bit read at `p`.
pub open spec fn spec_read_u16(b: Seq<u8>, p: int) -> Result<(u16, int), DecodeError> {
    if p + 2 <= b.len() {
        Ok((be16(b, p), p + 2))
    } else {
        Err(DecodeError::UnexpectedEnd)
    }
}

/// Big-endian 32-bit read at `p`.
pub open spec fn spec_read_u32(b: Seq<u8>, p: int) -> Result<(u32, int), DecodeError> {
    if p + 4 <= b.len() {
        Ok((be32(b, p), p + 4))
    } else {
        Err(DecodeError::UnexpectedEnd)
    }
}

/// Exact-length raw read: the `n` bytes from `p`, never a short read.
pub open spec fn spec_read_exact(b: Seq<u8>, p: int, n: int) -> Result<(Seq<u8>, int), DecodeError> {
    if p + n <= b.len() {
        Ok((b.subrange(p, p + n), p + n))
    } else {
        Err(DecodeError::UnexpectedEnd)
    }
}

/// Length-prefixed string read: one length byte, that many raw bytes,
/// validated as UTF-8. A short stream is `UnexpectedEnd`; bytes that are
/// not UTF-8 are `InvalidText`.
pub open spec fn spec_read_string(b: Seq<u8>, p: int) -> Result<(Seq<char>, int), DecodeError> {
    match spec_read_u8(b, p) {
        Ok((len, p1)) => match spec_read_exact(b, p1, len as int) {
            Ok((raw, p2)) => if vstd::utf8::valid_utf8(raw) {
                Ok((vstd::utf8::decode_utf8(raw), p2))
            } else {
                Err(DecodeError::InvalidText)
            },
            Err(e) => Err(e),
        },
        Err(e) => Err(e),
    }
}

// ---------------------------------------------------------------------------
// The cursor itself: a forward-only reader over an in-memory buffer.
// ---------------------------------------------------------------------------

/// Sequential forward-only reader over an in-memory byte buffer.
/// Every read either yields exactly what was asked for or fails with
/// `UnexpectedEnd`; multi-byte integers are big-endian.
pub struct Cursor {
    pub data: Vec<u8>,
    pub pos: usize,
}

impl Cursor {
    pub fn new(data: Vec<u8>) -> (c: Cursor)
        ensures
            c.data@ == data@,
            c.pos == 0,
    {
        Cursor { data, pos: 0 }
    }

    pub fn read_u8(&mut self) -> (r: Result<u8, DecodeError>)
        ensures
            final(self).data@ == old(self).data@,
            match spec_read_u8(old(self).data@, old(self).pos as int) {
                Ok((v, p)) => r == Ok::<u8, DecodeError>(v) && final(self).pos == p,
                Err(e) => r == Err::<u8, DecodeError>(e) && final(self).pos == old(self).pos,
            },
    {
        if self.pos < self.data.len() {
            let b = self.data[self.pos];
            self.pos = self.pos + 1;
            Ok(b)
        } else {
            Err(DecodeError::UnexpectedEnd)
        }
    }

    pub fn read_u16_be(&mut self) -> (r: Result<u16, DecodeError>)
        ensures
            final(self).data@ == old(self).data@,
            match spec_read_u16(old(self).data@, old(self).pos as int) {
                Ok((v, p)) => r == Ok::<u16, DecodeError>(v) && final(self).pos == p,
                Err(e) => r == Err::<u16, DecodeError>(e) && final(self).pos == old(self).pos,
            },
    {
        if self.pos < self.data.len() && 2 <= self.data.len() - self.pos {
            let b0 = self.data[self.pos];
            let b1 = self.data[self.pos + 1];
            self.pos = self.pos + 2;
            Ok((b0 as u16) * 0x100 + (b1 as u16))
        } else {
            Err(DecodeError::UnexpectedEnd)
        }
    }

    pub fn read_u32_be(&mut self) -> (r: Result<u32, DecodeError>)
        ensures
            final(self).data@ == old(self).data@,
            match spec_read_u32(old(self).data@, old(self).pos as int) {
                Ok((v, p)) => r == Ok::<u32, DecodeError>(v) && final(self).pos == p,
                Err(e) => r == Err::<u32, DecodeError>(e) && final(self).pos == old(self).pos,
            },
    {
        if self.pos < self.data.len() && 4 <= self.data.len() - self.pos {
            let b0 = self.data[self.pos];
            let b1 = self.data[self.pos + 1];
            let b2 = self.data[self.pos + 2];
            let b3 = self.data[self.pos + 3];
            self.pos = self.pos + 4;
            Ok((b0 as u32) * 0x1000000 + (b1 as u32) * 0x10000 + (b2 as u32) * 0x100 + (b3 as u32))
        } else {
            Err(DecodeError::UnexpectedEnd)
        }
    }

    pub fn read_exact(&mut self, n: usize) -> (r: Result<Vec<u8>, DecodeError>)
        ensures
            final(self).data@ == old(self).data@,
            match spec_read_exact(old(self).data@, old(self).pos as int, n as int) {
                Ok((v, p)) => r is Ok && r.unwrap()@ == v && final(self).pos == p,
                Err(e) => r == Err::<Vec<u8>, DecodeError>(e) && final(self).pos == old(self).pos,
            },
    {
        if self.pos <= self.data.len() && n <= self.data.len() - self.pos {
            let mut out: Vec<u8> = Vec::new();
            let mut i: usize = 0;
            while i < n
                invariant
                    i <= n,
                    self.pos + n <= self.data.len(),
                    out@ =~= self.data@.subrange(self.pos as int, self.pos + i as int),
                decreases n - i,
            {
                out.push(self.data[self.pos + i]);
                i = i + 1;
            }
            self.pos = self.pos + n;
            Ok(out)
        } else {
            Err(DecodeError::UnexpectedEnd)
        }
    }
}

/// Reads one length-prefixed string: a length byte, then that many raw
/// bytes, validated as UTF-8. Reused by every decoder that reads a name
/// or a key.
pub fn read_string(c: &mut Cursor) -> (r: Result<String, DecodeError>)
    ensures
        final(c).data@ == old(c).data@,
        match spec_read_string(old(c).data@, old(c).pos as int) {
            Ok((s, p)) => r is Ok && r.unwrap()@ == s && final(c).pos == p,
            Err(e) => r is Err && r.unwrap_err() == e,
        },
{
    let len = match c.read_u8() {
        Ok(v) => v,
        Err(e) => { return Err(e); },
    };
    let raw = match c.read_exact(len as usize) {
        Ok(v) => v,
        Err(e) => { return Err(e); },
    };
    match utf8_to_string(raw) {
        Some(s) => Ok(s),
        None => Err(DecodeError::InvalidText),
    }
}

/// Relies on `String::from_utf8`: it returns `Ok` exactly on byte sequences
/// that are valid UTF-8, and the characters of the resulting string are the
/// decoded scalar values of those bytes (the encoding vstd's UTF-8 model
/// describes).
#[verifier::external_body]
pub(crate) fn utf8_to_string(bytes: Vec<u8>) -> (r: Option<String>)
    ensures
        r is Some <==> vstd::utf8::valid_utf8(bytes@),
        r is Some ==> r.unwrap()@ == vstd::utf8::decode_utf8(bytes@),
{
    match String::from_utf8(bytes) {
        Ok(s) => Some(s),
        Err(_) => None,
    }
}

} // verus!
