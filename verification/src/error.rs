use vstd::prelude::*;

verus! {

/// The failure conditions a decode can end in.
///
/// Decoding is fail-fast: the first error met is returned and no partial
/// world is produced. Unrecognised enum codes inside a successfully read
/// field are not errors; they fall back to documented defaults instead.
#[derive(Clone, Copy, Debug, PartialEq, Eq, Structural)]
pub enum DecodeError {
    /// The byte stream ended before a required field was complete.
    UnexpectedEnd,
    /// Bytes failed UTF-8 validation where text was required.
    InvalidText,
    /// The magic string at the head of the stream is wrong.
    CorruptHeader,
    /// An extra-value reinterpretation asked for more bytes than are stored.
    TruncatedPayload,
}

} // verus!
