use vstd::prelude::*;

verus! {

/// The ways decoding or encoding a model can fail. The first error met
/// aborts the whole operation.
#[derive(PartialEq, Eq, Structural, Debug, Clone, Copy)]
pub enum FormatError {
    /// The buffer ends before a read it needs.
    OutOfBounds,
    /// The file does not start with the `MDLX` tag.
    InvalidMagic(u32),
    /// A top-level chunk tag that the format does not define.
    UnknownChunkTag(u32),
    /// An optional sub-block tag that the enclosing record does not define.
    UnknownSubTag(u32),
    /// A fixed tag constant was expected and another value was found.
    TagMismatch { expected: u32, found: u32 },
    /// A record's declared inclusive size differs from its encoded length.
    SizeMismatch,
    /// The text of a fixed-width string field is not valid UTF-8.
    InvalidText,
    /// A string does not fit its fixed-width field.
    StringTooLong,
    /// The model's encoding does not fit the format's 32-bit size fields.
    TooLarge,
}

} // verus!
