//! Reading and writing MDX model files: a little-endian, tag-prefixed chunk
//! format. Every chunk decoder is proved equal to a parser stated over byte
//! sequences, every encoder to a byte-level encoding, and every size
//! computation to the length of that encoding; decoding the encoding of a
//! well-formed model gives it back (`mdlx::lemma_round_trip_identity`).
//!
//! - `codec`: little-endian scalars and fixed-width text fields.
//! - `list`, `record`: runs of fixed-width elements and of variable records,
//!   repeated by count, by byte-length division, or by declared sizes.
//! - `tracks`: animation curves (`Transform<T>`, `Track<T>`).
//! - the `*_chunk` modules and `node`: one record layout each.
//! - `mdlx`: the whole file.
//!
//! Float fields are held as their IEEE-754 bit patterns, so that a decoded
//! file re-encodes bit for bit.

pub mod codec;
pub mod consts;
pub mod error;
pub mod data_types;
pub mod list;
pub mod record;
pub mod tracks;
pub mod node;
pub mod version_chunk;
pub mod model_chunk;
pub mod sequence_chunk;
pub mod global_sequence_chunk;
pub mod texture_chunk;
pub mod texture_animation_chunk;
pub mod geoset_chunk;
pub mod geoset_animation_chunk;
pub mod bone_chunk;
pub mod light_chunk;
pub mod helper_chunk;
pub mod attachment_chunk;
pub mod pivot_point_chunk;
pub mod camera_chunk;
pub mod raw_chunks;
pub mod mdlx;

pub use mdlx::MDLXModel;
