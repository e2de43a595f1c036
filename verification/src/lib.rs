//! Resolution of character-set labels to decoder identifiers.
//!
//! A caller hands in the raw bytes of a charset label as it arrived in a
//! protocol header. The label is normalized (ASCII upper case folded to lower
//! case, `-` mapped to `_`) and looked up in a table of aliases. The result
//! is the identifier of the decoding routine registered for that alias, or
//! nothing when the label is unknown; a label longer than the longest known
//! alias names no alias and resolves to nothing.

pub mod decoder;
pub mod laws;
pub mod normalize;
pub mod resolve;
pub mod table;

pub use decoder::Decoder;
pub use resolve::charset_decoder;
