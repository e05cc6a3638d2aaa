//! Safe bindings to the Snappy block codec, and the decision procedure that
//! settles how a build links the native codec.
use vstd::prelude::*;

pub mod codec;
pub mod link;

pub use codec::{compress, uncompress, validate_compressed_buffer};

verus! {

} // verus!
