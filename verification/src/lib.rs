//! Interactive file-merging library: select files by path or wildcard
//! pattern, read their contents, and concatenate them into a single
//! destination file whose path is validated before creation.
//!
//! The decision logic (input stripping, selection state machine, byte
//! concatenation, destination resolution and validation) is verified;
//! console and filesystem work is left to the surrounding binary.

pub mod input;
pub mod merge;
pub mod selector;
pub mod timestamp;
pub mod writer;
