//! Bitcoin taproot primitives: tagged hashes of tapscript leaves and
//! branches, leaf versions, tapscripts and pay-to-taproot output scripts.

pub mod bytes;
pub mod digest;
pub mod keys;
pub mod opcodes;
pub mod script;
pub mod taproot;
