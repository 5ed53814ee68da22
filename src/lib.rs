//! A reader for the "1337patch" text format: a header line naming a target
//! file, followed by one line per single-byte patch of the form
//! `AAAAAAAAAAAAAAAA:OO->NN` (address, old byte, new byte, all in hex).

pub mod error;
pub mod hex;
pub mod hex_patch;
pub mod patch_file;

pub use error::PatchFileError;
pub use hex_patch::HexPatch;
pub use patch_file::F1337Patch;
