//! Storage-media string, identifier and virtual file system building blocks.

pub mod byte_string;
pub mod bytes;
pub mod elements;
pub mod text;
pub mod ucs2_string;
pub mod utf16_string;
pub mod uuid;
pub mod vfs;
