//! Virtual File System (VFS): paths, locations, file entries and file systems.

pub mod context;
pub mod credential_store;
pub mod enums;
pub mod error;
pub mod fake;
pub mod file_entry;
pub mod file_resolver;
pub mod file_system;
pub mod file_system_finder;
pub mod finder;
pub mod image;
pub mod iteration;
pub mod location;
pub mod mbr;
pub mod os;
pub mod path;
