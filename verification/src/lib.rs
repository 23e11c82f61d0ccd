//! A memory-safe decoding layer for the `libgphoto2` camera-control library.
//!
//! The native library reports everything as raw integers: status codes,
//! capability bitmasks, presence-gated storage records, zero-terminated
//! arrays and C string tables.  This crate holds the typed snapshots and the
//! pure decoders that turn those raw values into enums, sets and optional
//! fields, with contracts that pin the decoding down exactly.  The `unsafe`
//! calls into the native library live outside this crate and hand plain
//! values in.

pub mod abilities;
pub mod error;
pub mod lemmas;
pub mod port;
pub mod storage;
pub mod text;
pub mod version;

pub use abilities::{Abilities, CameraOperation, DeviceType, DriverStatus, FileOperation,
    FolderOperation};
pub use error::{Error, ErrorKind};
pub use port::{Port, PortType};
pub use storage::{AccessType, FilesystemType, Storage, StorageType};
pub use version::{libgphoto2_version, LibraryVersion};
