//! Find the ID of a device by its path, or find a device path by its ID.
//!
//! A partition can be identified by any of six kinds of stable identifier
//! (`ID`, `LABEL`, `PARTLABEL`, `PARTUUID`, `PATH`, `UUID`). The operating
//! system publishes one symlink directory per kind under `/dev/disk/by-*`,
//! whose entries are named by the identifier value and point at the device.
//! This crate holds the verified logic of that correspondence: the textual
//! `KEY=value` and `/dev/disk/by-*` forms, and the scan of a directory
//! listing in either direction. Reading the directories themselves is left
//! to the caller, who hands the observed entries in as plain values.

pub mod identifiers;
pub mod identity;
pub mod laws;
pub mod scan;
pub mod source;
pub mod strings;

pub use crate::identifiers::Listings;
pub use crate::identifiers::PartitionIdentifiers;
pub use crate::identity::Error;
pub use crate::identity::PartitionID;
pub use crate::scan::RETRY_ATTEMPTS;
pub use crate::scan::RETRY_WAIT_MS;
pub use crate::scan::ScanEntry;
pub use crate::scan::find_id;
pub use crate::scan::from_id;
pub use crate::scan::retry_continue;
pub use crate::source::PartitionSource;
