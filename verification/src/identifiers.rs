//! The aggregate of all identifiers discoverable for one partition.

use vstd::prelude::*;

use crate::identity::PartitionID;
use crate::scan::ScanEntry;
use crate::scan::find_id;
use crate::scan::spec_find_id;
use crate::source::PartitionSource;

verus! {

/// One observed listing of each source kind's symlink directory, all taken
/// for the same device path.
pub struct Listings {
    pub id: Vec<ScanEntry>,
    pub label: Vec<ScanEntry>,
    pub part_label: Vec<ScanEntry>,
    pub part_uuid: Vec<ScanEntry>,
    pub path: Vec<ScanEntry>,
    pub uuid: Vec<ScanEntry>,
}

/// A collection of all discoverable identifiers for a partition.
#[derive(Debug, Clone, Hash, PartialEq)]
pub struct PartitionIdentifiers {
    pub id: Option<String>,
    pub label: Option<String>,
    pub part_label: Option<String>,
    pub part_uuid: Option<String>,
    pub path: Option<String>,
    pub uuid: Option<String>,
}

/// The slot of a set of identifiers that belongs to a source kind.
pub open spec fn spec_slot(
    ids: PartitionIdentifiers,
    source: PartitionSource,
) -> Option<Seq<char>> {
    match source {
        PartitionSource::ID => ids.id.deep_view(),
        PartitionSource::Label => ids.label.deep_view(),
        PartitionSource::PartLabel => ids.part_label.deep_view(),
        PartitionSource::PartUUID => ids.part_uuid.deep_view(),
        PartitionSource::Path => ids.path.deep_view(),
        PartitionSource::UUID => ids.uuid.deep_view(),
    }
}

/// Whether a set of identifiers holds `value` under the source kind
/// `source`: the matching slot is populated and equal to it.
pub open spec fn spec_matches(
    ids: PartitionIdentifiers,
    source: PartitionSource,
    value: Seq<char>,
) -> bool {
    spec_slot(ids, source) == Some(value)
}

impl PartitionIdentifiers {
    /// Fetches all discoverable identifiers for a partition from one
    /// observed listing per source kind, each scanned for the same device
    /// path independently of the others.
    pub fn from_path(path: &String, listings: &Listings) -> (r: PartitionIdentifiers)
        ensures
            r.id.deep_view() == spec_find_id(path@, listings.id@),
            r.label.deep_view() == spec_find_id(path@, listings.label@),
            r.part_label.deep_view() == spec_find_id(path@, listings.part_label@),
            r.part_uuid.deep_view() == spec_find_id(path@, listings.part_uuid@),
            r.path.deep_view() == spec_find_id(path@, listings.path@),
            r.uuid.deep_view() == spec_find_id(path@, listings.uuid@),
    {
        PartitionIdentifiers {
            path: find_id(path, &listings.path),
            id: find_id(path, &listings.id),
            label: find_id(path, &listings.label),
            part_label: find_id(path, &listings.part_label),
            part_uuid: find_id(path, &listings.part_uuid),
            uuid: find_id(path, &listings.uuid),
        }
    }

    /// Checks if the given identity matches one of the available
    /// identifiers.
    pub fn matches(&self, id: &PartitionID) -> (r: bool)
        ensures
            r == spec_matches(*self, id.variant, id.id@),
    {
        match id.variant {
            PartitionSource::ID => match &self.id {
                Some(value) => *value == id.id,
                None => false,
            },
            PartitionSource::Label => match &self.label {
                Some(value) => *value == id.id,
                None => false,
            },
            PartitionSource::PartLabel => match &self.part_label {
                Some(value) => *value == id.id,
                None => false,
            },
            PartitionSource::PartUUID => match &self.part_uuid {
                Some(value) => *value == id.id,
                None => false,
            },
            PartitionSource::Path => match &self.path {
                Some(value) => *value == id.id,
                None => false,
            },
            PartitionSource::UUID => match &self.uuid {
                Some(value) => *value == id.id,
                None => false,
            },
        }
    }
}

impl Default for PartitionIdentifiers {
    /// The empty set of identifiers: no slot populated.
    fn default() -> (r: Self)
        ensures
            r.id is None,
            r.label is None,
            r.part_label is None,
            r.part_uuid is None,
            r.path is None,
            r.uuid is None,
    {
        PartitionIdentifiers {
            id: None,
            label: None,
            part_label: None,
            part_uuid: None,
            path: None,
            uuid: None,
        }
    }
}

} // verus!
