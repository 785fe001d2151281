//! The six kinds of partition identifier and their fixed textual forms.

use vstd::prelude::*;

verus! {

/// Describes the type of partition identity.
///
/// Each variant has a fixed uppercase key used in `KEY=value` syntax and a
/// fixed lowercase fragment used to build the `/dev/disk/by-*` directory
/// path that holds that kind's symlinks.
#[derive(Copy, Clone, Debug, Hash, PartialEq, Eq, Structural)]
pub enum PartitionSource {
    ID,
    Label,
    PartLabel,
    PartUUID,
    Path,
    UUID,
}

/// The canonical uppercase key of a source kind, as used in `KEY=value`
/// syntax and when displaying the kind alone.
pub open spec fn spec_key(source: PartitionSource) -> Seq<char> {
    match source {
        PartitionSource::ID => "ID"@,
        PartitionSource::Label => "LABEL"@,
        PartitionSource::PartLabel => "PARTLABEL"@,
        PartitionSource::PartUUID => "PARTUUID"@,
        PartitionSource::Path => "PATH"@,
        PartitionSource::UUID => "UUID"@,
    }
}

/// The lowercase directory-name fragment of a source kind.
pub open spec fn spec_fragment(source: PartitionSource) -> Seq<char> {
    match source {
        PartitionSource::ID => "id"@,
        PartitionSource::Label => "label"@,
        PartitionSource::PartLabel => "partlabel"@,
        PartitionSource::PartUUID => "partuuid"@,
        PartitionSource::Path => "path"@,
        PartitionSource::UUID => "uuid"@,
    }
}

/// The symlink directory of a source kind: `/dev/disk/by-<fragment>`.
pub open spec fn spec_disk_by_path(source: PartitionSource) -> Seq<char> {
    "/dev/disk/by-"@ + spec_fragment(source)
}

impl PartitionSource {
    /// The canonical uppercase key of this source kind.
    pub fn key(self) -> (r: &'static str)
        ensures
            r@ == spec_key(self),
    {
        match self {
            PartitionSource::ID => "ID",
            PartitionSource::Label => "LABEL",
            PartitionSource::PartLabel => "PARTLABEL",
            PartitionSource::PartUUID => "PARTUUID",
            PartitionSource::Path => "PATH",
            PartitionSource::UUID => "UUID",
        }
    }

    /// The directory that holds this kind's symlinks, one per known device,
    /// each named by the identifier value and pointing at the device path.
    pub fn disk_by_path(self) -> (r: String)
        ensures
            r@ == spec_disk_by_path(self),
    {
        match self {
            PartitionSource::ID => {
                proof {
                    reveal_strlit("/dev/disk/by-id");
                    reveal_strlit("/dev/disk/by-");
                    reveal_strlit("id");
                    assert("/dev/disk/by-id"@ =~= "/dev/disk/by-"@ + "id"@);
                }
                String::from_str("/dev/disk/by-id")
            },
            PartitionSource::Label => {
                proof {
                    reveal_strlit("/dev/disk/by-label");
                    reveal_strlit("/dev/disk/by-");
                    reveal_strlit("label");
                    assert("/dev/disk/by-label"@ =~= "/dev/disk/by-"@ + "label"@);
                }
                String::from_str("/dev/disk/by-label")
            },
            PartitionSource::PartLabel => {
                proof {
                    reveal_strlit("/dev/disk/by-partlabel");
                    reveal_strlit("/dev/disk/by-");
                    reveal_strlit("partlabel");
                    assert("/dev/disk/by-partlabel"@ =~= "/dev/disk/by-"@ + "partlabel"@);
                }
                String::from_str("/dev/disk/by-partlabel")
            },
            PartitionSource::PartUUID => {
                proof {
                    reveal_strlit("/dev/disk/by-partuuid");
                    reveal_strlit("/dev/disk/by-");
                    reveal_strlit("partuuid");
                    assert("/dev/disk/by-partuuid"@ =~= "/dev/disk/by-"@ + "partuuid"@);
                }
                String::from_str("/dev/disk/by-partuuid")
            },
            PartitionSource::Path => {
                proof {
                    reveal_strlit("/dev/disk/by-path");
                    reveal_strlit("/dev/disk/by-");
                    reveal_strlit("path");
                    assert("/dev/disk/by-path"@ =~= "/dev/disk/by-"@ + "path"@);
                }
                String::from_str("/dev/disk/by-path")
            },
            PartitionSource::UUID => {
                proof {
                    reveal_strlit("/dev/disk/by-uuid");
                    reveal_strlit("/dev/disk/by-");
                    reveal_strlit("uuid");
                    assert("/dev/disk/by-uuid"@ =~= "/dev/disk/by-"@ + "uuid"@);
                }
                String::from_str("/dev/disk/by-uuid")
            },
        }
    }
}

} // verus!
