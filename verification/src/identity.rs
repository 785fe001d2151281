//! A partition identity: one source kind paired with an identifier value,
//! with its textual wire forms.

use vstd::prelude::*;

use crate::scan::ScanEntry;
use crate::scan::find_id;
use crate::scan::from_id;
use crate::scan::spec_find_id;
use crate::scan::spec_from_id;
use crate::source::PartitionSource;
use crate::source::spec_key;
use crate::strings::spec_is_absolute;
use crate::strings::spec_starts_with;
use crate::strings::spec_strip;
use crate::strings::starts_with_str;

verus! {

/// A failure to read a partition identity out of a string.
#[derive(Debug, Hash, PartialEq, Eq, Structural)]
pub enum Error {
    /// The input matched neither the absolute-path form nor any recognized
    /// `KEY=` prefix.
    InvalidKey,
    /// The input did not begin with the `/dev/disk/by-` prefix at all.
    InvalidPath,
    /// The input began with `/dev/disk/by-`, but what followed was not one
    /// of the six known directory fragments.
    UnknownByPath,
}

/// Describes a partition identity.
///
/// A device path may be recovered from this.
///
/// # Notes
///
/// This is a struct instead of an enum to make access to the `id` string
/// easier for situations where the variant does not need to be checked.
#[derive(Clone, Debug, Hash, PartialEq, Eq)]
pub struct PartitionID {
    pub variant: PartitionSource,
    pub id: String,
}

/// The textual form of an identity: the raw value for a `Path` identity,
/// `KEY=value` for every other kind.
pub open spec fn spec_render(source: PartitionSource, value: Seq<char>) -> Seq<char> {
    if source is Path {
        value
    } else {
        spec_key(source) + "="@ + value
    }
}

/// Which identity a string denotes: a `Path` identity if it begins with the
/// path separator, otherwise the identity of the one recognized `KEY=`
/// prefix, and `InvalidKey` when there is none.
pub open spec fn spec_parse(s: Seq<char>) -> Result<(PartitionSource, Seq<char>), Error> {
    if spec_is_absolute(s) {
        Ok((PartitionSource::Path, s))
    } else if spec_starts_with(s, "ID="@) {
        Ok((PartitionSource::ID, spec_strip(s, "ID="@)))
    } else if spec_starts_with(s, "LABEL="@) {
        Ok((PartitionSource::Label, spec_strip(s, "LABEL="@)))
    } else if spec_starts_with(s, "PARTLABEL="@) {
        Ok((PartitionSource::PartLabel, spec_strip(s, "PARTLABEL="@)))
    } else if spec_starts_with(s, "PARTUUID="@) {
        Ok((PartitionSource::PartUUID, spec_strip(s, "PARTUUID="@)))
    } else if spec_starts_with(s, "UUID="@) {
        Ok((PartitionSource::UUID, spec_strip(s, "UUID="@)))
    } else {
        Err(Error::InvalidKey)
    }
}

/// Which identity a `/dev/disk/by-*` path denotes: `InvalidPath` when the
/// input does not begin with `/dev/disk/by-`, `UnknownByPath` when what
/// follows is not a known fragment and its separator.
pub open spec fn spec_parse_by_path(s: Seq<char>) -> Result<(PartitionSource, Seq<char>), Error> {
    if !spec_starts_with(s, "/dev/disk/by-"@) {
        Err(Error::InvalidPath)
    } else {
        let rest = spec_strip(s, "/dev/disk/by-"@);
        if spec_starts_with(rest, "id/"@) {
            Ok((PartitionSource::ID, spec_strip(rest, "id/"@)))
        } else if spec_starts_with(rest, "label/"@) {
            Ok((PartitionSource::Label, spec_strip(rest, "label/"@)))
        } else if spec_starts_with(rest, "partlabel/"@) {
            Ok((PartitionSource::PartLabel, spec_strip(rest, "partlabel/"@)))
        } else if spec_starts_with(rest, "partuuid/"@) {
            Ok((PartitionSource::PartUUID, spec_strip(rest, "partuuid/"@)))
        } else if spec_starts_with(rest, "path/"@) {
            Ok((PartitionSource::Path, spec_strip(rest, "path/"@)))
        } else if spec_starts_with(rest, "uuid/"@) {
            Ok((PartitionSource::UUID, spec_strip(rest, "uuid/"@)))
        } else {
            Err(Error::UnknownByPath)
        }
    }
}

/// The device path an identity resolves to against a listing of its
/// kind's symlink directory: an absolute `Path` value is already its own
/// answer; every other identity resolves through the listing.
pub open spec fn spec_device_path(
    source: PartitionSource,
    value: Seq<char>,
    entries: Seq<ScanEntry>,
) -> Option<Seq<char>> {
    if source is Path && spec_is_absolute(value) {
        Some(value)
    } else {
        spec_from_id(value, entries)
    }
}

impl PartitionID {
    /// Construct a new `PartitionID` as the given source.
    pub fn new(variant: PartitionSource, id: String) -> (r: Self)
        ensures
            r.variant == variant,
            r.id == id,
    {
        Self { variant, id }
    }

    /// Construct a new `PartitionID` as a `ID` source.
    pub fn new_id(id: String) -> (r: Self)
        ensures
            r.variant == PartitionSource::ID,
            r.id == id,
    {
        Self::new(PartitionSource::ID, id)
    }

    /// Construct a new `PartitionID` as a `Label` source.
    pub fn new_label(id: String) -> (r: Self)
        ensures
            r.variant == PartitionSource::Label,
            r.id == id,
    {
        Self::new(PartitionSource::Label, id)
    }

    /// Construct a new `PartitionID` as a `UUID` source.
    pub fn new_uuid(id: String) -> (r: Self)
        ensures
            r.variant == PartitionSource::UUID,
            r.id == id,
    {
        Self::new(PartitionSource::UUID, id)
    }

    /// Construct a new `PartitionID` as a `PartLabel` source.
    pub fn new_partlabel(id: String) -> (r: Self)
        ensures
            r.variant == PartitionSource::PartLabel,
            r.id == id,
    {
        Self::new(PartitionSource::PartLabel, id)
    }

    /// Construct a new `PartitionID` as a `PartUUID` source.
    pub fn new_partuuid(id: String) -> (r: Self)
        ensures
            r.variant == PartitionSource::PartUUID,
            r.id == id,
    {
        Self::new(PartitionSource::PartUUID, id)
    }

    /// Construct a new `PartitionID` as a `Path` source.
    pub fn new_path(id: String) -> (r: Self)
        ensures
            r.variant == PartitionSource::Path,
            r.id == id,
    {
        Self::new(PartitionSource::Path, id)
    }

    /// Read an identity out of a string: an absolute path, or one of the
    /// six `KEY=value` forms with an uppercase key.
    pub fn parse(input: &str) -> (r: Result<Self, Error>)
        ensures
            match spec_parse(input@) {
                Ok(p) => r is Ok && r->Ok_0.variant == p.0 && r->Ok_0.id@ == p.1,
                Err(e) => r is Err && r->Err_0 == e,
            },
    {
        let n = input.unicode_len();
        if n > 0 && input.get_char(0) == '/' {
            Ok(Self::new(PartitionSource::Path, String::from_str(input)))
        } else if starts_with_str(input, "ID=") {
            proof {
                reveal_strlit("ID=");
            }
            Ok(Self::new(PartitionSource::ID, String::from_str(input.substring_char(3, n))))
        } else if starts_with_str(input, "LABEL=") {
            proof {
                reveal_strlit("LABEL=");
            }
            Ok(Self::new(PartitionSource::Label, String::from_str(input.substring_char(6, n))))
        } else if starts_with_str(input, "PARTLABEL=") {
            proof {
                reveal_strlit("PARTLABEL=");
            }
            Ok(Self::new(PartitionSource::PartLabel, String::from_str(input.substring_char(10, n))))
        } else if starts_with_str(input, "PARTUUID=") {
            proof {
                reveal_strlit("PARTUUID=");
            }
            Ok(Self::new(PartitionSource::PartUUID, String::from_str(input.substring_char(9, n))))
        } else if starts_with_str(input, "UUID=") {
            proof {
                reveal_strlit("UUID=");
            }
            Ok(Self::new(PartitionSource::UUID, String::from_str(input.substring_char(5, n))))
        } else {
            Err(Error::InvalidKey)
        }
    }

    /// Fetch a partition ID by a `/dev/disk/by-` path.
    pub fn from_disk_by_path(path: &str) -> (r: Result<Self, Error>)
        ensures
            match spec_parse_by_path(path@) {
                Ok(p) => r is Ok && r->Ok_0.variant == p.0 && r->Ok_0.id@ == p.1,
                Err(e) => r is Err && r->Err_0 == e,
            },
    {
        if !starts_with_str(path, "/dev/disk/by-") {
            return Err(Error::InvalidPath);
        }
        proof {
            reveal_strlit("/dev/disk/by-");
        }
        let n = path.unicode_len();
        let rest = path.substring_char(13, n);
        let m = rest.unicode_len();
        if starts_with_str(rest, "id/") {
            proof {
                reveal_strlit("id/");
            }
            Ok(Self::new(PartitionSource::ID, String::from_str(rest.substring_char(3, m))))
        } else if starts_with_str(rest, "label/") {
            proof {
                reveal_strlit("label/");
            }
            Ok(Self::new(PartitionSource::Label, String::from_str(rest.substring_char(6, m))))
        } else if starts_with_str(rest, "partlabel/") {
            proof {
                reveal_strlit("partlabel/");
            }
            Ok(Self::new(PartitionSource::PartLabel, String::from_str(rest.substring_char(10, m))))
        } else if starts_with_str(rest, "partuuid/") {
            proof {
                reveal_strlit("partuuid/");
            }
            Ok(Self::new(PartitionSource::PartUUID, String::from_str(rest.substring_char(9, m))))
        } else if starts_with_str(rest, "path/") {
            proof {
                reveal_strlit("path/");
            }
            Ok(Self::new(PartitionSource::Path, String::from_str(rest.substring_char(5, m))))
        } else if starts_with_str(rest, "uuid/") {
            proof {
                reveal_strlit("uuid/");
            }
            Ok(Self::new(PartitionSource::UUID, String::from_str(rest.substring_char(5, m))))
        } else {
            Err(Error::UnknownByPath)
        }
    }

    /// Find the device path of this ID among the given entries of its
    /// kind's symlink directory.
    ///
    /// An absolute `Path` value is returned verbatim, whatever the entries
    /// hold; every other value resolves to the target of the first entry
    /// that carries it as its name.
    pub fn get_device_path(&self, entries: &Vec<ScanEntry>) -> (r: Option<String>)
        ensures
            r.deep_view() == spec_device_path(self.variant, self.id@, entries@),
    {
        if self.variant == PartitionSource::Path && self.id.as_str().unicode_len() > 0
            && self.id.as_str().get_char(0) == '/' {
            Some(self.id.clone())
        } else {
            from_id(&self.id, entries)
        }
    }

    /// Find the given source ID of the device at the given path, among the
    /// given entries of that source's symlink directory: the name of the
    /// first entry resolving to `path`.
    pub fn get_source(
        variant: PartitionSource,
        path: &String,
        entries: &Vec<ScanEntry>,
    ) -> (r: Option<Self>)
        ensures
            r is Some <==> spec_find_id(path@, entries@) is Some,
            r is Some ==> r->0.variant == variant && r->0.id@ == spec_find_id(
                path@,
                entries@,
            )->0,
    {
        match find_id(path, entries) {
            Some(id) => Some(Self { variant, id }),
            None => None,
        }
    }

    /// Find the UUID of the device at the given path, among the given
    /// entries of the `UUID` symlink directory.
    pub fn get_uuid(path: &String, entries: &Vec<ScanEntry>) -> (r: Option<Self>)
        ensures
            r is Some <==> spec_find_id(path@, entries@) is Some,
            r is Some ==> r->0.variant == PartitionSource::UUID && r->0.id@ == spec_find_id(
                path@,
                entries@,
            )->0,
    {
        Self::get_source(PartitionSource::UUID, path, entries)
    }

    /// Find the PARTUUID of the device at the given path, among the given
    /// entries of the `PARTUUID` symlink directory.
    pub fn get_partuuid(path: &String, entries: &Vec<ScanEntry>) -> (r: Option<Self>)
        ensures
            r is Some <==> spec_find_id(path@, entries@) is Some,
            r is Some ==> r->0.variant == PartitionSource::PartUUID && r->0.id@ == spec_find_id(
                path@,
                entries@,
            )->0,
    {
        Self::get_source(PartitionSource::PartUUID, path, entries)
    }

    /// The textual form of this identity: the raw value for a `Path`
    /// identity, `KEY=value` for every other kind.
    pub fn render(&self) -> (r: String)
        ensures
            r@ == spec_render(self.variant, self.id@),
    {
        if self.variant == PartitionSource::Path {
            self.id.clone()
        } else {
            let mut out = String::from_str(self.variant.key());
            out.append("=");
            out.append(self.id.as_str());
            out
        }
    }
}

impl core::str::FromStr for PartitionID {
    type Err = Error;

    fn from_str(input: &str) -> Result<Self, Error> {
        Self::parse(input)
    }
}

} // verus!
