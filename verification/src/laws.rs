//! The general laws of the identifier forms and of the directory scans,
//! stated over the same spec functions the executable contracts use.

use vstd::prelude::*;

use crate::identifiers::PartitionIdentifiers;
use crate::identifiers::spec_matches;
use crate::identifiers::spec_slot;
use crate::identity::Error;
use crate::identity::spec_device_path;
use crate::identity::spec_parse;
use crate::identity::spec_render;
use crate::scan::ScanEntry;
use crate::scan::spec_entry_target;
use crate::scan::spec_find_id;
use crate::scan::spec_from_id;
use crate::source::PartitionSource;
use crate::source::spec_key;
use crate::strings::lemma_differs_not_prefix;
use crate::strings::lemma_prefix_concat;
use crate::strings::spec_is_absolute;

verus! {

/// Rendering an identity of any kind but `Path` and parsing the result
/// gives the identity back, for every value free of `=`.
pub proof fn lemma_parse_render_round_trip(source: PartitionSource, value: Seq<char>)
    requires
        source != PartitionSource::Path,
        !value.contains('='),
    ensures
        spec_parse(spec_render(source, value)) == Ok::<_, Error>((source, value)),
{
    reveal_strlit("=");
    reveal_strlit("ID");
    reveal_strlit("LABEL");
    reveal_strlit("PARTLABEL");
    reveal_strlit("PARTUUID");
    reveal_strlit("UUID");
    reveal_strlit("ID=");
    reveal_strlit("LABEL=");
    reveal_strlit("PARTLABEL=");
    reveal_strlit("PARTUUID=");
    reveal_strlit("UUID=");
    let rendered = spec_render(source, value);
    match source {
        PartitionSource::ID => {
            assert(spec_key(source) + "="@ =~= "ID="@);
            lemma_prefix_concat("ID="@, value);
            assert(rendered[0] == 'I');
        },
        PartitionSource::Label => {
            assert(spec_key(source) + "="@ =~= "LABEL="@);
            lemma_prefix_concat("LABEL="@, value);
            assert(rendered[0] == 'L');
            lemma_differs_not_prefix(rendered, "ID="@, 0);
        },
        PartitionSource::PartLabel => {
            assert(spec_key(source) + "="@ =~= "PARTLABEL="@);
            lemma_prefix_concat("PARTLABEL="@, value);
            assert(rendered[0] == 'P');
            lemma_differs_not_prefix(rendered, "ID="@, 0);
            lemma_differs_not_prefix(rendered, "LABEL="@, 0);
        },
        PartitionSource::PartUUID => {
            assert(spec_key(source) + "="@ =~= "PARTUUID="@);
            lemma_prefix_concat("PARTUUID="@, value);
            assert(rendered[0] == 'P');
            assert(rendered[4] == 'U');
            lemma_differs_not_prefix(rendered, "ID="@, 0);
            lemma_differs_not_prefix(rendered, "LABEL="@, 0);
            lemma_differs_not_prefix(rendered, "PARTLABEL="@, 4);
        },
        PartitionSource::Path => {
        },
        PartitionSource::UUID => {
            assert(spec_key(source) + "="@ =~= "UUID="@);
            lemma_prefix_concat("UUID="@, value);
            assert(rendered[0] == 'U');
            lemma_differs_not_prefix(rendered, "ID="@, 0);
            lemma_differs_not_prefix(rendered, "LABEL="@, 0);
            lemma_differs_not_prefix(rendered, "PARTLABEL="@, 0);
            lemma_differs_not_prefix(rendered, "PARTUUID="@, 0);
        },
    }
}

/// An absolute path parses to a `Path` identity holding the whole input,
/// and that identity renders back to the input verbatim.
pub proof fn lemma_path_round_trip(value: Seq<char>)
    requires
        spec_is_absolute(value),
    ensures
        spec_parse(value) == Ok::<_, Error>((PartitionSource::Path, value)),
        spec_render(PartitionSource::Path, value) == value,
{
}

/// Whatever value discovery put into a slot is matched by exactly the
/// identity that pairs that slot's kind with that value: any other value
/// under the same kind does not match.
pub proof fn lemma_matches_discovered(
    ids: PartitionIdentifiers,
    source: PartitionSource,
    value: Seq<char>,
)
    requires
        spec_slot(ids, source) == Some(value),
    ensures
        spec_matches(ids, source, value),
        forall|other: Seq<char>| other != value ==> !spec_matches(ids, source, other),
{
}

/// A listing in which no entry resolves to `path` yields no identifier for
/// it: the scan signals absence, not an error.
pub proof fn lemma_find_id_absent(path: Seq<char>, entries: Seq<ScanEntry>)
    requires
        forall|i: int| 0 <= i < entries.len() ==> spec_entry_target(#[trigger] entries[i]) != path,
    ensures
        spec_find_id(path, entries) is None,
    decreases entries.len(),
{
    if entries.len() > 0 {
        assert(forall|i: int|
            0 <= i < entries.skip(1).len() ==> #[trigger] entries.skip(1)[i] == entries[i + 1]);
        lemma_find_id_absent(path, entries.skip(1));
    }
}

/// A listing in which no entry is named `value` yields no device path for
/// it: the scan signals absence, not an error.
pub proof fn lemma_from_id_absent(value: Seq<char>, entries: Seq<ScanEntry>)
    requires
        forall|i: int| 0 <= i < entries.len() ==> (#[trigger] entries[i]).name@ != value,
    ensures
        spec_from_id(value, entries) is None,
    decreases entries.len(),
{
    if entries.len() > 0 {
        assert(forall|i: int|
            0 <= i < entries.skip(1).len() ==> #[trigger] entries.skip(1)[i] == entries[i + 1]);
        lemma_from_id_absent(value, entries.skip(1));
    }
}

/// A `Path` identity whose value is already absolute resolves to that
/// value unchanged, whatever the directory listing holds.
pub proof fn lemma_raw_path_shortcut(value: Seq<char>, entries: Seq<ScanEntry>)
    requires
        spec_is_absolute(value),
    ensures
        spec_device_path(PartitionSource::Path, value, entries) == Some(value),
{
}

} // verus!
