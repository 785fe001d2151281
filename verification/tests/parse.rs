//! The textual identifier forms: `KEY=value`, raw paths, and the
//! `/dev/disk/by-*` convention.

use std::str::FromStr;

use partition_identity::Error;
use partition_identity::PartitionID;
use partition_identity::PartitionSource;

#[test]
fn partition_id_from_str() {
    assert_eq!(
        "/dev/sda1".parse::<PartitionID>(),
        Ok(PartitionID::new_path("/dev/sda1".into()))
    );

    assert_eq!("ID=abcd".parse::<PartitionID>(), Ok(PartitionID::new_id("abcd".into())));

    assert_eq!("LABEL=abcd".parse::<PartitionID>(), Ok(PartitionID::new_label("abcd".into())));

    assert_eq!(
        "PARTLABEL=abcd".parse::<PartitionID>(),
        Ok(PartitionID::new_partlabel("abcd".into()))
    );

    assert_eq!(
        "PARTUUID=abcd".parse::<PartitionID>(),
        Ok(PartitionID::new_partuuid("abcd".into()))
    );

    assert_eq!("UUID=abcd".parse::<PartitionID>(), Ok(PartitionID::new_uuid("abcd".into())));
}

#[test]
fn path_form_is_distinguishable() {
    let id = PartitionID::parse("/dev/sda1").unwrap();
    assert_eq!(id.variant, PartitionSource::Path);
    assert_eq!(id.id, "/dev/sda1");
    assert_eq!(id.render(), "/dev/sda1");
}

#[test]
fn prefix_dispatch_is_exact() {
    let cases = [
        ("UUID=abcd", PartitionSource::UUID),
        ("LABEL=abcd", PartitionSource::Label),
        ("PARTLABEL=abcd", PartitionSource::PartLabel),
        ("PARTUUID=abcd", PartitionSource::PartUUID),
        ("ID=abcd", PartitionSource::ID),
    ];
    for (input, variant) in cases {
        let id = PartitionID::parse(input).unwrap();
        assert_eq!(id.variant, variant);
        assert_eq!(id.id, "abcd");
    }
}

#[test]
fn invalid_keys_are_rejected() {
    assert_eq!(PartitionID::parse("uuid=abcd"), Err(Error::InvalidKey));
    assert_eq!(PartitionID::parse("FOO=abcd"), Err(Error::InvalidKey));
    assert_eq!(PartitionID::parse(""), Err(Error::InvalidKey));
    assert_eq!(PartitionID::from_str("label=abcd"), Err(Error::InvalidKey));
}

#[test]
fn render_uses_uppercase_keys() {
    assert_eq!(PartitionID::new_id("abcd".into()).render(), "ID=abcd");
    assert_eq!(PartitionID::new_label("abcd".into()).render(), "LABEL=abcd");
    assert_eq!(PartitionID::new_partlabel("abcd".into()).render(), "PARTLABEL=abcd");
    assert_eq!(PartitionID::new_partuuid("abcd".into()).render(), "PARTUUID=abcd");
    assert_eq!(PartitionID::new_uuid("1234-ABCD".into()).render(), "UUID=1234-ABCD");
}

#[test]
fn round_trip_render_then_parse() {
    let identities = [
        PartitionID::new_id("ata-disk_serial".into()),
        PartitionID::new_label("root".into()),
        PartitionID::new_partlabel("EFI System".into()),
        PartitionID::new_partuuid("0f3985a2-d8e7-4c51-b213-dd0bb3d2eb45".into()),
        PartitionID::new_uuid("1234-5678".into()),
        PartitionID::new_uuid("".into()),
    ];
    for id in identities {
        assert_eq!(PartitionID::parse(&id.render()), Ok(id));
    }
}

#[test]
fn by_path_form_dispatches_on_fragment() {
    let uuid = PartitionID::from_disk_by_path("/dev/disk/by-uuid/1234").unwrap();
    assert_eq!(uuid.variant, PartitionSource::UUID);
    assert_eq!(uuid.id, "1234");

    let cases = [
        ("/dev/disk/by-id/ata-disk", PartitionSource::ID, "ata-disk"),
        ("/dev/disk/by-label/root", PartitionSource::Label, "root"),
        ("/dev/disk/by-partlabel/boot", PartitionSource::PartLabel, "boot"),
        ("/dev/disk/by-partuuid/4321", PartitionSource::PartUUID, "4321"),
        ("/dev/disk/by-path/pci-0000:00:17.0", PartitionSource::Path, "pci-0000:00:17.0"),
    ];
    for (input, variant, value) in cases {
        let id = PartitionID::from_disk_by_path(input).unwrap();
        assert_eq!(id.variant, variant);
        assert_eq!(id.id, value);
    }
}

#[test]
fn by_path_form_failures_are_told_apart() {
    assert_eq!(PartitionID::from_disk_by_path("/dev/disk/by-bogus/1234"), Err(Error::UnknownByPath));
    assert_eq!(PartitionID::from_disk_by_path("/etc/fstab"), Err(Error::InvalidPath));
    assert_eq!(PartitionID::from_disk_by_path(""), Err(Error::InvalidPath));
}
