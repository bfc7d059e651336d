use modesetting::error::Error;
use modesetting::property::{
    collect_properties,
    decode_blob, decode_enum, decode_irange, decode_object, decode_urange, pack_commit, EnumEntry,
    PropertyClass, drm_mode_get_property, PropertyUpdate, PropertyValue, ATOMIC_ALLOW_MODESET,
    PROP_FLAG_BITMASK, PROP_FLAG_BLOB, PROP_FLAG_ENUM, PROP_FLAG_IMMUTABLE, PROP_FLAG_OBJECT,
    PROP_FLAG_PENDING, PROP_FLAG_RANGE, PROP_FLAG_SIGNED_RANGE,
};
use modesetting::resource::ObjectKind;

fn descriptor(flags: u32) -> drm_mode_get_property {
    let mut name = b"CRTC_ID".to_vec();
    name.resize(32, 0);
    drm_mode_get_property {
        prop_id: 17,
        flags,
        name,
        count_values: 0,
        count_enum_blobs: 0,
    }
}

#[test]
fn enum_wins_the_tie_break_over_range() {
    // A synthetic descriptor with both the enum and the range flag set
    // decodes as an enum: first match wins.
    let d = descriptor(PROP_FLAG_ENUM | PROP_FLAG_RANGE);
    assert_eq!(d.classify(), Ok(PropertyClass::Enum));
}

#[test]
fn each_single_flag_classifies_to_its_type() {
    assert_eq!(
        descriptor(PROP_FLAG_ENUM).classify(),
        Ok(PropertyClass::Enum)
    );
    assert_eq!(
        descriptor(PROP_FLAG_BITMASK).classify(),
        Ok(PropertyClass::Enum)
    );
    assert_eq!(
        descriptor(PROP_FLAG_BLOB).classify(),
        Ok(PropertyClass::Blob)
    );
    assert_eq!(
        descriptor(PROP_FLAG_RANGE).classify(),
        Ok(PropertyClass::URange)
    );
    assert_eq!(
        descriptor(PROP_FLAG_SIGNED_RANGE).classify(),
        Ok(PropertyClass::IRange)
    );
    assert_eq!(
        descriptor(PROP_FLAG_OBJECT).classify(),
        Ok(PropertyClass::Object)
    );
}

#[test]
fn blob_wins_over_ranges_and_object() {
    let d = descriptor(PROP_FLAG_BLOB | PROP_FLAG_RANGE | PROP_FLAG_SIGNED_RANGE | PROP_FLAG_OBJECT);
    assert_eq!(d.classify(), Ok(PropertyClass::Blob));
}

#[test]
fn no_known_flag_is_an_unknown_property_type_error() {
    let d = descriptor(PROP_FLAG_IMMUTABLE);
    assert_eq!(
        d.classify(),
        Err(Error::UnknownPropertyType(PROP_FLAG_IMMUTABLE))
    );
}

#[test]
fn flag_predicates_follow_the_flag_word() {
    let d = descriptor(PROP_FLAG_PENDING | PROP_FLAG_ENUM);
    assert!(d.mutable());
    assert!(d.pending());
    assert!(d.is_enum());
    assert!(!d.blob());
    assert!(!d.urange());
    assert!(!d.irange());
    assert!(!d.object());
    let imm = descriptor(PROP_FLAG_IMMUTABLE);
    assert!(!imm.mutable());
    assert!(!imm.pending());
}

#[test]
fn urange_defaults_missing_bounds() {
    let d = descriptor(PROP_FLAG_RANGE);
    let none = decode_urange(&d, 30, ObjectKind::Controller, 1, &vec![]);
    match none.value {
        PropertyValue::URange { current, min, max } => {
            assert_eq!(current, 1);
            assert_eq!(min, 0);
            assert_eq!(max, u64::MAX);
        }
        _ => panic!("expected an unsigned range"),
    }
    let one = decode_urange(&d, 30, ObjectKind::Controller, 1, &vec![4]);
    match one.value {
        PropertyValue::URange { min, max, .. } => {
            assert_eq!(min, 4);
            assert_eq!(max, u64::MAX);
        }
        _ => panic!("expected an unsigned range"),
    }
    let both = decode_urange(&d, 30, ObjectKind::Controller, 1, &vec![4, 9]);
    match both.value {
        PropertyValue::URange { min, max, .. } => {
            assert_eq!(min, 4);
            assert_eq!(max, 9);
        }
        _ => panic!("expected an unsigned range"),
    }
}

#[test]
fn irange_defaults_to_the_representable_extremes() {
    let d = descriptor(PROP_FLAG_SIGNED_RANGE);
    let p = decode_irange(&d, 40, ObjectKind::Plane, -5, &vec![]);
    match p.value {
        PropertyValue::IRange { current, min, max } => {
            assert_eq!(current, -5);
            assert_eq!(min, i64::MIN);
            assert_eq!(max, i64::MAX);
        }
        _ => panic!("expected a signed range"),
    }
}

#[test]
fn object_decode_reads_the_allowed_kind() {
    let d = descriptor(PROP_FLAG_OBJECT);
    let p = decode_object(&d, 7, ObjectKind::Connector, 30, &vec![0xcccccccc]);
    match p.value {
        PropertyValue::Object { current, allowed } => {
            assert_eq!(current, 30);
            assert_eq!(allowed, ObjectKind::Controller);
        }
        _ => panic!("expected an object"),
    }
    let unknown = decode_object(&d, 7, ObjectKind::Connector, 30, &vec![]);
    match unknown.value {
        PropertyValue::Object { allowed, .. } => assert_eq!(allowed, ObjectKind::Unknown),
        _ => panic!("expected an object"),
    }
}

// An enum entry name as the kernel reports it: NUL-padded to 32 bytes.
fn padded_entry(value: i64, name: &[u8]) -> EnumEntry {
    let mut buf = name.to_vec();
    buf.resize(32, 0);
    EnumEntry { value, name: buf }
}

#[test]
fn enum_decode_carries_name_and_possible_values() {
    let d = descriptor(PROP_FLAG_ENUM);
    let entries = vec![padded_entry(0, b"off"), padded_entry(1, b"on")];
    let p = decode_enum(&d, 7, ObjectKind::Connector, 1, &entries);
    assert_eq!(p.id, 17);
    assert_eq!(p.parent, 7);
    assert_eq!(p.name, b"CRTC_ID".to_vec());
    assert!(p.mutable);
    match p.value {
        PropertyValue::Enum { current, possible } => {
            assert_eq!(current, 1);
            assert_eq!(possible.len(), 2);
            assert_eq!(possible[0].value, 0);
            assert_eq!(possible[1].value, 1);
            // The padded buffers come back trimmed at the first NUL.
            assert_eq!(possible[0].name, b"off".to_vec());
            assert_eq!(possible[1].name, b"on".to_vec());
        }
        _ => panic!("expected an enum"),
    }
}

#[test]
fn enum_entry_names_are_trimmed_at_the_first_nul() {
    let d = descriptor(PROP_FLAG_ENUM);
    let mut buf = vec![0u8; 32];
    buf[0] = b'D';
    buf[1] = b'P';
    buf[5] = b'x'; // past the terminator: not part of the name
    let entries = vec![EnumEntry { value: 3, name: buf }];
    let p = decode_enum(&d, 7, ObjectKind::Connector, 3, &entries);
    match p.value {
        PropertyValue::Enum { possible, .. } => {
            assert_eq!(possible[0].name, b"DP".to_vec());
        }
        _ => panic!("expected an enum"),
    }
}

#[test]
fn blob_decode_keeps_the_fetched_bytes() {
    let d = descriptor(PROP_FLAG_BLOB);
    let p = decode_blob(&d, 30, ObjectKind::Controller, 77, vec![1, 2, 3]);
    match p.value {
        PropertyValue::Blob { id, bytes } => {
            assert_eq!(id, 77);
            assert_eq!(bytes, vec![1, 2, 3]);
        }
        _ => panic!("expected a blob"),
    }
}

#[test]
fn update_names_the_owning_resource_without_requerying() {
    let d = descriptor(PROP_FLAG_RANGE);
    let p = decode_urange(&d, 30, ObjectKind::Controller, 0, &vec![0, 1]);
    let u = p.update(1);
    assert_eq!(u.resource, 30);
    assert_eq!(u.property, 17);
    assert_eq!(u.value, 1);
}

#[test]
fn pack_commit_builds_three_parallel_arrays() {
    let updates = vec![
        PropertyUpdate { resource: 30, property: 17, value: 1 },
        PropertyUpdate { resource: 40, property: 18, value: -1 },
    ];
    let r = pack_commit(&updates);
    assert_eq!(r.flags, ATOMIC_ALLOW_MODESET);
    assert_eq!(r.objects, vec![30, 40]);
    assert_eq!(r.props, vec![17, 18]);
    assert_eq!(r.values, vec![1, (-1i64) as u64]);
}

#[test]
fn undecodable_properties_are_surfaced_not_fatal() {
    let d = descriptor(PROP_FLAG_RANGE);
    let first = decode_urange(&d, 1, ObjectKind::Connector, 0, &vec![0, 5]);
    let second = decode_urange(&d, 1, ObjectKind::Connector, 3, &vec![0, 9]);
    let results = vec![
        Ok(first),
        Err(Error::UnknownPropertyType(PROP_FLAG_IMMUTABLE)),
        Ok(second),
    ];
    let listing = collect_properties(results).unwrap();
    assert_eq!(listing.properties.len(), 2);
    match &listing.properties[1].value {
        PropertyValue::URange { current, .. } => assert_eq!(*current, 3),
        _ => panic!("expected an unsigned range"),
    }
    // The undecodable property is not silently dropped: its error kind,
    // flags included, stands in the listing.
    assert_eq!(
        listing.undecodable,
        vec![Error::UnknownPropertyType(PROP_FLAG_IMMUTABLE)]
    );
}

#[test]
fn a_permission_failure_aborts_the_listing() {
    let d = descriptor(PROP_FLAG_RANGE);
    let first = decode_urange(&d, 1, ObjectKind::Connector, 0, &vec![]);
    let results = vec![Ok(first), Err(Error::PermissionDenied)];
    assert_eq!(collect_properties(results), Err(Error::PermissionDenied));
}

#[test]
fn error_messages_name_each_kind() {
    assert!(!Error::KernelCallFailed(22).message().is_empty());
    assert!(!Error::PermissionDenied.message().is_empty());
    assert!(!Error::Unsupported.message().is_empty());
    assert_ne!(
        Error::NotAvailable.message(),
        Error::Incompatible.message()
    );
}
