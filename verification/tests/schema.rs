use senrigan_types::{ContractError, SchemaVersion, CURRENT_SCHEMA_VERSION};

#[test]
fn rejects_an_unsupported_version() {
    assert!(SchemaVersion::from_raw(CURRENT_SCHEMA_VERSION + 1).is_err());
}

#[test]
fn accepts_only_the_current_version() {
    assert_eq!(CURRENT_SCHEMA_VERSION, 1);
    let version = SchemaVersion::from_raw(1).unwrap();
    assert_eq!(version.get(), 1);
    assert_eq!(version, SchemaVersion::current());
    assert_eq!(SchemaVersion::default().get(), CURRENT_SCHEMA_VERSION);
    assert_eq!(
        SchemaVersion::from_raw(999),
        Err(ContractError::UnsupportedSchemaVersion {
            found: 999,
            expected: 1,
        })
    );
    assert!(SchemaVersion::from_raw(0).is_err());
}

#[test]
fn current_version_round_trips_through_its_number() {
    let current = SchemaVersion::current();
    assert_eq!(SchemaVersion::from_raw(current.get()), Ok(current));
}
