use uuid::Uuid;
use wisp::{SourceError, SourceKind, StoreError, TripId};

#[test]
fn trip_id_from_uuid_roundtrips() {
    let uuid = Uuid::nil();
    let id = TripId::from(uuid);
    assert_eq!(id.as_uuid(), uuid);
}

#[test]
fn trip_id_displays_as_uuid_string() {
    let id = TripId::from(Uuid::nil());
    assert_eq!(id.to_string(), "00000000-0000-0000-0000-000000000000");
}

#[test]
fn trip_id_text_is_lower_case_hyphenated() {
    let uuid = Uuid::from_u128(0xA1A2A3A4_B1B2_C1C2_D1D2_D3D4D5D6D7D8);
    let id = TripId::from(uuid);
    assert_eq!(id.to_string(), "a1a2a3a4-b1b2-c1c2-d1d2-d3d4d5d6d7d8");
}

#[test]
fn trip_id_round_trips_through_its_uuid() {
    let id = TripId::new();
    assert_eq!(TripId::from(id.as_uuid()), id);
    let uuid = Uuid::from_u128(0x0123_4567_89ab_cdef_0123_4567_89ab_cdef);
    assert_eq!(TripId::from(uuid).as_uuid(), uuid);
}

#[test]
fn new_trip_ids_are_random_version_4_uuids() {
    let a = TripId::new();
    let b = TripId::new();
    assert_ne!(a, b);
    assert_eq!(a.as_uuid().get_version_num(), 4);
    assert_eq!(a.as_uuid().get_variant(), uuid::Variant::RFC4122);
}

#[test]
fn source_kind_names() {
    assert_eq!(SourceKind::Gpx.name(), "Gpx");
    assert_eq!(SourceKind::Strava.name(), "Strava");
    assert_eq!(SourceKind::ConnectedCars.name(), "ConnectedCars");
    assert_eq!(SourceKind::GoogleTimeline.name(), "GoogleTimeline");
    assert_eq!(format!("{:?}", SourceKind::ConnectedCars), SourceKind::ConnectedCars.name());
}

#[test]
fn source_error_messages() {
    assert_eq!(SourceError::Network("timeout".to_string()).to_string(), "network error: timeout");
    assert_eq!(SourceError::Parse("bad gpx".to_string()).to_string(), "parse error: bad gpx");
    assert_eq!(SourceError::Auth("expired".to_string()).to_string(), "auth error: expired");
    assert_eq!(SourceError::RateLimited(0).to_string(), "rate limited; retry after 0s");
    assert_eq!(SourceError::RateLimited(9).to_string(), "rate limited; retry after 9s");
    assert_eq!(SourceError::RateLimited(10).to_string(), "rate limited; retry after 10s");
    assert_eq!(
        SourceError::RateLimited(u64::MAX).to_string(),
        "rate limited; retry after 18446744073709551615s"
    );
}

#[test]
fn store_error_messages() {
    let id = TripId::from(Uuid::nil());
    assert_eq!(
        StoreError::NotFound(id).to_string(),
        "trip not found: 00000000-0000-0000-0000-000000000000"
    );
    assert_eq!(
        StoreError::Unavailable("locked".to_string()).to_string(),
        "storage unavailable: locked"
    );
    assert_eq!(
        StoreError::Serialization("bad row".to_string()).to_string(),
        "serialization error: bad row"
    );
}
