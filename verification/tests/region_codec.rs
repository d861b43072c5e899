use salons::error::{Severity, StoreError};
use salons::region::{decode, Sector};

#[test]
fn encode_gives_the_stored_tags() {
    assert_eq!(Sector::botanica.encode(), "botanica");
    assert_eq!(Sector::buiucani.encode(), "buiucani");
}

#[test]
fn decode_reads_the_two_tags() {
    assert_eq!(decode("botanica"), Ok(Sector::botanica));
    assert_eq!(decode("buiucani"), Ok(Sector::buiucani));
}

#[test]
fn tags_round_trip_through_decode_and_encode() {
    for tag in ["botanica", "buiucani"] {
        let region = decode(tag).expect("a permitted tag decodes");
        assert_eq!(region.encode(), tag);
    }
}

#[test]
fn regions_round_trip_through_encode_and_decode() {
    for region in [Sector::botanica, Sector::buiucani] {
        assert_eq!(decode(&region.encode()), Ok(region));
    }
}

#[test]
fn decode_reports_a_third_tag_with_its_text() {
    assert_eq!(
        decode("centru"),
        Err(StoreError::DecodeInvariantViolation("centru".to_string()))
    );
}

#[test]
fn decode_is_exact_about_case_and_space() {
    assert_eq!(
        decode("Botanica"),
        Err(StoreError::DecodeInvariantViolation("Botanica".to_string()))
    );
    assert_eq!(
        decode("botanica "),
        Err(StoreError::DecodeInvariantViolation("botanica ".to_string()))
    );
    assert_eq!(decode(""), Err(StoreError::DecodeInvariantViolation(String::new())));
}

#[test]
fn messages_of_the_four_failures() {
    assert_eq!(
        StoreError::SchemaError("permission denied".to_string()).message(),
        "permission denied"
    );
    assert_eq!(
        StoreError::ConstraintError("value too long".to_string()).message(),
        "value too long"
    );
    assert_eq!(
        StoreError::NotFoundError.message(),
        "no rows returned by a query that expected to return at least one row"
    );
    assert_eq!(
        StoreError::DecodeInvariantViolation("centru".to_string()).message(),
        "stored region is not a known tag: centru"
    );
}

#[test]
fn severities_of_the_four_failures() {
    assert_eq!(StoreError::SchemaError("x".to_string()).severity(), Severity::Fatal);
    assert_eq!(StoreError::ConstraintError("x".to_string()).severity(), Severity::Client);
    assert_eq!(StoreError::NotFoundError.severity(), Severity::Client);
    assert_eq!(StoreError::DecodeInvariantViolation("x".to_string()).severity(), Severity::Server);
}
