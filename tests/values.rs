use d_id_stream::error::RequestBodyBuildError;
use d_id_stream::video::{Driver, Overlap};

#[test]
fn drivers_have_bank_uris() {
    assert_eq!(Driver::LivelyDriver01.uri(), "bank://lively/driver-01");
    assert_eq!(Driver::LivelyDriver06.uri(), "bank://lively/driver-06");
    assert_eq!(Driver::SubtleDriver04.uri(), "bank://subtle/driver-04");
}

#[test]
fn overlap_names_are_upper_case() {
    assert_eq!(Overlap::No.wire_name(), "NO");
    assert_eq!(Overlap::Partial.wire_name(), "PARTIAL");
    assert_eq!(Overlap::Yes.wire_name(), "YES");
    assert_eq!(Overlap::Unknown.wire_name(), "UNKNOWN");
}

#[test]
fn build_errors_describe_missing_field() {
    assert_eq!(RequestBodyBuildError::SourceUrlNotSet.message(), "source url must be set");
    assert_eq!(RequestBodyBuildError::ScriptNotSet.message(), "script must be set");
    assert_eq!(RequestBodyBuildError::PresenterIdNotSet.message(), "presenter id must be set");
}
