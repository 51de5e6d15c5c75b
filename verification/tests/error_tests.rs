//! The error taxonomy: messages and retained detail.

use rappct::AcError;

#[test]
fn access_denied_retains_context_and_source() {
    let err = AcError::AccessDenied {
        context: "registry".to_string(),
        source: "test error".to_string(),
    };
    assert_eq!(err.message(), "Access denied on registry");
    match &err {
        AcError::AccessDenied { source, .. } => assert_eq!(source, "test error"),
        _ => panic!("expected access denied variant with source"),
    }
}

#[test]
fn launch_failed_retains_stage_hint_and_source() {
    let err = AcError::LaunchFailed {
        stage: "spawn",
        hint: "pipe",
        source: "test error".to_string(),
    };
    assert_eq!(err.message(), "Process launch failed at spawn: pipe");
    match &err {
        AcError::LaunchFailed { source, .. } => assert_eq!(source, "test error"),
        _ => panic!("expected launch failed variant with source"),
    }
}

#[test]
fn unknown_capability_preserves_hint() {
    let err = AcError::UnknownCapability {
        name: "internetClientX".to_string(),
        suggestion: Some("internetClient"),
    };
    assert_eq!(err.message(), "Unknown capability 'internetClientX'");
    match err {
        AcError::UnknownCapability { name, suggestion } => {
            assert_eq!(name, "internetClientX");
            assert_eq!(suggestion, Some("internetClient"));
        }
        _ => panic!("expected unknown capability variant"),
    }
}

#[test]
fn every_variant_renders_its_message() {
    assert_eq!(
        AcError::UnsupportedPlatform.message(),
        "Unsupported platform (Windows required)"
    );
    assert_eq!(
        AcError::UnsupportedLpac.message(),
        "Unsupported: LPAC requires Windows 10 (1703+)"
    );
    assert_eq!(
        AcError::InvalidSid("oops".to_string()).message(),
        "Invalid SID string: oops"
    );
    assert_eq!(
        AcError::Win32("boom".to_string()).message(),
        "Win32 error: boom"
    );
    assert_eq!(
        AcError::Unimplemented("net feature not enabled").message(),
        "Unimplemented: net feature not enabled"
    );
}
