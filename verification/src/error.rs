//! Error taxonomy for the AppContainer toolkit.
//!
//! Every fallible operation in the crate reports one of these variants. The
//! `message` method renders the stable, human-readable description of each
//! variant; `LaunchFailed` additionally pins down the exact native stage that
//! failed together with a short hint.

use vstd::prelude::*;

verus! {

/// Errors surfaced by the AppContainer toolkit.
#[derive(Debug, Clone, PartialEq, Eq)]
pub enum AcError {
    /// The host platform cannot run AppContainer processes at all.
    UnsupportedPlatform,
    /// LPAC launches need a Windows build that understands the LPAC policy.
    UnsupportedLpac,
    /// A friendly capability name could not be resolved; `suggestion` may name
    /// a close, known capability.
    UnknownCapability { name: String, suggestion: Option<&'static str> },
    /// A SID string does not follow the SDDL `S-1-...` grammar.
    InvalidSid(String),
    /// An operation was refused; `context` names what was being accessed.
    AccessDenied { context: String, source: String },
    /// Process launch aborted; `stage` names the native call that failed.
    LaunchFailed { stage: &'static str, hint: &'static str, source: String },
    /// An opaque native failure with no richer classification.
    Win32(String),
    /// The operation is not available in this build.
    Unimplemented(&'static str),
}

/// The rendered description of an error, as a sequence of characters.
pub open spec fn spec_message(e: AcError) -> Seq<char> {
    match e {
        AcError::UnsupportedPlatform => "Unsupported platform (Windows required)"@,
        AcError::UnsupportedLpac => "Unsupported: LPAC requires Windows 10 (1703+)"@,
        AcError::UnknownCapability { name, suggestion } => "Unknown capability '"@ + name@ + "'"@,
        AcError::InvalidSid(detail) => "Invalid SID string: "@ + detail@,
        AcError::AccessDenied { context, source } => "Access denied on "@ + context@,
        AcError::LaunchFailed { stage, hint, source } => "Process launch failed at "@ + stage@
            + ": "@ + hint@,
        AcError::Win32(msg) => "Win32 error: "@ + msg@,
        AcError::Unimplemented(what) => "Unimplemented: "@ + what@,
    }
}

impl AcError {
    /// Renders the stable description of this error.
    pub fn message(&self) -> (r: String)
        ensures
            r@ == spec_message(*self),
    {
        match self {
            AcError::UnsupportedPlatform => "Unsupported platform (Windows required)".to_owned(),
            AcError::UnsupportedLpac => "Unsupported: LPAC requires Windows 10 (1703+)".to_owned(),
            AcError::UnknownCapability { name, .. } => {
                let mut r = "Unknown capability '".to_owned();
                r.append(name.as_str());
                r.append("'");
                r
            },
            AcError::InvalidSid(detail) => {
                let mut r = "Invalid SID string: ".to_owned();
                r.append(detail.as_str());
                r
            },
            AcError::AccessDenied { context, .. } => {
                let mut r = "Access denied on ".to_owned();
                r.append(context.as_str());
                r
            },
            AcError::LaunchFailed { stage, hint, .. } => {
                let mut r = "Process launch failed at ".to_owned();
                r.append(stage);
                r.append(": ");
                r.append(hint);
                r
            },
            AcError::Win32(msg) => {
                let mut r = "Win32 error: ".to_owned();
                r.append(msg.as_str());
                r
            },
            AcError::Unimplemented(what) => {
                let mut r = "Unimplemented: ".to_owned();
                r.append(what);
                r
            },
        }
    }
}

} // verus!
