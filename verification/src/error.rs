//! The errors of the container, and the text each of them is rendered as.

use vstd::prelude::*;
use vstd::string::*;

verus! {

/// `serde_json::Error`, carried as an opaque value: what a failed decode
/// hands back.
#[verifier::external_type_specification]
#[verifier::external_body]
pub struct ExSerdeJsonError(serde_json::Error);

/// `std::io::Error`, carried as an opaque value: what a failed read of the
/// source hands back.
#[verifier::external_type_specification]
#[verifier::external_body]
pub struct ExIoError(std::io::Error);

/// Why a load failed: the source could not be read, or what was read does
/// not decode into the value type.
#[derive(Clone, Copy, Debug, PartialEq, Eq, Structural)]
pub enum FailureKind {
    SourceUnavailable,
    DecodeFailure,
}

#[derive(Debug)]
pub enum ArtifactError {
    /// The source could not be opened or read.
    IoError(std::io::Error),
    /// The source was read but its content does not decode.
    SerdeError(serde_json::Error),
    /// A load failed during `init`: the kind of the failure and its text.
    InitializationError(FailureKind, String),
    /// Replacing the value failed during a reload: the text of the failure.
    UpdateError(String),
    /// A load failed during a `watch` cycle: the kind of the failure and its text.
    WatchError(FailureKind, String),
}

pub open spec fn io_label() -> Seq<char> {
    "I/O error: "@
}

pub open spec fn serde_label() -> Seq<char> {
    "JSON serialization/deserialization error: "@
}

pub open spec fn initialization_label() -> Seq<char> {
    "Initialization error: "@
}

pub open spec fn update_label() -> Seq<char> {
    "Update error: "@
}

pub open spec fn watch_label() -> Seq<char> {
    "Watch error: "@
}

impl ArtifactError {
    /// The kind of failure that the error reports, where it reports a load.
    pub open spec fn kind(self) -> Option<FailureKind> {
        match self {
            ArtifactError::IoError(_) => Some(FailureKind::SourceUnavailable),
            ArtifactError::SerdeError(_) => Some(FailureKind::DecodeFailure),
            ArtifactError::InitializationError(k, _) => Some(k),
            ArtifactError::UpdateError(_) => None,
            ArtifactError::WatchError(k, _) => Some(k),
        }
    }

    /// An error as a failed load leaves it: a read or a decode error, not
    /// yet wrapped by the operation that asked for the load.
    pub open spec fn is_load_failure(self) -> bool {
        self is IoError || self is SerdeError
    }

    /// `text` is a rendering of the error: the label of its variant, then
    /// the wrapped message or what the wrapped outside error displays as.
    pub open spec fn renders_as(self, text: Seq<char>) -> bool {
        match self {
            ArtifactError::IoError(e) => exists|d: String|
                #[trigger] to_string_from_display_ensures::<std::io::Error>(&e, d) && text
                    == io_label() + d@,
            ArtifactError::SerdeError(e) => exists|d: String|
                #[trigger] to_string_from_display_ensures::<serde_json::Error>(&e, d) && text
                    == serde_label() + d@,
            ArtifactError::InitializationError(_, msg) => text == initialization_label() + msg@,
            ArtifactError::UpdateError(msg) => text == update_label() + msg@,
            ArtifactError::WatchError(_, msg) => text == watch_label() + msg@,
        }
    }

    pub fn failure_kind(&self) -> (k: Option<FailureKind>)
        ensures
            k == self.kind(),
    {
        match self {
            ArtifactError::IoError(_) => Some(FailureKind::SourceUnavailable),
            ArtifactError::SerdeError(_) => Some(FailureKind::DecodeFailure),
            ArtifactError::InitializationError(k, _) => Some(*k),
            ArtifactError::UpdateError(_) => None,
            ArtifactError::WatchError(k, _) => Some(*k),
        }
    }

    /// The error as text, as it would be shown to a person.
    pub fn message(&self) -> (text: String)
        ensures
            self.renders_as(text@),
    {
        match self {
            ArtifactError::IoError(e) => {
                let detail = e.to_string();
                let text = String::from_str("I/O error: ").concat(detail.as_str());
                assert(to_string_from_display_ensures::<std::io::Error>(e, detail));
                text
            },
            ArtifactError::SerdeError(e) => {
                let detail = e.to_string();
                let text = String::from_str("JSON serialization/deserialization error: ").concat(
                    detail.as_str(),
                );
                assert(to_string_from_display_ensures::<serde_json::Error>(e, detail));
                text
            },
            ArtifactError::InitializationError(_, msg) => String::from_str(
                "Initialization error: ",
            ).concat(msg.as_str()),
            ArtifactError::UpdateError(msg) => String::from_str("Update error: ").concat(
                msg.as_str(),
            ),
            ArtifactError::WatchError(_, msg) => String::from_str("Watch error: ").concat(
                msg.as_str(),
            ),
        }
    }

    /// Wraps a failed load as the failure of an `init`.
    pub fn initialization_failure(cause: &ArtifactError) -> (r: ArtifactError)
        requires
            cause.is_load_failure(),
        ensures
            r matches ArtifactError::InitializationError(k, msg) && Some(k) == cause.kind()
                && cause.renders_as(msg@),
    {
        let msg = cause.message();
        match cause {
            ArtifactError::IoError(_) => ArtifactError::InitializationError(
                FailureKind::SourceUnavailable,
                msg,
            ),
            _ => ArtifactError::InitializationError(FailureKind::DecodeFailure, msg),
        }
    }

    /// Wraps a failed load as the failure of a `watch` cycle.
    pub fn reload_failure(cause: &ArtifactError) -> (r: ArtifactError)
        requires
            cause.is_load_failure(),
        ensures
            r matches ArtifactError::WatchError(k, msg) && Some(k) == cause.kind()
                && cause.renders_as(msg@),
    {
        let msg = cause.message();
        match cause {
            ArtifactError::IoError(_) => ArtifactError::WatchError(
                FailureKind::SourceUnavailable,
                msg,
            ),
            _ => ArtifactError::WatchError(FailureKind::DecodeFailure, msg),
        }
    }
}

impl From<std::io::Error> for ArtifactError {
    fn from(err: std::io::Error) -> (r: Self) {
        ArtifactError::IoError(err)
    }
}

impl vstd::std_specs::convert::FromSpecImpl<std::io::Error> for ArtifactError {
    open spec fn obeys_from_spec() -> bool {
        true
    }

    open spec fn from_spec(err: std::io::Error) -> Self {
        ArtifactError::IoError(err)
    }
}

impl From<serde_json::Error> for ArtifactError {
    fn from(err: serde_json::Error) -> (r: Self) {
        ArtifactError::SerdeError(err)
    }
}

impl vstd::std_specs::convert::FromSpecImpl<serde_json::Error> for ArtifactError {
    open spec fn obeys_from_spec() -> bool {
        true
    }

    open spec fn from_spec(err: serde_json::Error) -> Self {
        ArtifactError::SerdeError(err)
    }
}

} // verus!
