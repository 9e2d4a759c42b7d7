//! The failures that the mixer reports.

use vstd::prelude::*;

verus! {

/// Why an operation of the mixer did not succeed.
#[derive(Clone, Copy, Debug, PartialEq, Eq, Structural)]
pub enum AudioError {
    /// A remote class or object could not be created.
    ActivationFailed,
    /// Every candidate interface was refused by the remote object.
    NoCompatibleInterface,
    /// The output devices could not be enumerated at all.
    EnumerationFailed,
    /// A requested volume lies outside the unit interval.
    InvalidArgument,
    /// No session belongs to the requested process.
    NotFound,
    /// A remote call returned the failure status that is carried here.
    RemoteCallFailed(i32),
}

impl AudioError {
    /// The words that describe the failure.
    pub open spec fn message_of(self) -> Seq<char> {
        match self {
            AudioError::ActivationFailed => "the remote object could not be created"@,
            AudioError::NoCompatibleInterface => "the remote object offers no known interface"@,
            AudioError::EnumerationFailed => "the output devices could not be enumerated"@,
            AudioError::InvalidArgument => "the volume lies outside the range from 0 to 1"@,
            AudioError::NotFound => "the process has no audio session"@,
            AudioError::RemoteCallFailed(_) => "the audio subsystem refused the call"@,
        }
    }

    /// The failure in words, for the user interface.
    pub fn message(self) -> (text: &'static str)
        ensures
            text@ == self.message_of(),
    {
        match self {
            AudioError::ActivationFailed => "the remote object could not be created",
            AudioError::NoCompatibleInterface => "the remote object offers no known interface",
            AudioError::EnumerationFailed => "the output devices could not be enumerated",
            AudioError::InvalidArgument => "the volume lies outside the range from 0 to 1",
            AudioError::NotFound => "the process has no audio session",
            AudioError::RemoteCallFailed(_) => "the audio subsystem refused the call",
        }
    }

    /// Whether the caller should treat the failure as "feature unavailable"
    /// and go on, rather than as the failure of the call.
    pub open spec fn spec_is_recoverable(self) -> bool {
        self == AudioError::ActivationFailed || self == AudioError::NoCompatibleInterface
            || self == AudioError::NotFound
    }

    /// Activation and negotiation failures, and a missing session, are
    /// expected conditions; the others are surfaced.
    #[verifier::when_used_as_spec(spec_is_recoverable)]
    pub fn is_recoverable(self) -> (r: bool)
        ensures
            r == self.spec_is_recoverable(),
    {
        match self {
            AudioError::ActivationFailed => true,
            AudioError::NoCompatibleInterface => true,
            AudioError::NotFound => true,
            AudioError::EnumerationFailed => false,
            AudioError::InvalidArgument => false,
            AudioError::RemoteCallFailed(_) => false,
        }
    }
}

} // verus!
