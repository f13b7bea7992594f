//! What can go wrong, and how far each failure reaches.

use vstd::prelude::*;

verus! {

#[derive(Clone, Copy, PartialEq, Eq, Structural, Debug)]
pub enum Failure {
    /// No local IPv4 address was found to bind to.
    NoIpv4Interface,
    /// The operator chose none of the addresses on offer.
    NoSelection,
    /// One of the two ports could not be bound.
    BindFailed,
    /// The sensor provider could not be initialised.
    ProviderInitFailed,
    /// A frame on an ingestion connection could not be decoded.
    FrameDecodeFailed,
    /// One sensor reading was not available when a snapshot was built.
    ReadingUnavailable,
}

#[derive(Clone, Copy, PartialEq, Eq, Structural, Debug)]
pub enum Severity {
    /// The process cannot start: it reports the failure and exits.
    StartupFatal,
    /// The one connection is torn down; the listener and the other
    /// connections go on.
    ConnectionFatal,
    /// The one field takes its fallback; the request still succeeds.
    FieldRecoverable,
}

pub open spec fn severity_of(failure: Failure) -> Severity {
    match failure {
        Failure::NoIpv4Interface => Severity::StartupFatal,
        Failure::NoSelection => Severity::StartupFatal,
        Failure::BindFailed => Severity::StartupFatal,
        Failure::ProviderInitFailed => Severity::StartupFatal,
        Failure::FrameDecodeFailed => Severity::ConnectionFatal,
        Failure::ReadingUnavailable => Severity::FieldRecoverable,
    }
}

impl Failure {
    /// How far the failure reaches.
    pub fn severity(&self) -> (severity: Severity)
        ensures
            severity == severity_of(*self),
    {
        match self {
            Failure::NoIpv4Interface => Severity::StartupFatal,
            Failure::NoSelection => Severity::StartupFatal,
            Failure::BindFailed => Severity::StartupFatal,
            Failure::ProviderInitFailed => Severity::StartupFatal,
            Failure::FrameDecodeFailed => Severity::ConnectionFatal,
            Failure::ReadingUnavailable => Severity::FieldRecoverable,
        }
    }

    /// Whether the process ends on this failure. Nothing is retried: what
    /// does not end the process degrades and goes on.
    pub fn ends_process(&self) -> (ends: bool)
        ensures
            ends == (severity_of(*self) == Severity::StartupFatal),
    {
        match self.severity() {
            Severity::StartupFatal => true,
            _ => false,
        }
    }

    /// A short description for the log.
    pub fn message(&self) -> (text: String)
        ensures
            text@ == message_of(*self),
    {
        match self {
            Failure::NoIpv4Interface => "no IPv4 interface found".to_owned(),
            Failure::NoSelection => "no address selected".to_owned(),
            Failure::BindFailed => "cannot bind the port".to_owned(),
            Failure::ProviderInitFailed => "cannot initialise the sensor provider".to_owned(),
            Failure::FrameDecodeFailed => "cannot decode the frame".to_owned(),
            Failure::ReadingUnavailable => "reading unavailable".to_owned(),
        }
    }
}

pub open spec fn message_of(failure: Failure) -> Seq<char> {
    match failure {
        Failure::NoIpv4Interface => "no IPv4 interface found"@,
        Failure::NoSelection => "no address selected"@,
        Failure::BindFailed => "cannot bind the port"@,
        Failure::ProviderInitFailed => "cannot initialise the sensor provider"@,
        Failure::FrameDecodeFailed => "cannot decode the frame"@,
        Failure::ReadingUnavailable => "reading unavailable"@,
    }
}

} // verus!
