//! The library's error taxonomy: one variant per collaborator whose failure
//! the relay logic decides on.
use crate::config::ConfigError;
use crate::framing::ProtocolError;
use vstd::prelude::*;

verus! {

/// A failure reported by the codec, with its numeric error code.
#[derive(Clone, Copy, Debug, PartialEq, Eq, Structural)]
pub struct CodecError {
    pub code: i32,
}

/// Why a frame, a packet or a session was refused.
#[derive(Clone, Copy, Debug, PartialEq, Eq, Structural)]
pub enum SndlinkError {
    /// A frame whose length is not the configured frame length.
    PartialFrame { expected: usize, got: usize },
    /// The encoder or decoder failed.
    Codec(CodecError),
    /// A malformed length prefix or an oversized packet.
    Protocol(ProtocolError),
    /// The stream parameters were refused at session start.
    Config(ConfigError),
}

impl From<CodecError> for SndlinkError {
    fn from(err: CodecError) -> (r: SndlinkError)
        ensures
            r == SndlinkError::Codec(err),
    {
        SndlinkError::Codec(err)
    }
}

impl vstd::std_specs::convert::FromSpecImpl<CodecError> for SndlinkError {
    open spec fn obeys_from_spec() -> bool {
        true
    }

    open spec fn from_spec(err: CodecError) -> SndlinkError {
        SndlinkError::Codec(err)
    }
}

impl From<ProtocolError> for SndlinkError {
    fn from(err: ProtocolError) -> (r: SndlinkError)
        ensures
            r == SndlinkError::Protocol(err),
    {
        SndlinkError::Protocol(err)
    }
}

impl vstd::std_specs::convert::FromSpecImpl<ProtocolError> for SndlinkError {
    open spec fn obeys_from_spec() -> bool {
        true
    }

    open spec fn from_spec(err: ProtocolError) -> SndlinkError {
        SndlinkError::Protocol(err)
    }
}

impl From<ConfigError> for SndlinkError {
    fn from(err: ConfigError) -> (r: SndlinkError)
        ensures
            r == SndlinkError::Config(err),
    {
        SndlinkError::Config(err)
    }
}

impl vstd::std_specs::convert::FromSpecImpl<ConfigError> for SndlinkError {
    open spec fn obeys_from_spec() -> bool {
        true
    }

    open spec fn from_spec(err: ConfigError) -> SndlinkError {
        SndlinkError::Config(err)
    }
}

} // verus!
