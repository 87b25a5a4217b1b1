//! Error types reported by the transport, by device provisioning and by
//! command parsing.

use vstd::prelude::*;

verus! {

/// Connection-level failures of the realtime transport.
#[derive(Debug, Clone, Copy, PartialEq, Eq, Structural)]
pub enum WebSocketError {
    /// The stream failed while reading: the peer went away.
    AwayError,
    /// The operation needs an authenticated stream and the transport is not
    /// ready: none is defined.
    NotDefined,
    /// The socket could not be opened or the handshake failed.
    ConnectFailed,
}

impl WebSocketError {
    /// The text that describes the error.
    pub open spec fn spec_message(self) -> Seq<char> {
        match self {
            WebSocketError::AwayError => "Web Socket went away."@,
            WebSocketError::NotDefined => "Cannot performed the function as no stream is defined."@,
            WebSocketError::ConnectFailed => "Failed to connect to the web socket."@,
        }
    }

    /// The text that describes the error.
    pub fn message(&self) -> (r: String)
        ensures
            r@ == self.spec_message(),
    {
        match self {
            WebSocketError::AwayError => "Web Socket went away.".to_owned(),
            WebSocketError::NotDefined => {
                "Cannot performed the function as no stream is defined.".to_owned()
            },
            WebSocketError::ConnectFailed => "Failed to connect to the web socket.".to_owned(),
        }
    }
}

/// Failure of device provisioning.
#[derive(Debug, Clone, Copy, PartialEq, Eq, Structural)]
pub enum WebexClientError {
    /// The device was neither found nor created.
    CreationError,
}

impl WebexClientError {
    /// The text that describes the error.
    pub open spec fn spec_message(self) -> Seq<char> {
        "Failed to create a new webex device."@
    }

    /// The text that describes the error.
    pub fn message(&self) -> (r: String)
        ensures
            r@ == self.spec_message(),
    {
        "Failed to create a new webex device.".to_owned()
    }
}

/// Why a message could not be turned into a command.
#[derive(Debug, Clone, Copy, PartialEq, Eq, Structural)]
pub enum ParseError {
    /// The message holds fewer than two tokens.
    NoCommand,
    /// The second token is no registered command.
    UnknownCommand,
    /// Fewer tokens follow the command than it has arguments.
    MissingArguments,
}

impl ParseError {
    /// The text that describes the error.
    pub open spec fn spec_message(self) -> Seq<char> {
        match self {
            ParseError::NoCommand => "Command was not specified!"@,
            ParseError::UnknownCommand => "You have entered an invalid Command!"@,
            ParseError::MissingArguments => "Missing required variables."@,
        }
    }

    /// The text that describes the error.
    pub fn message(&self) -> (r: String)
        ensures
            r@ == self.spec_message(),
    {
        match self {
            ParseError::NoCommand => "Command was not specified!".to_owned(),
            ParseError::UnknownCommand => "You have entered an invalid Command!".to_owned(),
            ParseError::MissingArguments => "Missing required variables.".to_owned(),
        }
    }
}

} // verus!
