//! Failures of connections and requests.

use vstd::prelude::*;

use crate::text::{decimal, decimal_text, join};

verus! {

/// Why no message could be read from a connection.
#[derive(Debug, PartialEq, Eq)]
pub enum NetworkError {
    Io { err: String },
    MessageTooLarge { max: u32, size: u32 },
    InvalidProtobuf { err: String },
}

/// What a [`NetworkError`] says to a reader.
pub open spec fn network_error_text(error: NetworkError) -> Seq<char> {
    match error {
        NetworkError::Io { err } => "Io error: "@ + err@,
        NetworkError::MessageTooLarge { max, size } => "message size "@ + decimal(size as nat)
            + " too big. Max allowed "@ + decimal(max as nat),
        NetworkError::InvalidProtobuf { err } => "Invalid protobuf: "@ + err@,
    }
}

impl NetworkError {
    /// The error as text.
    pub fn message(&self) -> (text: String)
        ensures
            text@ == network_error_text(*self),
    {
        match self {
            NetworkError::Io { err } => join("Io error: ", err.as_str()),
            NetworkError::MessageTooLarge { max, size } => {
                let mut text = join("message size ", decimal_text(*size as u64).as_str());
                text.append(" too big. Max allowed ");
                text.append(decimal_text(*max as u64).as_str());
                text
            },
            NetworkError::InvalidProtobuf { err } => join("Invalid protobuf: ", err.as_str()),
        }
    }
}

/// Why a client has no response to give.
#[derive(Debug, PartialEq, Eq)]
pub enum ClientError {
    Closed,
    Io(String),
    ConnectTimeout,
    NotConnected,
    Timeout,
}

impl Clone for ClientError {
    fn clone(&self) -> (copy: Self)
        ensures
            copy == *self,
    {
        match self {
            ClientError::Closed => ClientError::Closed,
            ClientError::Io(detail) => ClientError::Io(detail.clone()),
            ClientError::ConnectTimeout => ClientError::ConnectTimeout,
            ClientError::NotConnected => ClientError::NotConnected,
            ClientError::Timeout => ClientError::Timeout,
        }
    }
}

/// What a [`ClientError`] says to a reader.
pub open spec fn client_error_text(error: ClientError) -> Seq<char> {
    match error {
        ClientError::Closed => "Client stopped"@,
        ClientError::Io(detail) => "IO error: "@ + detail@,
        ClientError::ConnectTimeout => "Timeout"@,
        ClientError::NotConnected => "Client not connected"@,
        ClientError::Timeout => "Request timed out"@,
    }
}

impl ClientError {
    /// The error as text.
    pub fn message(&self) -> (text: String)
        ensures
            text@ == client_error_text(*self),
    {
        match self {
            ClientError::Closed => "Client stopped".to_owned(),
            ClientError::Io(detail) => join("IO error: ", detail.as_str()),
            ClientError::ConnectTimeout => "Timeout".to_owned(),
            ClientError::NotConnected => "Client not connected".to_owned(),
            ClientError::Timeout => "Request timed out".to_owned(),
        }
    }
}

/// What a failure of a connection says to a reader names the kind, followed by its detail; of a
/// message that is too long it tells the length, then the limit.
pub proof fn law_network_errors_say_what_failed(detail: String, max: u32, size: u32)
    ensures
        network_error_text(NetworkError::Io { err: detail }) == "Io error: "@ + detail@,
        network_error_text(NetworkError::InvalidProtobuf { err: detail }) == "Invalid protobuf: "@
            + detail@,
        network_error_text(NetworkError::MessageTooLarge { max, size }) == "message size "@
            + decimal(size as nat) + " too big. Max allowed "@ + decimal(max as nat),
{
}

/// What a failed request says to a reader.
pub proof fn law_client_errors_say_what_failed(detail: String)
    ensures
        client_error_text(ClientError::Closed) == "Client stopped"@,
        client_error_text(ClientError::Io(detail)) == "IO error: "@ + detail@,
        client_error_text(ClientError::ConnectTimeout) == "Timeout"@,
        client_error_text(ClientError::NotConnected) == "Client not connected"@,
        client_error_text(ClientError::Timeout) == "Request timed out"@,
{
}

} // verus!
