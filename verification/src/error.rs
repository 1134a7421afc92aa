//! What can go wrong between the client and a Node.

use vstd::prelude::*;
use vstd::string::*;

use crate::text::{clone_optional, concat4, optional};

verus! {

/// An error that a Node sent in reply to a request.
#[derive(Debug, PartialEq, Eq)]
pub struct RpcError {
    pub code: i64,
    pub symbol: Option<String>,
    pub message: String,
}

impl Clone for RpcError {
    fn clone(&self) -> (copy: Self)
        ensures
            copy == *self,
    {
        RpcError {
            code: self.code,
            symbol: clone_optional(&self.symbol),
            message: self.message.clone(),
        }
    }
}

/// What keeps a client from doing what it was asked to do.
#[derive(Debug, PartialEq, Eq)]
pub enum ClientError {
    Configuration(String),
    Unavailable(String),
    Protocol(String),
    Rpc(RpcError),
    Closed,
}

/// What an error holds.
#[verifier::ext_equal]
pub enum Failure {
    Configuration(Seq<char>),
    Unavailable(Seq<char>),
    Protocol(Seq<char>),
    Rpc { code: i64, symbol: Option<Seq<char>>, message: Seq<char> },
    Closed,
}

impl View for ClientError {
    type V = Failure;

    open spec fn view(&self) -> Failure {
        match *self {
            ClientError::Configuration(message) => Failure::Configuration(message@),
            ClientError::Unavailable(message) => Failure::Unavailable(message@),
            ClientError::Protocol(message) => Failure::Protocol(message@),
            ClientError::Rpc(error) => Failure::Rpc {
                code: error.code,
                symbol: optional(error.symbol),
                message: error.message@,
            },
            ClientError::Closed => Failure::Closed,
        }
    }
}

impl Clone for ClientError {
    fn clone(&self) -> (copy: Self)
        ensures
            copy == *self,
    {
        match self {
            ClientError::Configuration(message) => ClientError::Configuration(message.clone()),
            ClientError::Unavailable(message) => ClientError::Unavailable(message.clone()),
            ClientError::Protocol(message) => ClientError::Protocol(message.clone()),
            ClientError::Rpc(error) => ClientError::Rpc(error.clone()),
            ClientError::Closed => ClientError::Closed,
        }
    }
}

/// The words that an error is shown with.
pub open spec fn shown(failure: Failure) -> Seq<char> {
    match failure {
        Failure::Configuration(message) => message,
        Failure::Unavailable(message) => message,
        Failure::Protocol(message) => message,
        Failure::Rpc { symbol, message, .. } => message + " ("@ + (match symbol {
            Some(symbol) => symbol,
            None => "RPC_ERROR"@,
        }) + ")"@,
        Failure::Closed => "the Neta Node connection closed"@,
    }
}

impl ClientError {
    /// The words that the error is shown with.
    pub fn to_string(&self) -> (text: String)
        ensures
            text@ == shown(self@),
    {
        match self {
            ClientError::Configuration(message) => message.clone(),
            ClientError::Unavailable(message) => message.clone(),
            ClientError::Protocol(message) => message.clone(),
            ClientError::Rpc(error) => {
                match &error.symbol {
                    Some(symbol) => concat4(&error.message, " (", symbol, ")"),
                    None => concat4(&error.message, " (", "RPC_ERROR", ")"),
                }
            },
            ClientError::Closed => "the Neta Node connection closed".to_owned(),
        }
    }
}

} // verus!
