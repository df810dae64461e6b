//! The errors that the server answers with.

use vstd::prelude::*;

verus! {

/// An error of the server, with the message that the client reads.
#[derive(Debug)]
pub enum DynoxideError {
    /// The request is well formed, but a value in it is not allowed.
    ValidationException(String),
    /// The request does not have the types that the operation expects.
    SerializationException(String),
    /// The server failed.
    InternalServerError(String),
}

/// What a [`DynoxideError`] says.
pub enum Fault {
    ValidationException(Seq<char>),
    SerializationException(Seq<char>),
    InternalServerError(Seq<char>),
}

impl View for DynoxideError {
    type V = Fault;

    open spec fn view(&self) -> Fault {
        match self {
            DynoxideError::ValidationException(message) => Fault::ValidationException(message@),
            DynoxideError::SerializationException(message) => Fault::SerializationException(
                message@,
            ),
            DynoxideError::InternalServerError(message) => Fault::InternalServerError(message@),
        }
    }
}

} // verus!
