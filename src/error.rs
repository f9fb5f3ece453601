use vstd::prelude::*;

use crate::text::prefixed;

verus! {

/// Every failure that the classification pipeline can report.
#[derive(Debug)]
pub enum ModelError {
    /// Missing, invalid or rejected credential.
    Auth(String),
    /// Transport failure towards the model registry or the blob origin.
    Network(String),
    /// Model cache input or output.
    FileSystem(String),
    /// Tensor or inference failure: an internal contract was not met.
    Processing(String),
    /// Template store query failure.
    Database(String),
    /// An input image could not be decoded.
    Image(String),
    /// Malformed request payload.
    Serialization(String),
}

impl ModelError {
    /// The detail text that the error carries.
    pub fn detail(&self) -> (r: &String)
        ensures
            r == match self {
                ModelError::Auth(s) => s,
                ModelError::Network(s) => s,
                ModelError::FileSystem(s) => s,
                ModelError::Processing(s) => s,
                ModelError::Database(s) => s,
                ModelError::Image(s) => s,
                ModelError::Serialization(s) => s,
            },
    {
        match self {
            ModelError::Auth(s) => s,
            ModelError::Network(s) => s,
            ModelError::FileSystem(s) => s,
            ModelError::Processing(s) => s,
            ModelError::Database(s) => s,
            ModelError::Image(s) => s,
            ModelError::Serialization(s) => s,
        }
    }
    /// The text shown for the error at the boundary: its kind, then its detail.
    pub fn message(&self) -> (r: String)
        ensures
            r@ == match self {
                ModelError::Auth(s) => "Authentication error: "@ + s@,
                ModelError::Network(s) => "Network error: "@ + s@,
                ModelError::FileSystem(s) => "File system error: "@ + s@,
                ModelError::Processing(s) => "Model processing error: "@ + s@,
                ModelError::Database(s) => "Database error: "@ + s@,
                ModelError::Image(s) => "Image processing error: "@ + s@,
                ModelError::Serialization(s) => "Serialization error: "@ + s@,
            },
    {
        match self {
            ModelError::Auth(s) => prefixed("Authentication error: ", s),
            ModelError::Network(s) => prefixed("Network error: ", s),
            ModelError::FileSystem(s) => prefixed("File system error: ", s),
            ModelError::Processing(s) => prefixed("Model processing error: ", s),
            ModelError::Database(s) => prefixed("Database error: ", s),
            ModelError::Image(s) => prefixed("Image processing error: ", s),
            ModelError::Serialization(s) => prefixed("Serialization error: ", s),
        }
    }
}

} // verus!
