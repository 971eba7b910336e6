use arrow_schema::ArrowError;
use vstd::prelude::*;

verus! {

/// Errors raised by the Avro format logic.
///
/// The first three variants carry the message of the error, without the
/// category prefix that a caller may add when it renders the error; the last
/// one carries the error of the Arrow code that failed.
#[derive(Debug)]
pub enum AvroError {
    /// A configuration value was rejected.
    Configuration(String),
    /// The requested operation is not implemented for Avro.
    NotImplemented(String),
    /// An operation the Avro format does not support was requested internally.
    Internal(String),
    /// Reading or combining Arrow data failed.
    Arrow(ArrowError),
}

impl AvroError {
    /// The message carried by the error, for the variants that carry one.
    pub fn message(&self) -> (res: Option<&String>)
        ensures
            match self {
                AvroError::Configuration(m) => res == Some(m),
                AvroError::NotImplemented(m) => res == Some(m),
                AvroError::Internal(m) => res == Some(m),
                AvroError::Arrow(_) => res is None,
            },
    {
        match self {
            AvroError::Configuration(m) => Some(m),
            AvroError::NotImplemented(m) => Some(m),
            AvroError::Internal(m) => Some(m),
            AvroError::Arrow(_) => None,
        }
    }
}

} // verus!
