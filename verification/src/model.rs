//! The types of the values that the server carries without reading them.
use vstd::prelude::*;

verus! {

/// The types of what passes between clients, checks and the backend, and which
/// the server hands on as it came.
pub trait DataModel: Sized {
    /// The metadata of a collection or of a record.
    type Metadata;

    /// A change of the metadata of a collection or of a record.
    type UpdateMetadata;

    /// A list of embeddings.
    type Embeddings;

    /// The fields of a payload that spell a condition on records.
    type RawWhereFields;

    /// The condition that such fields spell, which may be none.
    type Where;

    /// What a response shall hold of each record.
    type IncludeList;

    /// What the backend responds.
    type Response;

    /// What a check, the reading of a condition or the backend reports where it
    /// fails.
    type Error;
}

/// `serde_json::Value`, a JSON value. It is carried, not read.
#[verifier::external_type_specification]
#[verifier::external_body]
pub struct ExJsonValue(serde_json::Value);

/// What a client is told in place of an answer.
#[derive(Debug, Clone, Copy, PartialEq, Eq)]
pub enum ServerError<E> {
    /// The server refuses the request by itself.
    Validation(crate::ids::ValidationError),
    /// A check, the reading of a condition or the backend reported this.
    Reported(E),
}

} // verus!
