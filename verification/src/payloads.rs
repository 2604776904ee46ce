//! What clients send in the body or the query of a request.
//!
//! `M` stands for metadata, `U` for a change of metadata, `E` for embeddings, `W`
//! for the fields that spell a condition and `I` for what a response shall hold.
use vstd::prelude::*;

verus! {

/// The body that creates a database.
#[derive(Debug, Clone, PartialEq)]
pub struct CreateDatabasePayload {
    pub name: String,
}

/// The body that lists databases.
#[derive(Debug, Clone, PartialEq)]
pub struct ListDatabasesPayload {
    pub limit: Option<u32>,
    pub offset: u32,
}

/// The query that lists collections.
#[derive(Debug, Clone, PartialEq)]
pub struct ListCollectionsParams {
    pub limit: Option<u32>,
    pub offset: u32,
}

/// The body that creates a collection.
#[derive(Debug, Clone, PartialEq)]
pub struct CreateCollectionPayload<M> {
    pub name: String,
    pub configuration: Option<serde_json::Value>,
    pub metadata: Option<M>,
    pub get_or_create: bool,
}

/// The body that changes a collection.
#[derive(Debug, Clone, PartialEq)]
pub struct UpdateCollectionPayload<U> {
    pub new_name: Option<String>,
    pub new_metadata: Option<U>,
}

/// The body that adds records.
#[derive(Debug, Clone, PartialEq)]
pub struct AddCollectionRecordsPayload<E, M> {
    pub ids: Vec<String>,
    pub embeddings: Option<E>,
    pub documents: Option<Vec<String>>,
    pub uris: Option<Vec<String>>,
    pub metadatas: Option<Vec<M>>,
}

/// The body that updates records.
#[derive(Debug, Clone, PartialEq)]
pub struct UpdateCollectionRecordsPayload<E, U> {
    pub ids: Vec<String>,
    pub embeddings: Option<E>,
    pub documents: Option<Vec<String>>,
    pub uris: Option<Vec<String>>,
    pub metadatas: Option<Vec<U>>,
}

/// The body that updates records, or adds those that are not there.
#[derive(Debug, Clone, PartialEq)]
pub struct UpsertCollectionRecordsPayload<E, U> {
    pub ids: Vec<String>,
    pub embeddings: Option<E>,
    pub documents: Option<Vec<String>>,
    pub uris: Option<Vec<String>>,
    pub metadatas: Option<Vec<U>>,
}

/// The body that deletes records.
#[derive(Debug, Clone, PartialEq)]
pub struct DeleteCollectionRecordsPayload<W> {
    pub ids: Option<Vec<String>>,
    pub where_fields: W,
}

/// The body that gets records.
#[derive(Debug, Clone, PartialEq)]
pub struct GetRequestPayload<W, I> {
    pub ids: Option<Vec<String>>,
    pub where_fields: W,
    pub limit: Option<u32>,
    pub offset: Option<u32>,
    pub include_list: I,
}

/// The body that asks for the records nearest to given embeddings.
#[derive(Debug, Clone, PartialEq)]
pub struct QueryRequestPayload<W, E, I> {
    pub ids: Option<Vec<String>>,
    pub where_fields: W,
    pub query_embeddings: E,
    pub n_results: Option<u32>,
    pub include_list: I,
}

} // verus!
