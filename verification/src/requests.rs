//! What the backend is asked for, and what clients are answered.
//!
//! `M` stands for metadata, `U` for a change of metadata, `E` for embeddings, `W`
//! for a condition on records and `I` for what a response shall hold.
use vstd::prelude::*;

use crate::ids::{CollectionUuid, DatabaseUuid};
use crate::model::DataModel;

verus! {

/// Create a tenant.
#[derive(Debug, Clone, PartialEq)]
pub struct CreateTenantRequest {
    pub name: String,
}

/// Get a tenant.
#[derive(Debug, Clone, PartialEq)]
pub struct GetTenantRequest {
    pub name: String,
}

/// Create a database under an id.
#[derive(Debug, Clone, PartialEq)]
pub struct CreateDatabaseRequest {
    pub database_id: DatabaseUuid,
    pub tenant_id: String,
    pub database_name: String,
}

/// List the databases of a tenant.
#[derive(Debug, Clone, PartialEq)]
pub struct ListDatabasesRequest {
    pub tenant_id: String,
    pub limit: Option<u32>,
    pub offset: u32,
}

/// Get a database.
#[derive(Debug, Clone, PartialEq)]
pub struct GetDatabaseRequest {
    pub tenant_id: String,
    pub database_name: String,
}

/// Delete a database.
#[derive(Debug, Clone, PartialEq)]
pub struct DeleteDatabaseRequest {
    pub tenant_id: String,
    pub database_name: String,
}

/// List the collections of a database.
#[derive(Debug, Clone, PartialEq)]
pub struct ListCollectionsRequest {
    pub tenant_id: String,
    pub database_name: String,
    pub limit: Option<u32>,
    pub offset: u32,
}

/// Count the collections of a database.
#[derive(Debug, Clone, PartialEq)]
pub struct CountCollectionsRequest {
    pub tenant_id: String,
    pub database_name: String,
}

/// Create a collection, or get the one of that name where that will do.
#[derive(Debug, Clone, PartialEq)]
pub struct CreateCollectionRequest<M> {
    pub name: String,
    pub tenant_id: String,
    pub database_name: String,
    pub metadata: Option<M>,
    pub configuration_json: Option<serde_json::Value>,
    pub get_or_create: bool,
}

/// Get a collection by its name.
#[derive(Debug, Clone, PartialEq)]
pub struct GetCollectionRequest {
    pub tenant_id: String,
    pub database_name: String,
    pub collection_name: String,
}

/// How the metadata of a collection is changed.
#[derive(Debug, Clone, PartialEq)]
pub enum CollectionMetadataUpdate<U> {
    UpdateMetadata(U),
}

/// Change the name and the metadata of a collection.
#[derive(Debug, Clone, PartialEq)]
pub struct UpdateCollectionRequest<U> {
    pub collection_id: CollectionUuid,
    pub new_name: Option<String>,
    pub new_metadata: Option<CollectionMetadataUpdate<U>>,
}

/// Delete a collection by its name.
#[derive(Debug, Clone, PartialEq)]
pub struct DeleteCollectionRequest {
    pub tenant_id: String,
    pub database_name: String,
    pub collection_name: String,
}

/// Add records.
#[derive(Debug, Clone, PartialEq)]
pub struct AddCollectionRecordsRequest<E, M> {
    pub tenant_id: String,
    pub database_name: String,
    pub collection_id: CollectionUuid,
    pub ids: Vec<String>,
    pub embeddings: Option<E>,
    pub documents: Option<Vec<String>>,
    pub uris: Option<Vec<String>>,
    pub metadatas: Option<Vec<M>>,
}

/// Update records.
#[derive(Debug, Clone, PartialEq)]
pub struct UpdateCollectionRecordsRequest<E, U> {
    pub tenant_id: String,
    pub database_name: String,
    pub collection_id: CollectionUuid,
    pub ids: Vec<String>,
    pub embeddings: Option<E>,
    pub documents: Option<Vec<String>>,
    pub uris: Option<Vec<String>>,
    pub metadatas: Option<Vec<U>>,
}

/// Update records, or add those that are not there.
#[derive(Debug, Clone, PartialEq)]
pub struct UpsertCollectionRecordsRequest<E, U> {
    pub tenant_id: String,
    pub database_name: String,
    pub collection_id: CollectionUuid,
    pub ids: Vec<String>,
    pub embeddings: Option<E>,
    pub documents: Option<Vec<String>>,
    pub uris: Option<Vec<String>>,
    pub metadatas: Option<Vec<U>>,
}

/// Delete the records that the ids and the condition select.
#[derive(Debug, Clone, PartialEq)]
pub struct DeleteCollectionRecordsRequest<W> {
    pub tenant_id: String,
    pub database_name: String,
    pub collection_id: CollectionUuid,
    pub ids: Option<Vec<String>>,
    pub where_clause: W,
}

/// Count the records of a collection.
#[derive(Debug, Clone, PartialEq)]
pub struct CountRequest {
    pub tenant_id: String,
    pub database_name: String,
    pub collection_id: CollectionUuid,
}

/// Get the records that the ids and the condition select.
#[derive(Debug, Clone, PartialEq)]
pub struct GetRequest<W, I> {
    pub tenant_id: String,
    pub database_name: String,
    pub collection_id: CollectionUuid,
    pub ids: Option<Vec<String>>,
    pub where_clause: W,
    pub limit: Option<u32>,
    pub offset: u32,
    pub include_list: I,
}

/// Get the records nearest to the embeddings, among those that the ids and the
/// condition select.
#[derive(Debug, Clone, PartialEq)]
pub struct QueryRequest<W, E, I> {
    pub tenant_id: String,
    pub database_name: String,
    pub collection_id: CollectionUuid,
    pub ids: Option<Vec<String>>,
    pub where_clause: W,
    pub include_list: I,
    pub embeddings: E,
    pub n_results: u32,
}

/// A request to the backend.
pub enum Request<D: DataModel> {
    Heartbeat,
    Reset,
    CreateTenant(CreateTenantRequest),
    GetTenant(GetTenantRequest),
    CreateDatabase(CreateDatabaseRequest),
    ListDatabases(ListDatabasesRequest),
    GetDatabase(GetDatabaseRequest),
    DeleteDatabase(DeleteDatabaseRequest),
    ListCollections(ListCollectionsRequest),
    CountCollections(CountCollectionsRequest),
    CreateCollection(CreateCollectionRequest<D::Metadata>),
    GetCollection(GetCollectionRequest),
    UpdateCollection(UpdateCollectionRequest<D::UpdateMetadata>),
    DeleteCollection(DeleteCollectionRequest),
    Add(AddCollectionRecordsRequest<D::Embeddings, D::Metadata>),
    Update(UpdateCollectionRecordsRequest<D::Embeddings, D::UpdateMetadata>),
    Upsert(UpsertCollectionRecordsRequest<D::Embeddings, D::UpdateMetadata>),
    Delete(DeleteCollectionRecordsRequest<D::Where>),
    Count(CountRequest),
    Get(GetRequest<D::Where, D::IncludeList>),
    Query(QueryRequest<D::Where, D::Embeddings, D::IncludeList>),
}

/// What a client learns of the limits of the server.
#[derive(Debug, Clone, PartialEq)]
pub struct ChecklistResponse {
    pub max_batch_size: u32,
}

/// What a client learns of its own identity.
#[derive(Debug, Clone, PartialEq)]
pub struct GetUserIdentityResponse {
    pub user_id: String,
    pub tenant: String,
    pub databases: Vec<String>,
}

/// The empty answer to the update or the deletion of a collection.
#[derive(Debug, Clone, Copy, PartialEq, Eq)]
pub struct UpdateCollectionResponse {}

/// The empty answer to the deletion of records.
#[derive(Debug, Clone, Copy, PartialEq, Eq)]
pub struct DeleteCollectionRecordsResponse {}

/// What a client is answered once the backend, whose response is an `R`, has
/// done what it was asked for.
#[derive(Debug, Clone, PartialEq)]
pub enum Answer<R> {
    /// The response of the backend, as it came.
    Response(R),
    /// The answer to a reset.
    Reset(bool),
    UpdateCollection(UpdateCollectionResponse),
    DeleteCollectionRecords(DeleteCollectionRecordsResponse),
}

} // verus!
