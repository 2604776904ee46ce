//! The handlers: what the server does first with each request.
//!
//! Each handler takes what a request holds (the parameters of its path, in their
//! order, and its payload) and returns the first step of the exchange that
//! answers it. The spec function of the same name, with `_step` added, says which
//! step that is.
use vstd::prelude::*;

use crate::exchange::{PendingCheck, PendingWhere, Step};
use crate::ids::{CollectionUuid, DatabaseUuid};
use crate::model::{DataModel, ServerError};
use crate::payloads::{
    AddCollectionRecordsPayload, CreateCollectionPayload, CreateDatabasePayload,
    DeleteCollectionRecordsPayload, GetRequestPayload, ListCollectionsParams, ListDatabasesPayload,
    QueryRequestPayload, UpdateCollectionPayload, UpdateCollectionRecordsPayload,
    UpsertCollectionRecordsPayload,
};
use crate::requests::{
    AddCollectionRecordsRequest, ChecklistResponse, CountCollectionsRequest, CountRequest,
    CreateDatabaseRequest, CreateTenantRequest, DeleteCollectionRequest, DeleteDatabaseRequest,
    GetCollectionRequest, GetDatabaseRequest, GetTenantRequest, GetUserIdentityResponse,
    ListCollectionsRequest, ListDatabasesRequest, Request, UpdateCollectionRecordsRequest,
    UpsertCollectionRecordsRequest,
};

verus! {

/// The largest batch of records that clients are told to send.
pub const MAX_BATCH_SIZE: u32 = 100;

/// Names the server.
pub fn root() -> (banner: &'static str)
    ensures
        banner@ == "Chroma Rust Frontend"@,
{
    "Chroma Rust Frontend"
}

/// Tells a client the limits of the server.
pub fn pre_flight_checks() -> (checklist: ChecklistResponse)
    ensures
        checklist.max_batch_size == MAX_BATCH_SIZE,
{
    ChecklistResponse { max_batch_size: MAX_BATCH_SIZE }
}

/// Tells a client who it is: everyone is the same user without an id, in the
/// default tenant and database.
pub fn get_user_identity() -> (identity: GetUserIdentityResponse)
    ensures
        identity.user_id@ == Seq::<char>::empty(),
        identity.tenant@ == "default_tenant"@,
        identity.databases@.len() == 1,
        identity.databases@[0]@ == "default_database"@,
{
    let mut databases: Vec<String> = Vec::new();
    databases.push("default_database".to_string());
    GetUserIdentityResponse {
        user_id: String::new(),
        tenant: "default_tenant".to_string(),
        databases,
    }
}

/// What [`heartbeat`] does.
pub open spec fn heartbeat_step<D: DataModel>() -> Step<D> {
    Step::Call(Request::Heartbeat)
}

/// Asks the backend for its heartbeat.
pub fn heartbeat<D: DataModel>() -> (step: Step<D>)
    ensures
        step == heartbeat_step::<D>(),
{
    Step::Call(Request::Heartbeat)
}

/// What [`reset`] does.
pub open spec fn reset_step<D: DataModel>() -> Step<D> {
    Step::Call(Request::Reset)
}

/// Has the backend reset itself.
pub fn reset<D: DataModel>() -> (step: Step<D>)
    ensures
        step == reset_step::<D>(),
{
    Step::Call(Request::Reset)
}

/// What [`create_tenant`] does.
pub open spec fn create_tenant_step<D: DataModel>(request: CreateTenantRequest) -> Step<D> {
    Step::Call(Request::CreateTenant(request))
}

/// Creates a tenant.
pub fn create_tenant<D: DataModel>(request: CreateTenantRequest) -> (step: Step<D>)
    ensures
        step == create_tenant_step::<D>(request),
{
    Step::Call(Request::CreateTenant(request))
}

/// What [`get_tenant`] does.
pub open spec fn get_tenant_step<D: DataModel>(name: String) -> Step<D> {
    Step::Call(Request::GetTenant(GetTenantRequest { name }))
}

/// Gets a tenant.
pub fn get_tenant<D: DataModel>(name: String) -> (step: Step<D>)
    ensures
        step == get_tenant_step::<D>(name),
{
    Step::Call(Request::GetTenant(GetTenantRequest { name }))
}

/// What [`create_database`] does once it has an id for the database.
pub open spec fn create_database_step<D: DataModel>(
    database_id: DatabaseUuid,
    tenant_id: String,
    payload: CreateDatabasePayload,
) -> Step<D> {
    Step::Call(
        Request::CreateDatabase(
            CreateDatabaseRequest { database_id, tenant_id, database_name: payload.name },
        ),
    )
}

/// Creates a database under the given id.
pub fn create_database_with_id<D: DataModel>(
    database_id: DatabaseUuid,
    tenant_id: String,
    payload: CreateDatabasePayload,
) -> (step: Step<D>)
    ensures
        step == create_database_step::<D>(database_id, tenant_id, payload),
{
    Step::Call(
        Request::CreateDatabase(
            CreateDatabaseRequest { database_id, tenant_id, database_name: payload.name },
        ),
    )
}

/// Creates a database under a fresh random id.
pub fn create_database<D: DataModel>(
    tenant_id: String,
    payload: CreateDatabasePayload,
) -> (step: Step<D>)
    ensures
        exists|database_id: DatabaseUuid|
            {
                &&& #[trigger] call_ensures(DatabaseUuid::new_v4, (), database_id)
                &&& database_id.drawn()
                &&& crate::ids::is_version_4(database_id.0)
                &&& step == create_database_step::<D>(database_id, tenant_id, payload)
            },
{
    create_database_with_id(DatabaseUuid::new_v4(), tenant_id, payload)
}

/// What [`list_databases`] does.
pub open spec fn list_databases_step<D: DataModel>(
    tenant_id: String,
    payload: ListDatabasesPayload,
) -> Step<D> {
    Step::Call(
        Request::ListDatabases(
            ListDatabasesRequest { tenant_id, limit: payload.limit, offset: payload.offset },
        ),
    )
}

/// Lists the databases of a tenant.
pub fn list_databases<D: DataModel>(
    tenant_id: String,
    payload: ListDatabasesPayload,
) -> (step: Step<D>)
    ensures
        step == list_databases_step::<D>(tenant_id, payload),
{
    Step::Call(
        Request::ListDatabases(
            ListDatabasesRequest { tenant_id, limit: payload.limit, offset: payload.offset },
        ),
    )
}

/// What [`get_database`] does.
pub open spec fn get_database_step<D: DataModel>(
    tenant_id: String,
    database_name: String,
) -> Step<D> {
    Step::Call(Request::GetDatabase(GetDatabaseRequest { tenant_id, database_name }))
}

/// Gets a database.
pub fn get_database<D: DataModel>(tenant_id: String, database_name: String) -> (step: Step<D>)
    ensures
        step == get_database_step::<D>(tenant_id, database_name),
{
    Step::Call(Request::GetDatabase(GetDatabaseRequest { tenant_id, database_name }))
}

/// What [`delete_database`] does.
pub open spec fn delete_database_step<D: DataModel>(
    tenant_id: String,
    database_name: String,
) -> Step<D> {
    Step::Call(Request::DeleteDatabase(DeleteDatabaseRequest { tenant_id, database_name }))
}

/// Deletes a database.
pub fn delete_database<D: DataModel>(tenant_id: String, database_name: String) -> (step: Step<D>)
    ensures
        step == delete_database_step::<D>(tenant_id, database_name),
{
    Step::Call(Request::DeleteDatabase(DeleteDatabaseRequest { tenant_id, database_name }))
}

/// What [`list_collections`] does.
pub open spec fn list_collections_step<D: DataModel>(
    tenant_id: String,
    database_name: String,
    params: ListCollectionsParams,
) -> Step<D> {
    Step::Call(
        Request::ListCollections(
            ListCollectionsRequest {
                tenant_id,
                database_name,
                limit: params.limit,
                offset: params.offset,
            },
        ),
    )
}

/// Lists the collections of a database.
pub fn list_collections<D: DataModel>(
    tenant_id: String,
    database_name: String,
    params: ListCollectionsParams,
) -> (step: Step<D>)
    ensures
        step == list_collections_step::<D>(tenant_id, database_name, params),
{
    Step::Call(
        Request::ListCollections(
            ListCollectionsRequest {
                tenant_id,
                database_name,
                limit: params.limit,
                offset: params.offset,
            },
        ),
    )
}

/// What [`count_collections`] does.
pub open spec fn count_collections_step<D: DataModel>(
    tenant_id: String,
    database_name: String,
) -> Step<D> {
    Step::Call(Request::CountCollections(CountCollectionsRequest { tenant_id, database_name }))
}

/// Counts the collections of a database.
pub fn count_collections<D: DataModel>(
    tenant_id: String,
    database_name: String,
) -> (step: Step<D>)
    ensures
        step == count_collections_step::<D>(tenant_id, database_name),
{
    Step::Call(Request::CountCollections(CountCollectionsRequest { tenant_id, database_name }))
}

/// What [`create_collection`] does.
pub open spec fn create_collection_step<D: DataModel>(
    tenant_id: String,
    database_name: String,
    payload: CreateCollectionPayload<D::Metadata>,
) -> Step<D> {
    Step::Check(PendingCheck::CreateCollectionName { tenant_id, database_name, payload })
}

/// Creates a collection: its name is checked, then its metadata if it has any.
pub fn create_collection<D: DataModel>(
    tenant_id: String,
    database_name: String,
    payload: CreateCollectionPayload<D::Metadata>,
) -> (step: Step<D>)
    ensures
        step == create_collection_step::<D>(tenant_id, database_name, payload),
{
    Step::Check(PendingCheck::CreateCollectionName { tenant_id, database_name, payload })
}

/// What [`get_collection`] does.
pub open spec fn get_collection_step<D: DataModel>(
    tenant_id: String,
    database_name: String,
    collection_name: String,
) -> Step<D> {
    Step::Call(
        Request::GetCollection(
            GetCollectionRequest { tenant_id, database_name, collection_name },
        ),
    )
}

/// Gets a collection by its name.
pub fn get_collection<D: DataModel>(
    tenant_id: String,
    database_name: String,
    collection_name: String,
) -> (step: Step<D>)
    ensures
        step == get_collection_step::<D>(tenant_id, database_name, collection_name),
{
    Step::Call(
        Request::GetCollection(
            GetCollectionRequest { tenant_id, database_name, collection_name },
        ),
    )
}

/// What [`update_collection`] does.
pub open spec fn update_collection_step<D: DataModel>(
    collection_id: String,
    payload: UpdateCollectionPayload<D::UpdateMetadata>,
) -> Step<D> {
    match payload.new_name {
        Some(new_name) => Step::Check(
            PendingCheck::UpdateCollectionName {
                collection_id,
                new_name,
                new_metadata: payload.new_metadata,
            },
        ),
        None => Step::update_collection_named(collection_id@, None, payload.new_metadata),
    }
}

/// Changes the name and the metadata of a collection: its new name is checked if
/// it gets one, then its id is read, then its new metadata is checked if it gets
/// any. The tenant and the database of the path play no part.
pub fn update_collection<D: DataModel>(
    _tenant_id: String,
    _database_name: String,
    collection_id: String,
    payload: UpdateCollectionPayload<D::UpdateMetadata>,
) -> (step: Step<D>)
    ensures
        step == update_collection_step::<D>(collection_id, payload),
{
    match payload.new_name {
        Some(new_name) => Step::Check(
            PendingCheck::UpdateCollectionName {
                collection_id,
                new_name,
                new_metadata: payload.new_metadata,
            },
        ),
        None => Step::after_update_collection_name(
            collection_id.as_str(),
            None,
            payload.new_metadata,
        ),
    }
}

/// What [`delete_collection`] does.
pub open spec fn delete_collection_step<D: DataModel>(
    tenant_id: String,
    database_name: String,
    collection_name: String,
) -> Step<D> {
    Step::Call(
        Request::DeleteCollection(
            DeleteCollectionRequest { tenant_id, database_name, collection_name },
        ),
    )
}

/// Deletes a collection by its name.
pub fn delete_collection<D: DataModel>(
    tenant_id: String,
    database_name: String,
    collection_name: String,
) -> (step: Step<D>)
    ensures
        step == delete_collection_step::<D>(tenant_id, database_name, collection_name),
{
    Step::Call(
        Request::DeleteCollection(
            DeleteCollectionRequest { tenant_id, database_name, collection_name },
        ),
    )
}

/// What [`collection_add`] does.
pub open spec fn collection_add_step<D: DataModel>(
    tenant_id: String,
    database_name: String,
    collection_id: String,
    payload: AddCollectionRecordsPayload<D::Embeddings, D::Metadata>,
) -> Step<D> {
    match CollectionUuid::spelled_by(collection_id@) {
        Some(collection_id) => Step::Check(
            PendingCheck::Add(
                AddCollectionRecordsRequest {
                    tenant_id,
                    database_name,
                    collection_id,
                    ids: payload.ids,
                    embeddings: payload.embeddings,
                    documents: payload.documents,
                    uris: payload.uris,
                    metadatas: payload.metadatas,
                },
            ),
        ),
        None => Step::bad_collection_id(),
    }
}

/// Adds records to a collection: its id is read, then the embeddings are checked.
pub fn collection_add<D: DataModel>(
    tenant_id: String,
    database_name: String,
    collection_id: String,
    payload: AddCollectionRecordsPayload<D::Embeddings, D::Metadata>,
) -> (step: Step<D>)
    ensures
        step == collection_add_step::<D>(tenant_id, database_name, collection_id, payload),
{
    match CollectionUuid::from_str(collection_id.as_str()) {
        Ok(collection_id) => Step::Check(
            PendingCheck::Add(
                AddCollectionRecordsRequest {
                    tenant_id,
                    database_name,
                    collection_id,
                    ids: payload.ids,
                    embeddings: payload.embeddings,
                    documents: payload.documents,
                    uris: payload.uris,
                    metadatas: payload.metadatas,
                },
            ),
        ),
        Err(error) => Step::Done(Err(ServerError::Validation(error))),
    }
}

/// What [`collection_update`] does.
pub open spec fn collection_update_step<D: DataModel>(
    tenant_id: String,
    database_name: String,
    collection_id: String,
    payload: UpdateCollectionRecordsPayload<D::Embeddings, D::UpdateMetadata>,
) -> Step<D> {
    match CollectionUuid::spelled_by(collection_id@) {
        Some(collection_id) => Step::Check(
            PendingCheck::Update(
                UpdateCollectionRecordsRequest {
                    tenant_id,
                    database_name,
                    collection_id,
                    ids: payload.ids,
                    embeddings: payload.embeddings,
                    documents: payload.documents,
                    uris: payload.uris,
                    metadatas: payload.metadatas,
                },
            ),
        ),
        None => Step::bad_collection_id(),
    }
}

/// Updates records of a collection: its id is read, then the embeddings are
/// checked.
pub fn collection_update<D: DataModel>(
    tenant_id: String,
    database_name: String,
    collection_id: String,
    payload: UpdateCollectionRecordsPayload<D::Embeddings, D::UpdateMetadata>,
) -> (step: Step<D>)
    ensures
        step == collection_update_step::<D>(tenant_id, database_name, collection_id, payload),
{
    match CollectionUuid::from_str(collection_id.as_str()) {
        Ok(collection_id) => Step::Check(
            PendingCheck::Update(
                UpdateCollectionRecordsRequest {
                    tenant_id,
                    database_name,
                    collection_id,
                    ids: payload.ids,
                    embeddings: payload.embeddings,
                    documents: payload.documents,
                    uris: payload.uris,
                    metadatas: payload.metadatas,
                },
            ),
        ),
        Err(error) => Step::Done(Err(ServerError::Validation(error))),
    }
}

/// What [`collection_upsert`] does.
pub open spec fn collection_upsert_step<D: DataModel>(
    tenant_id: String,
    database_name: String,
    collection_id: String,
    payload: UpsertCollectionRecordsPayload<D::Embeddings, D::UpdateMetadata>,
) -> Step<D> {
    match CollectionUuid::spelled_by(collection_id@) {
        Some(collection_id) => Step::Check(
            PendingCheck::Upsert(
                UpsertCollectionRecordsRequest {
                    tenant_id,
                    database_name,
                    collection_id,
                    ids: payload.ids,
                    embeddings: payload.embeddings,
                    documents: payload.documents,
                    uris: payload.uris,
                    metadatas: payload.metadatas,
                },
            ),
        ),
        None => Step::bad_collection_id(),
    }
}

/// Updates records of a collection and adds those that are not there: its id is
/// read, then the embeddings are checked.
pub fn collection_upsert<D: DataModel>(
    tenant_id: String,
    database_name: String,
    collection_id: String,
    payload: UpsertCollectionRecordsPayload<D::Embeddings, D::UpdateMetadata>,
) -> (step: Step<D>)
    ensures
        step == collection_upsert_step::<D>(tenant_id, database_name, collection_id, payload),
{
    match CollectionUuid::from_str(collection_id.as_str()) {
        Ok(collection_id) => Step::Check(
            PendingCheck::Upsert(
                UpsertCollectionRecordsRequest {
                    tenant_id,
                    database_name,
                    collection_id,
                    ids: payload.ids,
                    embeddings: payload.embeddings,
                    documents: payload.documents,
                    uris: payload.uris,
                    metadatas: payload.metadatas,
                },
            ),
        ),
        Err(error) => Step::Done(Err(ServerError::Validation(error))),
    }
}

/// What [`collection_delete`] does.
pub open spec fn collection_delete_step<D: DataModel>(
    tenant_id: String,
    database_name: String,
    collection_id: String,
    payload: DeleteCollectionRecordsPayload<D::RawWhereFields>,
) -> Step<D> {
    match CollectionUuid::spelled_by(collection_id@) {
        Some(collection_id) => Step::ReadWhere(
            payload.where_fields,
            PendingWhere::Delete { tenant_id, database_name, collection_id, ids: payload.ids },
        ),
        None => Step::bad_collection_id(),
    }
}

/// Deletes records of a collection: its id is read, then the condition, then the
/// filter that the ids and the condition make is checked.
pub fn collection_delete<D: DataModel>(
    tenant_id: String,
    database_name: String,
    collection_id: String,
    payload: DeleteCollectionRecordsPayload<D::RawWhereFields>,
) -> (step: Step<D>)
    ensures
        step == collection_delete_step::<D>(tenant_id, database_name, collection_id, payload),
{
    match CollectionUuid::from_str(collection_id.as_str()) {
        Ok(collection_id) => Step::ReadWhere(
            payload.where_fields,
            PendingWhere::Delete { tenant_id, database_name, collection_id, ids: payload.ids },
        ),
        Err(error) => Step::Done(Err(ServerError::Validation(error))),
    }
}

/// What [`collection_count`] does.
pub open spec fn collection_count_step<D: DataModel>(
    tenant_id: String,
    database_name: String,
    collection_id: String,
) -> Step<D> {
    match CollectionUuid::spelled_by(collection_id@) {
        Some(collection_id) => Step::Call(
            Request::Count(CountRequest { tenant_id, database_name, collection_id }),
        ),
        None => Step::bad_collection_id(),
    }
}

/// Counts the records of a collection, once its id is read.
pub fn collection_count<D: DataModel>(
    tenant_id: String,
    database_name: String,
    collection_id: String,
) -> (step: Step<D>)
    ensures
        step == collection_count_step::<D>(tenant_id, database_name, collection_id),
{
    match CollectionUuid::from_str(collection_id.as_str()) {
        Ok(collection_id) => Step::Call(
            Request::Count(CountRequest { tenant_id, database_name, collection_id }),
        ),
        Err(error) => Step::Done(Err(ServerError::Validation(error))),
    }
}

/// What [`collection_get`] does.
pub open spec fn collection_get_step<D: DataModel>(
    tenant_id: String,
    database_name: String,
    collection_id: String,
    payload: GetRequestPayload<D::RawWhereFields, D::IncludeList>,
) -> Step<D> {
    match CollectionUuid::spelled_by(collection_id@) {
        Some(collection_id) => Step::ReadWhere(
            payload.where_fields,
            PendingWhere::Get {
                tenant_id,
                database_name,
                collection_id,
                ids: payload.ids,
                limit: payload.limit,
                offset: payload.offset,
                include_list: payload.include_list,
            },
        ),
        None => Step::bad_collection_id(),
    }
}

/// Gets records of a collection: its id is read, then the condition.
pub fn collection_get<D: DataModel>(
    tenant_id: String,
    database_name: String,
    collection_id: String,
    payload: GetRequestPayload<D::RawWhereFields, D::IncludeList>,
) -> (step: Step<D>)
    ensures
        step == collection_get_step::<D>(tenant_id, database_name, collection_id, payload),
{
    match CollectionUuid::from_str(collection_id.as_str()) {
        Ok(collection_id) => Step::ReadWhere(
            payload.where_fields,
            PendingWhere::Get {
                tenant_id,
                database_name,
                collection_id,
                ids: payload.ids,
                limit: payload.limit,
                offset: payload.offset,
                include_list: payload.include_list,
            },
        ),
        Err(error) => Step::Done(Err(ServerError::Validation(error))),
    }
}

/// What [`collection_query`] does.
pub open spec fn collection_query_step<D: DataModel>(
    tenant_id: String,
    database_name: String,
    collection_id: String,
    payload: QueryRequestPayload<D::RawWhereFields, D::Embeddings, D::IncludeList>,
) -> Step<D> {
    match CollectionUuid::spelled_by(collection_id@) {
        Some(collection_id) => Step::Check(
            PendingCheck::Query { tenant_id, database_name, collection_id, payload },
        ),
        None => Step::bad_collection_id(),
    }
}

/// Asks for the records nearest to given embeddings: the id of the collection is
/// read, then the embeddings are checked, then the condition is read.
pub fn collection_query<D: DataModel>(
    tenant_id: String,
    database_name: String,
    collection_id: String,
    payload: QueryRequestPayload<D::RawWhereFields, D::Embeddings, D::IncludeList>,
) -> (step: Step<D>)
    ensures
        step == collection_query_step::<D>(tenant_id, database_name, collection_id, payload),
{
    match CollectionUuid::from_str(collection_id.as_str()) {
        Ok(collection_id) => Step::Check(
            PendingCheck::Query { tenant_id, database_name, collection_id, payload },
        ),
        Err(error) => Step::Done(Err(ServerError::Validation(error))),
    }
}

} // verus!
