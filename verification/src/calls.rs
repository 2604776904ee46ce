//! What the functions of the library return, in terms of what they are given.
//!
//! Each law takes the arguments and the results of calls, related by
//! `call_ensures`, and says how they hang together.
use vstd::prelude::*;

use crate::exchange::{Answering, Check, Outcome, PendingCheck, PendingWhere, Step};
use crate::handlers;
use crate::ids;
use crate::ids::{CollectionUuid, DatabaseUuid, ValidationError};
use crate::model::{DataModel, ServerError};
use crate::payloads::{
    AddCollectionRecordsPayload, CreateCollectionPayload, CreateDatabasePayload,
    DeleteCollectionRecordsPayload, GetRequestPayload, ListCollectionsParams, ListDatabasesPayload,
    QueryRequestPayload, UpdateCollectionPayload, UpdateCollectionRecordsPayload,
    UpsertCollectionRecordsPayload,
};
use crate::requests::{
    AddCollectionRecordsRequest, Answer, CollectionMetadataUpdate, CountCollectionsRequest,
    CountRequest, CreateCollectionRequest, CreateDatabaseRequest, CreateTenantRequest,
    DeleteCollectionRecordsRequest, DeleteCollectionRecordsResponse, DeleteCollectionRequest,
    DeleteDatabaseRequest, GetCollectionRequest, GetDatabaseRequest, GetRequest, GetTenantRequest,
    ListCollectionsRequest, ListDatabasesRequest, QueryRequest, Request,
    UpdateCollectionRecordsRequest, UpdateCollectionRequest, UpdateCollectionResponse,
    UpsertCollectionRecordsRequest,
};
use crate::routes;
use crate::routes::{Endpoint, Method, Route};
use crate::server::{CircuitBreakerConfig, FrontendConfig, FrontendServer, Launch};

verus! {

/// A text is read as an id exactly where it spells a UUID, and as that UUID. Every
/// other text is refused.
pub proof fn id_is_read_where_it_spells_a_uuid(
    text: &str,
    id: Result<CollectionUuid, ValidationError>,
)
    requires
        call_ensures(CollectionUuid::from_str, (text,), id),
    ensures
        id is Ok <==> ids::is_uuid(text@),
        id is Ok ==> (id->Ok_0).0 == ids::uuid_number(text@),
        id is Err ==> id->Err_0 == ValidationError::CollectionId,
{
}

/// Two readings of texts agree exactly where the texts spell the same UUID or both
/// spell none.
pub proof fn same_text_same_id(
    a: &str,
    b: &str,
    first: Result<CollectionUuid, ValidationError>,
    second: Result<CollectionUuid, ValidationError>,
)
    requires
        call_ensures(CollectionUuid::from_str, (a,), first),
        call_ensures(CollectionUuid::from_str, (b,), second),
    ensures
        first == second <==> (if ids::is_uuid(a@) {
            ids::is_uuid(b@) && ids::uuid_number(a@) == ids::uuid_number(b@)
        } else {
            !ids::is_uuid(b@)
        }),
{
}

/// Whatever its tenant and its name, a database is created under an id that was
/// drawn at random for it.
pub proof fn database_gets_a_drawn_id<D: DataModel>(
    tenant_id: String,
    payload: CreateDatabasePayload,
    step: Step<D>,
)
    requires
        call_ensures(handlers::create_database::<D>, (tenant_id, payload), step),
    ensures
        step matches Step::Call(Request::CreateDatabase(request)) && {
            &&& call_ensures(DatabaseUuid::new_v4, (), request.database_id)
            &&& request.database_id.drawn()
            &&& ids::is_version_4(request.database_id.0)
            &&& request.tenant_id == tenant_id
            &&& request.database_name == payload.name
        },
{
}

/// A heartbeat is asked of the backend.
pub proof fn heartbeat_asks<D: DataModel>(
    step: Step<D>,
)
    requires
        call_ensures(handlers::heartbeat::<D>, (), step),
    ensures
        step == Step::<D>::Call(Request::Heartbeat),
{
}

/// A reset is asked of the backend.
pub proof fn reset_asks<D: DataModel>(
    step: Step<D>,
)
    requires
        call_ensures(handlers::reset::<D>, (), step),
    ensures
        step == Step::<D>::Call(Request::Reset),
{
}

/// The backend is asked to create the tenant that the client names.
pub proof fn create_tenant_asks<D: DataModel>(
    request: CreateTenantRequest,
    step: Step<D>,
)
    requires
        call_ensures(handlers::create_tenant::<D>, (request,), step),
    ensures
        step == Step::<D>::Call(Request::CreateTenant(request)),
{
}

/// The backend is asked for the tenant that the client names.
pub proof fn get_tenant_asks<D: DataModel>(
    name: String,
    step: Step<D>,
)
    requires
        call_ensures(handlers::get_tenant::<D>, (name,), step),
    ensures
        step == Step::<D>::Call(Request::GetTenant(GetTenantRequest { name })),
{
}

/// The backend is asked to create the database under the given id.
pub proof fn create_database_with_id_asks<D: DataModel>(
    database_id: DatabaseUuid,
    tenant_id: String,
    payload: CreateDatabasePayload,
    step: Step<D>,
)
    requires
        call_ensures(
            handlers::create_database_with_id::<D>,
            (database_id, tenant_id, payload),
            step,
        ),
    ensures
        step == Step::<D>::Call(
            Request::CreateDatabase(
                CreateDatabaseRequest { database_id, tenant_id, database_name: payload.name },
            ),
        ),
{
}

/// The backend is asked for the databases of the tenant, with the limit and the
/// offset of the client.
pub proof fn list_databases_asks<D: DataModel>(
    tenant_id: String,
    payload: ListDatabasesPayload,
    step: Step<D>,
)
    requires
        call_ensures(handlers::list_databases::<D>, (tenant_id, payload), step),
    ensures
        step == Step::<D>::Call(
            Request::ListDatabases(
                ListDatabasesRequest { tenant_id, limit: payload.limit, offset: payload.offset },
            ),
        ),
{
}

/// The backend is asked for the database that the client names.
pub proof fn get_database_asks<D: DataModel>(
    tenant_id: String,
    database_name: String,
    step: Step<D>,
)
    requires
        call_ensures(handlers::get_database::<D>, (tenant_id, database_name), step),
    ensures
        step == Step::<D>::Call(
            Request::GetDatabase(GetDatabaseRequest { tenant_id, database_name }),
        ),
{
}

/// The backend is asked to delete the database that the client names.
pub proof fn delete_database_asks<D: DataModel>(
    tenant_id: String,
    database_name: String,
    step: Step<D>,
)
    requires
        call_ensures(handlers::delete_database::<D>, (tenant_id, database_name), step),
    ensures
        step == Step::<D>::Call(
            Request::DeleteDatabase(DeleteDatabaseRequest { tenant_id, database_name }),
        ),
{
}

/// The backend is asked for the collections of the database, with the limit and the
/// offset of the client.
pub proof fn list_collections_asks<D: DataModel>(
    tenant_id: String,
    database_name: String,
    params: ListCollectionsParams,
    step: Step<D>,
)
    requires
        call_ensures(handlers::list_collections::<D>, (tenant_id, database_name, params), step),
    ensures
        step == Step::<D>::Call(
            Request::ListCollections(
                ListCollectionsRequest {
                    tenant_id,
                    database_name,
                    limit: params.limit,
                    offset: params.offset,
                },
            ),
        ),
{
}

/// The backend is asked for the number of collections of the database.
pub proof fn count_collections_asks<D: DataModel>(
    tenant_id: String,
    database_name: String,
    step: Step<D>,
)
    requires
        call_ensures(handlers::count_collections::<D>, (tenant_id, database_name), step),
    ensures
        step == Step::<D>::Call(
            Request::CountCollections(CountCollectionsRequest { tenant_id, database_name }),
        ),
{
}

/// The backend is asked for the collection that the client names.
pub proof fn get_collection_asks<D: DataModel>(
    tenant_id: String,
    database_name: String,
    collection_name: String,
    step: Step<D>,
)
    requires
        call_ensures(
            handlers::get_collection::<D>,
            (tenant_id, database_name, collection_name),
            step,
        ),
    ensures
        step == Step::<D>::Call(
            Request::GetCollection(
                GetCollectionRequest { tenant_id, database_name, collection_name },
            ),
        ),
{
}

/// The backend is asked to delete the collection that the client names.
pub proof fn delete_collection_asks<D: DataModel>(
    tenant_id: String,
    database_name: String,
    collection_name: String,
    step: Step<D>,
)
    requires
        call_ensures(
            handlers::delete_collection::<D>,
            (tenant_id, database_name, collection_name),
            step,
        ),
    ensures
        step == Step::<D>::Call(
            Request::DeleteCollection(
                DeleteCollectionRequest { tenant_id, database_name, collection_name },
            ),
        ),
{
}

/// Where a check fails, the client is told what it reported, and nothing else is
/// done.
pub proof fn failed_check_ends_the_exchange<D: DataModel>(
    pending: PendingCheck<D>,
    error: D::Error,
    step: Step<D>,
)
    requires
        call_ensures(PendingCheck::<D>::resume, (pending, Err(error)), step),
    ensures
        step == Step::<D>::Done(Err(ServerError::Reported(error))),
{
}

/// Where a condition cannot be read, the client is told what was reported, and
/// nothing else is done.
pub proof fn unreadable_condition_ends_the_exchange<D: DataModel>(
    pending: PendingWhere<D>,
    error: D::Error,
    step: Step<D>,
)
    requires
        call_ensures(PendingWhere::<D>::resume, (pending, Err(error)), step),
    ensures
        step == Step::<D>::Done(Err(ServerError::Reported(error))),
{
}

/// The client is told the error that the backend reports. It is given the response
/// as it came, but for a reset, which is answered `true`, and for the update and the
/// deletion of a collection and the deletion of records, whose answer is empty.
pub proof fn backend_reply_is_told<D: DataModel>(
    request: Request<D>,
    answering: Answering,
    reply: Result<D::Response, D::Error>,
    outcome: Outcome<D::Response, D::Error>,
)
    requires
        call_ensures(Request::<D>::answering, (&request,), answering),
        call_ensures(Answering::conclude::<D::Response, D::Error>, (answering, reply), outcome),
    ensures
        outcome == match reply {
            Err(error) => Err::<Answer<D::Response>, ServerError<D::Error>>(
                ServerError::Reported(error),
            ),
            Ok(response) => Ok(
                match request {
                    Request::Reset => Answer::Reset(true),
                    Request::UpdateCollection(_) | Request::DeleteCollection(_) => {
                        Answer::UpdateCollection(UpdateCollectionResponse {  })
                    },
                    Request::Delete(_) => Answer::DeleteCollectionRecords(
                        DeleteCollectionRecordsResponse {  },
                    ),
                    _ => Answer::Response(response),
                },
            ),
        },
{
}

/// A collection is created only once its name passed the check. Without metadata the
/// backend is then asked for what the client sent.
pub proof fn created_collection_is_named_first<'a, D: DataModel>(
    tenant_id: String,
    database_name: String,
    payload: CreateCollectionPayload<D::Metadata>,
    step: Step<D>,
    check: Check<'a, D>,
    next: Step<D>,
)
    requires
        call_ensures(handlers::create_collection::<D>, (tenant_id, database_name, payload), step),
    ensures
        step is Check,
        call_ensures(PendingCheck::<D>::check, (&step->Check_0,), check) ==> (
        check matches Check::Name(name) && name@ == payload.name@),
        call_ensures(PendingCheck::<D>::resume, (step->Check_0, Ok(())), next)
            && payload.metadata is None ==> next == Step::<D>::Call(
                Request::CreateCollection(
                    CreateCollectionRequest {
                        name: payload.name,
                        tenant_id,
                        database_name,
                        metadata: None,
                        configuration_json: payload.configuration,
                        get_or_create: payload.get_or_create,
                    },
                ),
        ),
{
}

/// With metadata, a collection is created only once the metadata passed its check
/// too, and the backend is then asked for what the client sent.
pub proof fn created_metadata_is_checked<'a, D: DataModel>(
    tenant_id: String,
    database_name: String,
    payload: CreateCollectionPayload<D::Metadata>,
    first: Step<D>,
    second: Step<D>,
    check: Check<'a, D>,
    third: Step<D>,
)
    requires
        call_ensures(handlers::create_collection::<D>, (tenant_id, database_name, payload), first),
        payload.metadata is Some,
        call_ensures(PendingCheck::<D>::resume, (first->Check_0, Ok(())), second),
    ensures
        second is Check,
        call_ensures(PendingCheck::<D>::check, (&second->Check_0,), check) ==> (
        check matches Check::Metadata(metadata) && *metadata == payload.metadata->0),
        call_ensures(PendingCheck::<D>::resume, (second->Check_0, Ok(())), third)
            ==> third == Step::<D>::Call(
                Request::CreateCollection(
                    CreateCollectionRequest {
                        name: payload.name,
                        tenant_id,
                        database_name,
                        metadata: payload.metadata,
                        configuration_json: payload.configuration,
                        get_or_create: payload.get_or_create,
                    },
                ),
        ),
{
}

/// The new name of a collection is checked before anything else. Only then is an id
/// that spells no UUID refused.
pub proof fn new_name_is_checked_first<'a, D: DataModel>(
    tenant_id: String,
    database_name: String,
    collection_id: String,
    payload: UpdateCollectionPayload<D::UpdateMetadata>,
    step: Step<D>,
    check: Check<'a, D>,
    next: Step<D>,
)
    requires
        call_ensures(
            handlers::update_collection::<D>,
            (tenant_id, database_name, collection_id, payload),
            step,
        ),
        payload.new_name is Some,
    ensures
        step is Check,
        call_ensures(PendingCheck::<D>::check, (&step->Check_0,), check) ==> (
        check matches Check::Name(name) && name@ == payload.new_name->0@),
        call_ensures(PendingCheck::<D>::resume, (step->Check_0, Ok(())), next) ==> {
            &&& ids::is_uuid(collection_id@) ==> next !is Done
            &&& !ids::is_uuid(collection_id@) ==> next == Step::<D>::Done(
                Err(ServerError::Validation(ValidationError::CollectionId)),
            )
        },
{
}

/// Where a collection gets no new name, an id that spells no UUID is refused at
/// once, and no other is.
pub proof fn update_without_a_new_name_reads_the_id<D: DataModel>(
    tenant_id: String,
    database_name: String,
    collection_id: String,
    payload: UpdateCollectionPayload<D::UpdateMetadata>,
    step: Step<D>,
)
    requires
        call_ensures(
            handlers::update_collection::<D>,
            (tenant_id, database_name, collection_id, payload),
            step,
        ),
        payload.new_name is None,
    ensures
        ids::is_uuid(collection_id@) ==> step !is Done,
        !ids::is_uuid(collection_id@) ==> step == Step::<D>::Done(
            Err(ServerError::Validation(ValidationError::CollectionId)),
        ),
{
}

/// The new metadata of a collection is checked after its name and its id. The
/// backend is then asked for the new name and the new metadata that the client sent.
pub proof fn new_metadata_is_checked_last<'a, D: DataModel>(
    tenant_id: String,
    database_name: String,
    collection_id: String,
    payload: UpdateCollectionPayload<D::UpdateMetadata>,
    step: Step<D>,
    named: Step<D>,
    check: Check<'a, D>,
    last: Step<D>,
)
    requires
        call_ensures(
            handlers::update_collection::<D>,
            (tenant_id, database_name, collection_id, payload),
            step,
        ),
        ids::is_uuid(collection_id@),
        match payload.new_name {
            Some(_) => call_ensures(PendingCheck::<D>::resume, (step->Check_0, Ok(())), named),
            None => named == step,
        },
    ensures
        payload.new_metadata is None ==> named == Step::<D>::Call(
            Request::UpdateCollection(
                UpdateCollectionRequest {
                    collection_id: CollectionUuid(ids::uuid_number(collection_id@) as u128),
                    new_name: payload.new_name,
                    new_metadata: None,
                },
            ),
        ),
        payload.new_metadata is Some ==> {
            &&& named is Check
            &&& call_ensures(PendingCheck::<D>::check, (&named->Check_0,), check) ==> (
            check matches Check::UpdateMetadata(metadata) && *metadata == payload.new_metadata->0)
            &&& call_ensures(PendingCheck::<D>::resume, (named->Check_0, Ok(())), last) ==> last
                == Step::<D>::Call(
                Request::UpdateCollection(
                    UpdateCollectionRequest {
                        collection_id: CollectionUuid(ids::uuid_number(collection_id@) as u128),
                        new_name: payload.new_name,
                        new_metadata: Some(
                            CollectionMetadataUpdate::UpdateMetadata(payload.new_metadata->0),
                        ),
                    },
                ),
            )
        },
{
}

/// Records are added only under an id that spells a UUID, and only once their
/// embeddings passed the check against that collection. The backend is then asked for
/// what the client sent.
pub proof fn added_embeddings_are_checked<'a, D: DataModel>(
    tenant_id: String,
    database_name: String,
    collection_id: String,
    payload: AddCollectionRecordsPayload<D::Embeddings, D::Metadata>,
    step: Step<D>,
    check: Check<'a, D>,
    next: Step<D>,
)
    requires
        call_ensures(
            handlers::collection_add::<D>,
            (tenant_id, database_name, collection_id, payload),
            step,
        ),
    ensures
        !ids::is_uuid(collection_id@) ==> step == Step::<D>::Done(
            Err(ServerError::Validation(ValidationError::CollectionId)),
        ),
        ids::is_uuid(collection_id@) ==> {
            &&& step is Check
            &&& call_ensures(PendingCheck::<D>::check, (&step->Check_0,), check) ==> (
            check matches Check::Embeddings {
                collection_id: checked_id,
                embeddings,
                update_if_not_present,
            } && {
                &&& checked_id.0 == ids::uuid_number(collection_id@)
                &&& update_if_not_present
                &&& embeddings is Some <==> payload.embeddings is Some
                &&& embeddings is Some ==> *embeddings->0 == payload.embeddings->0
            })
            &&& call_ensures(PendingCheck::<D>::resume, (step->Check_0, Ok(())), next) ==> next
                == Step::<D>::Call(
                Request::Add(
                    AddCollectionRecordsRequest {
                        tenant_id,
                        database_name,
                        collection_id: CollectionUuid(ids::uuid_number(collection_id@) as u128),
                        ids: payload.ids,
                        embeddings: payload.embeddings,
                        documents: payload.documents,
                        uris: payload.uris,
                        metadatas: payload.metadatas,
                    },
                ),
            )
        },
{
    if ids::is_uuid(collection_id@) {
        ids::uuid_number_fits(collection_id@);
    }
}

/// Records are updated only under an id that spells a UUID, and only once their
/// embeddings passed the check against that collection. The backend is then asked for
/// what the client sent.
pub proof fn updated_embeddings_are_checked<'a, D: DataModel>(
    tenant_id: String,
    database_name: String,
    collection_id: String,
    payload: UpdateCollectionRecordsPayload<D::Embeddings, D::UpdateMetadata>,
    step: Step<D>,
    check: Check<'a, D>,
    next: Step<D>,
)
    requires
        call_ensures(
            handlers::collection_update::<D>,
            (tenant_id, database_name, collection_id, payload),
            step,
        ),
    ensures
        !ids::is_uuid(collection_id@) ==> step == Step::<D>::Done(
            Err(ServerError::Validation(ValidationError::CollectionId)),
        ),
        ids::is_uuid(collection_id@) ==> {
            &&& step is Check
            &&& call_ensures(PendingCheck::<D>::check, (&step->Check_0,), check) ==> (
            check matches Check::Embeddings {
                collection_id: checked_id,
                embeddings,
                update_if_not_present,
            } && {
                &&& checked_id.0 == ids::uuid_number(collection_id@)
                &&& update_if_not_present
                &&& embeddings is Some <==> payload.embeddings is Some
                &&& embeddings is Some ==> *embeddings->0 == payload.embeddings->0
            })
            &&& call_ensures(PendingCheck::<D>::resume, (step->Check_0, Ok(())), next) ==> next
                == Step::<D>::Call(
                Request::Update(
                    UpdateCollectionRecordsRequest {
                        tenant_id,
                        database_name,
                        collection_id: CollectionUuid(ids::uuid_number(collection_id@) as u128),
                        ids: payload.ids,
                        embeddings: payload.embeddings,
                        documents: payload.documents,
                        uris: payload.uris,
                        metadatas: payload.metadatas,
                    },
                ),
            )
        },
{
    if ids::is_uuid(collection_id@) {
        ids::uuid_number_fits(collection_id@);
    }
}

/// Records are upserted only under an id that spells a UUID, and only once their
/// embeddings passed the check against that collection. The backend is then asked for
/// what the client sent.
pub proof fn upserted_embeddings_are_checked<'a, D: DataModel>(
    tenant_id: String,
    database_name: String,
    collection_id: String,
    payload: UpsertCollectionRecordsPayload<D::Embeddings, D::UpdateMetadata>,
    step: Step<D>,
    check: Check<'a, D>,
    next: Step<D>,
)
    requires
        call_ensures(
            handlers::collection_upsert::<D>,
            (tenant_id, database_name, collection_id, payload),
            step,
        ),
    ensures
        !ids::is_uuid(collection_id@) ==> step == Step::<D>::Done(
            Err(ServerError::Validation(ValidationError::CollectionId)),
        ),
        ids::is_uuid(collection_id@) ==> {
            &&& step is Check
            &&& call_ensures(PendingCheck::<D>::check, (&step->Check_0,), check) ==> (
            check matches Check::Embeddings {
                collection_id: checked_id,
                embeddings,
                update_if_not_present,
            } && {
                &&& checked_id.0 == ids::uuid_number(collection_id@)
                &&& update_if_not_present
                &&& embeddings is Some <==> payload.embeddings is Some
                &&& embeddings is Some ==> *embeddings->0 == payload.embeddings->0
            })
            &&& call_ensures(PendingCheck::<D>::resume, (step->Check_0, Ok(())), next) ==> next
                == Step::<D>::Call(
                Request::Upsert(
                    UpsertCollectionRecordsRequest {
                        tenant_id,
                        database_name,
                        collection_id: CollectionUuid(ids::uuid_number(collection_id@) as u128),
                        ids: payload.ids,
                        embeddings: payload.embeddings,
                        documents: payload.documents,
                        uris: payload.uris,
                        metadatas: payload.metadatas,
                    },
                ),
            )
        },
{
    if ids::is_uuid(collection_id@) {
        ids::uuid_number_fits(collection_id@);
    }
}

/// Records are deleted only under an id that spells a UUID, once the condition is
/// read and the filter that it makes with the ids passed its check. The backend is
/// then asked to delete by that filter.
pub proof fn deleted_records_are_selected<'a, D: DataModel>(
    tenant_id: String,
    database_name: String,
    collection_id: String,
    payload: DeleteCollectionRecordsPayload<D::RawWhereFields>,
    step: Step<D>,
    where_clause: D::Where,
    second: Step<D>,
    check: Check<'a, D>,
    third: Step<D>,
)
    requires
        call_ensures(
            handlers::collection_delete::<D>,
            (tenant_id, database_name, collection_id, payload),
            step,
        ),
    ensures
        !ids::is_uuid(collection_id@) ==> step == Step::<D>::Done(
            Err(ServerError::Validation(ValidationError::CollectionId)),
        ),
        ids::is_uuid(collection_id@) ==> {
            &&& step is ReadWhere
            &&& step->ReadWhere_0 == payload.where_fields
            &&& call_ensures(
                PendingWhere::<D>::resume,
                (step->ReadWhere_1, Ok(where_clause)),
                second,
            ) ==> {
                &&& second is Check
                &&& call_ensures(PendingCheck::<D>::check, (&second->Check_0,), check) ==> (
                check matches Check::Filter { query_ids, where_clause: filter } && *query_ids
                    == payload.ids && *filter == where_clause)
                &&& call_ensures(PendingCheck::<D>::resume, (second->Check_0, Ok(())), third)
                    ==> third == Step::<D>::Call(
                    Request::Delete(
                        DeleteCollectionRecordsRequest {
                            tenant_id,
                            database_name,
                            collection_id: CollectionUuid(ids::uuid_number(collection_id@) as u128),
                            ids: payload.ids,
                            where_clause,
                        },
                    ),
                )
            }
        },
{
    if ids::is_uuid(collection_id@) {
        ids::uuid_number_fits(collection_id@);
    }
}

/// Records are counted under every id that spells a UUID, and under no other.
pub proof fn counted_collection_is_known<D: DataModel>(
    tenant_id: String,
    database_name: String,
    collection_id: String,
    step: Step<D>,
)
    requires
        call_ensures(
            handlers::collection_count::<D>,
            (tenant_id, database_name, collection_id),
            step,
        ),
    ensures
        !ids::is_uuid(collection_id@) ==> step == Step::<D>::Done(
            Err(ServerError::Validation(ValidationError::CollectionId)),
        ),
        ids::is_uuid(collection_id@) ==> step == Step::<D>::Call(
            Request::Count(
                CountRequest {
                    tenant_id,
                    database_name,
                    collection_id: CollectionUuid(ids::uuid_number(collection_id@) as u128),
                },
            ),
        ),
{
}

/// Records are gotten only under an id that spells a UUID, once the condition is
/// read. The backend is then asked for what the client sent, from the first record on
/// where the client names no offset.
pub proof fn gotten_records_are_selected<D: DataModel>(
    tenant_id: String,
    database_name: String,
    collection_id: String,
    payload: GetRequestPayload<D::RawWhereFields, D::IncludeList>,
    step: Step<D>,
    where_clause: D::Where,
    next: Step<D>,
)
    requires
        call_ensures(
            handlers::collection_get::<D>,
            (tenant_id, database_name, collection_id, payload),
            step,
        ),
    ensures
        !ids::is_uuid(collection_id@) ==> step == Step::<D>::Done(
            Err(ServerError::Validation(ValidationError::CollectionId)),
        ),
        ids::is_uuid(collection_id@) ==> {
            &&& step is ReadWhere
            &&& step->ReadWhere_0 == payload.where_fields
            &&& call_ensures(
                PendingWhere::<D>::resume,
                (step->ReadWhere_1, Ok(where_clause)),
                next,
            ) ==> next == Step::<D>::Call(
                Request::Get(
                    GetRequest {
                        tenant_id,
                        database_name,
                        collection_id: CollectionUuid(ids::uuid_number(collection_id@) as u128),
                        ids: payload.ids,
                        where_clause,
                        limit: payload.limit,
                        offset: match payload.offset {
                            Some(offset) => offset,
                            None => 0,
                        },
                        include_list: payload.include_list,
                    },
                ),
            )
        },
{
    if ids::is_uuid(collection_id@) {
        ids::uuid_number_fits(collection_id@);
    }
}

/// A query is made only under an id that spells a UUID, once its embeddings passed
/// the check against that collection and its condition is read. The backend is then
/// asked for what the client sent, and for ten results where the client names no
/// number.
pub proof fn queried_embeddings_are_checked<'a, D: DataModel>(
    tenant_id: String,
    database_name: String,
    collection_id: String,
    payload: QueryRequestPayload<D::RawWhereFields, D::Embeddings, D::IncludeList>,
    step: Step<D>,
    check: Check<'a, D>,
    second: Step<D>,
    where_clause: D::Where,
    third: Step<D>,
)
    requires
        call_ensures(
            handlers::collection_query::<D>,
            (tenant_id, database_name, collection_id, payload),
            step,
        ),
    ensures
        !ids::is_uuid(collection_id@) ==> step == Step::<D>::Done(
            Err(ServerError::Validation(ValidationError::CollectionId)),
        ),
        ids::is_uuid(collection_id@) ==> {
            &&& step is Check
            &&& call_ensures(PendingCheck::<D>::check, (&step->Check_0,), check) ==> (
            check matches Check::Embeddings {
                collection_id: checked_id,
                embeddings,
                update_if_not_present,
            } && {
                &&& checked_id.0 == ids::uuid_number(collection_id@)
                &&& update_if_not_present
                &&& embeddings is Some
                &&& *embeddings->0 == payload.query_embeddings
            })
            &&& call_ensures(PendingCheck::<D>::resume, (step->Check_0, Ok(())), second) ==> {
                &&& second is ReadWhere
                &&& second->ReadWhere_0 == payload.where_fields
                &&& call_ensures(
                    PendingWhere::<D>::resume,
                    (second->ReadWhere_1, Ok(where_clause)),
                    third,
                ) ==> third == Step::<D>::Call(
                    Request::Query(
                        QueryRequest {
                            tenant_id,
                            database_name,
                            collection_id: CollectionUuid(ids::uuid_number(collection_id@) as u128),
                            ids: payload.ids,
                            where_clause,
                            include_list: payload.include_list,
                            embeddings: payload.query_embeddings,
                            n_results: match payload.n_results {
                                Some(n_results) => n_results,
                                None => 10,
                            },
                        },
                    ),
                )
            }
        },
{
    if ids::is_uuid(collection_id@) {
        ids::uuid_number_fits(collection_id@);
    }
}

/// A server holds the configuration and the backend that it was made of.
pub proof fn server_is_what_it_is_made_of<B, F>(
    config: FrontendConfig<B>,
    frontend: F,
    server: FrontendServer<B, F>,
)
    requires
        call_ensures(FrontendServer::<B, F>::new, (config, frontend), server),
    ensures
        server == (FrontendServer { config, frontend }),
{
}

/// A launch keeps the server as it is, listens on port 3000 of every address, lets
/// requests through the circuit breaker exactly where it is enabled, and has one route
/// to each handler.
pub proof fn launch_serves_every_handler<B, F>(
    server: FrontendServer<B, F>,
    launch: Launch<B, F>,
    endpoint: Endpoint,
)
    requires
        call_ensures(FrontendServer::<B, F>::run, (server,), launch),
    ensures
        launch.server == server,
        launch.address@ == "0.0.0.0:3000"@,
        launch.admission_controlled == server.config.circuit_breaker.enabled,
        launch.routes@.len() == 25,
        exists|i: int|
            0 <= i < launch.routes@.len() && (#[trigger] launch.routes@[i]).endpoint == endpoint,
        forall|i: int, j: int|
            0 <= i < j < launch.routes@.len() ==> (#[trigger] launch.routes@[i]).endpoint != (
            #[trigger] launch.routes@[j]).endpoint,
        forall|i: int|
            0 <= i < launch.routes@.len() ==> {
                &&& (#[trigger] launch.routes@[i]).path@ == routes::path_of(
                    launch.routes@[i].endpoint.segments(),
                )
                &&& launch.routes@[i].method == launch.routes@[i].endpoint.by_method()
            },
{
    routes::every_endpoint_has_one_route(endpoint);
    let k = choose|k: int|
        0 <= k < routes::all_endpoints().len() && #[trigger] routes::all_endpoints()[k]
            == endpoint;
    assert(launch.routes@[k].endpoint == endpoint);
    assert forall|i: int| 0 <= i < launch.routes@.len() implies {
        &&& (#[trigger] launch.routes@[i]).path@ == routes::path_of(
            launch.routes@[i].endpoint.segments(),
        )
        &&& launch.routes@[i].method == launch.routes@[i].endpoint.by_method()
    } by {
        assert(launch.routes@[i].leads_to(routes::all_endpoints()[i]));
        routes::path_has_its_segments(launch.routes@[i].endpoint);
    }
    assert forall|i: int, j: int| 0 <= i < j < launch.routes@.len() implies (
    #[trigger] launch.routes@[i]).endpoint != (#[trigger] launch.routes@[j]).endpoint by {
        assert(launch.routes@[i].leads_to(routes::all_endpoints()[i]));
        assert(launch.routes@[j].leads_to(routes::all_endpoints()[j]));
    }
}

/// A circuit breaker says that it is enabled exactly where its configuration does.
pub proof fn circuit_breaker_says_whether_it_is_enabled<B>(
    config: CircuitBreakerConfig<B>,
    enabled: bool,
)
    requires
        call_ensures(CircuitBreakerConfig::<B>::enabled, (&config,), enabled),
    ensures
        enabled == config.enabled,
{
}

/// The route to a handler has the path that its segments make, and its method.
pub proof fn handler_has_its_route(
    endpoint: Endpoint,
    path: &'static str,
    method: Method,
    route: Route,
)
    requires
        call_ensures(Endpoint::path, (endpoint,), path),
        call_ensures(Endpoint::method, (endpoint,), method),
        call_ensures(Endpoint::route, (endpoint,), route),
    ensures
        path@ == routes::path_of(endpoint.segments()),
        route.path@ == path@,
        route.method == method,
        route.endpoint == endpoint,
{
    routes::path_has_its_segments(endpoint);
}

} // verus!
