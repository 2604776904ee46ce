//! What holds of whole exchanges.
//!
//! A [`World`] is one way in which the outside may behave. [`Step::exchange`] is
//! what comes to pass from a step on in such a world: what the outside is asked
//! for, in order, and what the client is told in the end. The laws hold in every
//! world.
use vstd::prelude::*;

use crate::exchange::{Outcome, PendingCheck, PendingWhere, Step, Subject};
use crate::handlers;
use crate::ids::{CollectionUuid, DatabaseUuid, ValidationError};
use crate::model::{DataModel, ServerError};
use crate::payloads::{
    AddCollectionRecordsPayload, CreateCollectionPayload, CreateDatabasePayload,
    DeleteCollectionRecordsPayload, GetRequestPayload, ListCollectionsParams, ListDatabasesPayload,
    QueryRequestPayload, UpdateCollectionPayload, UpdateCollectionRecordsPayload,
    UpsertCollectionRecordsPayload,
};
use crate::requests::{
    AddCollectionRecordsRequest, Answer, CollectionMetadataUpdate, CountCollectionsRequest,
    CountRequest, CreateCollectionRequest, CreateDatabaseRequest, CreateTenantRequest,
    DeleteCollectionRecordsRequest, DeleteCollectionRecordsResponse, DeleteCollectionRequest,
    DeleteDatabaseRequest, GetCollectionRequest, GetDatabaseRequest, GetRequest, GetTenantRequest,
    ListCollectionsRequest, ListDatabasesRequest, QueryRequest, Request,
    UpdateCollectionRecordsRequest, UpdateCollectionRequest, UpdateCollectionResponse,
    UpsertCollectionRecordsRequest,
};

verus! {

/// A way in which the outside may behave.
#[verifier::reject_recursive_types(D)]
pub struct World<D: DataModel> {
    /// The verdict of each check.
    pub checks: spec_fn(Subject<D>) -> Result<(), D::Error>,
    /// The condition that fields are read as.
    pub conditions: spec_fn(D::RawWhereFields) -> Result<D::Where, D::Error>,
    /// The reply of the backend to each request.
    pub backend: spec_fn(Request<D>) -> Result<D::Response, D::Error>,
}

/// One thing that the outside is asked for.
pub enum Action<D: DataModel> {
    Check(Subject<D>),
    ReadWhere(D::RawWhereFields),
    Call(Request<D>),
}

/// What comes to pass: the actions, in order, and what the client is told.
pub struct Exchange<D: DataModel> {
    pub actions: Seq<Action<D>>,
    pub outcome: Outcome<D::Response, D::Error>,
}

impl<D: DataModel> World<D> {
    /// The error that an action reports in this world, if it reports one.
    pub open spec fn error_of(self, action: Action<D>) -> Option<D::Error> {
        match action {
            Action::Check(subject) => match (self.checks)(subject) {
                Ok(_) => None,
                Err(error) => Some(error),
            },
            Action::ReadWhere(fields) => match (self.conditions)(fields) {
                Ok(_) => None,
                Err(error) => Some(error),
            },
            Action::Call(request) => match (self.backend)(request) {
                Ok(_) => None,
                Err(error) => Some(error),
            },
        }
    }
}

impl<D: DataModel> World<D> {
    /// The exchange that only asks the backend.
    pub open spec fn asked(self, request: Request<D>) -> Exchange<D> {
        Exchange {
            actions: seq![Action::Call(request)],
            outcome: request.answered().outcome((self.backend)(request)),
        }
    }

    /// The exchange that starts with `action`, and goes on as `rest` unless the
    /// action reports an error, which the client is then told.
    pub open spec fn guarded(self, action: Action<D>, rest: Exchange<D>) -> Exchange<D> {
        match self.error_of(action) {
            Some(error) => Exchange {
                actions: seq![action],
                outcome: Err(ServerError::Reported(error)),
            },
            None => rest.preceded_by(action),
        }
    }
}

impl<D: DataModel> Exchange<D> {
    /// The exchange that asks for nothing and refuses the collection id.
    pub open spec fn bad_collection_id() -> Exchange<D> {
        Exchange {
            actions: seq![],
            outcome: Err(ServerError::Validation(ValidationError::CollectionId)),
        }
    }

    /// The exchange that an action comes before.
    pub open spec fn preceded_by(self, action: Action<D>) -> Exchange<D> {
        Exchange { actions: seq![action] + self.actions, outcome: self.outcome }
    }
}

impl<D: DataModel> PendingCheck<D> {
    /// How many actions may still come, this check counted.
    pub open spec fn actions_left(self) -> nat {
        match self {
            PendingCheck::CreateCollectionName { .. } => 3,
            PendingCheck::UpdateCollectionName { .. } => 3,
            PendingCheck::Query { .. } => 3,
            _ => 2,
        }
    }
}

impl<D: DataModel> PendingWhere<D> {
    /// How many actions may still come, the reading of the condition counted.
    pub open spec fn actions_left(self) -> nat {
        match self {
            PendingWhere::Delete { .. } => 3,
            _ => 2,
        }
    }
}

impl<D: DataModel> Step<D> {
    /// How many actions may still come.
    pub open spec fn actions_left(self) -> nat {
        match self {
            Step::Check(pending) => pending.actions_left(),
            Step::ReadWhere(_, pending) => pending.actions_left(),
            Step::Call(_) => 1,
            Step::Done(_) => 0,
        }
    }

    /// What comes to pass from this step on in a world.
    pub open spec fn exchange(self, world: World<D>) -> Exchange<D>
        decreases self.actions_left(),
    {
        match self {
            Step::Check(pending) => pending.after((world.checks)(pending.subject())).exchange(
                world,
            ).preceded_by(Action::Check(pending.subject())),
            Step::ReadWhere(fields, pending) => pending.after((world.conditions)(fields)).exchange(
                world,
            ).preceded_by(Action::ReadWhere(fields)),
            Step::Call(request) => Exchange {
                actions: seq![Action::Call(request)],
                outcome: request.answered().outcome((world.backend)(request)),
            },
            Step::Done(outcome) => Exchange { actions: seq![], outcome },
        }
    }
}

/// An exchange takes no more than three actions.
pub proof fn exchange_is_short<D: DataModel>(step: Step<D>, world: World<D>)
    ensures
        step.exchange(world).actions.len() <= step.actions_left() <= 3,
    decreases step.actions_left(),
{
    match step {
        Step::Check(pending) => {
            exchange_is_short(pending.after((world.checks)(pending.subject())), world);
        },
        Step::ReadWhere(fields, pending) => {
            exchange_is_short(pending.after((world.conditions)(fields)), world);
        },
        _ => {},
    }
}

/// The backend is asked at most once, and nothing is done after.
pub proof fn backend_is_asked_last<D: DataModel>(step: Step<D>, world: World<D>, i: int)
    requires
        0 <= i < step.exchange(world).actions.len(),
        step.exchange(world).actions[i] is Call,
    ensures
        i == step.exchange(world).actions.len() - 1,
    decreases step.actions_left(),
{
    match step {
        Step::Check(pending) => {
            let next = pending.after((world.checks)(pending.subject()));
            backend_is_asked_last(next, world, i - 1);
        },
        Step::ReadWhere(fields, pending) => {
            let next = pending.after((world.conditions)(fields));
            backend_is_asked_last(next, world, i - 1);
        },
        _ => {},
    }
}

/// The first error ends an exchange: nothing is done after it, and the client is
/// told of that error.
pub proof fn first_error_is_final<D: DataModel>(step: Step<D>, world: World<D>, i: int)
    requires
        0 <= i < step.exchange(world).actions.len(),
        world.error_of(step.exchange(world).actions[i]) is Some,
    ensures
        i == step.exchange(world).actions.len() - 1,
        step.exchange(world).outcome == Err::<Answer<D::Response>, ServerError<D::Error>>(
            ServerError::Reported(world.error_of(step.exchange(world).actions[i])->0),
        ),
    decreases step.actions_left(),
{
    reveal_with_fuel(Step::exchange, 2);
    match step {
        Step::Check(pending) => {
            let next = pending.after((world.checks)(pending.subject()));
            if i > 0 {
                first_error_is_final(next, world, i - 1);
            }
        },
        Step::ReadWhere(fields, pending) => {
            let next = pending.after((world.conditions)(fields));
            if i > 0 {
                first_error_is_final(next, world, i - 1);
            }
        },
        _ => {},
    }
}

/// A client is told of an error only where the last action reported it.
pub proof fn reported_error_occurred<D: DataModel>(step: Step<D>, world: World<D>, error: D::Error)
    requires
        step !is Done,
        step.exchange(world).outcome == Err::<Answer<D::Response>, ServerError<D::Error>>(
            ServerError::Reported(error),
        ),
    ensures
        step.exchange(world).actions.len() > 0,
        world.error_of(step.exchange(world).actions.last()) == Some(error),
    decreases step.actions_left(),
{
    reveal_with_fuel(Step::exchange, 2);
    match step {
        Step::Check(pending) => {
            let next = pending.after((world.checks)(pending.subject()));
            if next !is Done {
                reported_error_occurred(next, world, error);
                assert(step.exchange(world).actions.last() == next.exchange(world).actions.last());
            }
        },
        Step::ReadWhere(fields, pending) => {
            let next = pending.after((world.conditions)(fields));
            if next !is Done {
                reported_error_occurred(next, world, error);
                assert(step.exchange(world).actions.last() == next.exchange(world).actions.last());
            }
        },
        _ => {},
    }
}

/// A client gets an answer only from the backend: the last action is a request to
/// it, every action before passed, and the answer is made of its response.
pub proof fn answer_comes_from_the_backend<D: DataModel>(step: Step<D>, world: World<D>)
    requires
        step !is Done,
        step.exchange(world).outcome is Ok,
    ensures
        step.exchange(world).actions.len() > 0,
        step.exchange(world).actions.last() is Call,
        forall|i: int|
            0 <= i < step.exchange(world).actions.len() ==> world.error_of(
                #[trigger] step.exchange(world).actions[i],
            ) is None,
        ({
            let request = step.exchange(world).actions.last()->Call_0;
            &&& (world.backend)(request) is Ok
            &&& step.exchange(world).outcome->Ok_0 == request.answered().answer(
                (world.backend)(request)->Ok_0,
            )
        }),
    decreases step.actions_left(),
{
    reveal_with_fuel(Step::exchange, 2);
    match step {
        Step::Check(pending) => {
            let next = pending.after((world.checks)(pending.subject()));
            answer_comes_from_the_backend(next, world);
            assert(step.exchange(world).actions.last() == next.exchange(world).actions.last());
            assert forall|i: int|
                0 <= i < step.exchange(world).actions.len() implies world.error_of(
                #[trigger] step.exchange(world).actions[i],
            ) is None by {
                if i > 0 {
                    assert(step.exchange(world).actions[i] == next.exchange(world).actions[i - 1]);
                }
            }
        },
        Step::ReadWhere(fields, pending) => {
            let next = pending.after((world.conditions)(fields));
            answer_comes_from_the_backend(next, world);
            assert(step.exchange(world).actions.last() == next.exchange(world).actions.last());
            assert forall|i: int|
                0 <= i < step.exchange(world).actions.len() implies world.error_of(
                #[trigger] step.exchange(world).actions[i],
            ) is None by {
                if i > 0 {
                    assert(step.exchange(world).actions[i] == next.exchange(world).actions[i - 1]);
                }
            }
        },
        _ => {},
    }
}

/// The creation of a collection checks the name, then the metadata if there is
/// any, and then asks the backend for just what the client sent.
pub proof fn create_collection_exchange<D: DataModel>(
    tenant_id: String,
    database_name: String,
    payload: CreateCollectionPayload<D::Metadata>,
    world: World<D>,
)
    ensures
        ({
            let created = world.asked(
                Request::CreateCollection(
                    CreateCollectionRequest {
                        name: payload.name,
                        tenant_id,
                        database_name,
                        metadata: payload.metadata,
                        configuration_json: payload.configuration,
                        get_or_create: payload.get_or_create,
                    },
                ),
            );
            handlers::create_collection_step::<D>(tenant_id, database_name, payload).exchange(world)
                == world.guarded(
                Action::Check(Subject::Name(payload.name@)),
                match payload.metadata {
                    Some(metadata) => world.guarded(
                        Action::Check(Subject::Metadata(metadata)),
                        created,
                    ),
                    None => created,
                },
            )
        }),
{
    reveal_with_fuel(Step::exchange, 5);
}

/// The update of a collection checks the new name if there is one, refuses an id
/// that spells no UUID, checks the new metadata if there is any, and then asks the
/// backend.
pub proof fn update_collection_exchange<D: DataModel>(
    collection_id: String,
    payload: UpdateCollectionPayload<D::UpdateMetadata>,
    world: World<D>,
)
    ensures
        ({
            let after_name = if crate::ids::is_uuid(collection_id@) {
                let collection_id = CollectionUuid(crate::ids::uuid_number(collection_id@) as u128);
                match payload.new_metadata {
                    Some(metadata) => world.guarded(
                        Action::Check(Subject::UpdateMetadata(metadata)),
                        world.asked(
                            Request::UpdateCollection(
                                UpdateCollectionRequest {
                                    collection_id,
                                    new_name: payload.new_name,
                                    new_metadata: Some(
                                        CollectionMetadataUpdate::UpdateMetadata(metadata),
                                    ),
                                },
                            ),
                        ),
                    ),
                    None => world.asked(
                        Request::UpdateCollection(
                            UpdateCollectionRequest {
                                collection_id,
                                new_name: payload.new_name,
                                new_metadata: None,
                            },
                        ),
                    ),
                }
            } else {
                Exchange::bad_collection_id()
            };
            handlers::update_collection_step::<D>(collection_id, payload).exchange(world)
                == match payload.new_name {
                Some(name) => world.guarded(Action::Check(Subject::Name(name@)), after_name),
                None => after_name,
            }
        }),
{
    reveal_with_fuel(Step::exchange, 5);
}

/// The addition of records refuses an id that spells no UUID, checks the embeddings
/// against the collection, and then asks the backend for just what the client sent.
pub proof fn add_exchange<D: DataModel>(
    tenant_id: String,
    database_name: String,
    collection_id: String,
    payload: AddCollectionRecordsPayload<D::Embeddings, D::Metadata>,
    world: World<D>,
)
    ensures
        handlers::collection_add_step::<D>(
            tenant_id,
            database_name,
            collection_id,
            payload,
        ).exchange(world) == if crate::ids::is_uuid(collection_id@) {
            let collection_id = CollectionUuid(crate::ids::uuid_number(collection_id@) as u128);
            world.guarded(
                Action::Check(
                    Subject::Embeddings {
                        collection_id,
                        embeddings: payload.embeddings,
                        update_if_not_present: true,
                    },
                ),
                world.asked(
                    Request::Add(
                        AddCollectionRecordsRequest {
                            tenant_id,
                            database_name,
                            collection_id,
                            ids: payload.ids,
                            embeddings: payload.embeddings,
                            documents: payload.documents,
                            uris: payload.uris,
                            metadatas: payload.metadatas,
                        },
                    ),
                ),
            )
        } else {
            Exchange::bad_collection_id()
        },
{
    reveal_with_fuel(Step::exchange, 5);
}

/// The update of records refuses an id that spells no UUID, checks the embeddings
/// against the collection, and then asks the backend for just what the client sent.
pub proof fn update_exchange<D: DataModel>(
    tenant_id: String,
    database_name: String,
    collection_id: String,
    payload: UpdateCollectionRecordsPayload<D::Embeddings, D::UpdateMetadata>,
    world: World<D>,
)
    ensures
        handlers::collection_update_step::<D>(
            tenant_id,
            database_name,
            collection_id,
            payload,
        ).exchange(world) == if crate::ids::is_uuid(collection_id@) {
            let collection_id = CollectionUuid(crate::ids::uuid_number(collection_id@) as u128);
            world.guarded(
                Action::Check(
                    Subject::Embeddings {
                        collection_id,
                        embeddings: payload.embeddings,
                        update_if_not_present: true,
                    },
                ),
                world.asked(
                    Request::Update(
                        UpdateCollectionRecordsRequest {
                            tenant_id,
                            database_name,
                            collection_id,
                            ids: payload.ids,
                            embeddings: payload.embeddings,
                            documents: payload.documents,
                            uris: payload.uris,
                            metadatas: payload.metadatas,
                        },
                    ),
                ),
            )
        } else {
            Exchange::bad_collection_id()
        },
{
    reveal_with_fuel(Step::exchange, 5);
}

/// The upsert of records refuses an id that spells no UUID, checks the embeddings
/// against the collection, and then asks the backend for just what the client sent.
pub proof fn upsert_exchange<D: DataModel>(
    tenant_id: String,
    database_name: String,
    collection_id: String,
    payload: UpsertCollectionRecordsPayload<D::Embeddings, D::UpdateMetadata>,
    world: World<D>,
)
    ensures
        handlers::collection_upsert_step::<D>(
            tenant_id,
            database_name,
            collection_id,
            payload,
        ).exchange(world) == if crate::ids::is_uuid(collection_id@) {
            let collection_id = CollectionUuid(crate::ids::uuid_number(collection_id@) as u128);
            world.guarded(
                Action::Check(
                    Subject::Embeddings {
                        collection_id,
                        embeddings: payload.embeddings,
                        update_if_not_present: true,
                    },
                ),
                world.asked(
                    Request::Upsert(
                        UpsertCollectionRecordsRequest {
                            tenant_id,
                            database_name,
                            collection_id,
                            ids: payload.ids,
                            embeddings: payload.embeddings,
                            documents: payload.documents,
                            uris: payload.uris,
                            metadatas: payload.metadatas,
                        },
                    ),
                ),
            )
        } else {
            Exchange::bad_collection_id()
        },
{
    reveal_with_fuel(Step::exchange, 5);
}

/// The deletion of records refuses an id that spells no UUID, reads the condition,
/// checks the filter that it makes with the ids, and then asks the backend to delete
/// by that filter.
pub proof fn delete_exchange<D: DataModel>(
    tenant_id: String,
    database_name: String,
    collection_id: String,
    payload: DeleteCollectionRecordsPayload<D::RawWhereFields>,
    world: World<D>,
)
    ensures
        handlers::collection_delete_step::<D>(
            tenant_id,
            database_name,
            collection_id,
            payload,
        ).exchange(world) == if crate::ids::is_uuid(collection_id@) {
            let collection_id = CollectionUuid(crate::ids::uuid_number(collection_id@) as u128);
            {
                let where_clause = (world.conditions)(payload.where_fields)->Ok_0;
                world.guarded(
                    Action::ReadWhere(payload.where_fields),
                    world.guarded(
                        Action::Check(Subject::Filter { query_ids: payload.ids, where_clause }),
                        world.asked(
                            Request::Delete(
                                DeleteCollectionRecordsRequest {
                                    tenant_id,
                                    database_name,
                                    collection_id,
                                    ids: payload.ids,
                                    where_clause,
                                },
                            ),
                        ),
                    ),
                )
            }
        } else {
            Exchange::bad_collection_id()
        },
{
    reveal_with_fuel(Step::exchange, 5);
}

/// The count of records refuses an id that spells no UUID, and otherwise asks the
/// backend.
pub proof fn count_exchange<D: DataModel>(
    tenant_id: String,
    database_name: String,
    collection_id: String,
    world: World<D>,
)
    ensures
        handlers::collection_count_step::<D>(tenant_id, database_name, collection_id).exchange(
            world,
        ) == if crate::ids::is_uuid(collection_id@) {
            let collection_id = CollectionUuid(crate::ids::uuid_number(collection_id@) as u128);
            world.asked(
                Request::Count(CountRequest { tenant_id, database_name, collection_id }),
            )
        } else {
            Exchange::bad_collection_id()
        },
{
    reveal_with_fuel(Step::exchange, 5);
}

/// The retrieval of records refuses an id that spells no UUID, reads the condition,
/// and then asks the backend, from the first record on where the client names no
/// offset.
pub proof fn get_exchange<D: DataModel>(
    tenant_id: String,
    database_name: String,
    collection_id: String,
    payload: GetRequestPayload<D::RawWhereFields, D::IncludeList>,
    world: World<D>,
)
    ensures
        handlers::collection_get_step::<D>(
            tenant_id,
            database_name,
            collection_id,
            payload,
        ).exchange(world) == if crate::ids::is_uuid(collection_id@) {
            let collection_id = CollectionUuid(crate::ids::uuid_number(collection_id@) as u128);
            world.guarded(
                Action::ReadWhere(payload.where_fields),
                world.asked(
                    Request::Get(
                        GetRequest {
                            tenant_id,
                            database_name,
                            collection_id,
                            ids: payload.ids,
                            where_clause: (world.conditions)(payload.where_fields)->Ok_0,
                            limit: payload.limit,
                            offset: match payload.offset {
                                Some(offset) => offset,
                                None => 0,
                            },
                            include_list: payload.include_list,
                        },
                    ),
                ),
            )
        } else {
            Exchange::bad_collection_id()
        },
{
    reveal_with_fuel(Step::exchange, 5);
}

/// A query refuses an id that spells no UUID, checks the embeddings against the
/// collection, reads the condition, and then asks the backend, for ten results where
/// the client names no number.
pub proof fn query_exchange<D: DataModel>(
    tenant_id: String,
    database_name: String,
    collection_id: String,
    payload: QueryRequestPayload<D::RawWhereFields, D::Embeddings, D::IncludeList>,
    world: World<D>,
)
    ensures
        handlers::collection_query_step::<D>(
            tenant_id,
            database_name,
            collection_id,
            payload,
        ).exchange(world) == if crate::ids::is_uuid(collection_id@) {
            let collection_id = CollectionUuid(crate::ids::uuid_number(collection_id@) as u128);
            world.guarded(
                Action::Check(
                    Subject::Embeddings {
                        collection_id,
                        embeddings: Some(payload.query_embeddings),
                        update_if_not_present: true,
                    },
                ),
                world.guarded(
                    Action::ReadWhere(payload.where_fields),
                    world.asked(
                        Request::Query(
                            QueryRequest {
                                tenant_id,
                                database_name,
                                collection_id,
                                ids: payload.ids,
                                where_clause: (world.conditions)(payload.where_fields)->Ok_0,
                                include_list: payload.include_list,
                                embeddings: payload.query_embeddings,
                                n_results: match payload.n_results {
                                    Some(n_results) => n_results,
                                    None => 10,
                                },
                            },
                        ),
                    ),
                ),
            )
        } else {
            Exchange::bad_collection_id()
        },
{
    reveal_with_fuel(Step::exchange, 5);
}

/// A heartbeat, a reset and a request about tenants or databases go straight to
/// the backend, as the client sent them.
pub proof fn unchecked_exchanges<D: DataModel>(
    tenant_id: String,
    name: String,
    database_id: DatabaseUuid,
    limit: Option<u32>,
    offset: u32,
    world: World<D>,
)
    ensures
        handlers::heartbeat_step::<D>().exchange(world) == world.asked(Request::Heartbeat),
        handlers::reset_step::<D>().exchange(world) == world.asked(Request::Reset),
        handlers::create_tenant_step::<D>(
            CreateTenantRequest { name },
        ).exchange(world) == world.asked(
            Request::CreateTenant(CreateTenantRequest { name }),
        ),
        handlers::get_tenant_step::<D>(name).exchange(world) == world.asked(
            Request::GetTenant(GetTenantRequest { name }),
        ),
        handlers::create_database_step::<D>(
            database_id,
            tenant_id,
            CreateDatabasePayload { name },
        ).exchange(world) == world.asked(
            Request::CreateDatabase(
                CreateDatabaseRequest { database_id, tenant_id, database_name: name },
            ),
        ),
        handlers::list_databases_step::<D>(
            tenant_id,
            ListDatabasesPayload { limit, offset },
        ).exchange(world) == world.asked(
            Request::ListDatabases(ListDatabasesRequest { tenant_id, limit, offset }),
        ),
        handlers::get_database_step::<D>(tenant_id, name).exchange(world) == world.asked(
            Request::GetDatabase(GetDatabaseRequest { tenant_id, database_name: name }),
        ),
        handlers::delete_database_step::<D>(tenant_id, name).exchange(world) == world.asked(
            Request::DeleteDatabase(DeleteDatabaseRequest { tenant_id, database_name: name }),
        ),
{
}

/// A request about a collection by its name, or about all collections of a
/// database, goes straight to the backend, as the client sent it.
pub proof fn named_collection_exchanges<D: DataModel>(
    tenant_id: String,
    database_name: String,
    collection_name: String,
    limit: Option<u32>,
    offset: u32,
    world: World<D>,
)
    ensures
        handlers::list_collections_step::<D>(
            tenant_id,
            database_name,
            ListCollectionsParams { limit, offset },
        ).exchange(world) == world.asked(
            Request::ListCollections(
                ListCollectionsRequest { tenant_id, database_name, limit, offset },
            ),
        ),
        handlers::count_collections_step::<D>(
            tenant_id,
            database_name,
        ).exchange(world) == world.asked(
            Request::CountCollections(CountCollectionsRequest { tenant_id, database_name }),
        ),
        handlers::get_collection_step::<D>(
            tenant_id,
            database_name,
            collection_name,
        ).exchange(world) == world.asked(
            Request::GetCollection(
                GetCollectionRequest { tenant_id, database_name, collection_name },
            ),
        ),
        handlers::delete_collection_step::<D>(
            tenant_id,
            database_name,
            collection_name,
        ).exchange(world) == world.asked(
            Request::DeleteCollection(
                DeleteCollectionRequest { tenant_id, database_name, collection_name },
            ),
        ),
{
}

/// An update of a collection whose id spells no UUID never reaches the backend:
/// the client is told so, unless the new name is refused first.
pub proof fn update_with_bad_id_is_refused<D: DataModel>(
    collection_id: String,
    payload: UpdateCollectionPayload<D::UpdateMetadata>,
    world: World<D>,
)
    requires
        !crate::ids::is_uuid(collection_id@),
    ensures
        ({
            let exchange = handlers::update_collection_step::<D>(collection_id, payload).exchange(
                world,
            );
            &&& forall|i: int|
                0 <= i < exchange.actions.len() ==> !(#[trigger] exchange.actions[i] is Call)
            &&& payload.new_name is None || (world.checks)(
                Subject::Name(payload.new_name->0@),
            ) is Ok ==> exchange.outcome == Err::<
                Answer<D::Response>,
                ServerError<D::Error>,
            >(ServerError::Validation(ValidationError::CollectionId))
        }),
{
    update_collection_exchange(collection_id, payload, world);
}

/// Clients get the response of the backend as it came, but for four requests: a
/// reset is answered `true`, and the update and the deletion of a collection and
/// the deletion of records get an empty answer.
pub proof fn responses_are_relayed<D: DataModel>(request: Request<D>, response: D::Response)
    ensures
        request.answered().outcome(Ok::<D::Response, D::Error>(response)) == Ok::<
            Answer<D::Response>,
            ServerError<D::Error>,
        >(
            if request is Reset {
                Answer::Reset(true)
            } else if request is UpdateCollection || request is DeleteCollection {
                Answer::UpdateCollection(UpdateCollectionResponse {  })
            } else if request is Delete {
                Answer::DeleteCollectionRecords(DeleteCollectionRecordsResponse {  })
            } else {
                Answer::Response(response)
            },
        ),
{
}

/// An id may be spelled in any of four ways: whichever is taken, the same digits
/// name the same collection.
pub proof fn spellings_agree(digits: Seq<char>)
    requires
        digits.len() == 32,
    ensures
        ({
            let hyphenated = digits.subrange(0, 8) + "-"@ + digits.subrange(8, 12) + "-"@
                + digits.subrange(12, 16) + "-"@ + digits.subrange(16, 20) + "-"@
                + digits.subrange(20, 32);
            let id = CollectionUuid::spelled_by(digits);
            &&& CollectionUuid::spelled_by(hyphenated) == id
            &&& CollectionUuid::spelled_by("{"@ + hyphenated + "}"@) == id
            &&& CollectionUuid::spelled_by("urn:uuid:"@ + hyphenated) == id
            &&& crate::ids::is_uuid(hyphenated) == crate::ids::is_uuid(digits)
            &&& crate::ids::is_uuid("{"@ + hyphenated + "}"@) == crate::ids::is_uuid(digits)
            &&& crate::ids::is_uuid("urn:uuid:"@ + hyphenated) == crate::ids::is_uuid(digits)
            &&& crate::ids::uuid_number(hyphenated) == crate::ids::uuid_number(digits)
            &&& crate::ids::uuid_number("{"@ + hyphenated + "}"@) == crate::ids::uuid_number(digits)
            &&& crate::ids::uuid_number("urn:uuid:"@ + hyphenated) == crate::ids::uuid_number(
                digits,
            )
        }),
{
    reveal_strlit("-");
    reveal_strlit("{");
    reveal_strlit("}");
    reveal_strlit("urn:uuid:");
    let hyphenated = digits.subrange(0, 8) + "-"@ + digits.subrange(8, 12) + "-"@ + digits.subrange(
        12,
        16,
    ) + "-"@ + digits.subrange(16, 20) + "-"@ + digits.subrange(20, 32);
    assert(hyphenated.subrange(0, 8) + hyphenated.subrange(9, 13) + hyphenated.subrange(14, 18)
        + hyphenated.subrange(19, 23) + hyphenated.subrange(24, 36) == digits);
    assert(crate::ids::without_hyphens(hyphenated) == Some(digits));
    let braced = "{"@ + hyphenated + "}"@;
    assert(braced.subrange(1, 37) == hyphenated);
    let urn = "urn:uuid:"@ + hyphenated;
    assert(urn.subrange(9, 45) == hyphenated);
    assert(urn.subrange(0, 9) == "urn:uuid:"@);
}

} // verus!
