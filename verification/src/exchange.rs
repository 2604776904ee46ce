//! The steps of an exchange between a handler and the outside.
//!
//! A handler asks the outside for one thing at a time: a check, the reading of a
//! condition, or a request to the backend. What is still to be done waits in a
//! `Pending..` value, which turns the outcome into the next step.
use vstd::prelude::*;

use crate::ids::{CollectionUuid, ValidationError};
use crate::model::{DataModel, ServerError};
use crate::payloads::{CreateCollectionPayload, QueryRequestPayload};
use crate::requests::{
    AddCollectionRecordsRequest, Answer, CollectionMetadataUpdate, CreateCollectionRequest,
    DeleteCollectionRecordsRequest, DeleteCollectionRecordsResponse, GetRequest, QueryRequest,
    Request, UpdateCollectionRecordsRequest, UpdateCollectionRequest, UpdateCollectionResponse,
    UpsertCollectionRecordsRequest,
};

verus! {

/// The number of results that a query asks for where the client names none.
pub const DEFAULT_N_RESULTS: u32 = 10;

/// The number of records that are skipped where the client names none.
pub const DEFAULT_OFFSET: u32 = 0;

/// What an exchange comes to, with responses `R` and reported errors `E`.
pub type Outcome<R, E> = Result<Answer<R>, ServerError<E>>;

/// What is to be done next for a client.
pub enum Step<D: DataModel> {
    /// Make the check that the pending value names, and hand it the verdict.
    Check(PendingCheck<D>),
    /// Read the condition that the fields spell, and hand it to the pending value.
    ReadWhere(D::RawWhereFields, PendingWhere<D>),
    /// Send the request to the backend, and conclude with its response.
    Call(Request<D>),
    /// Nothing: this is what the client is told.
    Done(Outcome<D::Response, D::Error>),
}

/// A check, with what is checked.
pub enum Check<'a, D: DataModel> {
    /// The name is fit for a collection.
    Name(&'a String),
    /// The metadata is not empty.
    Metadata(&'a D::Metadata),
    /// The change of metadata is not empty.
    UpdateMetadata(&'a D::UpdateMetadata),
    /// The embeddings, if any, fit the collection.
    Embeddings {
        collection_id: CollectionUuid,
        embeddings: Option<&'a D::Embeddings>,
        update_if_not_present: bool,
    },
    /// The filter that the ids and the condition make is not empty.
    Filter { query_ids: &'a Option<Vec<String>>, where_clause: &'a D::Where },
}

/// The view of a [`Check`]: the values that are checked.
pub enum Subject<D: DataModel> {
    Name(Seq<char>),
    Metadata(D::Metadata),
    UpdateMetadata(D::UpdateMetadata),
    Embeddings {
        collection_id: CollectionUuid,
        embeddings: Option<D::Embeddings>,
        update_if_not_present: bool,
    },
    Filter { query_ids: Option<Vec<String>>, where_clause: D::Where },
}

impl<'a, D: DataModel> View for Check<'a, D> {
    type V = Subject<D>;

    open spec fn view(&self) -> Subject<D> {
        match *self {
            Check::Name(name) => Subject::Name(name@),
            Check::Metadata(metadata) => Subject::Metadata(*metadata),
            Check::UpdateMetadata(metadata) => Subject::UpdateMetadata(*metadata),
            Check::Embeddings { collection_id, embeddings, update_if_not_present } => {
                Subject::Embeddings {
                    collection_id,
                    embeddings: match embeddings {
                        Some(embeddings) => Some(*embeddings),
                        None => None,
                    },
                    update_if_not_present,
                }
            },
            Check::Filter { query_ids, where_clause } => Subject::Filter {
                query_ids: *query_ids,
                where_clause: *where_clause,
            },
        }
    }
}

/// What waits for the verdict of a check.
pub enum PendingCheck<D: DataModel> {
    /// The creation of a collection, whose name is to be checked.
    CreateCollectionName {
        tenant_id: String,
        database_name: String,
        payload: CreateCollectionPayload<D::Metadata>,
    },
    /// The creation of a collection, whose metadata is to be checked.
    CreateCollectionMetadata {
        name: String,
        tenant_id: String,
        database_name: String,
        metadata: D::Metadata,
        configuration_json: Option<serde_json::Value>,
        get_or_create: bool,
    },
    /// The update of a collection, whose new name is to be checked. Its id is
    /// still the text that came in the path.
    UpdateCollectionName {
        collection_id: String,
        new_name: String,
        new_metadata: Option<D::UpdateMetadata>,
    },
    /// The update of a collection, whose new metadata is to be checked.
    UpdateCollectionMetadata {
        collection_id: CollectionUuid,
        new_name: Option<String>,
        new_metadata: D::UpdateMetadata,
    },
    /// The addition of records, whose embeddings are to be checked.
    Add(AddCollectionRecordsRequest<D::Embeddings, D::Metadata>),
    /// The update of records, whose embeddings are to be checked.
    Update(UpdateCollectionRecordsRequest<D::Embeddings, D::UpdateMetadata>),
    /// The update or addition of records, whose embeddings are to be checked.
    Upsert(UpsertCollectionRecordsRequest<D::Embeddings, D::UpdateMetadata>),
    /// A query, whose embeddings are to be checked. Its condition is not read yet.
    Query {
        tenant_id: String,
        database_name: String,
        collection_id: CollectionUuid,
        payload: QueryRequestPayload<D::RawWhereFields, D::Embeddings, D::IncludeList>,
    },
    /// The deletion of records, whose selection is to be checked.
    Delete(DeleteCollectionRecordsRequest<D::Where>),
}

/// What waits for a condition to be read.
pub enum PendingWhere<D: DataModel> {
    /// The deletion of records.
    Delete {
        tenant_id: String,
        database_name: String,
        collection_id: CollectionUuid,
        ids: Option<Vec<String>>,
    },
    /// The retrieval of records.
    Get {
        tenant_id: String,
        database_name: String,
        collection_id: CollectionUuid,
        ids: Option<Vec<String>>,
        limit: Option<u32>,
        offset: Option<u32>,
        include_list: D::IncludeList,
    },
    /// A query.
    Query {
        tenant_id: String,
        database_name: String,
        collection_id: CollectionUuid,
        ids: Option<Vec<String>>,
        query_embeddings: D::Embeddings,
        n_results: Option<u32>,
        include_list: D::IncludeList,
    },
}

/// How the response of the backend becomes the answer.
#[derive(Debug, Clone, Copy, PartialEq, Eq)]
pub enum Answering {
    /// The response is the answer.
    Relay,
    /// The answer says that the reset was made.
    Reset,
    /// The answer is the empty one to a change of a collection.
    UpdateCollection,
    /// The answer is the empty one to a deletion of records.
    DeleteCollectionRecords,
}

/// The value in `given`, or `default` if there is none.
pub open spec fn or_default(given: Option<u32>, default: u32) -> u32 {
    match given {
        Some(value) => value,
        None => default,
    }
}

/// The outcome where the server refuses a request for `error`.
pub open spec fn refused<R, E>(error: ValidationError) -> Outcome<R, E> {
    Err(ServerError::Validation(error))
}

/// The outcome where the outside reported `error`.
pub open spec fn reported<R, E>(error: E) -> Outcome<R, E> {
    Err(ServerError::Reported(error))
}

impl<D: DataModel> Step<D> {
    /// The step that ends an exchange because the collection id spells no UUID.
    pub open spec fn bad_collection_id() -> Step<D> {
        Step::Done(refused(ValidationError::CollectionId))
    }

    /// The step that ends an exchange because the outside reported `error`.
    pub open spec fn failed(error: D::Error) -> Step<D> {
        Step::Done(reported(error))
    }

    /// The creation of a collection whose name has been accepted: the metadata
    /// is checked if there is any.
    pub open spec fn create_collection_named(
        tenant_id: String,
        database_name: String,
        payload: CreateCollectionPayload<D::Metadata>,
    ) -> Step<D> {
        match payload.metadata {
            Some(metadata) => Step::Check(
                PendingCheck::CreateCollectionMetadata {
                    name: payload.name,
                    tenant_id,
                    database_name,
                    metadata,
                    configuration_json: payload.configuration,
                    get_or_create: payload.get_or_create,
                },
            ),
            None => Step::Call(
                Request::CreateCollection(
                    CreateCollectionRequest {
                        name: payload.name,
                        tenant_id,
                        database_name,
                        metadata: None,
                        configuration_json: payload.configuration,
                        get_or_create: payload.get_or_create,
                    },
                ),
            ),
        }
    }

    /// The update of a collection whose new name, if any, has been accepted: the
    /// id is read, and the metadata is checked if there is any.
    pub open spec fn update_collection_named(
        collection_id: Seq<char>,
        new_name: Option<String>,
        new_metadata: Option<D::UpdateMetadata>,
    ) -> Step<D> {
        match CollectionUuid::spelled_by(collection_id) {
            None => Step::bad_collection_id(),
            Some(collection_id) => match new_metadata {
                Some(new_metadata) => Step::Check(
                    PendingCheck::UpdateCollectionMetadata {
                        collection_id,
                        new_name,
                        new_metadata,
                    },
                ),
                None => Step::Call(
                    Request::UpdateCollection(
                        UpdateCollectionRequest { collection_id, new_name, new_metadata: None },
                    ),
                ),
            },
        }
    }

    fn after_create_collection_name(
        tenant_id: String,
        database_name: String,
        payload: CreateCollectionPayload<D::Metadata>,
    ) -> (step: Step<D>)
        ensures
            step == Self::create_collection_named(tenant_id, database_name, payload),
    {
        match payload.metadata {
            Some(metadata) => Step::Check(
                PendingCheck::CreateCollectionMetadata {
                    name: payload.name,
                    tenant_id,
                    database_name,
                    metadata,
                    configuration_json: payload.configuration,
                    get_or_create: payload.get_or_create,
                },
            ),
            None => Step::Call(
                Request::CreateCollection(
                    CreateCollectionRequest {
                        name: payload.name,
                        tenant_id,
                        database_name,
                        metadata: None,
                        configuration_json: payload.configuration,
                        get_or_create: payload.get_or_create,
                    },
                ),
            ),
        }
    }

    pub(crate) fn after_update_collection_name(
        collection_id: &str,
        new_name: Option<String>,
        new_metadata: Option<D::UpdateMetadata>,
    ) -> (step: Step<D>)
        ensures
            step == Self::update_collection_named(collection_id@, new_name, new_metadata),
    {
        match CollectionUuid::from_str(collection_id) {
            Err(error) => Step::Done(Err(ServerError::Validation(error))),
            Ok(collection_id) => match new_metadata {
                Some(new_metadata) => Step::Check(
                    PendingCheck::UpdateCollectionMetadata {
                        collection_id,
                        new_name,
                        new_metadata,
                    },
                ),
                None => Step::Call(
                    Request::UpdateCollection(
                        UpdateCollectionRequest { collection_id, new_name, new_metadata: None },
                    ),
                ),
            },
        }
    }
}

impl<D: DataModel> PendingCheck<D> {
    /// What is checked.
    pub open spec fn subject(self) -> Subject<D> {
        match self {
            PendingCheck::CreateCollectionName { payload, .. } => Subject::Name(payload.name@),
            PendingCheck::CreateCollectionMetadata { metadata, .. } => Subject::Metadata(metadata),
            PendingCheck::UpdateCollectionName { new_name, .. } => Subject::Name(new_name@),
            PendingCheck::UpdateCollectionMetadata { new_metadata, .. } => Subject::UpdateMetadata(
                new_metadata,
            ),
            PendingCheck::Add(request) => Subject::Embeddings {
                collection_id: request.collection_id,
                embeddings: request.embeddings,
                update_if_not_present: true,
            },
            PendingCheck::Update(request) => Subject::Embeddings {
                collection_id: request.collection_id,
                embeddings: request.embeddings,
                update_if_not_present: true,
            },
            PendingCheck::Upsert(request) => Subject::Embeddings {
                collection_id: request.collection_id,
                embeddings: request.embeddings,
                update_if_not_present: true,
            },
            PendingCheck::Query { collection_id, payload, .. } => Subject::Embeddings {
                collection_id,
                embeddings: Some(payload.query_embeddings),
                update_if_not_present: true,
            },
            PendingCheck::Delete(request) => Subject::Filter {
                query_ids: request.ids,
                where_clause: request.where_clause,
            },
        }
    }

    /// The step after the check has passed.
    pub open spec fn passed(self) -> Step<D> {
        match self {
            PendingCheck::CreateCollectionName {
                tenant_id,
                database_name,
                payload,
            } => Step::create_collection_named(tenant_id, database_name, payload),
            PendingCheck::CreateCollectionMetadata {
                name,
                tenant_id,
                database_name,
                metadata,
                configuration_json,
                get_or_create,
            } => Step::Call(
                Request::CreateCollection(
                    CreateCollectionRequest {
                        name,
                        tenant_id,
                        database_name,
                        metadata: Some(metadata),
                        configuration_json,
                        get_or_create,
                    },
                ),
            ),
            PendingCheck::UpdateCollectionName {
                collection_id,
                new_name,
                new_metadata,
            } => Step::update_collection_named(collection_id@, Some(new_name), new_metadata),
            PendingCheck::UpdateCollectionMetadata {
                collection_id,
                new_name,
                new_metadata,
            } => Step::Call(
                Request::UpdateCollection(
                    UpdateCollectionRequest {
                        collection_id,
                        new_name,
                        new_metadata: Some(CollectionMetadataUpdate::UpdateMetadata(new_metadata)),
                    },
                ),
            ),
            PendingCheck::Add(request) => Step::Call(Request::Add(request)),
            PendingCheck::Update(request) => Step::Call(Request::Update(request)),
            PendingCheck::Upsert(request) => Step::Call(Request::Upsert(request)),
            PendingCheck::Query {
                tenant_id,
                database_name,
                collection_id,
                payload,
            } => Step::ReadWhere(
                payload.where_fields,
                PendingWhere::Query {
                    tenant_id,
                    database_name,
                    collection_id,
                    ids: payload.ids,
                    query_embeddings: payload.query_embeddings,
                    n_results: payload.n_results,
                    include_list: payload.include_list,
                },
            ),
            PendingCheck::Delete(request) => Step::Call(Request::Delete(request)),
        }
    }

    /// The step after the verdict.
    pub open spec fn after(self, verdict: Result<(), D::Error>) -> Step<D> {
        match verdict {
            Ok(()) => self.passed(),
            Err(error) => Step::failed(error),
        }
    }

    /// The check to make.
    pub fn check(&self) -> (check: Check<'_, D>)
        ensures
            check@ == self.subject(),
    {
        match self {
            PendingCheck::CreateCollectionName { payload, .. } => Check::Name(&payload.name),
            PendingCheck::CreateCollectionMetadata { metadata, .. } => Check::Metadata(metadata),
            PendingCheck::UpdateCollectionName { new_name, .. } => Check::Name(new_name),
            PendingCheck::UpdateCollectionMetadata { new_metadata, .. } => Check::UpdateMetadata(
                new_metadata,
            ),
            PendingCheck::Add(request) => Check::Embeddings {
                collection_id: request.collection_id,
                embeddings: request.embeddings.as_ref(),
                update_if_not_present: true,
            },
            PendingCheck::Update(request) => Check::Embeddings {
                collection_id: request.collection_id,
                embeddings: request.embeddings.as_ref(),
                update_if_not_present: true,
            },
            PendingCheck::Upsert(request) => Check::Embeddings {
                collection_id: request.collection_id,
                embeddings: request.embeddings.as_ref(),
                update_if_not_present: true,
            },
            PendingCheck::Query { collection_id, payload, .. } => Check::Embeddings {
                collection_id: *collection_id,
                embeddings: Some(&payload.query_embeddings),
                update_if_not_present: true,
            },
            PendingCheck::Delete(request) => Check::Filter {
                query_ids: &request.ids,
                where_clause: &request.where_clause,
            },
        }
    }

    /// Goes on with the verdict of the check.
    pub fn resume(self, verdict: Result<(), D::Error>) -> (step: Step<D>)
        ensures
            step == self.after(verdict),
    {
        if let Err(error) = verdict {
            return Step::Done(Err(ServerError::Reported(error)));
        }
        match self {
            PendingCheck::CreateCollectionName {
                tenant_id,
                database_name,
                payload,
            } => Step::after_create_collection_name(tenant_id, database_name, payload),
            PendingCheck::CreateCollectionMetadata {
                name,
                tenant_id,
                database_name,
                metadata,
                configuration_json,
                get_or_create,
            } => Step::Call(
                Request::CreateCollection(
                    CreateCollectionRequest {
                        name,
                        tenant_id,
                        database_name,
                        metadata: Some(metadata),
                        configuration_json,
                        get_or_create,
                    },
                ),
            ),
            PendingCheck::UpdateCollectionName {
                collection_id,
                new_name,
                new_metadata,
            } => Step::after_update_collection_name(
                collection_id.as_str(),
                Some(new_name),
                new_metadata,
            ),
            PendingCheck::UpdateCollectionMetadata {
                collection_id,
                new_name,
                new_metadata,
            } => Step::Call(
                Request::UpdateCollection(
                    UpdateCollectionRequest {
                        collection_id,
                        new_name,
                        new_metadata: Some(CollectionMetadataUpdate::UpdateMetadata(new_metadata)),
                    },
                ),
            ),
            PendingCheck::Add(request) => Step::Call(Request::Add(request)),
            PendingCheck::Update(request) => Step::Call(Request::Update(request)),
            PendingCheck::Upsert(request) => Step::Call(Request::Upsert(request)),
            PendingCheck::Query {
                tenant_id,
                database_name,
                collection_id,
                payload,
            } => Step::ReadWhere(
                payload.where_fields,
                PendingWhere::Query {
                    tenant_id,
                    database_name,
                    collection_id,
                    ids: payload.ids,
                    query_embeddings: payload.query_embeddings,
                    n_results: payload.n_results,
                    include_list: payload.include_list,
                },
            ),
            PendingCheck::Delete(request) => Step::Call(Request::Delete(request)),
        }
    }
}

impl<D: DataModel> PendingWhere<D> {
    /// The step after `where_clause` has been read.
    pub open spec fn with_where(self, where_clause: D::Where) -> Step<D> {
        match self {
            PendingWhere::Delete { tenant_id, database_name, collection_id, ids } => Step::Check(
                PendingCheck::Delete(
                    DeleteCollectionRecordsRequest {
                        tenant_id,
                        database_name,
                        collection_id,
                        ids,
                        where_clause,
                    },
                ),
            ),
            PendingWhere::Get {
                tenant_id,
                database_name,
                collection_id,
                ids,
                limit,
                offset,
                include_list,
            } => Step::Call(
                Request::Get(
                    GetRequest {
                        tenant_id,
                        database_name,
                        collection_id,
                        ids,
                        where_clause,
                        limit,
                        offset: or_default(offset, DEFAULT_OFFSET),
                        include_list,
                    },
                ),
            ),
            PendingWhere::Query {
                tenant_id,
                database_name,
                collection_id,
                ids,
                query_embeddings,
                n_results,
                include_list,
            } => Step::Call(
                Request::Query(
                    QueryRequest {
                        tenant_id,
                        database_name,
                        collection_id,
                        ids,
                        where_clause,
                        include_list,
                        embeddings: query_embeddings,
                        n_results: or_default(n_results, DEFAULT_N_RESULTS),
                    },
                ),
            ),
        }
    }

    /// The step after the fields have been read.
    pub open spec fn after(self, parsed: Result<D::Where, D::Error>) -> Step<D> {
        match parsed {
            Ok(where_clause) => self.with_where(where_clause),
            Err(error) => Step::failed(error),
        }
    }

    /// Goes on with the condition that was read.
    pub fn resume(self, parsed: Result<D::Where, D::Error>) -> (step: Step<D>)
        ensures
            step == self.after(parsed),
    {
        let where_clause = match parsed {
            Ok(where_clause) => where_clause,
            Err(error) => {
                return Step::Done(Err(ServerError::Reported(error)));
            },
        };
        match self {
            PendingWhere::Delete { tenant_id, database_name, collection_id, ids } => Step::Check(
                PendingCheck::Delete(
                    DeleteCollectionRecordsRequest {
                        tenant_id,
                        database_name,
                        collection_id,
                        ids,
                        where_clause,
                    },
                ),
            ),
            PendingWhere::Get {
                tenant_id,
                database_name,
                collection_id,
                ids,
                limit,
                offset,
                include_list,
            } => Step::Call(
                Request::Get(
                    GetRequest {
                        tenant_id,
                        database_name,
                        collection_id,
                        ids,
                        where_clause,
                        limit,
                        offset: offset.unwrap_or(DEFAULT_OFFSET),
                        include_list,
                    },
                ),
            ),
            PendingWhere::Query {
                tenant_id,
                database_name,
                collection_id,
                ids,
                query_embeddings,
                n_results,
                include_list,
            } => Step::Call(
                Request::Query(
                    QueryRequest {
                        tenant_id,
                        database_name,
                        collection_id,
                        ids,
                        where_clause,
                        include_list,
                        embeddings: query_embeddings,
                        n_results: n_results.unwrap_or(DEFAULT_N_RESULTS),
                    },
                ),
            ),
        }
    }
}

impl<D: DataModel> Request<D> {
    /// How the response to this request is answered.
    pub open spec fn answered(self) -> Answering {
        match self {
            Request::Reset => Answering::Reset,
            Request::UpdateCollection(_) => Answering::UpdateCollection,
            Request::DeleteCollection(_) => Answering::UpdateCollection,
            Request::Delete(_) => Answering::DeleteCollectionRecords,
            _ => Answering::Relay,
        }
    }

    /// How the response to this request is to be answered.
    pub fn answering(&self) -> (answering: Answering)
        ensures
            answering == self.answered(),
    {
        match self {
            Request::Reset => Answering::Reset,
            Request::UpdateCollection(_) => Answering::UpdateCollection,
            Request::DeleteCollection(_) => Answering::UpdateCollection,
            Request::Delete(_) => Answering::DeleteCollectionRecords,
            _ => Answering::Relay,
        }
    }
}

impl Answering {
    /// The answer that `response` becomes.
    pub open spec fn answer<R>(self, response: R) -> Answer<R> {
        match self {
            Answering::Relay => Answer::Response(response),
            Answering::Reset => Answer::Reset(true),
            Answering::UpdateCollection => Answer::UpdateCollection(UpdateCollectionResponse {  }),
            Answering::DeleteCollectionRecords => Answer::DeleteCollectionRecords(
                DeleteCollectionRecordsResponse {  },
            ),
        }
    }

    /// What the client is told of the backend's `reply`.
    pub open spec fn outcome<R, E>(self, reply: Result<R, E>) -> Outcome<R, E> {
        match reply {
            Ok(response) => Ok(self.answer(response)),
            Err(error) => reported(error),
        }
    }

    /// Ends an exchange with the reply of the backend.
    pub fn conclude<R, E>(self, reply: Result<R, E>) -> (outcome: Outcome<R, E>)
        ensures
            outcome == self.outcome(reply),
    {
        match reply {
            Err(error) => Err(ServerError::Reported(error)),
            Ok(response) => Ok(
                match self {
                    Answering::Relay => Answer::Response(response),
                    Answering::Reset => Answer::Reset(true),
                    Answering::UpdateCollection => Answer::UpdateCollection(
                        UpdateCollectionResponse {  },
                    ),
                    Answering::DeleteCollectionRecords => Answer::DeleteCollectionRecords(
                        DeleteCollectionRecordsResponse {  },
                    ),
                },
            ),
        }
    }
}

} // verus!
