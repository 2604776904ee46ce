use frontend_server::exchange::{Check, Step};
use frontend_server::handlers;
use frontend_server::ids::{CollectionUuid, DatabaseUuid, ValidationError};
use frontend_server::model::{DataModel, ServerError};
use frontend_server::payloads::{
    AddCollectionRecordsPayload, CreateCollectionPayload, CreateDatabasePayload,
    DeleteCollectionRecordsPayload, GetRequestPayload, ListCollectionsParams, ListDatabasesPayload,
    QueryRequestPayload, UpdateCollectionPayload, UpdateCollectionRecordsPayload,
    UpsertCollectionRecordsPayload,
};
use frontend_server::requests::{
    AddCollectionRecordsRequest, Answer, CollectionMetadataUpdate, CountCollectionsRequest,
    CountRequest, CreateCollectionRequest, CreateDatabaseRequest, CreateTenantRequest,
    DeleteCollectionRecordsRequest, DeleteCollectionRecordsResponse, DeleteCollectionRequest,
    DeleteDatabaseRequest, GetCollectionRequest, GetDatabaseRequest, GetRequest, GetTenantRequest,
    ListCollectionsRequest, ListDatabasesRequest, QueryRequest, Request,
    UpdateCollectionRecordsRequest, UpdateCollectionRequest, UpdateCollectionResponse,
    UpsertCollectionRecordsRequest,
};

struct Plain;

impl DataModel for Plain {
    type Metadata = Vec<(String, i64)>;
    type UpdateMetadata = Vec<(String, Option<i64>)>;
    type Embeddings = Vec<Vec<f32>>;
    type RawWhereFields = String;
    type Where = Option<String>;
    type IncludeList = Vec<String>;
    type Response = String;
    type Error = String;
}

const ID_TEXT: &str = "550e8400-e29b-41d4-a716-446655440000";
const ID: CollectionUuid = CollectionUuid(0x550e8400_e29b_41d4_a716_446655440000);

fn text(s: &str) -> String {
    s.to_string()
}

fn texts(s: &[&str]) -> Vec<String> {
    s.iter().map(|s| s.to_string()).collect()
}

fn shown_check(check: &Check<'_, Plain>) -> String {
    match check {
        Check::Name(name) => format!("name {name}"),
        Check::Metadata(metadata) => format!("metadata {metadata:?}"),
        Check::UpdateMetadata(metadata) => format!("update {metadata:?}"),
        Check::Embeddings { collection_id, embeddings, update_if_not_present } => {
            format!("embeddings {:x} {embeddings:?} {update_if_not_present}", collection_id.0)
        }
        Check::Filter { query_ids, where_clause } => {
            format!("filter {query_ids:?} {where_clause:?}")
        }
    }
}

fn shown_request(request: &Request<Plain>) -> String {
    match request {
        Request::Heartbeat => text("Heartbeat"),
        Request::Reset => text("Reset"),
        Request::CreateTenant(r) => format!("{r:?}"),
        Request::GetTenant(r) => format!("{r:?}"),
        Request::CreateDatabase(r) => format!("{r:?}"),
        Request::ListDatabases(r) => format!("{r:?}"),
        Request::GetDatabase(r) => format!("{r:?}"),
        Request::DeleteDatabase(r) => format!("{r:?}"),
        Request::ListCollections(r) => format!("{r:?}"),
        Request::CountCollections(r) => format!("{r:?}"),
        Request::CreateCollection(r) => format!("{r:?}"),
        Request::GetCollection(r) => format!("{r:?}"),
        Request::UpdateCollection(r) => format!("{r:?}"),
        Request::DeleteCollection(r) => format!("{r:?}"),
        Request::Add(r) => format!("{r:?}"),
        Request::Update(r) => format!("{r:?}"),
        Request::Upsert(r) => format!("{r:?}"),
        Request::Delete(r) => format!("{r:?}"),
        Request::Count(r) => format!("{r:?}"),
        Request::Get(r) => format!("{r:?}"),
        Request::Query(r) => format!("{r:?}"),
    }
}

type Told = Result<Answer<String>, ServerError<String>>;

/// Plays an exchange in which the action numbered `failing`, if any, reports an
/// error, and a condition is read as its text in brackets.
fn play(mut step: Step<Plain>, failing: Option<usize>) -> (Vec<String>, Told) {
    let mut actions: Vec<String> = Vec::new();
    loop {
        let fails = failing == Some(actions.len());
        let error = format!("error {}", actions.len());
        step = match step {
            Step::Check(pending) => {
                actions.push(shown_check(&pending.check()));
                pending.resume(if fails { Err(error) } else { Ok(()) })
            }
            Step::ReadWhere(fields, pending) => {
                actions.push(format!("where {fields}"));
                pending.resume(if fails { Err(error) } else { Ok(Some(format!("[{fields}]"))) })
            }
            Step::Call(request) => {
                actions.push(shown_request(&request));
                let answering = request.answering();
                let reply = if fails { Err(error) } else { Ok(text("response")) };
                Step::Done(answering.conclude(reply))
            }
            Step::Done(outcome) => return (actions, outcome),
        }
    }
}

/// The exchange takes these actions and ends in this answer, and where one of
/// them reports an error it ends there with that error.
fn expect(start: impl Fn() -> Step<Plain>, actions: Vec<String>, answer: Answer<String>) {
    assert_eq!(play(start(), None), (actions.clone(), Ok(answer)));
    for failing in 0..actions.len() {
        assert_eq!(
            play(start(), Some(failing)),
            (
                actions[..=failing].to_vec(),
                Err(ServerError::Reported(format!("error {failing}")))
            )
        );
    }
}

fn relayed() -> Answer<String> {
    Answer::Response(text("response"))
}

fn refused() -> (Vec<String>, Told) {
    (vec![], Err(ServerError::Validation(ValidationError::CollectionId)))
}

#[test]
fn fixed_answers() {
    assert_eq!(handlers::root(), "Chroma Rust Frontend");
    assert_eq!(handlers::pre_flight_checks().max_batch_size, 100);
    let identity = handlers::get_user_identity();
    assert_eq!(identity.user_id, "");
    assert_eq!(identity.tenant, "default_tenant");
    assert_eq!(identity.databases, vec!["default_database"]);
}

#[test]
fn heartbeat_is_relayed() {
    expect(handlers::heartbeat::<Plain>, vec![text("Heartbeat")], relayed());
}

#[test]
fn reset_is_answered_true() {
    expect(handlers::reset::<Plain>, vec![text("Reset")], Answer::Reset(true));
}

#[test]
fn tenants_go_straight_to_the_backend() {
    let request = CreateTenantRequest { name: text("t") };
    expect(
        || handlers::create_tenant(request.clone()),
        vec![format!("{request:?}")],
        relayed(),
    );
    expect(
        || handlers::get_tenant(text("t")),
        vec![format!("{:?}", GetTenantRequest { name: text("t") })],
        relayed(),
    );
}

#[test]
fn databases_go_straight_to_the_backend() {
    let database_id = DatabaseUuid(9);
    expect(
        || {
            handlers::create_database_with_id(
                database_id,
                text("t"),
                CreateDatabasePayload { name: text("d") },
            )
        },
        vec![format!(
            "{:?}",
            CreateDatabaseRequest { database_id, tenant_id: text("t"), database_name: text("d") }
        )],
        relayed(),
    );
    expect(
        || {
            handlers::list_databases(
                text("t"),
                ListDatabasesPayload { limit: Some(3), offset: 4 },
            )
        },
        vec![format!(
            "{:?}",
            ListDatabasesRequest { tenant_id: text("t"), limit: Some(3), offset: 4 }
        )],
        relayed(),
    );
    expect(
        || handlers::get_database(text("t"), text("d")),
        vec![format!(
            "{:?}",
            GetDatabaseRequest { tenant_id: text("t"), database_name: text("d") }
        )],
        relayed(),
    );
    expect(
        || handlers::delete_database(text("t"), text("d")),
        vec![format!(
            "{:?}",
            DeleteDatabaseRequest { tenant_id: text("t"), database_name: text("d") }
        )],
        relayed(),
    );
}

#[test]
fn created_databases_get_fresh_ids() {
    let created = || {
        let payload = CreateDatabasePayload { name: text("d") };
        match handlers::create_database::<Plain>(text("t"), payload) {
            Step::Call(Request::CreateDatabase(request)) => request,
            _ => panic!("a request to create a database was expected"),
        }
    };
    let (first, second) = (created(), created());
    assert_eq!(first.tenant_id, "t");
    assert_eq!(first.database_name, "d");
    assert_ne!(first.database_id, second.database_id);
    assert_eq!((first.database_id.0 >> 76) & 0xf, 4);
}

#[test]
fn named_collections_go_straight_to_the_backend() {
    expect(
        || {
            handlers::list_collections(
                text("t"),
                text("d"),
                ListCollectionsParams { limit: None, offset: 2 },
            )
        },
        vec![format!(
            "{:?}",
            ListCollectionsRequest {
                tenant_id: text("t"),
                database_name: text("d"),
                limit: None,
                offset: 2,
            }
        )],
        relayed(),
    );
    expect(
        || handlers::count_collections(text("t"), text("d")),
        vec![format!(
            "{:?}",
            CountCollectionsRequest { tenant_id: text("t"), database_name: text("d") }
        )],
        relayed(),
    );
    expect(
        || handlers::get_collection(text("t"), text("d"), text("c")),
        vec![format!(
            "{:?}",
            GetCollectionRequest {
                tenant_id: text("t"),
                database_name: text("d"),
                collection_name: text("c"),
            }
        )],
        relayed(),
    );
    expect(
        || handlers::delete_collection(text("t"), text("d"), text("c")),
        vec![format!(
            "{:?}",
            DeleteCollectionRequest {
                tenant_id: text("t"),
                database_name: text("d"),
                collection_name: text("c"),
            }
        )],
        Answer::UpdateCollection(UpdateCollectionResponse {}),
    );
}

#[test]
fn created_collections_are_checked() {
    for metadata in [None, Some(vec![(text("k"), 1)])] {
        let payload = CreateCollectionPayload {
            name: text("c"),
            configuration: Some(serde_json::Value::Bool(true)),
            metadata: metadata.clone(),
            get_or_create: true,
        };
        let mut actions = vec![text("name c")];
        if metadata.is_some() {
            actions.push(text("metadata [(\"k\", 1)]"));
        }
        actions.push(format!(
            "{:?}",
            CreateCollectionRequest {
                name: text("c"),
                tenant_id: text("t"),
                database_name: text("d"),
                metadata,
                configuration_json: Some(serde_json::Value::Bool(true)),
                get_or_create: true,
            }
        ));
        expect(
            || handlers::create_collection(text("t"), text("d"), payload.clone()),
            actions,
            relayed(),
        );
    }
}

#[test]
fn updated_collections_are_checked() {
    for new_name in [None, Some(text("new"))] {
        for new_metadata in [None, Some(vec![(text("k"), None)])] {
            let payload = UpdateCollectionPayload {
                new_name: new_name.clone(),
                new_metadata: new_metadata.clone(),
            };
            let mut actions = vec![];
            if new_name.is_some() {
                actions.push(text("name new"));
            }
            if new_metadata.is_some() {
                actions.push(text("update [(\"k\", None)]"));
            }
            actions.push(format!(
                "{:?}",
                UpdateCollectionRequest {
                    collection_id: ID,
                    new_name: new_name.clone(),
                    new_metadata: new_metadata.map(CollectionMetadataUpdate::UpdateMetadata),
                }
            ));
            expect(
                || {
                    let payload = payload.clone();
                    handlers::update_collection(text("t"), text("d"), text(ID_TEXT), payload)
                },
                actions,
                Answer::UpdateCollection(UpdateCollectionResponse {}),
            );
        }
    }
}

#[test]
fn update_of_a_bad_id_checks_the_name_first() {
    let start = |new_name: Option<String>| {
        let new_metadata = Some(vec![(text("k"), None)]);
        let payload = UpdateCollectionPayload { new_name, new_metadata };
        handlers::update_collection(text("t"), text("d"), text("c"), payload)
    };
    assert_eq!(play(start(None), None), refused());
    assert_eq!(play(start(Some(text("new"))), None), (vec![text("name new")], refused().1));
    assert_eq!(
        play(start(Some(text("new"))), Some(0)),
        (vec![text("name new")], Err(ServerError::Reported(text("error 0"))))
    );
}

fn added() -> AddCollectionRecordsPayload<Vec<Vec<f32>>, Vec<(String, i64)>> {
    AddCollectionRecordsPayload {
        ids: texts(&["a", "b"]),
        embeddings: Some(vec![vec![0.5], vec![1.5]]),
        documents: Some(texts(&["doc"])),
        uris: Some(texts(&["uri"])),
        metadatas: Some(vec![vec![(text("k"), 1)]]),
    }
}

fn updated() -> UpdateCollectionRecordsPayload<Vec<Vec<f32>>, Vec<(String, Option<i64>)>> {
    UpdateCollectionRecordsPayload {
        ids: texts(&["a"]),
        embeddings: None,
        documents: Some(texts(&["doc"])),
        uris: None,
        metadatas: Some(vec![vec![(text("k"), None)]]),
    }
}

fn upserted() -> UpsertCollectionRecordsPayload<Vec<Vec<f32>>, Vec<(String, Option<i64>)>> {
    UpsertCollectionRecordsPayload {
        ids: texts(&["a"]),
        embeddings: Some(vec![vec![2.5]]),
        documents: None,
        uris: Some(texts(&["uri"])),
        metadatas: None,
    }
}

#[test]
fn added_records_are_checked() {
    let p = added();
    expect(
        || handlers::collection_add(text("t"), text("d"), text(ID_TEXT), added()),
        vec![
            text("embeddings 550e8400e29b41d4a716446655440000 Some([[0.5], [1.5]]) true"),
            format!(
                "{:?}",
                AddCollectionRecordsRequest {
                    tenant_id: text("t"),
                    database_name: text("d"),
                    collection_id: ID,
                    ids: p.ids,
                    embeddings: p.embeddings,
                    documents: p.documents,
                    uris: p.uris,
                    metadatas: p.metadatas,
                }
            ),
        ],
        relayed(),
    );
}

#[test]
fn updated_records_are_checked() {
    let p = updated();
    expect(
        || handlers::collection_update(text("t"), text("d"), text(ID_TEXT), updated()),
        vec![
            text("embeddings 550e8400e29b41d4a716446655440000 None true"),
            format!(
                "{:?}",
                UpdateCollectionRecordsRequest {
                    tenant_id: text("t"),
                    database_name: text("d"),
                    collection_id: ID,
                    ids: p.ids,
                    embeddings: p.embeddings,
                    documents: p.documents,
                    uris: p.uris,
                    metadatas: p.metadatas,
                }
            ),
        ],
        relayed(),
    );
}

#[test]
fn upserted_records_are_checked() {
    let p = upserted();
    expect(
        || handlers::collection_upsert(text("t"), text("d"), text(ID_TEXT), upserted()),
        vec![
            text("embeddings 550e8400e29b41d4a716446655440000 Some([[2.5]]) true"),
            format!(
                "{:?}",
                UpsertCollectionRecordsRequest {
                    tenant_id: text("t"),
                    database_name: text("d"),
                    collection_id: ID,
                    ids: p.ids,
                    embeddings: p.embeddings,
                    documents: p.documents,
                    uris: p.uris,
                    metadatas: p.metadatas,
                }
            ),
        ],
        relayed(),
    );
}

fn deleted() -> DeleteCollectionRecordsPayload<String> {
    DeleteCollectionRecordsPayload { ids: Some(texts(&["a"])), where_fields: text("w") }
}

#[test]
fn deletion_reads_the_condition_and_checks_the_filter() {
    expect(
        || handlers::collection_delete(text("t"), text("d"), text(ID_TEXT), deleted()),
        vec![
            text("where w"),
            text("filter Some([\"a\"]) Some(\"[w]\")"),
            format!(
                "{:?}",
                DeleteCollectionRecordsRequest {
                    tenant_id: text("t"),
                    database_name: text("d"),
                    collection_id: ID,
                    ids: Some(texts(&["a"])),
                    where_clause: Some(text("[w]")),
                }
            ),
        ],
        Answer::DeleteCollectionRecords(DeleteCollectionRecordsResponse {}),
    );
}

#[test]
fn count_asks_the_backend() {
    expect(
        || handlers::collection_count(text("t"), text("d"), text(ID_TEXT)),
        vec![format!(
            "{:?}",
            CountRequest { tenant_id: text("t"), database_name: text("d"), collection_id: ID }
        )],
        relayed(),
    );
}

fn gotten(offset: Option<u32>) -> GetRequestPayload<String, Vec<String>> {
    GetRequestPayload {
        ids: None,
        where_fields: text("w"),
        limit: Some(5),
        offset,
        include_list: texts(&["documents"]),
    }
}

#[test]
fn get_starts_at_the_first_record_by_default() {
    for (given, offset) in [(None, 0), (Some(7), 7)] {
        expect(
            || handlers::collection_get(text("t"), text("d"), text(ID_TEXT), gotten(given)),
            vec![
                text("where w"),
                format!(
                    "{:?}",
                    GetRequest {
                        tenant_id: text("t"),
                        database_name: text("d"),
                        collection_id: ID,
                        ids: None::<Vec<String>>,
                        where_clause: Some(text("[w]")),
                        limit: Some(5),
                        offset,
                        include_list: texts(&["documents"]),
                    }
                ),
            ],
            relayed(),
        );
    }
}

fn queried(n_results: Option<u32>) -> QueryRequestPayload<String, Vec<Vec<f32>>, Vec<String>> {
    QueryRequestPayload {
        ids: Some(texts(&["a"])),
        where_fields: text("w"),
        query_embeddings: vec![vec![0.25]],
        n_results,
        include_list: texts(&["distances"]),
    }
}

#[test]
fn query_asks_for_ten_results_by_default() {
    for (given, n_results) in [(None, 10), (Some(3), 3)] {
        expect(
            || handlers::collection_query(text("t"), text("d"), text(ID_TEXT), queried(given)),
            vec![
                text("embeddings 550e8400e29b41d4a716446655440000 Some([[0.25]]) true"),
                text("where w"),
                format!(
                    "{:?}",
                    QueryRequest {
                        tenant_id: text("t"),
                        database_name: text("d"),
                        collection_id: ID,
                        ids: Some(texts(&["a"])),
                        where_clause: Some(text("[w]")),
                        include_list: texts(&["distances"]),
                        embeddings: vec![vec![0.25f32]],
                        n_results,
                    }
                ),
            ],
            relayed(),
        );
    }
}

#[test]
fn bad_collection_ids_are_refused_at_once() {
    let (t, d, c) = (|| text("t"), || text("d"), || text("my-collection"));
    assert_eq!(play(handlers::collection_add(t(), d(), c(), added()), None), refused());
    assert_eq!(play(handlers::collection_update(t(), d(), c(), updated()), None), refused());
    assert_eq!(play(handlers::collection_upsert(t(), d(), c(), upserted()), None), refused());
    assert_eq!(play(handlers::collection_delete(t(), d(), c(), deleted()), None), refused());
    assert_eq!(play(handlers::collection_count(t(), d(), c()), None), refused());
    assert_eq!(play(handlers::collection_get(t(), d(), c(), gotten(None)), None), refused());
    assert_eq!(play(handlers::collection_query(t(), d(), c(), queried(None)), None), refused());
}
