//! Which path and method lead to which handler.
use vstd::prelude::*;

verus! {

/// The methods that the server listens to.
#[derive(Debug, Clone, Copy, PartialEq, Eq)]
pub enum Method {
    Get,
    Post,
    Put,
    Delete,
}

/// The handlers that a client can reach.
#[derive(Debug, Clone, Copy, PartialEq, Eq)]
pub enum Endpoint {
    Root,
    Heartbeat,
    PreFlightChecks,
    Reset,
    Version,
    GetUserIdentity,
    CreateTenant,
    GetTenant,
    ListDatabases,
    CreateDatabase,
    GetDatabase,
    DeleteDatabase,
    CreateCollection,
    ListCollections,
    CountCollections,
    GetCollection,
    UpdateCollection,
    DeleteCollection,
    CollectionAdd,
    CollectionUpdate,
    CollectionUpsert,
    CollectionDelete,
    CollectionCount,
    CollectionGet,
    CollectionQuery,
}

/// A path, in which a segment that starts with a colon is a parameter, with a
/// method and the handler that they lead to.
#[derive(Debug, Clone, Copy, PartialEq, Eq)]
pub struct Route {
    pub path: &'static str,
    pub method: Method,
    pub endpoint: Endpoint,
}

/// A segment of a path: a text, or a parameter under a name.
pub enum Segment {
    Literal(Seq<char>),
    Parameter(Seq<char>),
}

impl Segment {
    /// How the segment is written in a path.
    pub open spec fn text(self) -> Seq<char> {
        match self {
            Segment::Literal(text) => text,
            Segment::Parameter(name) => ":"@ + name,
        }
    }

    /// `part` of a requested path can stand where this segment does.
    pub open spec fn fits(self, part: Seq<char>) -> bool {
        match self {
            Segment::Literal(text) => part == text,
            Segment::Parameter(_) => true,
        }
    }
}

/// The path of these segments.
pub open spec fn path_of(segments: Seq<Segment>) -> Seq<char>
    decreases segments.len(),
{
    if segments.len() == 0 {
        Seq::empty()
    } else {
        path_of(segments.drop_last()) + "/"@ + segments.last().text()
    }
}

/// A requested path, split into its parts, fits these segments.
pub open spec fn path_fits(segments: Seq<Segment>, parts: Seq<Seq<char>>) -> bool {
    &&& parts.len() == segments.len()
    &&& forall|i: int| 0 <= i < segments.len() ==> (#[trigger] segments[i]).fits(parts[i])
}

/// `/api/v2`
pub open spec fn base_segments() -> Seq<Segment> {
    seq![Segment::Literal("api"@), Segment::Literal("v2"@)]
}

/// `/api/v2/tenants/:..`
pub open spec fn tenant_segments(tenant: Seq<char>) -> Seq<Segment> {
    base_segments().push(Segment::Literal("tenants"@)).push(Segment::Parameter(tenant))
}

/// `/api/v2/tenants/:../databases/:..`
pub open spec fn database_segments(tenant: Seq<char>, database: Seq<char>) -> Seq<Segment> {
    tenant_segments(tenant).push(Segment::Literal("databases"@)).push(Segment::Parameter(database))
}

/// `/api/v2/tenants/:../databases/:database_name/collections/:collection_id`
pub open spec fn collection_segments(tenant: Seq<char>) -> Seq<Segment> {
    database_segments(tenant, "database_name"@).push(Segment::Literal("collections"@)).push(
        Segment::Parameter("collection_id"@),
    )
}

/// All handlers, in the order of their routes.
pub open spec fn all_endpoints() -> Seq<Endpoint> {
    seq![
        Endpoint::Root,
        Endpoint::Heartbeat,
        Endpoint::PreFlightChecks,
        Endpoint::Reset,
        Endpoint::Version,
        Endpoint::GetUserIdentity,
        Endpoint::CreateTenant,
        Endpoint::GetTenant,
        Endpoint::ListDatabases,
        Endpoint::CreateDatabase,
        Endpoint::GetDatabase,
        Endpoint::DeleteDatabase,
        Endpoint::CreateCollection,
        Endpoint::ListCollections,
        Endpoint::CountCollections,
        Endpoint::GetCollection,
        Endpoint::UpdateCollection,
        Endpoint::DeleteCollection,
        Endpoint::CollectionAdd,
        Endpoint::CollectionUpdate,
        Endpoint::CollectionUpsert,
        Endpoint::CollectionDelete,
        Endpoint::CollectionCount,
        Endpoint::CollectionGet,
        Endpoint::CollectionQuery,
    ]
}

impl Endpoint {
    /// The path that leads to this handler.
    pub open spec fn at_path(self) -> Seq<char> {
        match self {
            Endpoint::Root => "/api/v2"@,
            Endpoint::Heartbeat => "/api/v2/heartbeat"@,
            Endpoint::PreFlightChecks => "/api/v2/pre-flight-checks"@,
            Endpoint::Reset => "/api/v2/reset"@,
            Endpoint::Version => "/api/v2/version"@,
            Endpoint::GetUserIdentity => "/api/v2/auth/identity"@,
            Endpoint::CreateTenant => "/api/v2/tenants"@,
            Endpoint::GetTenant => "/api/v2/tenants/:tenant_name"@,
            Endpoint::ListDatabases => "/api/v2/tenants/:tenant_id/databases"@,
            Endpoint::CreateDatabase => "/api/v2/tenants/:tenant_id/databases"@,
            Endpoint::GetDatabase => "/api/v2/tenants/:tenant_id/databases/:name"@,
            Endpoint::DeleteDatabase => "/api/v2/tenants/:tenant_id/databases/:name"@,
            Endpoint::CreateCollection => {
                "/api/v2/tenants/:tenant_id/databases/:database_name/collections"@
            },
            Endpoint::ListCollections => {
                "/api/v2/tenants/:tenant_id/databases/:database_name/collections"@
            },
            Endpoint::CountCollections => {
                "/api/v2/tenants/:tenant_id/databases/:database_name/collections_count"@
            },
            Endpoint::GetCollection => {
                "/api/v2/tenants/:tenant_id/databases/:database_name/collections/:collection_id"@
            },
            Endpoint::UpdateCollection => {
                "/api/v2/tenants/:tenant_id/databases/:database_name/collections/:collection_id"@
            },
            Endpoint::DeleteCollection => {
                "/api/v2/tenants/:tenant_id/databases/:database_name/collections/:collection_id"@
            },
            Endpoint::CollectionAdd => {
                "/api/v2/tenants/:tenant/databases/:database_name/collections/:collection_id/add"@
            },
            Endpoint::CollectionUpdate => {
                "/api/v2/tenants/:tenant/databases/:database_name/collections/:collection_id/update"@
            },
            Endpoint::CollectionUpsert => {
                "/api/v2/tenants/:tenant/databases/:database_name/collections/:collection_id/upsert"@
            },
            Endpoint::CollectionDelete => {
                "/api/v2/tenants/:tenant/databases/:database_name/collections/:collection_id/delete"@
            },
            Endpoint::CollectionCount => {
                "/api/v2/tenants/:tenant_id/databases/:database_name/collections/:collection_id/count"@
            },
            Endpoint::CollectionGet => {
                "/api/v2/tenants/:tenant_id/databases/:database_name/collections/:collection_id/get"@
            },
            Endpoint::CollectionQuery => {
                "/api/v2/tenants/:tenant_id/databases/:database_name/collections/:collection_id/query"@
            },
        }
    }

    /// The segments of the path that leads to this handler.
    pub open spec fn segments(self) -> Seq<Segment> {
        match self {
            Endpoint::Root => base_segments(),
            Endpoint::Heartbeat => base_segments().push(Segment::Literal("heartbeat"@)),
            Endpoint::PreFlightChecks => base_segments().push(
                Segment::Literal("pre-flight-checks"@),
            ),
            Endpoint::Reset => base_segments().push(Segment::Literal("reset"@)),
            Endpoint::Version => base_segments().push(Segment::Literal("version"@)),
            Endpoint::GetUserIdentity => base_segments().push(Segment::Literal("auth"@)).push(
                Segment::Literal("identity"@),
            ),
            Endpoint::CreateTenant => base_segments().push(Segment::Literal("tenants"@)),
            Endpoint::GetTenant => tenant_segments("tenant_name"@),
            Endpoint::ListDatabases => tenant_segments("tenant_id"@).push(
                Segment::Literal("databases"@),
            ),
            Endpoint::CreateDatabase => tenant_segments("tenant_id"@).push(
                Segment::Literal("databases"@),
            ),
            Endpoint::GetDatabase => database_segments("tenant_id"@, "name"@),
            Endpoint::DeleteDatabase => database_segments("tenant_id"@, "name"@),
            Endpoint::CreateCollection => database_segments("tenant_id"@, "database_name"@).push(
                Segment::Literal("collections"@),
            ),
            Endpoint::ListCollections => database_segments("tenant_id"@, "database_name"@).push(
                Segment::Literal("collections"@),
            ),
            Endpoint::CountCollections => database_segments("tenant_id"@, "database_name"@).push(
                Segment::Literal("collections_count"@),
            ),
            Endpoint::GetCollection => collection_segments("tenant_id"@),
            Endpoint::UpdateCollection => collection_segments("tenant_id"@),
            Endpoint::DeleteCollection => collection_segments("tenant_id"@),
            Endpoint::CollectionAdd => collection_segments("tenant"@).push(
                Segment::Literal("add"@),
            ),
            Endpoint::CollectionUpdate => collection_segments("tenant"@).push(
                Segment::Literal("update"@),
            ),
            Endpoint::CollectionUpsert => collection_segments("tenant"@).push(
                Segment::Literal("upsert"@),
            ),
            Endpoint::CollectionDelete => collection_segments("tenant"@).push(
                Segment::Literal("delete"@),
            ),
            Endpoint::CollectionCount => collection_segments("tenant_id"@).push(
                Segment::Literal("count"@),
            ),
            Endpoint::CollectionGet => collection_segments("tenant_id"@).push(
                Segment::Literal("get"@),
            ),
            Endpoint::CollectionQuery => collection_segments("tenant_id"@).push(
                Segment::Literal("query"@),
            ),
        }
    }

    /// The method that leads to this handler.
    pub open spec fn by_method(self) -> Method {
        match self {
            Endpoint::Root => Method::Get,
            Endpoint::Heartbeat => Method::Get,
            Endpoint::PreFlightChecks => Method::Get,
            Endpoint::Reset => Method::Post,
            Endpoint::Version => Method::Get,
            Endpoint::GetUserIdentity => Method::Get,
            Endpoint::CreateTenant => Method::Post,
            Endpoint::GetTenant => Method::Get,
            Endpoint::ListDatabases => Method::Get,
            Endpoint::CreateDatabase => Method::Post,
            Endpoint::GetDatabase => Method::Get,
            Endpoint::DeleteDatabase => Method::Delete,
            Endpoint::CreateCollection => Method::Post,
            Endpoint::ListCollections => Method::Get,
            Endpoint::CountCollections => Method::Get,
            Endpoint::GetCollection => Method::Get,
            Endpoint::UpdateCollection => Method::Put,
            Endpoint::DeleteCollection => Method::Delete,
            Endpoint::CollectionAdd => Method::Post,
            Endpoint::CollectionUpdate => Method::Post,
            Endpoint::CollectionUpsert => Method::Post,
            Endpoint::CollectionDelete => Method::Post,
            Endpoint::CollectionCount => Method::Get,
            Endpoint::CollectionGet => Method::Post,
            Endpoint::CollectionQuery => Method::Post,
        }
    }

    /// The path that leads to this handler.
    pub fn path(self) -> (path: &'static str)
        ensures
            path@ == self.at_path(),
    {
        match self {
            Endpoint::Root => "/api/v2",
            Endpoint::Heartbeat => "/api/v2/heartbeat",
            Endpoint::PreFlightChecks => "/api/v2/pre-flight-checks",
            Endpoint::Reset => "/api/v2/reset",
            Endpoint::Version => "/api/v2/version",
            Endpoint::GetUserIdentity => "/api/v2/auth/identity",
            Endpoint::CreateTenant => "/api/v2/tenants",
            Endpoint::GetTenant => "/api/v2/tenants/:tenant_name",
            Endpoint::ListDatabases => "/api/v2/tenants/:tenant_id/databases",
            Endpoint::CreateDatabase => "/api/v2/tenants/:tenant_id/databases",
            Endpoint::GetDatabase => "/api/v2/tenants/:tenant_id/databases/:name",
            Endpoint::DeleteDatabase => "/api/v2/tenants/:tenant_id/databases/:name",
            Endpoint::CreateCollection => {
                "/api/v2/tenants/:tenant_id/databases/:database_name/collections"
            },
            Endpoint::ListCollections => {
                "/api/v2/tenants/:tenant_id/databases/:database_name/collections"
            },
            Endpoint::CountCollections => {
                "/api/v2/tenants/:tenant_id/databases/:database_name/collections_count"
            },
            Endpoint::GetCollection => {
                "/api/v2/tenants/:tenant_id/databases/:database_name/collections/:collection_id"
            },
            Endpoint::UpdateCollection => {
                "/api/v2/tenants/:tenant_id/databases/:database_name/collections/:collection_id"
            },
            Endpoint::DeleteCollection => {
                "/api/v2/tenants/:tenant_id/databases/:database_name/collections/:collection_id"
            },
            Endpoint::CollectionAdd => {
                "/api/v2/tenants/:tenant/databases/:database_name/collections/:collection_id/add"
            },
            Endpoint::CollectionUpdate => {
                "/api/v2/tenants/:tenant/databases/:database_name/collections/:collection_id/update"
            },
            Endpoint::CollectionUpsert => {
                "/api/v2/tenants/:tenant/databases/:database_name/collections/:collection_id/upsert"
            },
            Endpoint::CollectionDelete => {
                "/api/v2/tenants/:tenant/databases/:database_name/collections/:collection_id/delete"
            },
            Endpoint::CollectionCount => {
                "/api/v2/tenants/:tenant_id/databases/:database_name/collections/:collection_id/count"
            },
            Endpoint::CollectionGet => {
                "/api/v2/tenants/:tenant_id/databases/:database_name/collections/:collection_id/get"
            },
            Endpoint::CollectionQuery => {
                "/api/v2/tenants/:tenant_id/databases/:database_name/collections/:collection_id/query"
            },
        }
    }

    /// The method that leads to this handler.
    pub fn method(self) -> (method: Method)
        ensures
            method == self.by_method(),
    {
        match self {
            Endpoint::Root => Method::Get,
            Endpoint::Heartbeat => Method::Get,
            Endpoint::PreFlightChecks => Method::Get,
            Endpoint::Reset => Method::Post,
            Endpoint::Version => Method::Get,
            Endpoint::GetUserIdentity => Method::Get,
            Endpoint::CreateTenant => Method::Post,
            Endpoint::GetTenant => Method::Get,
            Endpoint::ListDatabases => Method::Get,
            Endpoint::CreateDatabase => Method::Post,
            Endpoint::GetDatabase => Method::Get,
            Endpoint::DeleteDatabase => Method::Delete,
            Endpoint::CreateCollection => Method::Post,
            Endpoint::ListCollections => Method::Get,
            Endpoint::CountCollections => Method::Get,
            Endpoint::GetCollection => Method::Get,
            Endpoint::UpdateCollection => Method::Put,
            Endpoint::DeleteCollection => Method::Delete,
            Endpoint::CollectionAdd => Method::Post,
            Endpoint::CollectionUpdate => Method::Post,
            Endpoint::CollectionUpsert => Method::Post,
            Endpoint::CollectionDelete => Method::Post,
            Endpoint::CollectionCount => Method::Get,
            Endpoint::CollectionGet => Method::Post,
            Endpoint::CollectionQuery => Method::Post,
        }
    }

    /// The route to this handler.
    pub fn route(self) -> (route: Route)
        ensures
            route.leads_to(self),
    {
        Route { path: self.path(), method: self.method(), endpoint: self }
    }
}

impl Route {
    /// This is the route to `endpoint`.
    pub open spec fn leads_to(self, endpoint: Endpoint) -> bool {
        &&& self.path@ == endpoint.at_path()
        &&& self.method == endpoint.by_method()
        &&& self.endpoint == endpoint
    }
}

/// The routes of the server: one for each handler.
pub fn routes() -> (routes: Vec<Route>)
    ensures
        routes@.len() == all_endpoints().len(),
        forall|i: int|
            0 <= i < routes@.len() ==> (#[trigger] routes@[i]).leads_to(all_endpoints()[i]),
{
    let mut routes: Vec<Route> = Vec::new();
    routes.push(Endpoint::Root.route());
    routes.push(Endpoint::Heartbeat.route());
    routes.push(Endpoint::PreFlightChecks.route());
    routes.push(Endpoint::Reset.route());
    routes.push(Endpoint::Version.route());
    routes.push(Endpoint::GetUserIdentity.route());
    routes.push(Endpoint::CreateTenant.route());
    routes.push(Endpoint::GetTenant.route());
    routes.push(Endpoint::ListDatabases.route());
    routes.push(Endpoint::CreateDatabase.route());
    routes.push(Endpoint::GetDatabase.route());
    routes.push(Endpoint::DeleteDatabase.route());
    routes.push(Endpoint::CreateCollection.route());
    routes.push(Endpoint::ListCollections.route());
    routes.push(Endpoint::CountCollections.route());
    routes.push(Endpoint::GetCollection.route());
    routes.push(Endpoint::UpdateCollection.route());
    routes.push(Endpoint::DeleteCollection.route());
    routes.push(Endpoint::CollectionAdd.route());
    routes.push(Endpoint::CollectionUpdate.route());
    routes.push(Endpoint::CollectionUpsert.route());
    routes.push(Endpoint::CollectionDelete.route());
    routes.push(Endpoint::CollectionCount.route());
    routes.push(Endpoint::CollectionGet.route());
    routes.push(Endpoint::CollectionQuery.route());
    routes
}

/// Every handler has a route, and only one.
pub proof fn every_endpoint_has_one_route(endpoint: Endpoint)
    ensures
        exists|i: int| 0 <= i < all_endpoints().len() && #[trigger] all_endpoints()[i] == endpoint,
        forall|i: int, j: int|
            0 <= i < j < all_endpoints().len() ==> #[trigger] all_endpoints()[i]
                != #[trigger] all_endpoints()[j],
{
    let i: int = match endpoint {
        Endpoint::Root => 0,
        Endpoint::Heartbeat => 1,
        Endpoint::PreFlightChecks => 2,
        Endpoint::Reset => 3,
        Endpoint::Version => 4,
        Endpoint::GetUserIdentity => 5,
        Endpoint::CreateTenant => 6,
        Endpoint::GetTenant => 7,
        Endpoint::ListDatabases => 8,
        Endpoint::CreateDatabase => 9,
        Endpoint::GetDatabase => 10,
        Endpoint::DeleteDatabase => 11,
        Endpoint::CreateCollection => 12,
        Endpoint::ListCollections => 13,
        Endpoint::CountCollections => 14,
        Endpoint::GetCollection => 15,
        Endpoint::UpdateCollection => 16,
        Endpoint::DeleteCollection => 17,
        Endpoint::CollectionAdd => 18,
        Endpoint::CollectionUpdate => 19,
        Endpoint::CollectionUpsert => 20,
        Endpoint::CollectionDelete => 21,
        Endpoint::CollectionCount => 22,
        Endpoint::CollectionGet => 23,
        Endpoint::CollectionQuery => 24,
    };
    assert(all_endpoints()[i] == endpoint);
}

/// A path with one segment more.
proof fn path_of_push(segments: Seq<Segment>, segment: Segment)
    ensures
        path_of(segments.push(segment)) == path_of(segments) + "/"@ + segment.text(),
{
    assert(segments.push(segment).drop_last() == segments);
}

/// The paths under a collection, all but their last segment.
proof fn collection_paths(tenant: Seq<char>)
    ensures
        path_of(base_segments()) == "/api/v2"@,
        path_of(tenant_segments(tenant)) == "/api/v2/tenants/:"@ + tenant,
        forall|database: Seq<char>| #[trigger]
            path_of(database_segments(tenant, database)) == "/api/v2/tenants/:"@ + tenant
                + "/databases/:"@ + database,
        path_of(collection_segments(tenant)) == "/api/v2/tenants/:"@ + tenant
            + "/databases/:database_name/collections/:collection_id"@,
{
    let none = Seq::<Segment>::empty();
    let api = none.push(Segment::Literal("api"@));
    path_of_push(none, Segment::Literal("api"@));
    path_of_push(api, Segment::Literal("v2"@));
    assert(base_segments() == api.push(Segment::Literal("v2"@)));
    assert(path_of(base_segments()) == "/api/v2"@) by {
        reveal_strlit("/");
        reveal_strlit("api");
        reveal_strlit("v2");
        reveal_strlit("/api/v2");
    }
    let tenants = base_segments().push(Segment::Literal("tenants"@));
    path_of_push(base_segments(), Segment::Literal("tenants"@));
    path_of_push(tenants, Segment::Parameter(tenant));
    assert(path_of(tenant_segments(tenant)) == "/api/v2/tenants/:"@ + tenant) by {
        reveal_strlit("/");
        reveal_strlit(":");
        reveal_strlit("/api/v2");
        reveal_strlit("tenants");
        reveal_strlit("/api/v2/tenants/:");
    }
    let databases = tenant_segments(tenant).push(Segment::Literal("databases"@));
    path_of_push(tenant_segments(tenant), Segment::Literal("databases"@));
    assert forall|database: Seq<char>| #[trigger]
        path_of(database_segments(tenant, database)) == "/api/v2/tenants/:"@ + tenant
            + "/databases/:"@ + database by {
        path_of_push(databases, Segment::Parameter(database));
        reveal_strlit("/");
        reveal_strlit(":");
        reveal_strlit("databases");
        reveal_strlit("/databases/:");
    }
    let database = database_segments(tenant, "database_name"@);
    let collections = database.push(Segment::Literal("collections"@));
    path_of_push(database, Segment::Literal("collections"@));
    path_of_push(collections, Segment::Parameter("collection_id"@));
    assert(path_of(collection_segments(tenant)) == "/api/v2/tenants/:"@ + tenant
        + "/databases/:database_name/collections/:collection_id"@) by {
        reveal_strlit("/");
        reveal_strlit(":");
        reveal_strlit("/databases/:");
        reveal_strlit("database_name");
        reveal_strlit("collections");
        reveal_strlit("collection_id");
        reveal_strlit("/databases/:database_name/collections/:collection_id");
    }
}

/// The path that leads to a handler is made of its segments.
pub proof fn path_has_its_segments(endpoint: Endpoint)
    ensures
        endpoint.at_path() == path_of(endpoint.segments()),
{
    collection_paths("tenant_name"@);
    collection_paths("tenant_id"@);
    collection_paths("tenant"@);
    match endpoint {
        Endpoint::Root => {
        },
        Endpoint::Heartbeat => {
            path_of_push(base_segments(), Segment::Literal("heartbeat"@));
            reveal_strlit("/api/v2");
            reveal_strlit("/");
            reveal_strlit("heartbeat");
            reveal_strlit("/api/v2/heartbeat");
        },
        Endpoint::PreFlightChecks => {
            path_of_push(base_segments(), Segment::Literal("pre-flight-checks"@));
            reveal_strlit("/api/v2");
            reveal_strlit("/");
            reveal_strlit("pre-flight-checks");
            reveal_strlit("/api/v2/pre-flight-checks");
        },
        Endpoint::Reset => {
            path_of_push(base_segments(), Segment::Literal("reset"@));
            reveal_strlit("/api/v2");
            reveal_strlit("/");
            reveal_strlit("reset");
            reveal_strlit("/api/v2/reset");
        },
        Endpoint::Version => {
            path_of_push(base_segments(), Segment::Literal("version"@));
            reveal_strlit("/api/v2");
            reveal_strlit("/");
            reveal_strlit("version");
            reveal_strlit("/api/v2/version");
        },
        Endpoint::GetUserIdentity => {
            path_of_push(base_segments(), Segment::Literal("auth"@));
            path_of_push(
                base_segments().push(Segment::Literal("auth"@)),
                Segment::Literal("identity"@),
            );
            reveal_strlit("/api/v2");
            reveal_strlit("/");
            reveal_strlit("auth");
            reveal_strlit("identity");
            reveal_strlit("/api/v2/auth/identity");
        },
        Endpoint::CreateTenant => {
            path_of_push(base_segments(), Segment::Literal("tenants"@));
            reveal_strlit("/api/v2");
            reveal_strlit("/");
            reveal_strlit("tenants");
            reveal_strlit("/api/v2/tenants");
        },
        Endpoint::GetTenant => {
            reveal_strlit("/api/v2/tenants/:");
            reveal_strlit("tenant_name");
            reveal_strlit("/api/v2/tenants/:tenant_name");
        },
        Endpoint::ListDatabases => {
            path_of_push(tenant_segments("tenant_id"@), Segment::Literal("databases"@));
            reveal_strlit("/api/v2/tenants/:");
            reveal_strlit("tenant_id");
            reveal_strlit("/");
            reveal_strlit("databases");
            reveal_strlit("/api/v2/tenants/:tenant_id/databases");
        },
        Endpoint::CreateDatabase => {
            path_of_push(tenant_segments("tenant_id"@), Segment::Literal("databases"@));
            reveal_strlit("/api/v2/tenants/:");
            reveal_strlit("tenant_id");
            reveal_strlit("/");
            reveal_strlit("databases");
            reveal_strlit("/api/v2/tenants/:tenant_id/databases");
        },
        Endpoint::GetDatabase => {
            reveal_strlit("/api/v2/tenants/:");
            reveal_strlit("tenant_id");
            reveal_strlit("/databases/:");
            reveal_strlit("name");
            reveal_strlit("/api/v2/tenants/:tenant_id/databases/:name");
        },
        Endpoint::DeleteDatabase => {
            reveal_strlit("/api/v2/tenants/:");
            reveal_strlit("tenant_id");
            reveal_strlit("/databases/:");
            reveal_strlit("name");
            reveal_strlit("/api/v2/tenants/:tenant_id/databases/:name");
        },
        Endpoint::CreateCollection => {
            path_of_push(
                database_segments("tenant_id"@, "database_name"@),
                Segment::Literal("collections"@),
            );
            reveal_strlit("/api/v2/tenants/:");
            reveal_strlit("tenant_id");
            reveal_strlit("/databases/:");
            reveal_strlit("database_name");
            reveal_strlit("/");
            reveal_strlit("collections");
            reveal_strlit("/api/v2/tenants/:tenant_id/databases/:database_name/collections");
        },
        Endpoint::ListCollections => {
            path_of_push(
                database_segments("tenant_id"@, "database_name"@),
                Segment::Literal("collections"@),
            );
            reveal_strlit("/api/v2/tenants/:");
            reveal_strlit("tenant_id");
            reveal_strlit("/databases/:");
            reveal_strlit("database_name");
            reveal_strlit("/");
            reveal_strlit("collections");
            reveal_strlit("/api/v2/tenants/:tenant_id/databases/:database_name/collections");
        },
        Endpoint::CountCollections => {
            path_of_push(
                database_segments("tenant_id"@, "database_name"@),
                Segment::Literal("collections_count"@),
            );
            reveal_strlit("/api/v2/tenants/:");
            reveal_strlit("tenant_id");
            reveal_strlit("/databases/:");
            reveal_strlit("database_name");
            reveal_strlit("/");
            reveal_strlit("collections_count");
            reveal_strlit("/api/v2/tenants/:tenant_id/databases/:database_name/collections_count");
        },
        Endpoint::GetCollection => {
            reveal_strlit("/api/v2/tenants/:");
            reveal_strlit("tenant_id");
            reveal_strlit("/databases/:database_name/collections/:collection_id");
            reveal_strlit("/api/v2/tenants/:tenant_id/databases/:database_name/collections/:collection_id");
        },
        Endpoint::UpdateCollection => {
            reveal_strlit("/api/v2/tenants/:");
            reveal_strlit("tenant_id");
            reveal_strlit("/databases/:database_name/collections/:collection_id");
            reveal_strlit("/api/v2/tenants/:tenant_id/databases/:database_name/collections/:collection_id");
        },
        Endpoint::DeleteCollection => {
            reveal_strlit("/api/v2/tenants/:");
            reveal_strlit("tenant_id");
            reveal_strlit("/databases/:database_name/collections/:collection_id");
            reveal_strlit("/api/v2/tenants/:tenant_id/databases/:database_name/collections/:collection_id");
        },
        Endpoint::CollectionAdd => {
            path_of_push(
                collection_segments("tenant"@),
                Segment::Literal("add"@),
            );
            reveal_strlit("/api/v2/tenants/:");
            reveal_strlit("tenant");
            reveal_strlit("/databases/:database_name/collections/:collection_id");
            reveal_strlit("/");
            reveal_strlit("add");
            reveal_strlit("/api/v2/tenants/:tenant/databases/:database_name/collections/:collection_id/add");
        },
        Endpoint::CollectionUpdate => {
            path_of_push(
                collection_segments("tenant"@),
                Segment::Literal("update"@),
            );
            reveal_strlit("/api/v2/tenants/:");
            reveal_strlit("tenant");
            reveal_strlit("/databases/:database_name/collections/:collection_id");
            reveal_strlit("/");
            reveal_strlit("update");
            reveal_strlit("/api/v2/tenants/:tenant/databases/:database_name/collections/:collection_id/update");
        },
        Endpoint::CollectionUpsert => {
            path_of_push(
                collection_segments("tenant"@),
                Segment::Literal("upsert"@),
            );
            reveal_strlit("/api/v2/tenants/:");
            reveal_strlit("tenant");
            reveal_strlit("/databases/:database_name/collections/:collection_id");
            reveal_strlit("/");
            reveal_strlit("upsert");
            reveal_strlit("/api/v2/tenants/:tenant/databases/:database_name/collections/:collection_id/upsert");
        },
        Endpoint::CollectionDelete => {
            path_of_push(
                collection_segments("tenant"@),
                Segment::Literal("delete"@),
            );
            reveal_strlit("/api/v2/tenants/:");
            reveal_strlit("tenant");
            reveal_strlit("/databases/:database_name/collections/:collection_id");
            reveal_strlit("/");
            reveal_strlit("delete");
            reveal_strlit("/api/v2/tenants/:tenant/databases/:database_name/collections/:collection_id/delete");
        },
        Endpoint::CollectionCount => {
            path_of_push(
                collection_segments("tenant_id"@),
                Segment::Literal("count"@),
            );
            reveal_strlit("/api/v2/tenants/:");
            reveal_strlit("tenant_id");
            reveal_strlit("/databases/:database_name/collections/:collection_id");
            reveal_strlit("/");
            reveal_strlit("count");
            reveal_strlit("/api/v2/tenants/:tenant_id/databases/:database_name/collections/:collection_id/count");
        },
        Endpoint::CollectionGet => {
            path_of_push(
                collection_segments("tenant_id"@),
                Segment::Literal("get"@),
            );
            reveal_strlit("/api/v2/tenants/:");
            reveal_strlit("tenant_id");
            reveal_strlit("/databases/:database_name/collections/:collection_id");
            reveal_strlit("/");
            reveal_strlit("get");
            reveal_strlit("/api/v2/tenants/:tenant_id/databases/:database_name/collections/:collection_id/get");
        },
        Endpoint::CollectionQuery => {
            path_of_push(
                collection_segments("tenant_id"@),
                Segment::Literal("query"@),
            );
            reveal_strlit("/api/v2/tenants/:");
            reveal_strlit("tenant_id");
            reveal_strlit("/databases/:database_name/collections/:collection_id");
            reveal_strlit("/");
            reveal_strlit("query");
            reveal_strlit("/api/v2/tenants/:tenant_id/databases/:database_name/collections/:collection_id/query");
        },
    }
}

/// How many segments the path to a handler has, and the last of them.
spec fn ending(endpoint: Endpoint) -> (int, Segment) {
    match endpoint {
        Endpoint::Root => (2, Segment::Literal("v2"@)),
        Endpoint::Heartbeat => (3, Segment::Literal("heartbeat"@)),
        Endpoint::PreFlightChecks => (3, Segment::Literal("pre-flight-checks"@)),
        Endpoint::Reset => (3, Segment::Literal("reset"@)),
        Endpoint::Version => (3, Segment::Literal("version"@)),
        Endpoint::GetUserIdentity => (4, Segment::Literal("identity"@)),
        Endpoint::CreateTenant => (3, Segment::Literal("tenants"@)),
        Endpoint::GetTenant => (4, Segment::Parameter("tenant_name"@)),
        Endpoint::ListDatabases => (5, Segment::Literal("databases"@)),
        Endpoint::CreateDatabase => (5, Segment::Literal("databases"@)),
        Endpoint::GetDatabase => (6, Segment::Parameter("name"@)),
        Endpoint::DeleteDatabase => (6, Segment::Parameter("name"@)),
        Endpoint::CreateCollection => (7, Segment::Literal("collections"@)),
        Endpoint::ListCollections => (7, Segment::Literal("collections"@)),
        Endpoint::CountCollections => (7, Segment::Literal("collections_count"@)),
        Endpoint::GetCollection => (8, Segment::Parameter("collection_id"@)),
        Endpoint::UpdateCollection => (8, Segment::Parameter("collection_id"@)),
        Endpoint::DeleteCollection => (8, Segment::Parameter("collection_id"@)),
        Endpoint::CollectionAdd => (9, Segment::Literal("add"@)),
        Endpoint::CollectionUpdate => (9, Segment::Literal("update"@)),
        Endpoint::CollectionUpsert => (9, Segment::Literal("upsert"@)),
        Endpoint::CollectionDelete => (9, Segment::Literal("delete"@)),
        Endpoint::CollectionCount => (9, Segment::Literal("count"@)),
        Endpoint::CollectionGet => (9, Segment::Literal("get"@)),
        Endpoint::CollectionQuery => (9, Segment::Literal("query"@)),
    }
}

/// The ending of a path, and its third segment.
proof fn segments_end(endpoint: Endpoint)
    ensures
        endpoint.segments().len() == ending(endpoint).0,
        endpoint.segments()[ending(endpoint).0 - 1] == ending(endpoint).1,
        endpoint.segments().len() > 3 ==> endpoint.segments()[2] == (if endpoint
            == Endpoint::GetUserIdentity {
            Segment::Literal("auth"@)
        } else {
            Segment::Literal("tenants"@)
        }),
{
}

/// The texts that tell paths apart differ.
proof fn literals_differ()
    ensures
        "heartbeat"@ != "pre-flight-checks"@,
        "heartbeat"@ != "version"@,
        "pre-flight-checks"@ != "version"@,
        "reset"@ != "tenants"@,
        "auth"@ != "tenants"@,
        "collections"@ != "collections_count"@,
        "add"@ != "update"@,
        "add"@ != "upsert"@,
        "update"@ != "upsert"@,
        "add"@ != "delete"@,
        "update"@ != "delete"@,
        "upsert"@ != "delete"@,
        "add"@ != "get"@,
        "update"@ != "get"@,
        "upsert"@ != "get"@,
        "delete"@ != "get"@,
        "add"@ != "query"@,
        "update"@ != "query"@,
        "upsert"@ != "query"@,
        "delete"@ != "query"@,
        "get"@ != "query"@,
{
    reveal_strlit("heartbeat");
    reveal_strlit("pre-flight-checks");
    reveal_strlit("version");
    reveal_strlit("reset");
    reveal_strlit("tenants");
    reveal_strlit("auth");
    reveal_strlit("collections");
    reveal_strlit("collections_count");
    reveal_strlit("add");
    reveal_strlit("update");
    reveal_strlit("upsert");
    reveal_strlit("delete");
    reveal_strlit("get");
    reveal_strlit("query");
    assert("heartbeat"@.len() != "pre-flight-checks"@.len());
    assert("heartbeat"@.len() != "version"@.len());
    assert("pre-flight-checks"@.len() != "version"@.len());
    assert("reset"@.len() != "tenants"@.len());
    assert("auth"@.len() != "tenants"@.len());
    assert("collections"@.len() != "collections_count"@.len());
    assert("add"@.len() != "update"@.len());
    assert("add"@.len() != "upsert"@.len());
    assert("update"@[2] != "upsert"@[2]);
    assert("add"@.len() != "delete"@.len());
    assert("update"@[0] != "delete"@[0]);
    assert("upsert"@[0] != "delete"@[0]);
    assert("add"@[0] != "get"@[0]);
    assert("update"@.len() != "get"@.len());
    assert("upsert"@.len() != "get"@.len());
    assert("delete"@.len() != "get"@.len());
    assert("add"@.len() != "query"@.len());
    assert("update"@.len() != "query"@.len());
    assert("upsert"@.len() != "query"@.len());
    assert("delete"@.len() != "query"@.len());
    assert("get"@.len() != "query"@.len());
}

/// No requested path leads, under one method, to two handlers.
pub proof fn routes_do_not_clash(a: Endpoint, b: Endpoint, parts: Seq<Seq<char>>)
    requires
        path_fits(a.segments(), parts),
        path_fits(b.segments(), parts),
        a.by_method() == b.by_method(),
    ensures
        a == b,
{
    literals_differ();
    segments_end(a);
    segments_end(b);
    let last = parts.len() - 1;
    assert(a.segments()[last].fits(parts[last]));
    assert(b.segments()[last].fits(parts[last]));
    if parts.len() > 3 {
        assert(a.segments()[2].fits(parts[2]));
        assert(b.segments()[2].fits(parts[2]));
    }
}

} // verus!
