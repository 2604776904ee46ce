use frontend_server::routes::{routes, Endpoint, Method};
use frontend_server::server::{CircuitBreakerConfig, FrontendConfig, FrontendServer};

fn found(method: Method, path: &str) -> Vec<Endpoint> {
    routes()
        .into_iter()
        .filter(|route| route.method == method && route.path == path)
        .map(|route| route.endpoint)
        .collect()
}

fn server(enabled: bool) -> FrontendServer<u32, &'static str> {
    let circuit_breaker = CircuitBreakerConfig { enabled, settings: 7 };
    FrontendServer::new(FrontendConfig { circuit_breaker }, "backend")
}

#[test]
fn paths_and_methods_lead_to_handlers() {
    let collections = "/api/v2/tenants/:tenant_id/databases/:database_name/collections";
    let collection =
        "/api/v2/tenants/:tenant_id/databases/:database_name/collections/:collection_id";
    let expected = [
        (Method::Get, "/api/v2", Endpoint::Root),
        (Method::Get, "/api/v2/heartbeat", Endpoint::Heartbeat),
        (Method::Get, "/api/v2/pre-flight-checks", Endpoint::PreFlightChecks),
        (Method::Post, "/api/v2/reset", Endpoint::Reset),
        (Method::Get, "/api/v2/version", Endpoint::Version),
        (Method::Get, "/api/v2/auth/identity", Endpoint::GetUserIdentity),
        (Method::Post, "/api/v2/tenants", Endpoint::CreateTenant),
        (Method::Get, "/api/v2/tenants/:tenant_name", Endpoint::GetTenant),
        (Method::Get, "/api/v2/tenants/:tenant_id/databases", Endpoint::ListDatabases),
        (Method::Post, "/api/v2/tenants/:tenant_id/databases", Endpoint::CreateDatabase),
        (Method::Get, "/api/v2/tenants/:tenant_id/databases/:name", Endpoint::GetDatabase),
        (Method::Delete, "/api/v2/tenants/:tenant_id/databases/:name", Endpoint::DeleteDatabase),
        (Method::Post, collections, Endpoint::CreateCollection),
        (Method::Get, collections, Endpoint::ListCollections),
        (
            Method::Get,
            "/api/v2/tenants/:tenant_id/databases/:database_name/collections_count",
            Endpoint::CountCollections,
        ),
        (Method::Get, collection, Endpoint::GetCollection),
        (Method::Put, collection, Endpoint::UpdateCollection),
        (Method::Delete, collection, Endpoint::DeleteCollection),
        (
            Method::Post,
            "/api/v2/tenants/:tenant/databases/:database_name/collections/:collection_id/add",
            Endpoint::CollectionAdd,
        ),
        (
            Method::Post,
            "/api/v2/tenants/:tenant/databases/:database_name/collections/:collection_id/update",
            Endpoint::CollectionUpdate,
        ),
        (
            Method::Post,
            "/api/v2/tenants/:tenant/databases/:database_name/collections/:collection_id/upsert",
            Endpoint::CollectionUpsert,
        ),
        (
            Method::Post,
            "/api/v2/tenants/:tenant/databases/:database_name/collections/:collection_id/delete",
            Endpoint::CollectionDelete,
        ),
        (
            Method::Get,
            "/api/v2/tenants/:tenant_id/databases/:database_name/collections/:collection_id/count",
            Endpoint::CollectionCount,
        ),
        (
            Method::Post,
            "/api/v2/tenants/:tenant_id/databases/:database_name/collections/:collection_id/get",
            Endpoint::CollectionGet,
        ),
        (
            Method::Post,
            "/api/v2/tenants/:tenant_id/databases/:database_name/collections/:collection_id/query",
            Endpoint::CollectionQuery,
        ),
    ];
    assert_eq!(routes().len(), expected.len());
    for (method, path, endpoint) in expected {
        assert_eq!(found(method, path), vec![endpoint]);
    }
}

#[test]
fn unknown_routes_lead_nowhere() {
    assert_eq!(found(Method::Post, "/api/v2"), vec![]);
    assert_eq!(found(Method::Get, "/api/v1"), vec![]);
}

#[test]
fn every_handler_has_one_route() {
    for route in routes() {
        let same = routes().into_iter().filter(|other| other.endpoint == route.endpoint).count();
        assert_eq!(same, 1);
    }
}

#[test]
fn requested_paths_lead_to_one_handler() {
    let all = routes();
    for a in &all {
        let requested: Vec<String> =
            a.path.split('/').map(|part| part.replace(':', "some-")).collect();
        let fitting: Vec<Endpoint> = all
            .iter()
            .filter(|b| b.method == a.method)
            .filter(|b| {
                let parts: Vec<&str> = b.path.split('/').collect();
                parts.len() == requested.len()
                    && parts.iter().zip(&requested).all(|(p, r)| p.starts_with(':') || p == r)
            })
            .map(|b| b.endpoint)
            .collect();
        assert_eq!(fitting, vec![a.endpoint]);
    }
}

#[test]
fn server_keeps_what_it_is_made_of() {
    let server = server(true);
    assert_eq!(server.frontend, "backend");
    assert_eq!(server.config.circuit_breaker.settings, 7);
    assert!(server.config.circuit_breaker.enabled());
}

#[test]
fn launch_follows_the_configuration() {
    let launch = FrontendServer::run(server(true));
    assert!(launch.admission_controlled);
    assert_eq!(launch.address, "0.0.0.0:3000");
    assert_eq!(launch.routes, routes());
    assert_eq!(launch.server.frontend, "backend");
    assert!(!FrontendServer::run(server(false)).admission_controlled);
}
