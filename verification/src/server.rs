//! The server and what it needs to start.
use vstd::prelude::*;

use crate::routes::{routes, Route};

verus! {

/// The address that the server listens on.
pub const LISTEN_ADDRESS: &'static str = "0.0.0.0:3000";

/// The configuration of the circuit breaker, which admits only so many requests
/// at a time. `B` stands for the settings that only the breaker reads.
#[derive(Debug, Clone)]
pub struct CircuitBreakerConfig<B> {
    pub enabled: bool,
    pub settings: B,
}

impl<B> CircuitBreakerConfig<B> {
    /// Whether requests pass through the circuit breaker.
    pub fn enabled(&self) -> (enabled: bool)
        ensures
            enabled == self.enabled,
    {
        self.enabled
    }
}

/// The configuration of the server.
#[derive(Debug, Clone)]
pub struct FrontendConfig<B> {
    pub circuit_breaker: CircuitBreakerConfig<B>,
}

/// A server: its configuration and the backend `F` that it asks.
#[derive(Debug, Clone)]
pub struct FrontendServer<B, F> {
    pub config: FrontendConfig<B>,
    pub frontend: F,
}

/// What is to be started.
#[derive(Debug)]
pub struct Launch<B, F> {
    /// The server whose handlers the routes lead to.
    pub server: FrontendServer<B, F>,
    /// The routes, in the order in which they are set up.
    pub routes: Vec<Route>,
    /// The address to listen on.
    pub address: &'static str,
    /// Whether requests pass through the circuit breaker before they are routed.
    pub admission_controlled: bool,
}

impl<B, F> FrontendServer<B, F> {
    /// A server of this configuration in front of this backend.
    pub fn new(config: FrontendConfig<B>, frontend: F) -> (server: FrontendServer<B, F>)
        ensures
            server.config == config,
            server.frontend == frontend,
    {
        FrontendServer { config, frontend }
    }

    /// Says what is to be started to run `server`.
    pub fn run(server: FrontendServer<B, F>) -> (launch: Launch<B, F>)
        ensures
            launch.server == server,
            launch.routes@.len() == crate::routes::all_endpoints().len(),
            forall|i: int|
                0 <= i < launch.routes@.len() ==> (#[trigger] launch.routes@[i]).leads_to(
                    crate::routes::all_endpoints()[i],
                ),
            launch.address@ == LISTEN_ADDRESS@,
            launch.admission_controlled == server.config.circuit_breaker.enabled,
    {
        let admission_controlled = server.config.circuit_breaker.enabled();
        Launch { server, routes: routes(), address: LISTEN_ADDRESS, admission_controlled }
    }
}

} // verus!
