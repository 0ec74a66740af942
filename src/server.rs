//! Handing an actor to a listener. The actor's registry is built once, when
//! the server is made; from then on the server owns the actor, and the only
//! way to reach it is the dispatch protocol.
use vstd::prelude::*;
use crate::actor::{Actor, dispatch_outcome, dispatch_with, is_empty_object_text, value_outcome};
use crate::json::{JsonModel, json_content, json_parse, parse_value, quote};
use crate::registry::{Registry, RegistryError};
use crate::text::push_text;
use crate::tls::TlsConfig;

verus! {

/// An actor together with the registry of its methods, built once.
pub struct Service<A: Actor> {
    actor: A,
    registry: Registry,
}

impl<A: Actor> Service<A> {
    /// The actor being served.
    pub closed spec fn actor(&self) -> A {
        self.actor
    }

    #[verifier::type_invariant]
    spec fn registry_matches(&self) -> bool {
        self.registry.wf() && self.registry@ == self.actor.exposed()
    }

    /// Builds the registry of the actor's methods, refusing one in which two
    /// methods share a name.
    pub fn new(actor: A) -> (r: Result<Service<A>, RegistryError>)
        ensures
            r is Ok,
            r->Ok_0.actor() == actor,
    {
        match Registry::from_methods(actor.methods()) {
            Ok(registry) => Ok(Service { actor, registry }),
            Err(e) => Err(e),
        }
    }

    /// Calls the method `method_name` with the members of the JSON object
    /// `msg` as its arguments, and returns the JSON text of the result.
    pub fn dispatch(&self, method_name: &str, msg: &str) -> (r: String)
        ensures
            r@ == dispatch_outcome(&self.actor(), method_name@, json_parse(msg@)),
            is_empty_object_text(msg@) ==> r@ == value_outcome(
                &self.actor(),
                method_name@,
                JsonModel::Object(Map::empty()),
            ),
    {
        match parse_value(msg) {
            Err(reason) => {
                let mut text = "Failed to parse JSON: ".to_owned();
                push_text(&mut text, reason.as_str());
                quote(text.as_str())
            },
            Ok(v) => self.dispatch_value(method_name, &v),
        }
    }

    /// Calls the method `method_name` with the members of the parsed JSON
    /// value `params` as its arguments.
    pub fn dispatch_value(&self, method_name: &str, params: &serde_json::Value) -> (r: String)
        ensures
            r@ == value_outcome(&self.actor(), method_name@, json_content(*params)),
    {
        proof {
            use_type_invariant(self);
        }
        dispatch_with(&self.actor, &self.registry, method_name, params)
    }
}

/// The protocol a listener speaks.
#[derive(Clone, Copy, Debug, PartialEq, Eq)]
pub enum Transport {
    Http,
    WebSocket,
}

/// Everything a listener needs: the service it runs, which owns the actor,
/// the port, the protocol, and the TLS files if the connections are
/// encrypted.
pub struct Server<A: Actor> {
    service: Service<A>,
    port: u16,
    transport: Transport,
    tls: Option<TlsConfig>,
}

impl<A: Actor> Server<A> {
    /// The actor this server runs.
    pub closed spec fn actor(&self) -> A {
        self.service.actor()
    }

    /// The port, in specifications.
    pub closed spec fn port_spec(&self) -> u16 {
        self.port
    }

    /// The protocol, in specifications.
    pub closed spec fn transport_spec(&self) -> Transport {
        self.transport
    }

    /// The TLS files, in specifications.
    pub closed spec fn tls_spec(&self) -> Option<TlsConfig> {
        self.tls
    }

    /// The port.
    pub fn port(&self) -> (r: u16)
        ensures
            r == self.port_spec(),
    {
        self.port
    }

    /// The protocol.
    pub fn transport(&self) -> (r: Transport)
        ensures
            r == self.transport_spec(),
    {
        self.transport
    }

    /// The TLS files, if any.
    pub fn tls(&self) -> (r: &Option<TlsConfig>)
        ensures
            *r == self.tls_spec(),
    {
        &self.tls
    }

    /// Takes the server apart to run it: the service, the port, the protocol
    /// and the TLS files.
    pub fn into_parts(self) -> (r: (Service<A>, u16, Transport, Option<TlsConfig>))
        ensures
            r.0.actor() == self.actor(),
            r.1 == self.port_spec(),
            r.2 == self.transport_spec(),
            r.3 == self.tls_spec(),
    {
        (self.service, self.port, self.transport, self.tls)
    }
}

/// Building a server from an actor; each of these takes the actor by value,
/// so no caller keeps it.
pub trait Serve: Actor + Sized {
    /// A server on `port`, over WebSocket when `websocket` holds and over
    /// HTTP otherwise, encrypted when `tls_config` is given. Fails when two
    /// methods share a name.
    fn create_options(self, port: u16, websocket: bool, tls_config: Option<TlsConfig>) -> (r: Result<Server<Self>, RegistryError>)
        ensures
            r is Ok,
            r->Ok_0.actor() == self,
            r->Ok_0.port_spec() == port,
            r->Ok_0.transport_spec() == (if websocket { Transport::WebSocket } else { Transport::Http }),
            r->Ok_0.tls_spec() == tls_config,
    ;

    /// A plain HTTP server on `port`.
    fn create(self, port: u16) -> (r: Result<Server<Self>, RegistryError>)
        ensures
            r is Ok,
            r->Ok_0.actor() == self,
            r->Ok_0.port_spec() == port,
            r->Ok_0.transport_spec() == Transport::Http,
            r->Ok_0.tls_spec() is None,
    ;

    /// A plain WebSocket server on `port`.
    fn create_ws(self, port: u16) -> (r: Result<Server<Self>, RegistryError>)
        ensures
            r is Ok,
            r->Ok_0.actor() == self,
            r->Ok_0.port_spec() == port,
            r->Ok_0.transport_spec() == Transport::WebSocket,
            r->Ok_0.tls_spec() is None,
    ;

    /// An HTTPS server on `port`.
    fn create_https(self, port: u16, tls_config: TlsConfig) -> (r: Result<Server<Self>, RegistryError>)
        ensures
            r is Ok,
            r->Ok_0.actor() == self,
            r->Ok_0.port_spec() == port,
            r->Ok_0.transport_spec() == Transport::Http,
            r->Ok_0.tls_spec() == Some(tls_config),
    ;

    /// A WSS server on `port`.
    fn create_wss(self, port: u16, tls_config: TlsConfig) -> (r: Result<Server<Self>, RegistryError>)
        ensures
            r is Ok,
            r->Ok_0.actor() == self,
            r->Ok_0.port_spec() == port,
            r->Ok_0.transport_spec() == Transport::WebSocket,
            r->Ok_0.tls_spec() == Some(tls_config),
    ;
}

impl<A: Actor> Serve for A {
    fn create_options(self, port: u16, websocket: bool, tls_config: Option<TlsConfig>) -> (r: Result<Server<Self>, RegistryError>) {
        let transport = if websocket {
            Transport::WebSocket
        } else {
            Transport::Http
        };
        match Service::new(self) {
            Ok(service) => Ok(Server { service, port, transport, tls: tls_config }),
            Err(e) => Err(e),
        }
    }

    fn create(self, port: u16) -> (r: Result<Server<Self>, RegistryError>) {
        self.create_options(port, false, None)
    }

    fn create_ws(self, port: u16) -> (r: Result<Server<Self>, RegistryError>) {
        self.create_options(port, true, None)
    }

    fn create_https(self, port: u16, tls_config: TlsConfig) -> (r: Result<Server<Self>, RegistryError>) {
        self.create_options(port, false, Some(tls_config))
    }

    fn create_wss(self, port: u16, tls_config: TlsConfig) -> (r: Result<Server<Self>, RegistryError>) {
        self.create_options(port, true, Some(tls_config))
    }
}

} // verus!
