//! Exposes one in-process object, an actor, as a JSON service over HTTP and
//! WebSocket, optionally behind TLS.
//!
//! The heart of the crate is the dispatcher: a method name and a JSON payload
//! go in, a JSON text comes out, and every application-level failure is
//! reported as a JSON string rather than as a transport error.
pub mod json;
pub mod text;
pub mod registry;
pub mod actor;
pub mod example;
pub mod demo;
pub mod http;
pub mod websocket;
pub mod tls;
pub mod server;
pub mod naming;
pub mod docs;

pub use crate::actor::{Actor, Dispatch};
pub use crate::example::ExampleActor;
pub use crate::naming::snake_case_to_pascal_case;
pub use crate::server::{Serve, Server, Service, Transport};
pub use crate::tls::TlsConfig;
