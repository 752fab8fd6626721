//! A lightweight remote-procedure-call core in which a remote call looks like
//! an ordinary method call. A service interface is a table of methods; a
//! client stub marshals each call across a pluggable transport and a server
//! dispatcher decodes incoming calls, forwards them to an implementation of
//! the interface, and returns the result on the same transport.

pub mod client;
pub mod demo;
pub mod errors;
pub mod iface;
pub mod laws;
pub mod roundtrip;
pub mod server;
pub mod service;
pub mod textfmt;
pub mod transport;
pub mod wire;

pub use client::Client;
pub use errors::ErrModel;
pub use errors::GenericSerializableError;
pub use errors::RPCError;
pub use errors::RPCErrorKind;
pub use iface::InterfaceDef;
pub use iface::MethodDef;
pub use roundtrip::loopback_exchange;
pub use roundtrip::transact;
pub use server::RPCServer;
pub use server::ServeCondition;
pub use server::Server;
pub use service::Service;
pub use transport::LimitedLoopback;
pub use transport::Loopback;
pub use transport::Transport;
pub use wire::Envelope;
pub use wire::EnvelopeModel;
pub use wire::MethodId;
pub use wire::PartialMethodId;
pub use wire::ValueModel;
pub use wire::WireRequest;
pub use wire::WireValue;
