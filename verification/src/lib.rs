//! Request routing for an edge worker: strips a route prefix from the inbound
//! path, decides what to do once the handler registry has answered, shapes the
//! request handed to the handler, and turns the handler's answer into the
//! response or the error that leaves the worker.
//!
//! The library holds the decisions only. Whoever drives it reads the request,
//! queries the registry, awaits the handler and delivers the response.

pub mod exchange;
pub mod key;
pub mod machine;
pub mod message;
pub mod routing;
pub mod uri;
