//! A minimal HTTP request-handling core: method classification, an error
//! taxonomy with wire envelopes, handler composition, and the per-request
//! admission and body-validation state machine.

pub mod error;
pub mod method;
pub mod router;
pub mod schema;
pub mod service;

pub use error::{BaseError, DynError, InvalidParameter};
pub use method::{SupportedMethod, UnsupportedMethod};
pub use router::Router;
pub use schema::{Error, ErrorSchema, Schema, SchemaFragment};
pub use service::{admission, complete, handler_input, Admission, BodyRead, Builder, Config, OutBuffer, Service};
