//! The core of a single-route service that takes a JSON description of a
//! user and has it appended to a collection.
//!
//! The crate does no I/O. A caller hands it the method, the path and the body
//! of a request; it hands back the reply to send and, where the request is
//! accepted, the record to append. Running the listener and writing to the
//! database are the caller's.
//!
//! - [`record`]: the user record.
//! - [`json`]: JSON documents, read out of their text by `serde_json`.
//! - [`schema`]: decoding a document into a record.
//! - [`reply`]: statuses and replies.
//! - [`handler`]: from a request to its outcome.
//! - [`service`]: what clients are answered and what the collection holds.
//! - [`text`]: comparing texts.

pub mod handler;
pub mod json;
pub mod record;
pub mod reply;
pub mod schema;
pub mod service;
pub mod text;

pub use handler::{accept_document, create_user, respond, route, Outcome};
pub use json::Json;
pub use record::{User, UserRequest};
pub use reply::{Reply, Status};
pub use schema::{decode_user_request, DecodeError, Field};
