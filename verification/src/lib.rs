//! Provenance records for herbs: identifiers, validation, the document-store
//! protocol, QR codes and scan resolution, with machine-checked contracts.
//!
//! The library sends nothing and reads no clock. An endpoint in `handlers`
//! is a small machine: it begins with a step, and each reply of the store
//! leads to the next step, until a step holds the response. The caller
//! sends the requests that the steps hold.
//!
//! - `record`: the record and the payloads that create and change it, with
//!   their rules.
//! - `ident`: the identifier of a record.
//! - `time`: creation times.
//! - `json`, `document`: JSON text, and records as documents.
//! - `couchdb`: the requests to the store and the meaning of its replies.
//! - `qr`: what a code says, and the code as an image.
//! - `scan`: from a scanned text to an identifier.
//! - `handlers`: the endpoints.
//! - `text`: helpers on characters and strings.

pub mod couchdb;
pub mod document;
pub mod handlers;
pub mod ident;
pub mod json;
pub mod qr;
pub mod record;
pub mod scan;
pub mod text;
pub mod time;
