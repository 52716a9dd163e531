//! A small JSON-RPC client over HTTP.
//!
//! The library keeps the parts of a remote call that can be decided without
//! touching the network: request identifiers, the wire form of a request, the
//! credentials to attach, and what an HTTP reply means.

mod client;
mod error;
mod http;
mod json;
mod nonce;
mod reply;
mod request;

pub use error::RpcError;
pub use json::{is_json_null, json_string_text, object_members, parsed_object, parses_as_object};
pub use nonce::{counter_after, issued_ids, lemma_consecutive_ids_differ, lemma_ids_from_zero, next_nonce, NonceCounter};
pub use request::{comma_joined, decimal, frame_request, id_key, method_key, params_key, request_frame, texts_view, Request};
pub use reply::{decode_response, interpret_reply, member, non_null, response_from, Response, STATUS_OK};
pub use client::{opt_view, Client, Credentials};
pub use http::{authorization, basic_credentials_text, header_fields};
