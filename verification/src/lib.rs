//! Strictly typed bindings for the OpenAI **Responses** API, with a proved contract on every
//! function.
//!
//! The library exists to make two classes of mistake impossible to write: requests the API
//! refuses with a 400, and requests that silently destroy the prompt cache. It builds a
//! validated body and decodes the response and its streamed events; the caller owns the HTTP
//! stack.
//!
//! OpenAI hashes the *rendered* prefix of a request, in this order: hidden OpenAI content, then
//! `tools`, then developer instructions, then the input items. A cache read requires that
//! prefix to be byte-identical. Two consequences drive the whole design:
//!
//! * **The tool array is the first bytes of every request.** So
//!   [`Context`](context::Context) takes its tools once, at construction, and never exposes a
//!   way to change them. To vary which tools are callable there is
//!   [`ToolChoice::Allowed`](tools::ToolChoice::Allowed).
//! * **Some per-call settings are part of the prefix and some are not.** The ones that are live
//!   together in [`PrefixSettings`](prefix::PrefixSettings); the ones that are not are set on
//!   the [`Request`](request::Request) itself and may vary freely.
//!
//! Cache writes are a bounded resource, four per request; breakpoints attach only to content
//! blocks; and the field that controls cache lifetime differs by model generation.
//!
//! The request half is [`content`], [`context`], [`tools`], [`model`], [`prefix`],
//! [`request`] and [`body`]; the response half is [`stream`], [`decode`], [`items`],
//! [`settle`], [`settled`], [`response`] and [`usage`]. What holds across several functions is
//! proved in [`body_laws`], [`choice_laws`], [`content_laws`], [`context_laws`],
//! [`decode_laws`] and [`settle_laws`].
use vstd::prelude::*;

pub mod body;
pub mod body_laws;
pub mod breakpoint_laws;
pub mod choice_laws;
pub mod content;
pub mod content_laws;
pub mod context;
pub mod context_laws;
pub mod decode;
pub mod decode_laws;
pub mod frame_laws;
pub mod hosted;
pub mod items;
pub mod json;
pub mod limit_laws;
pub mod metadata;
pub mod model;
pub mod model_laws;
pub mod ordered;
pub mod output_laws;
pub mod prefix;
pub mod reading_laws;
pub mod request;
pub mod response;
pub mod sending_laws;
pub mod settle;
pub mod settle_laws;
pub mod settled;
pub mod stream;
pub mod text;
pub mod tools;
pub mod usage;
pub mod usage_laws;
pub mod value_laws;
pub mod values;
pub mod views;
pub mod wire_laws;

pub use crate::values::{
    AssistantPhase, CacheMode, CacheRetention, CacheTtl, ErrorType, FileDetail, HostedTool,
    ImageDetail, Include, IncompleteReason, InputRole, Metadata, MetadataError,
    ReasoningContext, ReasoningEffort, ReasoningMode, ReasoningSummary, ResponseStatus,
    ServiceTier, Truncation, Verbosity,
};

verus! {

/// Base URL of the OpenAI REST API.
pub const API_BASE: &'static str = "https://api.openai.com";

/// Path of the endpoint this library builds bodies for, `POST /v1/responses`.
pub const RESPONSES_PATH: &'static str = "/v1/responses";

/// Name of the bearer-credential header. The value is an API key or a short-lived
/// workload-identity token; this library never touches either.
pub const HEADER_AUTHORIZATION: &'static str = "Authorization";

/// Header selecting the organization, for keys that belong to several.
pub const HEADER_ORGANIZATION: &'static str = "OpenAI-Organization";

/// Header selecting the project, for keys that belong to several.
pub const HEADER_PROJECT: &'static str = "OpenAI-Project";

/// Response header carrying OpenAI's unique request identifier. Worth logging: it is what
/// OpenAI support needs to look a request up.
pub const HEADER_REQUEST_ID: &'static str = "x-request-id";

} // verus!
