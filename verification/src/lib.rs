//! Async gRPC interceptors, a kind of middleware.
//!
//! An interceptor sees the metadata and the extensions of each request before the wrapped service
//! does. It may change them, or refuse the request with a [`Status`]. It never sees the body, the
//! URI, the method or the HTTP version: [`decompose`] takes these aside and [`recompose`] puts them
//! back.
//!
//! [`AsyncResponseFuture`] is the response of an intercepted service as a state machine: it is told
//! what has happened (an [`Event`]) and says what is to be done next (an [`Action`]). The futures
//! and the wrapped service themselves are run by the caller.

pub mod external;
pub mod future;
pub mod interceptor;
pub mod laws;
pub mod meaning;
pub mod request;
pub mod response;
pub mod service;
pub mod status;

pub use crate::future::{Action, AsyncResponseFuture, Event, InnerStep};
pub use crate::interceptor::{async_interceptor, AsyncInterceptor, AsyncInterceptorLayer};
pub use crate::request::{
    decompose, recompose, request_from_parts, request_into_http, request_into_parts,
    DecomposedRequest, HttpRequest, Request,
};
pub use crate::response::{Kind, ResponseAction, ResponseEvent, ResponseFuture};
pub use crate::service::AsyncInterceptedService;
pub use crate::status::{with_default_body, HttpResponse, Status, MAX_METADATA_NAMES};
