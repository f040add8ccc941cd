//! A bridge between synchronous request handlers and an asynchronous HTTP
//! server: the size guard on declared request bodies, the conversion of
//! handler responses, and the access-log line written for every request.

pub mod fallback;
pub mod log_request;
pub mod response;
pub mod static_or_continue;
pub mod text;
pub mod trace_filter;
