//! A multi-tenant HTTP request broker.
//!
//! Each principal (an isolated tenant identity) is bound to its own
//! configured HTTP client; a single uniform operation surface routes
//! bind / unbind / perform-request / describe calls to the right
//! client while keeping principals independent of one another.

pub mod client;
pub mod config;
pub mod errors;
pub mod http;
pub mod kv;
pub mod provider;
pub mod registry;
pub mod text;
pub mod transport;
