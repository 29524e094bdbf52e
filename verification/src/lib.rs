//! A small OAuth2 client library paired with a local mock of the identity
//! provider, for driving integration tests without a network dependency.
//!
//! The mock provider keeps an in-memory store of registered clients, users,
//! issued login codes and access tokens, and exposes the decision logic of
//! the provider's endpoints (authorization, token exchange, user info) as
//! plain functions over that store.

mod client;
mod error;
pub mod fakehub;
mod kv;
mod shapes;
mod text;
mod urls;

pub use crate::client::{authorization_url, host_base_url};
pub use crate::error::Error;
pub use crate::shapes::{GetAccessTokenResponse, UserDetailResponse};
pub use crate::text::{i64_string, str_eq, str_starts_with, u64_string};
pub use crate::urls::{parse_url, with_query_pair, UrlParts};
