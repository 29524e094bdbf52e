//! A mock of the identity provider: an in-memory store of clients, users,
//! issued login codes and access tokens, together with the decision logic of
//! the provider's web endpoints (authorization, token exchange, user info)
//! and of the ephemeral hosts that serve them.

pub mod api_gh;
pub mod error;
pub mod gh;
pub mod laws;
pub mod ports;
pub mod state;

pub use self::error::Error;
pub use self::state::User;
