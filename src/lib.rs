//! Bearer-token authentication: credential checks, token issue, validation,
//! revocation and expiry, and the guard that guards protected routes.

pub mod models;
pub mod credentials;
pub mod tokens;
pub mod guard;
pub mod store;
pub mod laws;
