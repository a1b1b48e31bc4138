//! Authentication material for the mod.io API and the request bodies of its
//! authentication flows.
//!
//! - `credentials`: the API key, the optional access token and the errors.
//! - `encoding`: form encoding of field sets whose names are kept in order.
//! - `options`: the options of the external providers (GOG Galaxy, itch.io,
//!   Oculus, Steam).
//! - `link`: the options for linking an external account.
//! - `flow`: the request of each flow, and the credentials that a granted
//!   token turns into.
pub mod credentials;
pub mod encoding;
pub mod flow;
pub mod link;
pub mod options;
