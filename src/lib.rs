//! Directory synchronization and signup reconciliation for potluck events.
//!
//! People, households and organizations come from an external directory as
//! resources that refer to each other (`pco`); they are matched by external id
//! against the local store, and signups run as transactions whose every step
//! is decided here (`reconcile`, `signup`, `login`). The caller performs the
//! store commands and the network calls.
pub mod assets;
pub mod auth;
pub mod event;
pub mod json;
pub mod login;
pub mod paging;
pub mod pco;
pub mod reconcile;
pub mod routes;
pub mod signup;
pub mod status;
pub mod store;
