//! Backend model of a calendar desktop application: the records it stores,
//! the schema migration that sets up its database, and the configuration it
//! hands to the cloud backend and to the OAuth redirect listener.
pub mod commands;
pub mod entities;
pub mod firebase;
pub mod migration;
