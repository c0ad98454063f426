//! What holds of the library as a whole.
pub mod addresses;
pub mod commands;
pub mod configs;
pub mod documents;
pub mod envelopes;
pub mod identifiers;
pub mod lan;
pub mod lists;
pub mod merging;
pub mod messages;
pub mod replies;
pub mod requests;
pub mod scenes;
pub mod states;
pub mod urls;
