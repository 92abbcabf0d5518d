//! Event-sourced storage of elections: payload records, streams of events,
//! the fold that turns a stream into current state, a read-through cache and
//! the repository that ties them together, behind permission checks.

pub mod codec;
pub mod context;
pub mod errors;
pub mod ids;
pub mod models;
mod outside;
pub mod permissions;
pub mod projection;
pub mod repository;
pub mod resolvers;
pub mod schema;
pub mod store;
