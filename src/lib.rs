//! Typed request construction for a read-only speedrun leaderboard REST API.
//!
//! A [`query::QueryData`] pairs an endpoint with an ordered list of typed
//! parameters; [`locator::build_locator`] turns it into a validated resource
//! locator, and [`client`] assembles the requests of each operation and unwraps
//! the `{ "data": ... }` envelope of a response body.
pub mod text;
pub mod query;
pub mod locator;
pub mod query_text;
pub mod client;
pub mod users;
