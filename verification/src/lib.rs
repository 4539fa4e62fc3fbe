//! Contact-management library: the archive job state machine, contact and
//! user validation, pagination, and the small parsing and formatting helpers
//! that the request handlers rely on.

pub mod archiver;
pub mod contacts;
pub mod numbers;
pub mod params;
pub mod routers;
pub mod templates;
pub mod users;
