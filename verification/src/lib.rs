//! Holiday lookup: the decisions of a small HTTP endpoint that answers
//! "which holiday falls on this day?" by asking a hosted holiday provider.
//!
//! The crate performs no I/O. A front end reads the query parameters and the
//! provider key, asks [`handler`] what to do, sends the one request to the
//! provider when told to, and hands the provider's records to [`conclude`].
//! The [`Reply`] that comes out of either is sent as a JSON object with the
//! members that [`Reply::members`] lists.

pub mod config;
pub mod holiday;
pub mod params;
pub mod provider;
pub mod reply;
pub mod service;

pub use lambda_http::aws_lambda_events::query_map::QueryMap;

pub use config::{is_local, ENVIRONMENT_VARIABLE, KEY_VARIABLE};
pub use holiday::{Holiday, HolidayReduced, Holidays};
pub use params::{find_missing, Param};
pub use provider::{conclude, fetch_step, get_holiday, Fault, Step};
pub use reply::{Member, Reply, Scalar};
pub use service::{decide, handler};
