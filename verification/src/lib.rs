//! CalmControl: a verified core for a wellness-tracking web application.
//!
//! The heart of the crate is the activity analytics engine: turning a raw
//! per-user log of completed activity events into the derived dashboard
//! metrics (a same-day count, a consecutive-day streak, a lifetime total,
//! and a seven-day rolling window of per-day totals).  Around it sit the
//! plain data records the application passes about, the form validators,
//! and the HTML page builders, all pure functions of their inputs.
//!
//! Persistence, routing, sessions and password handling are external
//! collaborators: the engine only consumes plain values already fetched and
//! produces plain values to render.

pub mod date;
pub mod models;
pub mod stats;
pub mod templates;
pub mod text;
pub mod validate;
