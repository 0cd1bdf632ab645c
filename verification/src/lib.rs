//! A notification bridge: validates release-lifecycle webhooks from a
//! source-control host and, for qualifying events, prepares a rich
//! notification for a chat channel on a messaging platform.
//!
//! The crate holds the decision logic of the bridge: webhook validation and
//! dispatch, the request-error taxonomy with its HTTP status mapping, the
//! recovery middleware, notification construction, and the once-only
//! initialisation of the outbound client. The surrounding process (HTTP
//! server, environment loading, the actual platform calls) lives outside and
//! hands this crate plain values.

pub mod decimal;
pub mod errors;
pub mod middleware;
pub mod notification;
pub mod outbound;
pub mod payload;
pub mod pipeline;
