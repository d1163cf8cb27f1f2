//! A log-drain relay core: it authenticates webhook deliveries against a
//! shared secret, decodes each delivery's JSON array into canonical records,
//! queues them without ever blocking the caller, and fans every queued record
//! out to each configured sink independently.

pub mod auth;
pub mod controller;
pub mod counters;
pub mod decode;
pub mod json;
pub mod pipeline;
pub mod queue;
pub mod record;
