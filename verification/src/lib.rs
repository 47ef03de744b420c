//! The engine of an HTTP load generator, without its clocks, sockets and
//! files: the configuration of a load test, the controller that hatches
//! simulated users and stops them, the users with their weighted tasks, the
//! throttle, the counters, the logger with its formats, and the manager and
//! workers of a distributed load test. Each part that waits for the outside
//! world is a machine: it is handed what happened and answers with what is to
//! be done.

pub mod aggregate;
pub mod attack;
pub mod cadence;
pub mod config;
pub mod csv;
pub mod csv_laws;
pub mod error;
pub mod frame;
pub mod gaggle;
pub mod goose;
pub mod histogram;
pub mod goosefile;
pub mod json;
pub mod logger;
pub mod metrics;
pub mod one_line;
pub mod pattern;
pub mod queue;
pub mod render;
pub mod request;
pub mod scheduler;
pub mod selector;
pub mod sink;
pub mod sink_laws;
pub mod tally;
pub mod text;
pub mod throttle;
pub mod user;
