//! Core of a transactional streaming pub/sub consumer: the deadline-bounded
//! map from pull ids to ack tokens, the decisions of the consumer task and of
//! the source, and a handful of small pipeline operators.

pub mod auth;
pub mod connector;
pub mod consumer;
pub mod deadline_map;
pub mod decimal;
pub mod error;
pub mod input;
pub mod message;
pub mod metadata;
pub mod op;
pub mod output;
pub mod pipeline;
pub mod postprocessor;
pub mod source;
