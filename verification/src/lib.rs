//! Verified core of an event ingestion pipeline: input validation, counter
//! bookkeeping for fire-and-forget broker publication, and the consumer's
//! poll / decode / persist / commit cycle.

pub mod consumer;
pub mod counters;
pub mod event;
pub mod json;
pub mod validate;
