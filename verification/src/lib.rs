//! An in-process log sink: log lines accumulate in a rotating buffer, are
//! sealed into (optionally zlib-compressed) batches once a size or time
//! threshold is crossed, and are handed to the host for delivery to a remote
//! collector. A delivery state machine keeps a persistent connection alive
//! with heartbeats and reconnects with capped exponential backoff.

pub mod builder;
pub mod client;
pub mod clock;
pub mod compression;
pub mod envelope;
pub mod formatter;
pub mod logger;
pub mod record;
pub mod text;
