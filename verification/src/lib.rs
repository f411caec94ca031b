//! Usage analytics for a feature-flag client: evaluations are counted per
//! feature, buffered in memory and handed out as one request body per flush
//! window.

pub mod aggregate;
pub mod channel;
pub mod clock;
pub mod laws;
pub mod payload;
pub mod processor;
pub mod window;
