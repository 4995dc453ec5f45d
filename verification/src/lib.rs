//! Governance webhook notifier library.
//!
//! An event-driven relay between a host node and an externally configured
//! HTTP webhook endpoint: it decides, per incoming event, whether a
//! notification is owed, builds the exact JSON body to deliver, and computes
//! the deterministic double-SHA-256 hash of block headers.

pub mod envelope;
pub mod error;
pub mod hasher;
pub mod json;
pub mod webhook;

pub use envelope::{Action, Block, Envelope};
pub use error::GovernanceError;
pub use hasher::BlockHeader;
pub use webhook::GovernanceWebhookClient;
