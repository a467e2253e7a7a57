//! A subscription client core for a streaming blockchain update feed.
//!
//! The crate compiles declarative account/transaction/event-category filters
//! into a wire-level subscription request, and models the lifecycle of a
//! streaming session (connect, subscribe, stream, stop) together with the
//! dispatch of raw updates to protocol decoders.

pub mod config;
pub mod filters;
pub mod labels;
pub mod manager;
pub mod request;
pub mod session;

pub use config::ClientConfig;
pub use config::ConnectionConfig;
pub use filters::AccountFilter;
pub use filters::EventCategory;
pub use filters::EventTypeFilter;
pub use filters::TransactionFilter;
pub use manager::SubscriptionManager;
pub use request::CommitmentLevel;
pub use request::WireSubscriptionRequest;
pub use session::Protocol;
pub use session::RawUpdate;
pub use session::SessionCore;
