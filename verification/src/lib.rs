//! Per-tenant token budget enforcement: the verified core.
pub mod models;

pub use models::{BudgetStatus, TokenUsage, UsageEvent};
pub mod error;
pub mod keys;
pub mod store;
pub mod enforcer;
pub mod config;
pub mod flush;

pub use config::Config;
pub use enforcer::ReservationToken;
pub use error::EnforcerError;
