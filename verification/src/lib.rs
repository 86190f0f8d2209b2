//! Configuration and error classification for a client of the Pi Network
//! payment API.
//!
//! The crate holds three things: the validated connection parameters of a
//! client ([`ClientConfig`]), the policy that spaces out retries of transient
//! failures ([`RetryConfig`]), and the closed set of errors that any
//! operation of the client can fail with ([`PiError`]).

pub mod amount;
pub mod backoff;
pub mod config;
pub mod decimal;
pub mod endpoint;
pub mod errors;
pub mod models;
pub mod time;

pub use amount::Amount;
pub use backoff::BackoffFactor;
pub use config::ClientConfig;
pub use config::ClientConfigBuilder;
pub use config::RetryConfig;
pub use errors::PiError;
pub use models::PaymentDto;
pub use models::PaymentStatus;
