//! What the HTTP layer shares with the rest of the service: its error type.

pub mod error;

pub use error::Error;
pub use error::FailureKind;
pub use error::FieldErrors;
pub use error::StoreFailure;
