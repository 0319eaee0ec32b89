//! Connection settings of a remote-control client: where the service is, how
//! often its parts are polled, and the one rule by which a user name and a
//! password come either from the settings themselves or from a file beside
//! them, never from both.

pub mod connection;
pub mod credentials;
pub mod document;
pub mod endpoint;
pub mod error;
pub mod field;
pub mod text;

pub use connection::{default_refresh, Connection, FileState, DEFAULT_REFRESH};
pub use credentials::Credentials;
pub use document::Field;
pub use error::{DocumentError, Fault, Key, LoadError};
