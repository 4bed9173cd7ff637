pub mod body;
pub mod codec;
pub mod config;
pub mod error;
pub mod extract;
pub mod serde_compat;

pub use body::{BodyReader, BINARY_MEDIA_TYPE};
pub use config::{BincodeConfig, DEFAULT_LIMIT_BYTES};
pub use error::{BincodePayloadError, ErrorKind};
pub use extract::Bincode;
pub use serde_compat::BincodeSerde;
