pub mod enums;
pub mod errors;
pub mod filesystem;
pub mod initialization;
pub mod traits;

pub use enums::{Backends, SerializationFormat};
pub use errors::{Error, ErrorKind};
pub use traits::DefaultConfig;
