pub mod error;
pub mod laws;
pub mod location;
pub mod text;

pub use error::{Error, Raised, Trace};
pub use location::Location;
