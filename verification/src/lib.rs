pub mod channel;
pub mod color;
pub mod error;
pub mod scheme;
pub mod value;

pub use channel::Real;
pub use color::{Color, HexColor, SRGB};
pub use error::Error;
pub use scheme::{ColorScheme, SpecialColors};
pub use value::{Dict, DictEntry, Value};
