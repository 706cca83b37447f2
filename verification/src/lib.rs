//! A calendar-aware duration of whole months, whole days and microseconds,
//! with its ISO 8601 text form, its PostgreSQL wire form, and checked
//! conversions from the duration types of `std`, `chrono` and `time`.

pub mod column;
pub mod convert;
pub mod decimal;
pub mod interval;
pub mod text;
pub mod wire;

pub use convert::ConversionError;
pub use interval::Interval;
pub use text::TextParseError;
pub use wire::{IsNull, WireDecodeError, WireFormat, WireValue};
