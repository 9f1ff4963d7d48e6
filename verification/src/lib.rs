//! Typed access to the arguments and market data of one plugin call.
//!
//! A call hands over three things under names: ticker records, piped texts
//! and untyped arguments. [`FunctionArgs`] holds them and answers lookups.
//! An argument is asked for as a type: it is decoded directly, or, where it
//! is text, from the JSON that the text holds ([`coerces`]). A candle series
//! can be had as it was supplied, or in exact decimals at the precision of
//! its instrument ([`decimal_series`]).
pub mod args;
pub mod candle;
pub mod decimal;
pub mod decode;
pub mod error;
pub mod laws;
pub mod name_map;
pub mod ticker;
pub mod value;

pub use args::FunctionArgs;
pub use candle::{convert, decimal_candle, decimal_series, Candle, ToDecimal};
pub use decimal::{FixedDecimal, MAX_MANTISSA, MAX_SCALE};
pub use decode::{coerce, coerces, decode_reparsed, decodes, FromValue};
pub use error::{AccessError, ErrorKind};
pub use name_map::NameMap;
pub use ticker::TickersData;
pub use value::{Json, JsonNumber, JsonValue};
