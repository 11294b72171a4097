//! Tokenizer for single-line, comma-delimited controller mapping text:
//! a device identifier, a device name, and `key:value` mapping pairs that
//! bind physical inputs to canonical buttons and axes.

pub mod decode;
pub mod guid;
pub mod laws;
pub mod parser;
pub mod tables;
pub mod text;
pub mod token;

pub use parser::{Parser, State};
pub use tables::{Axis, Button};
pub use token::{AxisRange, Error, ErrorKind, Token};
