//! A codec core for a human-readable, struct- and enum-aware data notation:
//! a dynamic value tree, a configurable pretty-printing serializer for it, a
//! transcoder that builds values from serializer calls, a constructor that
//! builds values from visitor calls, and a position-aware error type.
//!
//! Every function here carries a contract that Verus proves. Calls into
//! `lexical`, `base64`, `indexmap` and a few unspecified `std` functions are
//! made through small trusted functions whose doc comments say what is assumed.

pub mod error;
pub mod parse;
pub mod pretty;
pub mod ser;
pub mod token;
pub mod value;

pub use crate::error::{Code, Error};
pub use crate::parse::Position;
pub use crate::value::number::{uint, Float, Integer, Sign};
pub use crate::value::map::{FieldMap, ValueMap};
pub use crate::value::{Fields, Struct, Value};
pub use crate::ser::{to_string, to_vec, to_writer};
pub use crate::value::transcode::to_value;
