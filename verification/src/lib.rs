//! Decoder for BTHome v2 advertisement payloads.
//!
//! A BTHome v2 payload is the service-data value of the BLE service UUID
//! `0xFCD2`: one header byte followed by back-to-back `[identifier, value]`
//! records, where the one-byte identifier fixes the exact wire encoding of
//! the value (fixed-width integer, scaled decimal, boolean, length-prefixed
//! bytes or text, or an enumerated event). `parse::parse_service_data` turns
//! such a buffer into a structured `ServiceData` or a structured error; its
//! behaviour is pinned to the specification function `parse::spec_parse`.

pub mod catalog;
pub mod decode;
pub mod laws;
pub mod parse;
pub mod types;
pub mod wire;

pub use crate::catalog::DecodeRule;
pub use crate::catalog::ObjectId;
pub use crate::decode::Object;
pub use crate::decode::ObjectModel;
pub use crate::parse::parse_service_data;
pub use crate::parse::ServiceData;
pub use crate::parse::ServiceDataModel;
pub use crate::types::BTHOME_UUID;
pub use crate::types::BTHOME_UUID16;
pub use crate::types::ButtonEvent;
pub use crate::types::DimmerEvent;
pub use crate::types::Error;
pub use crate::types::ObjectValue;
pub use crate::types::ScaledValue;
pub use crate::types::ValueModel;
