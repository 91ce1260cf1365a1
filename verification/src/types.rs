use vstd::prelude::*;

verus! {

/// The 16-bit BLE service UUID whose service-data value carries a BTHome v2
/// payload.
pub const BTHOME_UUID16: u16 = 0xFCD2;

/// The 128-bit form of the BTHome v2 service UUID.
pub const BTHOME_UUID: u128 = 0x0000FCD2_0000_1000_8000_00805F9B34FB;

/// Why a payload failed to decode.
///
/// Every malformed input maps to exactly one of these kinds; the decoder
/// never panics, and an error aborts the whole parse with no partial result.
#[derive(Clone, Copy, PartialEq, Eq, Structural, Debug)]
pub enum Error {
    /// Fewer bytes remain than the next read requires: a missing header
    /// byte, or an object whose value runs past the end of the buffer.
    Truncation,
    /// An identifier byte outside the fixed object catalog.
    UnknownIdentifier(u8),
    /// Length-prefixed text whose bytes are not valid UTF-8.
    InvalidTextEncoding,
    /// A button or dimmer event byte outside its enumeration.
    InvalidEnumCode(u8),
}

/// A button gesture reported by a button event object (identifier `0x3A`).
#[derive(Clone, Copy, PartialEq, Eq, Structural, Debug)]
pub enum ButtonEvent {
    NoEvent,
    Press,
    DoublePress,
    TriplePress,
    LongPress,
    LongDoublePress,
    LongTriplePress,
    HoldPress,
}

/// The button event a wire byte denotes, if any.
pub open spec fn spec_button_from_byte(v: u8) -> Option<ButtonEvent> {
    if v == 0x00 {
        Some(ButtonEvent::NoEvent)
    } else if v == 0x01 {
        Some(ButtonEvent::Press)
    } else if v == 0x02 {
        Some(ButtonEvent::DoublePress)
    } else if v == 0x03 {
        Some(ButtonEvent::TriplePress)
    } else if v == 0x04 {
        Some(ButtonEvent::LongPress)
    } else if v == 0x05 {
        Some(ButtonEvent::LongDoublePress)
    } else if v == 0x06 {
        Some(ButtonEvent::LongTriplePress)
    } else if v == 0x80 {
        Some(ButtonEvent::HoldPress)
    } else {
        None
    }
}

impl ButtonEvent {
    /// Decode one wire byte into a button gesture; bytes outside the
    /// enumeration are rejected, naming the offending byte.
    pub fn try_from(v: u8) -> (r: Result<ButtonEvent, Error>)
        ensures
            match spec_button_from_byte(v) {
                Some(e) => r == Ok::<ButtonEvent, Error>(e),
                None => r == Err::<ButtonEvent, Error>(Error::InvalidEnumCode(v)),
            },
    {
        match v {
            0x00 => Ok(ButtonEvent::NoEvent),
            0x01 => Ok(ButtonEvent::Press),
            0x02 => Ok(ButtonEvent::DoublePress),
            0x03 => Ok(ButtonEvent::TriplePress),
            0x04 => Ok(ButtonEvent::LongPress),
            0x05 => Ok(ButtonEvent::LongDoublePress),
            0x06 => Ok(ButtonEvent::LongTriplePress),
            0x80 => Ok(ButtonEvent::HoldPress),
            _ => Err(Error::InvalidEnumCode(v)),
        }
    }
}

/// A rotation direction reported by a dimmer event object (identifier
/// `0x3C`).
#[derive(Clone, Copy, PartialEq, Eq, Structural, Debug)]
pub enum DimmerEvent {
    NoEvent,
    RotateLeft,
    RotateRight,
}

/// The dimmer event a wire byte denotes, if any.
pub open spec fn spec_dimmer_from_byte(v: u8) -> Option<DimmerEvent> {
    if v == 0x00 {
        Some(DimmerEvent::NoEvent)
    } else if v == 0x01 {
        Some(DimmerEvent::RotateLeft)
    } else if v == 0x02 {
        Some(DimmerEvent::RotateRight)
    } else {
        None
    }
}

impl DimmerEvent {
    /// Decode one wire byte into a rotation direction; bytes outside the
    /// enumeration are rejected, naming the offending byte.
    pub fn try_from(v: u8) -> (r: Result<DimmerEvent, Error>)
        ensures
            match spec_dimmer_from_byte(v) {
                Some(e) => r == Ok::<DimmerEvent, Error>(e),
                None => r == Err::<DimmerEvent, Error>(Error::InvalidEnumCode(v)),
            },
    {
        match v {
            0x00 => Ok(DimmerEvent::NoEvent),
            0x01 => Ok(DimmerEvent::RotateLeft),
            0x02 => Ok(DimmerEvent::RotateRight),
            _ => Err(Error::InvalidEnumCode(v)),
        }
    }
}

/// An exact scaled decimal: the measurement equals
/// `raw * factor_thousandths / 1000`.
///
/// Every scale factor of the BTHome v2 catalog (0.001, 0.01, 0.1, 0.35) is a
/// whole number of thousandths, so a scaled measurement is kept as the raw
/// wire integer together with its factor, with no rounding. A consumer that
/// wants a floating-point reading computes `raw * factor_thousandths / 1000`
/// itself.
#[derive(Clone, Copy, PartialEq, Eq, Structural, Debug)]
pub struct ScaledValue {
    /// The integer read from the wire, sign-extended when the catalog
    /// declares the width signed.
    pub raw: i64,
    /// The catalog's scale factor for this identifier, in thousandths.
    pub factor_thousandths: u16,
}

/// One decoded object value, typed per the catalog's declared representation
/// for the object's identifier.
#[derive(Debug)]
pub enum ObjectValue {
    /// A scaled physical measurement (see `ScaledValue`).
    Float(ScaledValue),
    /// An unscaled integer, sign-extended from its wire width.
    Int(i64),
    /// A binary sensor state. On the wire `0x00` means active, so the byte
    /// zero decodes to `true`.
    Bool(bool),
    /// Length-prefixed opaque bytes.
    Raw(Vec<u8>),
    /// A button gesture.
    ButtonEvent(ButtonEvent),
    /// A dimmer rotation together with its raw step-count byte.
    DimmerEvent(DimmerEvent, u8),
    /// Length-prefixed UTF-8 text.
    Text(String),
}

/// The mathematical model of an `ObjectValue`.
#[verifier::ext_equal]
pub enum ValueModel {
    Float { raw: int, factor_thousandths: u16 },
    Int(int),
    Bool(bool),
    Raw(Seq<u8>),
    ButtonEvent(ButtonEvent),
    DimmerEvent(DimmerEvent, u8),
    Text(Seq<char>),
}

impl View for ObjectValue {
    type V = ValueModel;

    open spec fn view(&self) -> ValueModel {
        match self {
            ObjectValue::Float(s) => ValueModel::Float {
                raw: s.raw as int,
                factor_thousandths: s.factor_thousandths,
            },
            ObjectValue::Int(v) => ValueModel::Int(*v as int),
            ObjectValue::Bool(b) => ValueModel::Bool(*b),
            ObjectValue::Raw(v) => ValueModel::Raw(v@),
            ObjectValue::ButtonEvent(e) => ValueModel::ButtonEvent(*e),
            ObjectValue::DimmerEvent(e, steps) => ValueModel::DimmerEvent(*e, *steps),
            ObjectValue::Text(s) => ValueModel::Text(s@),
        }
    }
}

} // verus!
