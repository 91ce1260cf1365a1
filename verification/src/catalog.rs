use crate::types::Error;
use vstd::prelude::*;

verus! {

/// The fixed catalog of BTHome v2 object identifiers.
///
/// Each variant stands for one one-byte wire code; the code, not the
/// measurement name, is the wire contract. Some physical quantities appear
/// under several codes with different widths or scales (two humidity codes,
/// several temperature codes): the catalog disambiguates by code, and each
/// code maps to exactly one decoding rule (`rule_of`).
#[derive(Clone, Copy, PartialEq, Eq, Structural, Debug)]
pub enum ObjectId {
    Acceleration,
    Battery,
    CO2,
    Conductivity,
    CountU8,
    CountU16,
    CountU32,
    CountI8,
    CountI16,
    CountI32,
    CurrentU16,
    CurrentI16,
    Dewpoint,
    DistanceMM,
    DistanceM,
    Duration,
    EnergyU32,
    EnergyU24,
    GasU24,
    GasU32,
    Gyroscope,
    HumidityU16,
    HumidityU8,
    Illuminance,
    MassKg,
    MassLb,
    MoistureSmall,
    MoistureLarge,
    PM2d5,
    PM10,
    PowerSmall,
    PowerLarge,
    Pressure,
    Raw,
    Rotation,
    Speed,
    Temperature1,
    Temperature2,
    Temperature3,
    Temperature4,
    Text,
    Timestamp,
    Tvoc,
    VoltageSmall,
    VoltageLarge,
    Volume1,
    Volume2,
    Volume3,
    VolumeStorage,
    VolumeFlowRate,
    UVIndex,
    Water,
    BatteryLow,
    BatteryCharging,
    CarbonMonoxideDetected,
    Cold,
    Connectivity,
    DoorOpen,
    GarageDoorOpen,
    GasDetected,
    GenericBoolean,
    Heat,
    LightDetected,
    LockUnlocked,
    MoistureDetected,
    MotionDetected,
    MovementDetected,
    OccupancyDetected,
    IsOpen,
    PluggedIn,
    PowerOn,
    PresenceAtHome,
    ProblemDetected,
    IsRunning,
    IsSafe,
    SmokeDetected,
    SoundDetected,
    TamperDetected,
    VibrationDetected,
    WindowOpen,
    Button,
    Dimmer,
    DeviceTypeId,
    FirmwareVersionLarge,
    FirmwareVersionSmall,
    PacketId,
}

/// How the value bytes of one identifier are decoded.
#[derive(Clone, Copy, PartialEq, Eq, Structural, Debug)]
pub enum DecodeRule {
    /// A little-endian unsigned integer of the given byte width.
    Unsigned(u8),
    /// A little-endian signed integer of the given byte width.
    Signed(u8),
    /// An unsigned integer of the given byte width, scaled by the given
    /// factor in thousandths.
    ScaledUnsigned(u8, u16),
    /// A signed integer of the given byte width, scaled by the given factor
    /// in thousandths.
    ScaledSigned(u8, u16),
    /// One byte; `0x00` on the wire means active, so it decodes to `true`.
    Flag,
    /// One length byte, then that many opaque bytes.
    RawBytes,
    /// One length byte, then that many bytes of UTF-8 text.
    Utf8Text,
    /// One enumerated button event byte.
    Button,
    /// One enumerated dimmer event byte, then one raw step-count byte.
    Dimmer,
}

/// The identifier a wire code byte denotes, if any. Bytes outside the
/// catalog have no decodable length and abort the parse.
pub open spec fn spec_id_from_byte(v: u8) -> Option<ObjectId> {
    match v {
        0x00 => Some(ObjectId::PacketId),
        0x01 => Some(ObjectId::Battery),
        0x02 => Some(ObjectId::Temperature4),
        0x03 => Some(ObjectId::HumidityU16),
        0x04 => Some(ObjectId::Pressure),
        0x05 => Some(ObjectId::Illuminance),
        0x06 => Some(ObjectId::MassKg),
        0x07 => Some(ObjectId::MassLb),
        0x08 => Some(ObjectId::Dewpoint),
        0x09 => Some(ObjectId::CountU8),
        0x0A => Some(ObjectId::EnergyU24),
        0x0B => Some(ObjectId::PowerSmall),
        0x0C => Some(ObjectId::VoltageSmall),
        0x0D => Some(ObjectId::PM2d5),
        0x0E => Some(ObjectId::PM10),
        0x0F => Some(ObjectId::GenericBoolean),
        0x10 => Some(ObjectId::PowerOn),
        0x11 => Some(ObjectId::IsOpen),
        0x12 => Some(ObjectId::CO2),
        0x13 => Some(ObjectId::Tvoc),
        0x14 => Some(ObjectId::MoistureSmall),
        0x15 => Some(ObjectId::BatteryLow),
        0x16 => Some(ObjectId::BatteryCharging),
        0x17 => Some(ObjectId::CarbonMonoxideDetected),
        0x18 => Some(ObjectId::Cold),
        0x19 => Some(ObjectId::Connectivity),
        0x1A => Some(ObjectId::DoorOpen),
        0x1B => Some(ObjectId::GarageDoorOpen),
        0x1C => Some(ObjectId::GasDetected),
        0x1D => Some(ObjectId::Heat),
        0x1E => Some(ObjectId::LightDetected),
        0x1F => Some(ObjectId::LockUnlocked),
        0x20 => Some(ObjectId::MoistureDetected),
        0x21 => Some(ObjectId::MotionDetected),
        0x22 => Some(ObjectId::MovementDetected),
        0x23 => Some(ObjectId::OccupancyDetected),
        0x24 => Some(ObjectId::PluggedIn),
        0x25 => Some(ObjectId::PresenceAtHome),
        0x26 => Some(ObjectId::ProblemDetected),
        0x27 => Some(ObjectId::IsRunning),
        0x28 => Some(ObjectId::IsSafe),
        0x29 => Some(ObjectId::SmokeDetected),
        0x2A => Some(ObjectId::SoundDetected),
        0x2B => Some(ObjectId::TamperDetected),
        0x2C => Some(ObjectId::VibrationDetected),
        0x2D => Some(ObjectId::WindowOpen),
        0x2E => Some(ObjectId::HumidityU8),
        0x2F => Some(ObjectId::MoistureLarge),
        0x3A => Some(ObjectId::Button),
        0x3C => Some(ObjectId::Dimmer),
        0x3D => Some(ObjectId::CountU16),
        0x3E => Some(ObjectId::CountU32),
        0x3F => Some(ObjectId::Rotation),
        0x40 => Some(ObjectId::DistanceMM),
        0x41 => Some(ObjectId::DistanceM),
        0x42 => Some(ObjectId::Duration),
        0x43 => Some(ObjectId::CurrentU16),
        0x44 => Some(ObjectId::Speed),
        0x45 => Some(ObjectId::Temperature3),
        0x46 => Some(ObjectId::UVIndex),
        0x47 => Some(ObjectId::Volume2),
        0x48 => Some(ObjectId::Volume3),
        0x49 => Some(ObjectId::VolumeFlowRate),
        0x4A => Some(ObjectId::VoltageLarge),
        0x4B => Some(ObjectId::GasU24),
        0x4C => Some(ObjectId::GasU32),
        0x4D => Some(ObjectId::EnergyU32),
        0x4E => Some(ObjectId::Volume1),
        0x4F => Some(ObjectId::Water),
        0x50 => Some(ObjectId::Timestamp),
        0x51 => Some(ObjectId::Acceleration),
        0x52 => Some(ObjectId::Gyroscope),
        0x53 => Some(ObjectId::Text),
        0x54 => Some(ObjectId::Raw),
        0x55 => Some(ObjectId::VolumeStorage),
        0x56 => Some(ObjectId::Conductivity),
        0x57 => Some(ObjectId::Temperature1),
        0x58 => Some(ObjectId::Temperature2),
        0x59 => Some(ObjectId::CountI8),
        0x5A => Some(ObjectId::CountI16),
        0x5B => Some(ObjectId::CountI32),
        0x5C => Some(ObjectId::PowerLarge),
        0x5D => Some(ObjectId::CurrentI16),
        0xF0 => Some(ObjectId::DeviceTypeId),
        0xF1 => Some(ObjectId::FirmwareVersionLarge),
        0xF2 => Some(ObjectId::FirmwareVersionSmall),
        _ => None,
    }
}

/// The decoding rule of each identifier: width, signedness and scale as the
/// BTHome v2 catalog declares them. The scale factor is part of the catalog
/// entry, never of the payload.
pub open spec fn rule_of(id: ObjectId) -> DecodeRule {
    match id {
        ObjectId::Acceleration => DecodeRule::ScaledUnsigned(2, 1),
        ObjectId::Battery => DecodeRule::Unsigned(1),
        ObjectId::CO2 => DecodeRule::Unsigned(2),
        ObjectId::Conductivity => DecodeRule::Unsigned(2),
        ObjectId::CountU8 => DecodeRule::Unsigned(1),
        ObjectId::CountU16 => DecodeRule::Unsigned(2),
        ObjectId::CountU32 => DecodeRule::Unsigned(4),
        ObjectId::CountI8 => DecodeRule::Signed(1),
        ObjectId::CountI16 => DecodeRule::Signed(2),
        ObjectId::CountI32 => DecodeRule::Signed(4),
        ObjectId::CurrentU16 => DecodeRule::ScaledUnsigned(2, 1),
        ObjectId::CurrentI16 => DecodeRule::ScaledSigned(2, 1),
        ObjectId::Dewpoint => DecodeRule::ScaledSigned(2, 10),
        ObjectId::DistanceMM => DecodeRule::Unsigned(2),
        ObjectId::DistanceM => DecodeRule::ScaledUnsigned(2, 100),
        ObjectId::Duration => DecodeRule::ScaledUnsigned(3, 1),
        ObjectId::EnergyU32 => DecodeRule::ScaledUnsigned(4, 1),
        ObjectId::EnergyU24 => DecodeRule::ScaledUnsigned(3, 1),
        ObjectId::GasU24 => DecodeRule::ScaledUnsigned(3, 1),
        ObjectId::GasU32 => DecodeRule::ScaledUnsigned(4, 1),
        ObjectId::Gyroscope => DecodeRule::ScaledUnsigned(2, 1),
        ObjectId::HumidityU16 => DecodeRule::ScaledUnsigned(2, 10),
        ObjectId::HumidityU8 => DecodeRule::Unsigned(1),
        ObjectId::Illuminance => DecodeRule::ScaledUnsigned(3, 10),
        ObjectId::MassKg => DecodeRule::ScaledUnsigned(2, 10),
        ObjectId::MassLb => DecodeRule::ScaledUnsigned(2, 10),
        ObjectId::MoistureSmall => DecodeRule::ScaledUnsigned(2, 10),
        ObjectId::MoistureLarge => DecodeRule::Unsigned(1),
        ObjectId::PM2d5 => DecodeRule::Unsigned(2),
        ObjectId::PM10 => DecodeRule::Unsigned(2),
        ObjectId::PowerSmall => DecodeRule::ScaledUnsigned(3, 10),
        ObjectId::PowerLarge => DecodeRule::ScaledSigned(4, 10),
        ObjectId::Pressure => DecodeRule::ScaledUnsigned(3, 10),
        ObjectId::Raw => DecodeRule::RawBytes,
        ObjectId::Rotation => DecodeRule::ScaledSigned(2, 100),
        ObjectId::Speed => DecodeRule::ScaledUnsigned(2, 10),
        ObjectId::Temperature1 => DecodeRule::Signed(1),
        ObjectId::Temperature2 => DecodeRule::ScaledSigned(1, 350),
        ObjectId::Temperature3 => DecodeRule::ScaledSigned(2, 100),
        ObjectId::Temperature4 => DecodeRule::ScaledSigned(2, 10),
        ObjectId::Text => DecodeRule::Utf8Text,
        ObjectId::Timestamp => DecodeRule::Unsigned(6),
        ObjectId::Tvoc => DecodeRule::Unsigned(2),
        ObjectId::VoltageSmall => DecodeRule::ScaledUnsigned(2, 1),
        ObjectId::VoltageLarge => DecodeRule::ScaledUnsigned(2, 100),
        ObjectId::Volume1 => DecodeRule::ScaledUnsigned(4, 1),
        ObjectId::Volume2 => DecodeRule::ScaledUnsigned(2, 100),
        ObjectId::Volume3 => DecodeRule::Unsigned(2),
        ObjectId::VolumeStorage => DecodeRule::ScaledUnsigned(4, 1),
        ObjectId::VolumeFlowRate => DecodeRule::ScaledUnsigned(2, 1),
        ObjectId::UVIndex => DecodeRule::ScaledUnsigned(1, 100),
        ObjectId::Water => DecodeRule::ScaledUnsigned(4, 1),
        ObjectId::BatteryLow => DecodeRule::Flag,
        ObjectId::BatteryCharging => DecodeRule::Flag,
        ObjectId::CarbonMonoxideDetected => DecodeRule::Flag,
        ObjectId::Cold => DecodeRule::Flag,
        ObjectId::Connectivity => DecodeRule::Flag,
        ObjectId::DoorOpen => DecodeRule::Flag,
        ObjectId::GarageDoorOpen => DecodeRule::Flag,
        ObjectId::GasDetected => DecodeRule::Flag,
        ObjectId::GenericBoolean => DecodeRule::Flag,
        ObjectId::Heat => DecodeRule::Flag,
        ObjectId::LightDetected => DecodeRule::Flag,
        ObjectId::LockUnlocked => DecodeRule::Flag,
        ObjectId::MoistureDetected => DecodeRule::Flag,
        ObjectId::MotionDetected => DecodeRule::Flag,
        ObjectId::MovementDetected => DecodeRule::Flag,
        ObjectId::OccupancyDetected => DecodeRule::Flag,
        ObjectId::IsOpen => DecodeRule::Flag,
        ObjectId::PluggedIn => DecodeRule::Flag,
        ObjectId::PowerOn => DecodeRule::Flag,
        ObjectId::PresenceAtHome => DecodeRule::Flag,
        ObjectId::ProblemDetected => DecodeRule::Flag,
        ObjectId::IsRunning => DecodeRule::Flag,
        ObjectId::IsSafe => DecodeRule::Flag,
        ObjectId::SmokeDetected => DecodeRule::Flag,
        ObjectId::SoundDetected => DecodeRule::Flag,
        ObjectId::TamperDetected => DecodeRule::Flag,
        ObjectId::VibrationDetected => DecodeRule::Flag,
        ObjectId::WindowOpen => DecodeRule::Flag,
        ObjectId::Button => DecodeRule::Button,
        ObjectId::Dimmer => DecodeRule::Dimmer,
        ObjectId::DeviceTypeId => DecodeRule::Unsigned(2),
        ObjectId::FirmwareVersionLarge => DecodeRule::Unsigned(4),
        ObjectId::FirmwareVersionSmall => DecodeRule::Unsigned(6),
        ObjectId::PacketId => DecodeRule::Unsigned(1),
    }
}

/// Every rule the catalog hands out has a width its reader accepts:
/// unsigned widths stay within six bytes, signed and scaled widths within
/// four, and every width is at least one, so an object always consumes at
/// least its identifier byte plus one value byte.
pub open spec fn rule_wf(rule: DecodeRule) -> bool {
    match rule {
        DecodeRule::Unsigned(w) => 1 <= w <= 6,
        DecodeRule::Signed(w) => 1 <= w <= 4,
        DecodeRule::ScaledUnsigned(w, _f) => 1 <= w <= 4,
        DecodeRule::ScaledSigned(w, _f) => 1 <= w <= 4,
        DecodeRule::Flag => true,
        DecodeRule::RawBytes => true,
        DecodeRule::Utf8Text => true,
        DecodeRule::Button => true,
        DecodeRule::Dimmer => true,
    }
}

/// The catalog only declares rules the value readers accept.
pub proof fn lemma_rule_of_wf(id: ObjectId)
    ensures
        rule_wf(rule_of(id)),
{
}

impl ObjectId {
    /// Resolve one identifier byte against the catalog; any byte outside it
    /// is rejected as `UnknownIdentifier`, since its encoded length is
    /// unknowable and resynchronisation is not defined by the protocol.
    pub fn try_from(v: u8) -> (r: Result<ObjectId, Error>)
        ensures
            match spec_id_from_byte(v) {
                Some(id) => r == Ok::<ObjectId, Error>(id),
                None => r == Err::<ObjectId, Error>(Error::UnknownIdentifier(v)),
            },
    {
        match v {
            0x00 => Ok(ObjectId::PacketId),
            0x01 => Ok(ObjectId::Battery),
            0x02 => Ok(ObjectId::Temperature4),
            0x03 => Ok(ObjectId::HumidityU16),
            0x04 => Ok(ObjectId::Pressure),
            0x05 => Ok(ObjectId::Illuminance),
            0x06 => Ok(ObjectId::MassKg),
            0x07 => Ok(ObjectId::MassLb),
            0x08 => Ok(ObjectId::Dewpoint),
            0x09 => Ok(ObjectId::CountU8),
            0x0A => Ok(ObjectId::EnergyU24),
            0x0B => Ok(ObjectId::PowerSmall),
            0x0C => Ok(ObjectId::VoltageSmall),
            0x0D => Ok(ObjectId::PM2d5),
            0x0E => Ok(ObjectId::PM10),
            0x0F => Ok(ObjectId::GenericBoolean),
            0x10 => Ok(ObjectId::PowerOn),
            0x11 => Ok(ObjectId::IsOpen),
            0x12 => Ok(ObjectId::CO2),
            0x13 => Ok(ObjectId::Tvoc),
            0x14 => Ok(ObjectId::MoistureSmall),
            0x15 => Ok(ObjectId::BatteryLow),
            0x16 => Ok(ObjectId::BatteryCharging),
            0x17 => Ok(ObjectId::CarbonMonoxideDetected),
            0x18 => Ok(ObjectId::Cold),
            0x19 => Ok(ObjectId::Connectivity),
            0x1A => Ok(ObjectId::DoorOpen),
            0x1B => Ok(ObjectId::GarageDoorOpen),
            0x1C => Ok(ObjectId::GasDetected),
            0x1D => Ok(ObjectId::Heat),
            0x1E => Ok(ObjectId::LightDetected),
            0x1F => Ok(ObjectId::LockUnlocked),
            0x20 => Ok(ObjectId::MoistureDetected),
            0x21 => Ok(ObjectId::MotionDetected),
            0x22 => Ok(ObjectId::MovementDetected),
            0x23 => Ok(ObjectId::OccupancyDetected),
            0x24 => Ok(ObjectId::PluggedIn),
            0x25 => Ok(ObjectId::PresenceAtHome),
            0x26 => Ok(ObjectId::ProblemDetected),
            0x27 => Ok(ObjectId::IsRunning),
            0x28 => Ok(ObjectId::IsSafe),
            0x29 => Ok(ObjectId::SmokeDetected),
            0x2A => Ok(ObjectId::SoundDetected),
            0x2B => Ok(ObjectId::TamperDetected),
            0x2C => Ok(ObjectId::VibrationDetected),
            0x2D => Ok(ObjectId::WindowOpen),
            0x2E => Ok(ObjectId::HumidityU8),
            0x2F => Ok(ObjectId::MoistureLarge),
            0x3A => Ok(ObjectId::Button),
            0x3C => Ok(ObjectId::Dimmer),
            0x3D => Ok(ObjectId::CountU16),
            0x3E => Ok(ObjectId::CountU32),
            0x3F => Ok(ObjectId::Rotation),
            0x40 => Ok(ObjectId::DistanceMM),
            0x41 => Ok(ObjectId::DistanceM),
            0x42 => Ok(ObjectId::Duration),
            0x43 => Ok(ObjectId::CurrentU16),
            0x44 => Ok(ObjectId::Speed),
            0x45 => Ok(ObjectId::Temperature3),
            0x46 => Ok(ObjectId::UVIndex),
            0x47 => Ok(ObjectId::Volume2),
            0x48 => Ok(ObjectId::Volume3),
            0x49 => Ok(ObjectId::VolumeFlowRate),
            0x4A => Ok(ObjectId::VoltageLarge),
            0x4B => Ok(ObjectId::GasU24),
            0x4C => Ok(ObjectId::GasU32),
            0x4D => Ok(ObjectId::EnergyU32),
            0x4E => Ok(ObjectId::Volume1),
            0x4F => Ok(ObjectId::Water),
            0x50 => Ok(ObjectId::Timestamp),
            0x51 => Ok(ObjectId::Acceleration),
            0x52 => Ok(ObjectId::Gyroscope),
            0x53 => Ok(ObjectId::Text),
            0x54 => Ok(ObjectId::Raw),
            0x55 => Ok(ObjectId::VolumeStorage),
            0x56 => Ok(ObjectId::Conductivity),
            0x57 => Ok(ObjectId::Temperature1),
            0x58 => Ok(ObjectId::Temperature2),
            0x59 => Ok(ObjectId::CountI8),
            0x5A => Ok(ObjectId::CountI16),
            0x5B => Ok(ObjectId::CountI32),
            0x5C => Ok(ObjectId::PowerLarge),
            0x5D => Ok(ObjectId::CurrentI16),
            0xF0 => Ok(ObjectId::DeviceTypeId),
            0xF1 => Ok(ObjectId::FirmwareVersionLarge),
            0xF2 => Ok(ObjectId::FirmwareVersionSmall),
            _ => Err(Error::UnknownIdentifier(v)),
        }
    }

    /// The decoding rule the catalog declares for this identifier.
    pub fn decode_rule(self) -> (r: DecodeRule)
        ensures
            r == rule_of(self),
            rule_wf(r),
    {
        match self {
            ObjectId::Acceleration => DecodeRule::ScaledUnsigned(2, 1),
            ObjectId::Battery => DecodeRule::Unsigned(1),
            ObjectId::CO2 => DecodeRule::Unsigned(2),
            ObjectId::Conductivity => DecodeRule::Unsigned(2),
            ObjectId::CountU8 => DecodeRule::Unsigned(1),
            ObjectId::CountU16 => DecodeRule::Unsigned(2),
            ObjectId::CountU32 => DecodeRule::Unsigned(4),
            ObjectId::CountI8 => DecodeRule::Signed(1),
            ObjectId::CountI16 => DecodeRule::Signed(2),
            ObjectId::CountI32 => DecodeRule::Signed(4),
            ObjectId::CurrentU16 => DecodeRule::ScaledUnsigned(2, 1),
            ObjectId::CurrentI16 => DecodeRule::ScaledSigned(2, 1),
            ObjectId::Dewpoint => DecodeRule::ScaledSigned(2, 10),
            ObjectId::DistanceMM => DecodeRule::Unsigned(2),
            ObjectId::DistanceM => DecodeRule::ScaledUnsigned(2, 100),
            ObjectId::Duration => DecodeRule::ScaledUnsigned(3, 1),
            ObjectId::EnergyU32 => DecodeRule::ScaledUnsigned(4, 1),
            ObjectId::EnergyU24 => DecodeRule::ScaledUnsigned(3, 1),
            ObjectId::GasU24 => DecodeRule::ScaledUnsigned(3, 1),
            ObjectId::GasU32 => DecodeRule::ScaledUnsigned(4, 1),
            ObjectId::Gyroscope => DecodeRule::ScaledUnsigned(2, 1),
            ObjectId::HumidityU16 => DecodeRule::ScaledUnsigned(2, 10),
            ObjectId::HumidityU8 => DecodeRule::Unsigned(1),
            ObjectId::Illuminance => DecodeRule::ScaledUnsigned(3, 10),
            ObjectId::MassKg => DecodeRule::ScaledUnsigned(2, 10),
            ObjectId::MassLb => DecodeRule::ScaledUnsigned(2, 10),
            ObjectId::MoistureSmall => DecodeRule::ScaledUnsigned(2, 10),
            ObjectId::MoistureLarge => DecodeRule::Unsigned(1),
            ObjectId::PM2d5 => DecodeRule::Unsigned(2),
            ObjectId::PM10 => DecodeRule::Unsigned(2),
            ObjectId::PowerSmall => DecodeRule::ScaledUnsigned(3, 10),
            ObjectId::PowerLarge => DecodeRule::ScaledSigned(4, 10),
            ObjectId::Pressure => DecodeRule::ScaledUnsigned(3, 10),
            ObjectId::Raw => DecodeRule::RawBytes,
            ObjectId::Rotation => DecodeRule::ScaledSigned(2, 100),
            ObjectId::Speed => DecodeRule::ScaledUnsigned(2, 10),
            ObjectId::Temperature1 => DecodeRule::Signed(1),
            ObjectId::Temperature2 => DecodeRule::ScaledSigned(1, 350),
            ObjectId::Temperature3 => DecodeRule::ScaledSigned(2, 100),
            ObjectId::Temperature4 => DecodeRule::ScaledSigned(2, 10),
            ObjectId::Text => DecodeRule::Utf8Text,
            ObjectId::Timestamp => DecodeRule::Unsigned(6),
            ObjectId::Tvoc => DecodeRule::Unsigned(2),
            ObjectId::VoltageSmall => DecodeRule::ScaledUnsigned(2, 1),
            ObjectId::VoltageLarge => DecodeRule::ScaledUnsigned(2, 100),
            ObjectId::Volume1 => DecodeRule::ScaledUnsigned(4, 1),
            ObjectId::Volume2 => DecodeRule::ScaledUnsigned(2, 100),
            ObjectId::Volume3 => DecodeRule::Unsigned(2),
            ObjectId::VolumeStorage => DecodeRule::ScaledUnsigned(4, 1),
            ObjectId::VolumeFlowRate => DecodeRule::ScaledUnsigned(2, 1),
            ObjectId::UVIndex => DecodeRule::ScaledUnsigned(1, 100),
            ObjectId::Water => DecodeRule::ScaledUnsigned(4, 1),
            ObjectId::BatteryLow => DecodeRule::Flag,
            ObjectId::BatteryCharging => DecodeRule::Flag,
            ObjectId::CarbonMonoxideDetected => DecodeRule::Flag,
            ObjectId::Cold => DecodeRule::Flag,
            ObjectId::Connectivity => DecodeRule::Flag,
            ObjectId::DoorOpen => DecodeRule::Flag,
            ObjectId::GarageDoorOpen => DecodeRule::Flag,
            ObjectId::GasDetected => DecodeRule::Flag,
            ObjectId::GenericBoolean => DecodeRule::Flag,
            ObjectId::Heat => DecodeRule::Flag,
            ObjectId::LightDetected => DecodeRule::Flag,
            ObjectId::LockUnlocked => DecodeRule::Flag,
            ObjectId::MoistureDetected => DecodeRule::Flag,
            ObjectId::MotionDetected => DecodeRule::Flag,
            ObjectId::MovementDetected => DecodeRule::Flag,
            ObjectId::OccupancyDetected => DecodeRule::Flag,
            ObjectId::IsOpen => DecodeRule::Flag,
            ObjectId::PluggedIn => DecodeRule::Flag,
            ObjectId::PowerOn => DecodeRule::Flag,
            ObjectId::PresenceAtHome => DecodeRule::Flag,
            ObjectId::ProblemDetected => DecodeRule::Flag,
            ObjectId::IsRunning => DecodeRule::Flag,
            ObjectId::IsSafe => DecodeRule::Flag,
            ObjectId::SmokeDetected => DecodeRule::Flag,
            ObjectId::SoundDetected => DecodeRule::Flag,
            ObjectId::TamperDetected => DecodeRule::Flag,
            ObjectId::VibrationDetected => DecodeRule::Flag,
            ObjectId::WindowOpen => DecodeRule::Flag,
            ObjectId::Button => DecodeRule::Button,
            ObjectId::Dimmer => DecodeRule::Dimmer,
            ObjectId::DeviceTypeId => DecodeRule::Unsigned(2),
            ObjectId::FirmwareVersionLarge => DecodeRule::Unsigned(4),
            ObjectId::FirmwareVersionSmall => DecodeRule::Unsigned(6),
            ObjectId::PacketId => DecodeRule::Unsigned(1),
        }
    }
}

} // verus!
