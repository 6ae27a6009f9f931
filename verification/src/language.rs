//! Operator language and unit preferences, decoded from the Language
//! Command message.

use vstd::prelude::*;

verus! {

/// Values of the corresponding field of the Language Command.
#[derive(Debug, Clone, Copy, PartialEq, Eq, Structural)]
pub enum DecimalSymbolEnum {
    Comma,
    Point,
    Reserved,
    NoAction,
}

impl DecimalSymbolEnum {
    /// The wire code of this value.
    pub open spec fn spec_code(self) -> u8 {
        match self {
            DecimalSymbolEnum::Comma => 0,
            DecimalSymbolEnum::Point => 1,
            DecimalSymbolEnum::Reserved => 2,
            DecimalSymbolEnum::NoAction => 3,
        }
    }

    pub fn as_u8(&self) -> (r: u8)
        ensures
            r == self.spec_code(),
    {
        match self {
            DecimalSymbolEnum::Comma => 0,
            DecimalSymbolEnum::Point => 1,
            DecimalSymbolEnum::Reserved => 2,
            DecimalSymbolEnum::NoAction => 3,
        }
    }

    /// Decode a wire code; codes without a listed meaning map to `NoAction`.
    pub fn from_u8(value: u8) -> (r: DecimalSymbolEnum)
        ensures
            value <= 3 ==> r.spec_code() == value,
            value > 3 ==> r == DecimalSymbolEnum::NoAction,
    {
        match value {
            0 => DecimalSymbolEnum::Comma,
            1 => DecimalSymbolEnum::Point,
            2 => DecimalSymbolEnum::Reserved,
            3 => DecimalSymbolEnum::NoAction,
            _ => DecimalSymbolEnum::NoAction,
        }
    }
}

/// Values of the corresponding field of the Language Command.
#[derive(Debug, Clone, Copy, PartialEq, Eq, Structural)]
pub enum DateFormatEnum {
    DMY,
    DYM,
    MYD,
    MDY,
    YMD,
    YDM,
    Reserved,
}

impl DateFormatEnum {
    /// The wire code of this value.
    pub open spec fn spec_code(self) -> u8 {
        match self {
            DateFormatEnum::DMY => 0,
            DateFormatEnum::DYM => 1,
            DateFormatEnum::MYD => 2,
            DateFormatEnum::MDY => 3,
            DateFormatEnum::YMD => 4,
            DateFormatEnum::YDM => 5,
            DateFormatEnum::Reserved => 255,
        }
    }

    pub fn as_u8(&self) -> (r: u8)
        ensures
            r == self.spec_code(),
    {
        match self {
            DateFormatEnum::DMY => 0,
            DateFormatEnum::DYM => 1,
            DateFormatEnum::MYD => 2,
            DateFormatEnum::MDY => 3,
            DateFormatEnum::YMD => 4,
            DateFormatEnum::YDM => 5,
            DateFormatEnum::Reserved => 255,
        }
    }

    /// Decode a wire code; codes without a listed meaning map to `Reserved`.
    pub fn from_u8(value: u8) -> (r: DateFormatEnum)
        ensures
            value <= 5 ==> r.spec_code() == value,
            value > 5 ==> r == DateFormatEnum::Reserved,
    {
        match value {
            0 => DateFormatEnum::DMY,
            1 => DateFormatEnum::DYM,
            2 => DateFormatEnum::MYD,
            3 => DateFormatEnum::MDY,
            4 => DateFormatEnum::YMD,
            5 => DateFormatEnum::YDM,
            _ => DateFormatEnum::Reserved,
        }
    }
}

/// Values of the corresponding field of the Language Command.
#[derive(Debug, Clone, Copy, PartialEq, Eq, Structural)]
pub enum TimeFormatEnum {
    H24,
    H12,
    Reserved,
    NoAction,
}

impl TimeFormatEnum {
    /// The wire code of this value.
    pub open spec fn spec_code(self) -> u8 {
        match self {
            TimeFormatEnum::H24 => 0,
            TimeFormatEnum::H12 => 1,
            TimeFormatEnum::Reserved => 2,
            TimeFormatEnum::NoAction => 3,
        }
    }

    pub fn as_u8(&self) -> (r: u8)
        ensures
            r == self.spec_code(),
    {
        match self {
            TimeFormatEnum::H24 => 0,
            TimeFormatEnum::H12 => 1,
            TimeFormatEnum::Reserved => 2,
            TimeFormatEnum::NoAction => 3,
        }
    }

    /// Decode a wire code; codes without a listed meaning map to `NoAction`.
    pub fn from_u8(value: u8) -> (r: TimeFormatEnum)
        ensures
            value <= 3 ==> r.spec_code() == value,
            value > 3 ==> r == TimeFormatEnum::NoAction,
    {
        match value {
            0 => TimeFormatEnum::H24,
            1 => TimeFormatEnum::H12,
            2 => TimeFormatEnum::Reserved,
            3 => TimeFormatEnum::NoAction,
            _ => TimeFormatEnum::NoAction,
        }
    }
}

/// Values of the corresponding field of the Language Command.
#[derive(Debug, Clone, Copy, PartialEq, Eq, Structural)]
pub enum DistanceUnitsEnum {
    Metric,
    Imperial,
    Reserved,
    NoAction,
}

impl DistanceUnitsEnum {
    /// The wire code of this value.
    pub open spec fn spec_code(self) -> u8 {
        match self {
            DistanceUnitsEnum::Metric => 0,
            DistanceUnitsEnum::Imperial => 1,
            DistanceUnitsEnum::Reserved => 2,
            DistanceUnitsEnum::NoAction => 3,
        }
    }

    pub fn as_u8(&self) -> (r: u8)
        ensures
            r == self.spec_code(),
    {
        match self {
            DistanceUnitsEnum::Metric => 0,
            DistanceUnitsEnum::Imperial => 1,
            DistanceUnitsEnum::Reserved => 2,
            DistanceUnitsEnum::NoAction => 3,
        }
    }

    /// Decode a wire code; codes without a listed meaning map to `NoAction`.
    pub fn from_u8(value: u8) -> (r: DistanceUnitsEnum)
        ensures
            value <= 3 ==> r.spec_code() == value,
            value > 3 ==> r == DistanceUnitsEnum::NoAction,
    {
        match value {
            0 => DistanceUnitsEnum::Metric,
            1 => DistanceUnitsEnum::Imperial,
            2 => DistanceUnitsEnum::Reserved,
            3 => DistanceUnitsEnum::NoAction,
            _ => DistanceUnitsEnum::NoAction,
        }
    }
}

/// Values of the corresponding field of the Language Command.
#[derive(Debug, Clone, Copy, PartialEq, Eq, Structural)]
pub enum AreaUnitsEnum {
    Metric,
    Imperial,
    Reserved,
    NoAction,
}

impl AreaUnitsEnum {
    /// The wire code of this value.
    pub open spec fn spec_code(self) -> u8 {
        match self {
            AreaUnitsEnum::Metric => 0,
            AreaUnitsEnum::Imperial => 1,
            AreaUnitsEnum::Reserved => 2,
            AreaUnitsEnum::NoAction => 3,
        }
    }

    pub fn as_u8(&self) -> (r: u8)
        ensures
            r == self.spec_code(),
    {
        match self {
            AreaUnitsEnum::Metric => 0,
            AreaUnitsEnum::Imperial => 1,
            AreaUnitsEnum::Reserved => 2,
            AreaUnitsEnum::NoAction => 3,
        }
    }

    /// Decode a wire code; codes without a listed meaning map to `NoAction`.
    pub fn from_u8(value: u8) -> (r: AreaUnitsEnum)
        ensures
            value <= 3 ==> r.spec_code() == value,
            value > 3 ==> r == AreaUnitsEnum::NoAction,
    {
        match value {
            0 => AreaUnitsEnum::Metric,
            1 => AreaUnitsEnum::Imperial,
            2 => AreaUnitsEnum::Reserved,
            3 => AreaUnitsEnum::NoAction,
            _ => AreaUnitsEnum::NoAction,
        }
    }
}

/// Values of the corresponding field of the Language Command.
#[derive(Debug, Clone, Copy, PartialEq, Eq, Structural)]
pub enum VolumeUnitsEnum {
    Metric,
    Imperial,
    US,
    NoAction,
}

impl VolumeUnitsEnum {
    /// The wire code of this value.
    pub open spec fn spec_code(self) -> u8 {
        match self {
            VolumeUnitsEnum::Metric => 0,
            VolumeUnitsEnum::Imperial => 1,
            VolumeUnitsEnum::US => 2,
            VolumeUnitsEnum::NoAction => 3,
        }
    }

    pub fn as_u8(&self) -> (r: u8)
        ensures
            r == self.spec_code(),
    {
        match self {
            VolumeUnitsEnum::Metric => 0,
            VolumeUnitsEnum::Imperial => 1,
            VolumeUnitsEnum::US => 2,
            VolumeUnitsEnum::NoAction => 3,
        }
    }

    /// Decode a wire code; codes without a listed meaning map to `NoAction`.
    pub fn from_u8(value: u8) -> (r: VolumeUnitsEnum)
        ensures
            value <= 3 ==> r.spec_code() == value,
            value > 3 ==> r == VolumeUnitsEnum::NoAction,
    {
        match value {
            0 => VolumeUnitsEnum::Metric,
            1 => VolumeUnitsEnum::Imperial,
            2 => VolumeUnitsEnum::US,
            3 => VolumeUnitsEnum::NoAction,
            _ => VolumeUnitsEnum::NoAction,
        }
    }
}

/// Values of the corresponding field of the Language Command.
#[derive(Debug, Clone, Copy, PartialEq, Eq, Structural)]
pub enum MassUnitsEnum {
    Metric,
    Imperial,
    US,
    NoAction,
}

impl MassUnitsEnum {
    /// The wire code of this value.
    pub open spec fn spec_code(self) -> u8 {
        match self {
            MassUnitsEnum::Metric => 0,
            MassUnitsEnum::Imperial => 1,
            MassUnitsEnum::US => 2,
            MassUnitsEnum::NoAction => 3,
        }
    }

    pub fn as_u8(&self) -> (r: u8)
        ensures
            r == self.spec_code(),
    {
        match self {
            MassUnitsEnum::Metric => 0,
            MassUnitsEnum::Imperial => 1,
            MassUnitsEnum::US => 2,
            MassUnitsEnum::NoAction => 3,
        }
    }

    /// Decode a wire code; codes without a listed meaning map to `NoAction`.
    pub fn from_u8(value: u8) -> (r: MassUnitsEnum)
        ensures
            value <= 3 ==> r.spec_code() == value,
            value > 3 ==> r == MassUnitsEnum::NoAction,
    {
        match value {
            0 => MassUnitsEnum::Metric,
            1 => MassUnitsEnum::Imperial,
            2 => MassUnitsEnum::US,
            3 => MassUnitsEnum::NoAction,
            _ => MassUnitsEnum::NoAction,
        }
    }
}

/// Values of the corresponding field of the Language Command.
#[derive(Debug, Clone, Copy, PartialEq, Eq, Structural)]
pub enum TemperatureUnitsEnum {
    Metric,
    Imperial,
    Reserved,
    NoAction,
}

impl TemperatureUnitsEnum {
    /// The wire code of this value.
    pub open spec fn spec_code(self) -> u8 {
        match self {
            TemperatureUnitsEnum::Metric => 0,
            TemperatureUnitsEnum::Imperial => 1,
            TemperatureUnitsEnum::Reserved => 2,
            TemperatureUnitsEnum::NoAction => 3,
        }
    }

    pub fn as_u8(&self) -> (r: u8)
        ensures
            r == self.spec_code(),
    {
        match self {
            TemperatureUnitsEnum::Metric => 0,
            TemperatureUnitsEnum::Imperial => 1,
            TemperatureUnitsEnum::Reserved => 2,
            TemperatureUnitsEnum::NoAction => 3,
        }
    }

    /// Decode a wire code; codes without a listed meaning map to `NoAction`.
    pub fn from_u8(value: u8) -> (r: TemperatureUnitsEnum)
        ensures
            value <= 3 ==> r.spec_code() == value,
            value > 3 ==> r == TemperatureUnitsEnum::NoAction,
    {
        match value {
            0 => TemperatureUnitsEnum::Metric,
            1 => TemperatureUnitsEnum::Imperial,
            2 => TemperatureUnitsEnum::Reserved,
            3 => TemperatureUnitsEnum::NoAction,
            _ => TemperatureUnitsEnum::NoAction,
        }
    }
}

/// Values of the corresponding field of the Language Command.
#[derive(Debug, Clone, Copy, PartialEq, Eq, Structural)]
pub enum PressureUnitsEnum {
    Metric,
    Imperial,
    Reserved,
    NoAction,
}

impl PressureUnitsEnum {
    /// The wire code of this value.
    pub open spec fn spec_code(self) -> u8 {
        match self {
            PressureUnitsEnum::Metric => 0,
            PressureUnitsEnum::Imperial => 1,
            PressureUnitsEnum::Reserved => 2,
            PressureUnitsEnum::NoAction => 3,
        }
    }

    pub fn as_u8(&self) -> (r: u8)
        ensures
            r == self.spec_code(),
    {
        match self {
            PressureUnitsEnum::Metric => 0,
            PressureUnitsEnum::Imperial => 1,
            PressureUnitsEnum::Reserved => 2,
            PressureUnitsEnum::NoAction => 3,
        }
    }

    /// Decode a wire code; codes without a listed meaning map to `NoAction`.
    pub fn from_u8(value: u8) -> (r: PressureUnitsEnum)
        ensures
            value <= 3 ==> r.spec_code() == value,
            value > 3 ==> r == PressureUnitsEnum::NoAction,
    {
        match value {
            0 => PressureUnitsEnum::Metric,
            1 => PressureUnitsEnum::Imperial,
            2 => PressureUnitsEnum::Reserved,
            3 => PressureUnitsEnum::NoAction,
            _ => PressureUnitsEnum::NoAction,
        }
    }
}

/// Values of the corresponding field of the Language Command.
#[derive(Debug, Clone, Copy, PartialEq, Eq, Structural)]
pub enum ForceUnitsEnum {
    Metric,
    Imperial,
    Reserved,
    NoAction,
}

impl ForceUnitsEnum {
    /// The wire code of this value.
    pub open spec fn spec_code(self) -> u8 {
        match self {
            ForceUnitsEnum::Metric => 0,
            ForceUnitsEnum::Imperial => 1,
            ForceUnitsEnum::Reserved => 2,
            ForceUnitsEnum::NoAction => 3,
        }
    }

    pub fn as_u8(&self) -> (r: u8)
        ensures
            r == self.spec_code(),
    {
        match self {
            ForceUnitsEnum::Metric => 0,
            ForceUnitsEnum::Imperial => 1,
            ForceUnitsEnum::Reserved => 2,
            ForceUnitsEnum::NoAction => 3,
        }
    }

    /// Decode a wire code; codes without a listed meaning map to `NoAction`.
    pub fn from_u8(value: u8) -> (r: ForceUnitsEnum)
        ensures
            value <= 3 ==> r.spec_code() == value,
            value > 3 ==> r == ForceUnitsEnum::NoAction,
    {
        match value {
            0 => ForceUnitsEnum::Metric,
            1 => ForceUnitsEnum::Imperial,
            2 => ForceUnitsEnum::Reserved,
            3 => ForceUnitsEnum::NoAction,
            _ => ForceUnitsEnum::NoAction,
        }
    }
}

/// Values of the corresponding field of the Language Command.
#[derive(Debug, Clone, Copy, PartialEq, Eq, Structural)]
pub enum UnitsSystemEnum {
    Metric,
    Imperial,
    US,
    NoAction,
}

impl UnitsSystemEnum {
    /// The wire code of this value.
    pub open spec fn spec_code(self) -> u8 {
        match self {
            UnitsSystemEnum::Metric => 0,
            UnitsSystemEnum::Imperial => 1,
            UnitsSystemEnum::US => 2,
            UnitsSystemEnum::NoAction => 3,
        }
    }

    pub fn as_u8(&self) -> (r: u8)
        ensures
            r == self.spec_code(),
    {
        match self {
            UnitsSystemEnum::Metric => 0,
            UnitsSystemEnum::Imperial => 1,
            UnitsSystemEnum::US => 2,
            UnitsSystemEnum::NoAction => 3,
        }
    }

    /// Decode a wire code; codes without a listed meaning map to `NoAction`.
    pub fn from_u8(value: u8) -> (r: UnitsSystemEnum)
        ensures
            value <= 3 ==> r.spec_code() == value,
            value > 3 ==> r == UnitsSystemEnum::NoAction,
    {
        match value {
            0 => UnitsSystemEnum::Metric,
            1 => UnitsSystemEnum::Imperial,
            2 => UnitsSystemEnum::US,
            3 => UnitsSystemEnum::NoAction,
            _ => UnitsSystemEnum::NoAction,
        }
    }
}


/// The operator's language and unit preferences.
pub struct LanguageSettings {
    language_code: Vec<u8>,
    decimal_symbol: DecimalSymbolEnum,
    date_format: DateFormatEnum,
    time_format: TimeFormatEnum,
    distance_units: DistanceUnitsEnum,
    area_units: AreaUnitsEnum,
    volume_units: VolumeUnitsEnum,
    mass_units: MassUnitsEnum,
    temperature_units: TemperatureUnitsEnum,
    pressure_units: PressureUnitsEnum,
    force_units: ForceUnitsEnum,
    units_system: UnitsSystemEnum,
}

impl LanguageSettings {
    pub closed spec fn spec_language_code(&self) -> Seq<u8> {
        self.language_code@
    }

    pub closed spec fn spec_decimal_symbol(&self) -> DecimalSymbolEnum {
        self.decimal_symbol
    }

    pub closed spec fn spec_date_format(&self) -> DateFormatEnum {
        self.date_format
    }

    pub closed spec fn spec_time_format(&self) -> TimeFormatEnum {
        self.time_format
    }

    pub closed spec fn spec_distance_units(&self) -> DistanceUnitsEnum {
        self.distance_units
    }

    pub closed spec fn spec_area_units(&self) -> AreaUnitsEnum {
        self.area_units
    }

    pub closed spec fn spec_volume_units(&self) -> VolumeUnitsEnum {
        self.volume_units
    }

    pub closed spec fn spec_mass_units(&self) -> MassUnitsEnum {
        self.mass_units
    }

    pub closed spec fn spec_temperature_units(&self) -> TemperatureUnitsEnum {
        self.temperature_units
    }

    pub closed spec fn spec_pressure_units(&self) -> PressureUnitsEnum {
        self.pressure_units
    }

    pub closed spec fn spec_force_units(&self) -> ForceUnitsEnum {
        self.force_units
    }

    pub closed spec fn spec_units_system(&self) -> UnitsSystemEnum {
        self.units_system
    }

    pub fn builder() -> (r: LanguageSettingsBuilder)
        ensures
            r.language_code@ == seq![0x6Eu8, 0x6Cu8],
            r.decimal_symbol == DecimalSymbolEnum::Comma,
            r.date_format == DateFormatEnum::DMY,
            r.time_format == TimeFormatEnum::H24,
            r.distance_units == DistanceUnitsEnum::Metric,
            r.area_units == AreaUnitsEnum::Metric,
            r.volume_units == VolumeUnitsEnum::Metric,
            r.mass_units == MassUnitsEnum::Metric,
            r.temperature_units == TemperatureUnitsEnum::Metric,
            r.pressure_units == PressureUnitsEnum::Metric,
            r.force_units == ForceUnitsEnum::Metric,
            r.units_system == UnitsSystemEnum::Metric,
    {
        LanguageSettingsBuilder::new()
    }

    /// Decode the eight data bytes of a Language Command; anything shorter
    /// yields the defaults.
    pub fn from_data(data: &[u8]) -> (r: LanguageSettings)
        ensures
            data@.len() < 8 ==> r.spec_language_code() == seq![0x6Eu8, 0x6Cu8],
            data@.len() >= 8 ==> {
                &&& r.spec_language_code() == seq![data@[0], data@[1]]
                &&& r.spec_decimal_symbol().spec_code() == data@[2] & (0xC0u8 >> 6)
                &&& r.spec_time_format().spec_code() == data@[2] & (0x30u8 >> 4)
                &&& data@[3] <= 5 ==> r.spec_date_format().spec_code() == data@[3]
                &&& data@[3] > 5 ==> r.spec_date_format() == DateFormatEnum::Reserved
                &&& r.spec_distance_units().spec_code() == data@[4] & (0xC0u8 >> 6)
                &&& r.spec_area_units().spec_code() == data@[4] & (0x30u8 >> 4)
                &&& r.spec_volume_units().spec_code() == data@[4] & (0x0Cu8 >> 2)
                &&& r.spec_mass_units().spec_code() == data@[4] & 0x03
                &&& r.spec_temperature_units().spec_code() == data@[5] & (0xC0u8 >> 6)
                &&& r.spec_pressure_units().spec_code() == data@[5] & (0x30u8 >> 4)
                &&& r.spec_force_units().spec_code() == data@[5] & (0x0Cu8 >> 2)
                &&& r.spec_units_system().spec_code() == data@[5] & 0x03
            },
    {
        if data.len() < 8 {
            return LanguageSettings::builder().build();
        }
        proof {
            let b2 = data@[2];
            let b4 = data@[4];
            let b5 = data@[5];
            assert(b2 & (0xC0u8 >> 6) <= 3 && b2 & (0x30u8 >> 4) <= 3 && b4 & (0xC0u8 >> 6) <= 3 && b4
                & (0x30u8 >> 4) <= 3 && b4 & (0x0Cu8 >> 2) <= 3 && b4 & 0x03 <= 3 && b5 & (0xC0u8
                >> 6) <= 3 && b5 & (0x30u8 >> 4) <= 3 && b5 & (0x0Cu8 >> 2) <= 3 && b5 & 0x03 <= 3)
                by (bit_vector);
        }
        let code: Vec<u8> = vec![data[0], data[1]];
        let r = LanguageSettings {
            language_code: code,
            decimal_symbol: DecimalSymbolEnum::from_u8(data[2] & (0xC0u8 >> 6)),
            time_format: TimeFormatEnum::from_u8(data[2] & (0x30u8 >> 4)),
            date_format: DateFormatEnum::from_u8(data[3]),
            distance_units: DistanceUnitsEnum::from_u8(data[4] & (0xC0u8 >> 6)),
            area_units: AreaUnitsEnum::from_u8(data[4] & (0x30u8 >> 4)),
            volume_units: VolumeUnitsEnum::from_u8(data[4] & (0x0Cu8 >> 2)),
            mass_units: MassUnitsEnum::from_u8(data[4] & 0x03),
            temperature_units: TemperatureUnitsEnum::from_u8(data[5] & (0xC0u8 >> 6)),
            pressure_units: PressureUnitsEnum::from_u8(data[5] & (0x30u8 >> 4)),
            force_units: ForceUnitsEnum::from_u8(data[5] & (0x0Cu8 >> 2)),
            units_system: UnitsSystemEnum::from_u8(data[5] & 0x03),
        };
        proof {
            assert(r.spec_language_code() =~= seq![data@[0], data@[1]]);
        }
        r
    }

    /// The two-letter language code, as its raw bytes.
    pub fn language_code(&self) -> (r: &[u8])
        ensures
            r@ == self.spec_language_code(),
    {
        self.language_code.as_slice()
    }

    pub fn decimal_symbol(&self) -> (r: DecimalSymbolEnum)
        ensures
            r == self.spec_decimal_symbol(),
    {
        self.decimal_symbol
    }

    pub fn date_format(&self) -> (r: DateFormatEnum)
        ensures
            r == self.spec_date_format(),
    {
        self.date_format
    }

    pub fn time_format(&self) -> (r: TimeFormatEnum)
        ensures
            r == self.spec_time_format(),
    {
        self.time_format
    }

    pub fn distance_units(&self) -> (r: DistanceUnitsEnum)
        ensures
            r == self.spec_distance_units(),
    {
        self.distance_units
    }

    pub fn area_units(&self) -> (r: AreaUnitsEnum)
        ensures
            r == self.spec_area_units(),
    {
        self.area_units
    }

    pub fn volume_units(&self) -> (r: VolumeUnitsEnum)
        ensures
            r == self.spec_volume_units(),
    {
        self.volume_units
    }

    pub fn mass_units(&self) -> (r: MassUnitsEnum)
        ensures
            r == self.spec_mass_units(),
    {
        self.mass_units
    }

    pub fn temperature_units(&self) -> (r: TemperatureUnitsEnum)
        ensures
            r == self.spec_temperature_units(),
    {
        self.temperature_units
    }

    pub fn pressure_units(&self) -> (r: PressureUnitsEnum)
        ensures
            r == self.spec_pressure_units(),
    {
        self.pressure_units
    }

    pub fn force_units(&self) -> (r: ForceUnitsEnum)
        ensures
            r == self.spec_force_units(),
    {
        self.force_units
    }

    pub fn units_system(&self) -> (r: UnitsSystemEnum)
        ensures
            r == self.spec_units_system(),
    {
        self.units_system
    }
}

/// Gathers language settings field by field; defaults are Dutch, comma
/// decimals, day-month-year dates, 24-hour time and metric units.
pub struct LanguageSettingsBuilder {
    pub language_code: Vec<u8>,
    pub decimal_symbol: DecimalSymbolEnum,
    pub date_format: DateFormatEnum,
    pub time_format: TimeFormatEnum,
    pub distance_units: DistanceUnitsEnum,
    pub area_units: AreaUnitsEnum,
    pub volume_units: VolumeUnitsEnum,
    pub mass_units: MassUnitsEnum,
    pub temperature_units: TemperatureUnitsEnum,
    pub pressure_units: PressureUnitsEnum,
    pub force_units: ForceUnitsEnum,
    pub units_system: UnitsSystemEnum,
}

impl LanguageSettingsBuilder {
    /// A fresh builder: Dutch, comma decimals, day-month-year, 24-hour
    /// time, metric units.
    pub fn new() -> (r: LanguageSettingsBuilder)
        ensures
            r.language_code@ == seq![0x6Eu8, 0x6Cu8],
            r.decimal_symbol == DecimalSymbolEnum::Comma,
            r.date_format == DateFormatEnum::DMY,
            r.time_format == TimeFormatEnum::H24,
            r.distance_units == DistanceUnitsEnum::Metric,
            r.area_units == AreaUnitsEnum::Metric,
            r.volume_units == VolumeUnitsEnum::Metric,
            r.mass_units == MassUnitsEnum::Metric,
            r.temperature_units == TemperatureUnitsEnum::Metric,
            r.pressure_units == PressureUnitsEnum::Metric,
            r.force_units == ForceUnitsEnum::Metric,
            r.units_system == UnitsSystemEnum::Metric,
    {
        let code: Vec<u8> = vec![0x6E, 0x6C];
        proof {
            assert(code@ =~= seq![0x6Eu8, 0x6Cu8]);
        }
        LanguageSettingsBuilder {
            language_code: code,
            decimal_symbol: DecimalSymbolEnum::Comma,
            date_format: DateFormatEnum::DMY,
            time_format: TimeFormatEnum::H24,
            distance_units: DistanceUnitsEnum::Metric,
            area_units: AreaUnitsEnum::Metric,
            volume_units: VolumeUnitsEnum::Metric,
            mass_units: MassUnitsEnum::Metric,
            temperature_units: TemperatureUnitsEnum::Metric,
            pressure_units: PressureUnitsEnum::Metric,
            force_units: ForceUnitsEnum::Metric,
            units_system: UnitsSystemEnum::Metric,
        }
    }

    pub fn build(self) -> (r: LanguageSettings)
        ensures
            r.spec_language_code() == self.language_code@,
            r.spec_decimal_symbol() == self.decimal_symbol,
            r.spec_date_format() == self.date_format,
            r.spec_time_format() == self.time_format,
            r.spec_distance_units() == self.distance_units,
            r.spec_area_units() == self.area_units,
            r.spec_volume_units() == self.volume_units,
            r.spec_mass_units() == self.mass_units,
            r.spec_temperature_units() == self.temperature_units,
            r.spec_pressure_units() == self.pressure_units,
            r.spec_force_units() == self.force_units,
            r.spec_units_system() == self.units_system,
    {
        LanguageSettings {
            language_code: self.language_code,
            decimal_symbol: self.decimal_symbol,
            date_format: self.date_format,
            time_format: self.time_format,
            distance_units: self.distance_units,
            area_units: self.area_units,
            volume_units: self.volume_units,
            mass_units: self.mass_units,
            temperature_units: self.temperature_units,
            pressure_units: self.pressure_units,
            force_units: self.force_units,
            units_system: self.units_system,
        }
    }

    pub fn language_code(self, language_code: Vec<u8>) -> (r: Self)
        ensures
            r == (LanguageSettingsBuilder { language_code, ..self }),
    {
        LanguageSettingsBuilder { language_code, ..self }
    }

    pub fn decimal_symbol(self, decimal_symbol: DecimalSymbolEnum) -> (r: Self)
        ensures
            r == (LanguageSettingsBuilder { decimal_symbol, ..self }),
    {
        LanguageSettingsBuilder { decimal_symbol, ..self }
    }

    pub fn date_format(self, date_format: DateFormatEnum) -> (r: Self)
        ensures
            r == (LanguageSettingsBuilder { date_format, ..self }),
    {
        LanguageSettingsBuilder { date_format, ..self }
    }

    pub fn time_format(self, time_format: TimeFormatEnum) -> (r: Self)
        ensures
            r == (LanguageSettingsBuilder { time_format, ..self }),
    {
        LanguageSettingsBuilder { time_format, ..self }
    }

    pub fn distance_units(self, distance_units: DistanceUnitsEnum) -> (r: Self)
        ensures
            r == (LanguageSettingsBuilder { distance_units, ..self }),
    {
        LanguageSettingsBuilder { distance_units, ..self }
    }

    pub fn area_units(self, area_units: AreaUnitsEnum) -> (r: Self)
        ensures
            r == (LanguageSettingsBuilder { area_units, ..self }),
    {
        LanguageSettingsBuilder { area_units, ..self }
    }

    pub fn volume_units(self, volume_units: VolumeUnitsEnum) -> (r: Self)
        ensures
            r == (LanguageSettingsBuilder { volume_units, ..self }),
    {
        LanguageSettingsBuilder { volume_units, ..self }
    }

    pub fn mass_units(self, mass_units: MassUnitsEnum) -> (r: Self)
        ensures
            r == (LanguageSettingsBuilder { mass_units, ..self }),
    {
        LanguageSettingsBuilder { mass_units, ..self }
    }

    pub fn temperature_units(self, temperature_units: TemperatureUnitsEnum) -> (r: Self)
        ensures
            r == (LanguageSettingsBuilder { temperature_units, ..self }),
    {
        LanguageSettingsBuilder { temperature_units, ..self }
    }

    pub fn pressure_units(self, pressure_units: PressureUnitsEnum) -> (r: Self)
        ensures
            r == (LanguageSettingsBuilder { pressure_units, ..self }),
    {
        LanguageSettingsBuilder { pressure_units, ..self }
    }

    pub fn force_units(self, force_units: ForceUnitsEnum) -> (r: Self)
        ensures
            r == (LanguageSettingsBuilder { force_units, ..self }),
    {
        LanguageSettingsBuilder { force_units, ..self }
    }

    pub fn units_system(self, units_system: UnitsSystemEnum) -> (r: Self)
        ensures
            r == (LanguageSettingsBuilder { units_system, ..self }),
    {
        LanguageSettingsBuilder { units_system, ..self }
    }
}

} // verus!
