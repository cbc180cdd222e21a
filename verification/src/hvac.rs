//! The heating, ventilation and air conditioning unit.

use crate::common::{
    get_field_request, get_online_state, get_online_state_request, online_state_request,
    read_request, set_field, set_field_request, write_request, written, GetFailure, OnlineState,
    OnlineStateConversionError, Request, SetError,
};
use crate::sse::{resolve, DeviceType, Thing};
use crate::text::{
    is_title_case, is_upper_case, is_word, lemma_upper_text_of_upper_case, signed_decimal,
    signed_decimal_string, upper_text,
};
use vstd::prelude::*;
use vstd::string::*;

verus! {

/// An HVAC unit cannot be made from the thing that was given.
#[derive(Debug)]
pub enum HvacError {
    /// The thing is of another device type, or of none that is known.
    InvalidDeviceType(Option<DeviceType>),
}

/// The fan mode could not be told.
#[derive(Debug)]
pub enum HvacFanModeConversionError {
    /// The read from the gateway failed.
    GetFailure(GetFailure),
    /// The gateway reported a text that names no fan mode.
    UnknownValue(String),
}

/// The mode could not be told.
#[derive(Debug)]
pub enum HvacModeConversionError {
    /// The read from the gateway failed.
    GetFailure(GetFailure),
    /// The gateway reported a text that names no mode.
    UnknownValue(String),
}

/// The status could not be told.
#[derive(Debug)]
pub enum HvacStatusConversionError {
    /// The read from the gateway failed.
    GetFailure(GetFailure),
    /// The gateway reported a text that names no status.
    UnknownValue(String),
}

/// The temperature outside could not be told.
#[derive(Debug)]
pub enum HvacOutsideTemperatureFailure {
    /// The read from the gateway failed.
    GetFailure(GetFailure),
    /// The gateway reported a text that is no number. The standard library's
    /// reason stands beside the text.
    Parse(String, std::num::ParseFloatError),
}

/// The temperature in the room could not be told.
#[derive(Debug)]
pub enum HvacInsideTemperatureFailure {
    /// The read from the gateway failed.
    GetFailure(GetFailure),
    /// The gateway reported a text that is no number. The standard library's
    /// reason stands beside the text.
    Parse(String, std::num::ParseFloatError),
}

/// A number that belongs to the status of the unit could not be told.
#[derive(Debug)]
pub enum HvacStatusFailure {
    /// The read from the gateway failed.
    GetFailure(GetFailure),
    /// The gateway reported a text that is no number. The standard library's
    /// reason stands beside the text.
    Parse(String, std::num::ParseFloatError),
}

/// The temperature above which the unit cools could not be told.
#[derive(Debug)]
pub enum HvacHighTemperatureFailure {
    /// The read from the gateway failed.
    GetFailure(GetFailure),
    /// The gateway reported a text that is no number. The standard library's
    /// reason stands beside the text.
    Parse(String, std::num::ParseFloatError),
}

/// The temperature below which the unit heats could not be told.
#[derive(Debug)]
pub enum HvacLowTemperatureFailure {
    /// The read from the gateway failed.
    GetFailure(GetFailure),
    /// The gateway reported a text that is no number. The standard library's
    /// reason stands beside the text.
    Parse(String, std::num::ParseFloatError),
}

impl From<GetFailure> for HvacOutsideTemperatureFailure {
    fn from(error: GetFailure) -> (r: Self) {
        HvacOutsideTemperatureFailure::GetFailure(error)
    }
}

impl vstd::std_specs::convert::FromSpecImpl<GetFailure> for HvacOutsideTemperatureFailure {
    open spec fn obeys_from_spec() -> bool {
        true
    }

    open spec fn from_spec(error: GetFailure) -> Self {
        HvacOutsideTemperatureFailure::GetFailure(error)
    }
}

impl From<GetFailure> for HvacInsideTemperatureFailure {
    fn from(error: GetFailure) -> (r: Self) {
        HvacInsideTemperatureFailure::GetFailure(error)
    }
}

impl vstd::std_specs::convert::FromSpecImpl<GetFailure> for HvacInsideTemperatureFailure {
    open spec fn obeys_from_spec() -> bool {
        true
    }

    open spec fn from_spec(error: GetFailure) -> Self {
        HvacInsideTemperatureFailure::GetFailure(error)
    }
}

impl From<GetFailure> for HvacStatusConversionError {
    fn from(error: GetFailure) -> (r: Self) {
        HvacStatusConversionError::GetFailure(error)
    }
}

impl vstd::std_specs::convert::FromSpecImpl<GetFailure> for HvacStatusConversionError {
    open spec fn obeys_from_spec() -> bool {
        true
    }

    open spec fn from_spec(error: GetFailure) -> Self {
        HvacStatusConversionError::GetFailure(error)
    }
}

impl From<GetFailure> for HvacHighTemperatureFailure {
    fn from(error: GetFailure) -> (r: Self) {
        HvacHighTemperatureFailure::GetFailure(error)
    }
}

impl vstd::std_specs::convert::FromSpecImpl<GetFailure> for HvacHighTemperatureFailure {
    open spec fn obeys_from_spec() -> bool {
        true
    }

    open spec fn from_spec(error: GetFailure) -> Self {
        HvacHighTemperatureFailure::GetFailure(error)
    }
}

impl From<GetFailure> for HvacLowTemperatureFailure {
    fn from(error: GetFailure) -> (r: Self) {
        HvacLowTemperatureFailure::GetFailure(error)
    }
}

impl vstd::std_specs::convert::FromSpecImpl<GetFailure> for HvacLowTemperatureFailure {
    open spec fn obeys_from_spec() -> bool {
        true
    }

    open spec fn from_spec(error: GetFailure) -> Self {
        HvacLowTemperatureFailure::GetFailure(error)
    }
}

impl From<GetFailure> for HvacFanModeConversionError {
    fn from(error: GetFailure) -> (r: Self) {
        HvacFanModeConversionError::GetFailure(error)
    }
}

impl vstd::std_specs::convert::FromSpecImpl<GetFailure> for HvacFanModeConversionError {
    open spec fn obeys_from_spec() -> bool {
        true
    }

    open spec fn from_spec(error: GetFailure) -> Self {
        HvacFanModeConversionError::GetFailure(error)
    }
}

impl From<GetFailure> for HvacModeConversionError {
    fn from(error: GetFailure) -> (r: Self) {
        HvacModeConversionError::GetFailure(error)
    }
}

impl vstd::std_specs::convert::FromSpecImpl<GetFailure> for HvacModeConversionError {
    open spec fn obeys_from_spec() -> bool {
        true
    }

    open spec fn from_spec(error: GetFailure) -> Self {
        HvacModeConversionError::GetFailure(error)
    }
}

/// How fast the fan of the unit runs.
#[derive(Debug, Clone, Copy, PartialEq, Eq, Structural)]
pub enum HvacFanMode {
    /// The gateway or the unit picks the speed of the fan.
    Auto,
    /// The fan runs slowly.
    Low,
    /// The fan runs fast.
    High,
}

impl HvacFanMode {
    /// The word that the gateway uses for the fan mode, in upper case.
    pub open spec fn wire(self) -> Seq<char> {
        match self {
            HvacFanMode::Auto => "AUTO"@,
            HvacFanMode::Low => "LOW"@,
            HvacFanMode::High => "HIGH"@,
        }
    }

    /// The name under which the fan mode is shown.
    pub open spec fn title(self) -> Seq<char> {
        match self {
            HvacFanMode::Auto => "Auto"@,
            HvacFanMode::Low => "Low"@,
            HvacFanMode::High => "High"@,
        }
    }

    /// The fan mode that a text names: the text is the fan mode's word, in any
    /// mix of upper and lower case.
    pub open spec fn parse(s: Seq<char>) -> Option<HvacFanMode> {
        let word = upper_text(s);
        if word == HvacFanMode::Auto.wire() {
            Some(HvacFanMode::Auto)
        } else if word == HvacFanMode::Low.wire() {
            Some(HvacFanMode::Low)
        } else if word == HvacFanMode::High.wire() {
            Some(HvacFanMode::High)
        } else {
            None
        }
    }

    /// What a text stands for: the fan mode it names, or the text itself as an
    /// unknown value.
    pub open spec fn converted(string: String) -> Result<HvacFanMode, HvacFanModeConversionError> {
        match HvacFanMode::parse(string@) {
            Some(value) => Ok(value),
            None => Err(HvacFanModeConversionError::UnknownValue(string)),
        }
    }

    /// The fan mode that the gateway's reply to a read reports.
    pub open spec fn reported(
        reply: Result<String, GetFailure>,
    ) -> Result<HvacFanMode, HvacFanModeConversionError> {
        match reply {
            Ok(string) => HvacFanMode::converted(string),
            Err(failure) => Err(HvacFanModeConversionError::GetFailure(failure)),
        }
    }

    /// Reads a fan mode from the text that the gateway reports for it.
    pub fn from_string(string: String) -> (r: Result<Self, HvacFanModeConversionError>)
        ensures
            r == HvacFanMode::converted(string),
    {
        if is_word(string.as_str(), "AUTO") {
            Ok(HvacFanMode::Auto)
        } else if is_word(string.as_str(), "LOW") {
            Ok(HvacFanMode::Low)
        } else if is_word(string.as_str(), "HIGH") {
            Ok(HvacFanMode::High)
        } else {
            Err(HvacFanModeConversionError::UnknownValue(string))
        }
    }

    /// The word that the gateway uses for the fan mode, in upper case.
    pub fn serialize(&self) -> (r: String)
        ensures
            r@ == self.wire(),
    {
        match self {
            HvacFanMode::Auto => String::from_str("AUTO"),
            HvacFanMode::Low => String::from_str("LOW"),
            HvacFanMode::High => String::from_str("HIGH"),
        }
    }

    /// The name under which the fan mode is shown.
    pub fn to_string(&self) -> (r: String)
        ensures
            r@ == self.title(),
    {
        match self {
            HvacFanMode::Auto => String::from_str("Auto"),
            HvacFanMode::Low => String::from_str("Low"),
            HvacFanMode::High => String::from_str("High"),
        }
    }

    /// What the words and the shown names of the vocabulary hold.
    proof fn lemma_words()
        ensures
            forall|value: HvacFanMode| is_upper_case(#[trigger] value.wire()),
            forall|value: HvacFanMode| is_title_case(#[trigger] value.title()),
            forall|a: HvacFanMode, b: HvacFanMode|
                #[trigger] a.wire() == #[trigger] b.wire() ==> a == b,
    {
        reveal_strlit("AUTO");
        reveal_strlit("Auto");
        reveal_strlit("LOW");
        reveal_strlit("Low");
        reveal_strlit("HIGH");
        reveal_strlit("High");
        assert("AUTO"@.len() == 4);
        assert("LOW"@.len() == 3);
        assert("HIGH"@.len() == 4);
        assert("AUTO"@[0] == 'A');
        assert("HIGH"@[0] == 'H');
    }
}

/// Every fan mode is read back from its own word. The word is in upper case
/// and the shown name in title case. A text names a fan mode exactly when,
/// with its letters put in upper case, it is that fan mode's word.
pub proof fn law_hvac_fan_mode_round_trip(value: HvacFanMode, s: Seq<char>)
    ensures
        HvacFanMode::parse(value.wire()) == Some(value),
        is_upper_case(value.wire()),
        is_title_case(value.title()),
        HvacFanMode::parse(s) == Some(value) <==> upper_text(s) == value.wire(),
{
    HvacFanMode::lemma_words();
    lemma_upper_text_of_upper_case(value.wire());
}

/// What the unit is asked to do.
#[derive(Debug, Clone, Copy, PartialEq, Eq, Structural)]
pub enum HvacMode {
    /// Neither heating nor cooling is asked for.
    Off,
    /// The unit heats when it gets colder than the low temperature.
    Heat,
    /// The unit cools when it gets warmer than the high temperature.
    Cool,
    /// The unit heats or cools to stay between the two temperatures.
    HeatCool,
}

impl HvacMode {
    /// The word that the gateway uses for the mode, in upper case.
    pub open spec fn wire(self) -> Seq<char> {
        match self {
            HvacMode::Off => "OFF"@,
            HvacMode::Heat => "HEAT"@,
            HvacMode::Cool => "COOL"@,
            HvacMode::HeatCool => "HEATCOOL"@,
        }
    }

    /// The name under which the mode is shown.
    pub open spec fn title(self) -> Seq<char> {
        match self {
            HvacMode::Off => "Off"@,
            HvacMode::Heat => "Heat"@,
            HvacMode::Cool => "Cool"@,
            HvacMode::HeatCool => "HeatCool"@,
        }
    }

    /// The mode that a text names: the text is the mode's word, in any
    /// mix of upper and lower case.
    pub open spec fn parse(s: Seq<char>) -> Option<HvacMode> {
        let word = upper_text(s);
        if word == HvacMode::Off.wire() {
            Some(HvacMode::Off)
        } else if word == HvacMode::Heat.wire() {
            Some(HvacMode::Heat)
        } else if word == HvacMode::Cool.wire() {
            Some(HvacMode::Cool)
        } else if word == HvacMode::HeatCool.wire() {
            Some(HvacMode::HeatCool)
        } else {
            None
        }
    }

    /// What a text stands for: the mode it names, or the text itself as an
    /// unknown value.
    pub open spec fn converted(string: String) -> Result<HvacMode, HvacModeConversionError> {
        match HvacMode::parse(string@) {
            Some(value) => Ok(value),
            None => Err(HvacModeConversionError::UnknownValue(string)),
        }
    }

    /// The mode that the gateway's reply to a read reports.
    pub open spec fn reported(
        reply: Result<String, GetFailure>,
    ) -> Result<HvacMode, HvacModeConversionError> {
        match reply {
            Ok(string) => HvacMode::converted(string),
            Err(failure) => Err(HvacModeConversionError::GetFailure(failure)),
        }
    }

    /// Reads a mode from the text that the gateway reports for it.
    pub fn from_string(string: String) -> (r: Result<Self, HvacModeConversionError>)
        ensures
            r == HvacMode::converted(string),
    {
        if is_word(string.as_str(), "OFF") {
            Ok(HvacMode::Off)
        } else if is_word(string.as_str(), "HEAT") {
            Ok(HvacMode::Heat)
        } else if is_word(string.as_str(), "COOL") {
            Ok(HvacMode::Cool)
        } else if is_word(string.as_str(), "HEATCOOL") {
            Ok(HvacMode::HeatCool)
        } else {
            Err(HvacModeConversionError::UnknownValue(string))
        }
    }

    /// The word that the gateway uses for the mode, in upper case.
    pub fn serialize(&self) -> (r: String)
        ensures
            r@ == self.wire(),
    {
        match self {
            HvacMode::Off => String::from_str("OFF"),
            HvacMode::Heat => String::from_str("HEAT"),
            HvacMode::Cool => String::from_str("COOL"),
            HvacMode::HeatCool => String::from_str("HEATCOOL"),
        }
    }

    /// The name under which the mode is shown.
    pub fn to_string(&self) -> (r: String)
        ensures
            r@ == self.title(),
    {
        match self {
            HvacMode::Off => String::from_str("Off"),
            HvacMode::Heat => String::from_str("Heat"),
            HvacMode::Cool => String::from_str("Cool"),
            HvacMode::HeatCool => String::from_str("HeatCool"),
        }
    }

    /// What the words and the shown names of the vocabulary hold.
    proof fn lemma_words()
        ensures
            forall|value: HvacMode| is_upper_case(#[trigger] value.wire()),
            forall|value: HvacMode| is_title_case(#[trigger] value.title()),
            forall|a: HvacMode, b: HvacMode| #[trigger] a.wire() == #[trigger] b.wire() ==> a == b,
    {
        reveal_strlit("OFF");
        reveal_strlit("Off");
        reveal_strlit("HEAT");
        reveal_strlit("Heat");
        reveal_strlit("COOL");
        reveal_strlit("Cool");
        reveal_strlit("HEATCOOL");
        reveal_strlit("HeatCool");
        assert("OFF"@.len() == 3);
        assert("HEAT"@.len() == 4);
        assert("COOL"@.len() == 4);
        assert("HEATCOOL"@.len() == 8);
        assert("HEAT"@[0] == 'H');
        assert("COOL"@[0] == 'C');
    }
}

/// Every mode is read back from its own word. The word is in upper case
/// and the shown name in title case. A text names a mode exactly when,
/// with its letters put in upper case, it is that mode's word.
pub proof fn law_hvac_mode_round_trip(value: HvacMode, s: Seq<char>)
    ensures
        HvacMode::parse(value.wire()) == Some(value),
        is_upper_case(value.wire()),
        is_title_case(value.title()),
        HvacMode::parse(s) == Some(value) <==> upper_text(s) == value.wire(),
{
    HvacMode::lemma_words();
    lemma_upper_text_of_upper_case(value.wire());
}

/// What the unit is doing at the moment.
#[derive(Debug, Clone, Copy, PartialEq, Eq, Structural)]
pub enum HvacStatus {
    /// The unit is off.
    Off,
    /// The unit is on and has nothing to do.
    Idle,
    /// The unit cools.
    Cooling,
    /// The heat pump heats.
    HeatPump,
    /// The electric furnace heats.
    ElectricFurnace,
    /// The gas furnace heats.
    GasFurnace,
    /// The gas furnace heats in place of the heat pump.
    GasOverride,
    /// The unit waits before it may start again.
    DeadTime,
    /// The unit is held back to save power.
    LoadShedding,
    /// A fault was found while the unit was off.
    FailOff,
    /// A fault was found while the unit was idle.
    FailIdle,
    /// A fault was found while the unit cooled.
    FailCooling,
    /// A fault was found while the heat pump heated.
    FailHeatPump,
    /// A fault was found while the electric furnace heated.
    FailElectricFurnace,
    /// A fault was found while the gas furnace heated.
    FailGasFurnace,
    /// A fault was found while the gas furnace heated in place of the heat
    /// pump.
    FailGasOverride,
    /// A fault was found while the unit waited to start again.
    FailDeadTime,
    /// A fault was found while the unit was held back.
    FailShedding,
}

impl HvacStatus {
    /// The word that the gateway uses for the status, in upper case.
    pub open spec fn wire(self) -> Seq<char> {
        match self {
            HvacStatus::Off => "OFF"@,
            HvacStatus::Idle => "IDLE"@,
            HvacStatus::Cooling => "COOLING"@,
            HvacStatus::HeatPump => "HEAT_PUMP"@,
            HvacStatus::ElectricFurnace => "ELEC_FURNACE"@,
            HvacStatus::GasFurnace => "GAS_FURNACE"@,
            HvacStatus::GasOverride => "GAS_OVERRIDE"@,
            HvacStatus::DeadTime => "DEAD_TIME"@,
            HvacStatus::LoadShedding => "LOAD_SHEDDING"@,
            HvacStatus::FailOff => "FAIL_OFF"@,
            HvacStatus::FailIdle => "FAIL_IDLE"@,
            HvacStatus::FailCooling => "FAIL_COOLING"@,
            HvacStatus::FailHeatPump => "FAIL_HEAT_PUMP"@,
            HvacStatus::FailElectricFurnace => "FAIL_ELEC_FURNACE"@,
            HvacStatus::FailGasFurnace => "FAIL_GAS_FURNACE"@,
            HvacStatus::FailGasOverride => "FAIL_GAS_OVERRIDE"@,
            HvacStatus::FailDeadTime => "FAIL_DEAD_TIME"@,
            HvacStatus::FailShedding => "FAIL_SHEDDING"@,
        }
    }

    /// The name under which the status is shown.
    pub open spec fn title(self) -> Seq<char> {
        match self {
            HvacStatus::Off => "Off"@,
            HvacStatus::Idle => "Idle"@,
            HvacStatus::Cooling => "Cooling"@,
            HvacStatus::HeatPump => "Heat Pump"@,
            HvacStatus::ElectricFurnace => "Electric Furnace"@,
            HvacStatus::GasFurnace => "Gas Furnace"@,
            HvacStatus::GasOverride => "Gas Override"@,
            HvacStatus::DeadTime => "Dead Time"@,
            HvacStatus::LoadShedding => "Load Shedding"@,
            HvacStatus::FailOff => "Load Off"@,
            HvacStatus::FailIdle => "Load Idle"@,
            HvacStatus::FailCooling => "Fail Cooling"@,
            HvacStatus::FailHeatPump => "Fail Heat Pump"@,
            HvacStatus::FailElectricFurnace => "Fail Electric Furnace"@,
            HvacStatus::FailGasFurnace => "Fail Gas Furnace"@,
            HvacStatus::FailGasOverride => "Fail Gas Override"@,
            HvacStatus::FailDeadTime => "Fail Dead Time"@,
            HvacStatus::FailShedding => "Fail Shedding"@,
        }
    }

    /// The status that a text names: the text is the status's word, in any
    /// mix of upper and lower case.
    pub open spec fn parse(s: Seq<char>) -> Option<HvacStatus> {
        let word = upper_text(s);
        if word == HvacStatus::Off.wire() {
            Some(HvacStatus::Off)
        } else if word == HvacStatus::Idle.wire() {
            Some(HvacStatus::Idle)
        } else if word == HvacStatus::Cooling.wire() {
            Some(HvacStatus::Cooling)
        } else if word == HvacStatus::HeatPump.wire() {
            Some(HvacStatus::HeatPump)
        } else if word == HvacStatus::ElectricFurnace.wire() {
            Some(HvacStatus::ElectricFurnace)
        } else if word == HvacStatus::GasFurnace.wire() {
            Some(HvacStatus::GasFurnace)
        } else if word == HvacStatus::GasOverride.wire() {
            Some(HvacStatus::GasOverride)
        } else if word == HvacStatus::DeadTime.wire() {
            Some(HvacStatus::DeadTime)
        } else if word == HvacStatus::LoadShedding.wire() {
            Some(HvacStatus::LoadShedding)
        } else if word == HvacStatus::FailOff.wire() {
            Some(HvacStatus::FailOff)
        } else if word == HvacStatus::FailIdle.wire() {
            Some(HvacStatus::FailIdle)
        } else if word == HvacStatus::FailCooling.wire() {
            Some(HvacStatus::FailCooling)
        } else if word == HvacStatus::FailHeatPump.wire() {
            Some(HvacStatus::FailHeatPump)
        } else if word == HvacStatus::FailElectricFurnace.wire() {
            Some(HvacStatus::FailElectricFurnace)
        } else if word == HvacStatus::FailGasFurnace.wire() {
            Some(HvacStatus::FailGasFurnace)
        } else if word == HvacStatus::FailGasOverride.wire() {
            Some(HvacStatus::FailGasOverride)
        } else if word == HvacStatus::FailDeadTime.wire() {
            Some(HvacStatus::FailDeadTime)
        } else if word == HvacStatus::FailShedding.wire() {
            Some(HvacStatus::FailShedding)
        } else {
            None
        }
    }

    /// What a text stands for: the status it names, or the text itself as an
    /// unknown value.
    pub open spec fn converted(string: String) -> Result<HvacStatus, HvacStatusConversionError> {
        match HvacStatus::parse(string@) {
            Some(value) => Ok(value),
            None => Err(HvacStatusConversionError::UnknownValue(string)),
        }
    }

    /// The status that the gateway's reply to a read reports.
    pub open spec fn reported(
        reply: Result<String, GetFailure>,
    ) -> Result<HvacStatus, HvacStatusConversionError> {
        match reply {
            Ok(string) => HvacStatus::converted(string),
            Err(failure) => Err(HvacStatusConversionError::GetFailure(failure)),
        }
    }

    /// Reads a status from the text that the gateway reports for it.
    pub fn from_string(string: String) -> (r: Result<Self, HvacStatusConversionError>)
        ensures
            r == HvacStatus::converted(string),
    {
        if is_word(string.as_str(), "OFF") {
            Ok(HvacStatus::Off)
        } else if is_word(string.as_str(), "IDLE") {
            Ok(HvacStatus::Idle)
        } else if is_word(string.as_str(), "COOLING") {
            Ok(HvacStatus::Cooling)
        } else if is_word(string.as_str(), "HEAT_PUMP") {
            Ok(HvacStatus::HeatPump)
        } else if is_word(string.as_str(), "ELEC_FURNACE") {
            Ok(HvacStatus::ElectricFurnace)
        } else if is_word(string.as_str(), "GAS_FURNACE") {
            Ok(HvacStatus::GasFurnace)
        } else if is_word(string.as_str(), "GAS_OVERRIDE") {
            Ok(HvacStatus::GasOverride)
        } else if is_word(string.as_str(), "DEAD_TIME") {
            Ok(HvacStatus::DeadTime)
        } else if is_word(string.as_str(), "LOAD_SHEDDING") {
            Ok(HvacStatus::LoadShedding)
        } else if is_word(string.as_str(), "FAIL_OFF") {
            Ok(HvacStatus::FailOff)
        } else if is_word(string.as_str(), "FAIL_IDLE") {
            Ok(HvacStatus::FailIdle)
        } else if is_word(string.as_str(), "FAIL_COOLING") {
            Ok(HvacStatus::FailCooling)
        } else if is_word(string.as_str(), "FAIL_HEAT_PUMP") {
            Ok(HvacStatus::FailHeatPump)
        } else if is_word(string.as_str(), "FAIL_ELEC_FURNACE") {
            Ok(HvacStatus::FailElectricFurnace)
        } else if is_word(string.as_str(), "FAIL_GAS_FURNACE") {
            Ok(HvacStatus::FailGasFurnace)
        } else if is_word(string.as_str(), "FAIL_GAS_OVERRIDE") {
            Ok(HvacStatus::FailGasOverride)
        } else if is_word(string.as_str(), "FAIL_DEAD_TIME") {
            Ok(HvacStatus::FailDeadTime)
        } else if is_word(string.as_str(), "FAIL_SHEDDING") {
            Ok(HvacStatus::FailShedding)
        } else {
            Err(HvacStatusConversionError::UnknownValue(string))
        }
    }

    /// The word that the gateway uses for the status, in upper case.
    pub fn serialize(&self) -> (r: String)
        ensures
            r@ == self.wire(),
    {
        match self {
            HvacStatus::Off => String::from_str("OFF"),
            HvacStatus::Idle => String::from_str("IDLE"),
            HvacStatus::Cooling => String::from_str("COOLING"),
            HvacStatus::HeatPump => String::from_str("HEAT_PUMP"),
            HvacStatus::ElectricFurnace => String::from_str("ELEC_FURNACE"),
            HvacStatus::GasFurnace => String::from_str("GAS_FURNACE"),
            HvacStatus::GasOverride => String::from_str("GAS_OVERRIDE"),
            HvacStatus::DeadTime => String::from_str("DEAD_TIME"),
            HvacStatus::LoadShedding => String::from_str("LOAD_SHEDDING"),
            HvacStatus::FailOff => String::from_str("FAIL_OFF"),
            HvacStatus::FailIdle => String::from_str("FAIL_IDLE"),
            HvacStatus::FailCooling => String::from_str("FAIL_COOLING"),
            HvacStatus::FailHeatPump => String::from_str("FAIL_HEAT_PUMP"),
            HvacStatus::FailElectricFurnace => String::from_str("FAIL_ELEC_FURNACE"),
            HvacStatus::FailGasFurnace => String::from_str("FAIL_GAS_FURNACE"),
            HvacStatus::FailGasOverride => String::from_str("FAIL_GAS_OVERRIDE"),
            HvacStatus::FailDeadTime => String::from_str("FAIL_DEAD_TIME"),
            HvacStatus::FailShedding => String::from_str("FAIL_SHEDDING"),
        }
    }

    /// The name under which the status is shown.
    pub fn to_string(&self) -> (r: String)
        ensures
            r@ == self.title(),
    {
        match self {
            HvacStatus::Off => String::from_str("Off"),
            HvacStatus::Idle => String::from_str("Idle"),
            HvacStatus::Cooling => String::from_str("Cooling"),
            HvacStatus::HeatPump => String::from_str("Heat Pump"),
            HvacStatus::ElectricFurnace => String::from_str("Electric Furnace"),
            HvacStatus::GasFurnace => String::from_str("Gas Furnace"),
            HvacStatus::GasOverride => String::from_str("Gas Override"),
            HvacStatus::DeadTime => String::from_str("Dead Time"),
            HvacStatus::LoadShedding => String::from_str("Load Shedding"),
            HvacStatus::FailOff => String::from_str("Load Off"),
            HvacStatus::FailIdle => String::from_str("Load Idle"),
            HvacStatus::FailCooling => String::from_str("Fail Cooling"),
            HvacStatus::FailHeatPump => String::from_str("Fail Heat Pump"),
            HvacStatus::FailElectricFurnace => String::from_str("Fail Electric Furnace"),
            HvacStatus::FailGasFurnace => String::from_str("Fail Gas Furnace"),
            HvacStatus::FailGasOverride => String::from_str("Fail Gas Override"),
            HvacStatus::FailDeadTime => String::from_str("Fail Dead Time"),
            HvacStatus::FailShedding => String::from_str("Fail Shedding"),
        }
    }

    /// What the words and the shown names of the vocabulary hold.
    proof fn lemma_words()
        ensures
            forall|value: HvacStatus| is_upper_case(#[trigger] value.wire()),
            forall|value: HvacStatus| is_title_case(#[trigger] value.title()),
            forall|a: HvacStatus, b: HvacStatus|
                #[trigger] a.wire() == #[trigger] b.wire() ==> a == b,
    {
        reveal_strlit("OFF");
        reveal_strlit("Off");
        reveal_strlit("IDLE");
        reveal_strlit("Idle");
        reveal_strlit("COOLING");
        reveal_strlit("Cooling");
        reveal_strlit("HEAT_PUMP");
        reveal_strlit("Heat Pump");
        reveal_strlit("ELEC_FURNACE");
        reveal_strlit("Electric Furnace");
        reveal_strlit("GAS_FURNACE");
        reveal_strlit("Gas Furnace");
        reveal_strlit("GAS_OVERRIDE");
        reveal_strlit("Gas Override");
        reveal_strlit("DEAD_TIME");
        reveal_strlit("Dead Time");
        reveal_strlit("LOAD_SHEDDING");
        reveal_strlit("Load Shedding");
        reveal_strlit("FAIL_OFF");
        reveal_strlit("Load Off");
        reveal_strlit("FAIL_IDLE");
        reveal_strlit("Load Idle");
        reveal_strlit("FAIL_COOLING");
        reveal_strlit("Fail Cooling");
        reveal_strlit("FAIL_HEAT_PUMP");
        reveal_strlit("Fail Heat Pump");
        reveal_strlit("FAIL_ELEC_FURNACE");
        reveal_strlit("Fail Electric Furnace");
        reveal_strlit("FAIL_GAS_FURNACE");
        reveal_strlit("Fail Gas Furnace");
        reveal_strlit("FAIL_GAS_OVERRIDE");
        reveal_strlit("Fail Gas Override");
        reveal_strlit("FAIL_DEAD_TIME");
        reveal_strlit("Fail Dead Time");
        reveal_strlit("FAIL_SHEDDING");
        reveal_strlit("Fail Shedding");
        assert("OFF"@.len() == 3);
        assert("IDLE"@.len() == 4);
        assert("COOLING"@.len() == 7);
        assert("HEAT_PUMP"@.len() == 9);
        assert("ELEC_FURNACE"@.len() == 12);
        assert("GAS_FURNACE"@.len() == 11);
        assert("GAS_OVERRIDE"@.len() == 12);
        assert("DEAD_TIME"@.len() == 9);
        assert("LOAD_SHEDDING"@.len() == 13);
        assert("FAIL_OFF"@.len() == 8);
        assert("FAIL_IDLE"@.len() == 9);
        assert("FAIL_COOLING"@.len() == 12);
        assert("FAIL_HEAT_PUMP"@.len() == 14);
        assert("FAIL_ELEC_FURNACE"@.len() == 17);
        assert("FAIL_GAS_FURNACE"@.len() == 16);
        assert("FAIL_GAS_OVERRIDE"@.len() == 17);
        assert("FAIL_DEAD_TIME"@.len() == 14);
        assert("FAIL_SHEDDING"@.len() == 13);
        assert("HEAT_PUMP"@[0] == 'H');
        assert("DEAD_TIME"@[0] == 'D');
        assert("FAIL_IDLE"@[0] == 'F');
        assert("ELEC_FURNACE"@[0] == 'E');
        assert("GAS_OVERRIDE"@[0] == 'G');
        assert("FAIL_COOLING"@[0] == 'F');
        assert("LOAD_SHEDDING"@[0] == 'L');
        assert("FAIL_SHEDDING"@[0] == 'F');
        assert("FAIL_HEAT_PUMP"@[5] == 'H');
        assert("FAIL_DEAD_TIME"@[5] == 'D');
        assert("FAIL_ELEC_FURNACE"@[5] == 'E');
        assert("FAIL_GAS_OVERRIDE"@[5] == 'G');
    }
}

/// Every status is read back from its own word. The word is in upper case
/// and the shown name in title case. A text names a status exactly when,
/// with its letters put in upper case, it is that status's word.
pub proof fn law_hvac_status_round_trip(value: HvacStatus, s: Seq<char>)
    ensures
        HvacStatus::parse(value.wire()) == Some(value),
        is_upper_case(value.wire()),
        is_title_case(value.title()),
        HvacStatus::parse(s) == Some(value) <==> upper_text(s) == value.wire(),
{
    HvacStatus::lemma_words();
    lemma_upper_text_of_upper_case(value.wire());
}

/// A connected HVAC unit.
#[derive(Debug)]
pub struct HVAC {
    thing: Thing,
}

impl HVAC {
    #[verifier::type_invariant]
    spec fn made_of_hvac(self) -> bool {
        HVAC::accepts(self.thing)
    }

    /// Whether the gateway publishes `thing` as an HVAC unit.
    pub open spec fn accepts(thing: Thing) -> bool {
        resolve(thing@.device_type) == Some(DeviceType::Hvac)
    }

    /// The thing that the unit was made from.
    pub closed spec fn thing(self) -> Thing {
        self.thing
    }

    /// Makes an HVAC unit from a thing that the gateway publishes as one. Any
    /// other thing is refused, with its device type in the error.
    pub fn new(thing: Thing) -> (r: Result<Self, HvacError>)
        ensures
            match r {
                Ok(device) => HVAC::accepts(thing) && device.thing() == thing,
                Err(e) => !HVAC::accepts(thing) && e == HvacError::InvalidDeviceType(
                    resolve(thing@.device_type),
                ),
            },
    {
        let thing_type: Option<DeviceType> = thing.get_type();
        match thing_type {
            Some(DeviceType::Hvac) => Ok(HVAC { thing }),
            _ => Err(HvacError::InvalidDeviceType(thing_type)),
        }
    }

    /// The name of the unit, such as "Bedroom HVAC".
    pub fn label(&self) -> (r: String)
        ensures
            r@ == self.thing()@.label,
    {
        self.thing.label().clone()
    }

    /// The request that reads whether the unit is online.
    pub fn online_request(&self) -> (r: Request)
        ensures
            r@ == online_state_request(self.thing()@.uid),
    {
        get_online_state_request(&self.thing)
    }

    /// Whether the unit is online, from the gateway's reply.
    pub fn online(&self, reply: Result<String, GetFailure>) -> (r: Result<
        OnlineState,
        OnlineStateConversionError,
    >)
        ensures
            r == OnlineState::reported(reply),
    {
        get_online_state(reply)
    }

    /// The request that reads what the unit is doing.
    pub fn status_request(&self) -> (r: Request)
        ensures
            r@ == read_request(self.thing()@.uid, "status"@),
    {
        get_field_request(&self.thing, "status")
    }

    /// What the unit is doing, from the gateway's reply.
    pub fn status(
        &self,
        reply: Result<String, GetFailure>,
    ) -> (r: Result<HvacStatus, HvacStatusConversionError>)
        ensures
            r == HvacStatus::reported(reply),
    {
        match reply {
            Ok(string) => HvacStatus::from_string(string),
            Err(failure) => Err(HvacStatusConversionError::from(failure)),
        }
    }

    /// The request that reads the temperature outside.
    pub fn outside_temperature_request(&self) -> (r: Request)
        ensures
            r@ == read_request(self.thing()@.uid, "outside_temperature"@),
    {
        get_field_request(&self.thing, "outside_temperature")
    }

    /// The temperature outside, as the text of a number, from the gateway's
    /// reply. To read the text as a number is left to the caller.
    pub fn outside_temperature(
        &self,
        reply: Result<String, GetFailure>,
    ) -> (r: Result<String, HvacOutsideTemperatureFailure>)
        ensures
            r == match reply {
                Ok(string) => Ok::<String, HvacOutsideTemperatureFailure>(string),
                Err(failure) => Err::<String, HvacOutsideTemperatureFailure>(
                    HvacOutsideTemperatureFailure::GetFailure(failure),
                ),
            },
    {
        match reply {
            Ok(string) => Ok(string),
            Err(failure) => Err(HvacOutsideTemperatureFailure::from(failure)),
        }
    }

    /// The request that reads the temperature in the room.
    pub fn inside_temperature_request(&self) -> (r: Request)
        ensures
            r@ == read_request(self.thing()@.uid, "inside_temperature"@),
    {
        get_field_request(&self.thing, "inside_temperature")
    }

    /// The temperature in the room, as the text of a number, from the
    /// gateway's reply. To read the text as a number is left to the caller.
    pub fn inside_temperature(
        &self,
        reply: Result<String, GetFailure>,
    ) -> (r: Result<String, HvacInsideTemperatureFailure>)
        ensures
            r == match reply {
                Ok(string) => Ok::<String, HvacInsideTemperatureFailure>(string),
                Err(failure) => Err::<String, HvacInsideTemperatureFailure>(
                    HvacInsideTemperatureFailure::GetFailure(failure),
                ),
            },
    {
        match reply {
            Ok(string) => Ok(string),
            Err(failure) => Err(HvacInsideTemperatureFailure::from(failure)),
        }
    }

    /// The request that reads the temperature above which the unit cools.
    pub fn high_temperature_request(&self) -> (r: Request)
        ensures
            r@ == read_request(self.thing()@.uid, "high_temperature"@),
    {
        get_field_request(&self.thing, "high_temperature")
    }

    /// The temperature above which the unit cools, as the text of a number,
    /// from the gateway's reply. To read the text as a number is left to the
    /// caller.
    pub fn high_temperature(
        &self,
        reply: Result<String, GetFailure>,
    ) -> (r: Result<String, HvacHighTemperatureFailure>)
        ensures
            r == match reply {
                Ok(string) => Ok::<String, HvacHighTemperatureFailure>(string),
                Err(failure) => Err::<String, HvacHighTemperatureFailure>(
                    HvacHighTemperatureFailure::GetFailure(failure),
                ),
            },
    {
        match reply {
            Ok(string) => Ok(string),
            Err(failure) => Err(HvacHighTemperatureFailure::from(failure)),
        }
    }

    /// The request that reads the temperature below which the unit heats.
    pub fn low_temperature_request(&self) -> (r: Request)
        ensures
            r@ == read_request(self.thing()@.uid, "low_temperature"@),
    {
        get_field_request(&self.thing, "low_temperature")
    }

    /// The temperature below which the unit heats, as the text of a number,
    /// from the gateway's reply. To read the text as a number is left to the
    /// caller.
    pub fn low_temperature(
        &self,
        reply: Result<String, GetFailure>,
    ) -> (r: Result<String, HvacLowTemperatureFailure>)
        ensures
            r == match reply {
                Ok(string) => Ok::<String, HvacLowTemperatureFailure>(string),
                Err(failure) => Err::<String, HvacLowTemperatureFailure>(
                    HvacLowTemperatureFailure::GetFailure(failure),
                ),
            },
    {
        match reply {
            Ok(string) => Ok(string),
            Err(failure) => Err(HvacLowTemperatureFailure::from(failure)),
        }
    }

    /// The request that reads the mode of the fan.
    pub fn fan_request(&self) -> (r: Request)
        ensures
            r@ == read_request(self.thing()@.uid, "fan_mode"@),
    {
        get_field_request(&self.thing, "fan_mode")
    }

    /// The mode of the fan, from the gateway's reply.
    pub fn fan(
        &self,
        reply: Result<String, GetFailure>,
    ) -> (r: Result<HvacFanMode, HvacFanModeConversionError>)
        ensures
            r == HvacFanMode::reported(reply),
    {
        match reply {
            Ok(string) => HvacFanMode::from_string(string),
            Err(failure) => Err(HvacFanModeConversionError::from(failure)),
        }
    }

    /// The request that reads the mode of the unit.
    pub fn mode_request(&self) -> (r: Request)
        ensures
            r@ == read_request(self.thing()@.uid, "hvac_mode"@),
    {
        get_field_request(&self.thing, "hvac_mode")
    }

    /// The mode of the unit, from the gateway's reply.
    pub fn mode(
        &self,
        reply: Result<String, GetFailure>,
    ) -> (r: Result<HvacMode, HvacModeConversionError>)
        ensures
            r == HvacMode::reported(reply),
    {
        match reply {
            Ok(string) => HvacMode::from_string(string),
            Err(failure) => Err(HvacModeConversionError::from(failure)),
        }
    }

    /// The request that sets the temperature above which the unit cools to
    /// `temp`.
    pub fn set_high_temperature_request(&self, temp: isize) -> (r: Request)
        ensures
            r@ == write_request(
                self.thing()@.uid,
                "high_temperature"@,
                signed_decimal(temp as int),
            ),
    {
        set_field_request(&self.thing, "high_temperature", signed_decimal_string(temp))
    }

    /// Whether the gateway took the new value of the temperature above which
    /// the unit cools. The unit itself stays as it was.
    pub fn set_high_temperature(
        &mut self,
        outcome: Result<u16, reqwest::Error>,
    ) -> (r: Result<(), SetError>)
        ensures
            r == written(outcome),
            *final(self) == *old(self),
    {
        set_field(outcome)
    }

    /// The request that sets the temperature below which the unit heats to
    /// `temp`.
    pub fn set_low_temperature_request(&self, temp: isize) -> (r: Request)
        ensures
            r@ == write_request(self.thing()@.uid, "low_temperature"@, signed_decimal(temp as int)),
    {
        set_field_request(&self.thing, "low_temperature", signed_decimal_string(temp))
    }

    /// Whether the gateway took the new value of the temperature below which
    /// the unit heats. The unit itself stays as it was.
    pub fn set_low_temperature(
        &mut self,
        outcome: Result<u16, reqwest::Error>,
    ) -> (r: Result<(), SetError>)
        ensures
            r == written(outcome),
            *final(self) == *old(self),
    {
        set_field(outcome)
    }

    /// The request that sets the mode of the fan to `mode`.
    pub fn set_fan_request(&self, mode: &HvacFanMode) -> (r: Request)
        ensures
            r@ == write_request(self.thing()@.uid, "fan_mode"@, mode.wire()),
    {
        set_field_request(&self.thing, "fan_mode", mode.serialize())
    }

    /// Whether the gateway took the new value of the mode of the fan. The unit
    /// itself stays as it was.
    pub fn set_fan(&mut self, outcome: Result<u16, reqwest::Error>) -> (r: Result<(), SetError>)
        ensures
            r == written(outcome),
            *final(self) == *old(self),
    {
        set_field(outcome)
    }

    /// The request that sets the mode of the unit to `mode`.
    pub fn set_mode_request(&self, mode: &HvacMode) -> (r: Request)
        ensures
            r@ == write_request(self.thing()@.uid, "hvac_mode"@, mode.wire()),
    {
        set_field_request(&self.thing, "hvac_mode", mode.serialize())
    }

    /// Whether the gateway took the new value of the mode of the unit. The
    /// unit itself stays as it was.
    pub fn set_mode(&mut self, outcome: Result<u16, reqwest::Error>) -> (r: Result<(), SetError>)
        ensures
            r == written(outcome),
            *final(self) == *old(self),
    {
        set_field(outcome)
    }
}

} // verus!
