//! Typed access to the devices of an LCI home-automation gateway.
//!
//! The gateway lists its devices as things and keeps every field of a device
//! under an address of its own. The library decides what is asked of the
//! gateway and what the gateway's answer means; sending a request and
//! receiving the answer is left to the caller. Each operation of a device
//! therefore comes in two parts: one that makes the request, and one that
//! takes the answer.

pub mod common;
pub mod dimmer;
pub mod generator;
pub mod hvac;
pub mod outside;
pub mod sse;
pub mod switch;
pub mod tank;
pub mod text;

pub use common::{
    get_field_request, get_online_state, get_online_state_request, set_field, set_field_request,
    GetFailure, OnlineState, OnlineStateConversionError, Percentage, Request, SetError, GATEWAY,
};
pub use dimmer::{Dimmer, DimmerBrightnessError, DimmerError, SetBrightnessError};
pub use generator::{Generator, GeneratorError, GeneratorState, GeneratorStateConversionError};
pub use hvac::{
    HvacError, HvacFanMode, HvacFanModeConversionError, HvacHighTemperatureFailure,
    HvacInsideTemperatureFailure, HvacLowTemperatureFailure, HvacMode, HvacModeConversionError,
    HvacOutsideTemperatureFailure, HvacStatus, HvacStatusConversionError, HvacStatusFailure, HVAC,
};
pub use sse::{Configuration, DeviceType, Thing};
pub use switch::{
    Switch, SwitchError, SwitchRelayCurrentError, SwitchState, SwitchStateConversionError,
};
pub use tank::{Tank, TankError, TankLevelError};
pub use text::NumberError;

use common::RequestView;
use sse::resolve;
use vstd::prelude::*;
use vstd::string::*;

verus! {

/// The list of things could not be fetched.
#[derive(Debug)]
pub enum ThingError {
    /// The gateway could not be reached.
    Getting(reqwest::Error),
    /// The text of the reply could not be retrieved.
    Text(reqwest::Error),
    /// The reply was not the JSON of a list of things.
    ConvertingJson(serde_json::Error),
}

/// The path under which the gateway lists its things.
pub open spec fn things_path() -> Seq<char> {
    "/rest/things/"@
}

/// The request that reads the list of the gateway's things.
pub fn get_things_request() -> (r: Request)
    ensures
        r@ == (RequestView::Get { path: things_path() }),
{
    Request::Get { path: String::from_str("/rest/things/") }
}

/// At the gateway's usual address, the list of things is found under
/// `http://192.168.1.4:8080/rest/things/`.
pub proof fn law_things_url()
    ensures
        GATEWAY@ + things_path() == "http://192.168.1.4:8080/rest/things/"@,
{
    reveal_strlit("http://192.168.1.4:8080");
    reveal_strlit("/rest/things/");
    reveal_strlit("http://192.168.1.4:8080/rest/things/");
    assert(GATEWAY@ + things_path() =~= "http://192.168.1.4:8080/rest/things/"@);
}

/// A thing is taken by the device wrapper of its own device type and by no
/// other: the gateway itself, RGB lights and a thing of an unknown type are
/// taken by none, and no thing is taken by two.
pub proof fn law_one_wrapper_per_thing(thing: Thing)
    ensures
        Tank::accepts(thing) <==> resolve(thing@.device_type) == Some(DeviceType::Tank),
        HVAC::accepts(thing) <==> resolve(thing@.device_type) == Some(DeviceType::Hvac),
        Dimmer::accepts(thing) <==> resolve(thing@.device_type) == Some(DeviceType::Dimmer),
        Generator::accepts(thing) <==> resolve(thing@.device_type) == Some(
            DeviceType::Generator,
        ),
        Switch::accepts(thing) <==> resolve(thing@.device_type) == Some(DeviceType::Switch),
        Tank::accepts(thing) ==> !HVAC::accepts(thing) && !Dimmer::accepts(thing)
            && !Generator::accepts(thing) && !Switch::accepts(thing),
        HVAC::accepts(thing) ==> !Dimmer::accepts(thing) && !Generator::accepts(thing)
            && !Switch::accepts(thing),
        Dimmer::accepts(thing) ==> !Generator::accepts(thing) && !Switch::accepts(thing),
        Generator::accepts(thing) ==> !Switch::accepts(thing),
{
}

/// Each device-type code of the table stands for one device type, no two
/// codes for the same, and no code stands for the gateway.
pub proof fn law_codes_are_told_apart(a: u32, b: u32)
    ensures
        resolve(Some(a)) is Some && resolve(Some(a)) == resolve(Some(b)) ==> a == b,
        resolve(Some(a)) != Some(DeviceType::Gateway),
        resolve(None) == Some(DeviceType::Gateway),
{
}

} // verus!
