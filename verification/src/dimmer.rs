//! Lights whose brightness runs from 0 to 100 percent.

use crate::common::{
    get_field_request, get_online_state, get_online_state_request, online_state_request,
    read_request, set_field, set_field_request, write_request, written, GetFailure, OnlineState,
    OnlineStateConversionError, Percentage, Request, SetError,
};
use crate::sse::{resolve, DeviceType, Thing};
use crate::text::{decimal, decimal_string, NumberError};
use vstd::prelude::*;
use vstd::string::*;

verus! {

/// A dimmer cannot be made from the thing that was given.
#[derive(Debug)]
pub enum DimmerError {
    /// The thing is of another device type, or of none that is known.
    InvalidDeviceType(Option<DeviceType>),
}

/// The brightness of the dimmer could not be told.
#[derive(Debug)]
pub enum DimmerBrightnessError {
    /// The read from the gateway failed.
    GetFailure(GetFailure),
    /// The gateway reported a text that writes no percentage, for the reason
    /// that stands beside it.
    Parse(String, NumberError),
}

/// The brightness of the dimmer could not be set.
#[derive(Debug)]
pub enum SetBrightnessError {
    /// The brightness asked for is above 100. Nothing was sent.
    InvalidValue(u8),
    /// The gateway did not accept the write.
    SetError(SetError),
}

impl From<SetError> for SetBrightnessError {
    fn from(error: SetError) -> (r: Self) {
        SetBrightnessError::SetError(error)
    }
}

impl vstd::std_specs::convert::FromSpecImpl<SetError> for SetBrightnessError {
    open spec fn obeys_from_spec() -> bool {
        true
    }

    open spec fn from_spec(error: SetError) -> Self {
        SetBrightnessError::SetError(error)
    }
}

/// A connected light that can be dimmed.
#[derive(Debug)]
pub struct Dimmer {
    thing: Thing,
}

impl Dimmer {
    #[verifier::type_invariant]
    spec fn made_of_dimmer(self) -> bool {
        Dimmer::accepts(self.thing)
    }

    /// Whether the gateway publishes `thing` as a dimmer.
    pub open spec fn accepts(thing: Thing) -> bool {
        resolve(thing@.device_type) == Some(DeviceType::Dimmer)
    }

    /// The thing that the dimmer was made from.
    pub closed spec fn thing(self) -> Thing {
        self.thing
    }

    /// Makes a dimmer from a thing that the gateway publishes as one. Any
    /// other thing is refused, with its device type in the error.
    pub fn new(thing: Thing) -> (r: Result<Self, DimmerError>)
        ensures
            match r {
                Ok(device) => Dimmer::accepts(thing) && device.thing() == thing,
                Err(e) => !Dimmer::accepts(thing) && e == DimmerError::InvalidDeviceType(
                    resolve(thing@.device_type),
                ),
            },
    {
        let thing_type: Option<DeviceType> = thing.get_type();
        match thing_type {
            Some(DeviceType::Dimmer) => Ok(Dimmer { thing }),
            _ => Err(DimmerError::InvalidDeviceType(thing_type)),
        }
    }

    /// The name of the dimmer, such as "Kitchen Lights".
    pub fn label(&self) -> (r: String)
        ensures
            r@ == self.thing()@.label,
    {
        self.thing.label().clone()
    }

    /// The request that reads whether the dimmer is online.
    pub fn online_request(&self) -> (r: Request)
        ensures
            r@ == online_state_request(self.thing()@.uid),
    {
        get_online_state_request(&self.thing)
    }

    /// Whether the dimmer is online, from the gateway's reply.
    pub fn online(&self, reply: Result<String, GetFailure>) -> (r: Result<
        OnlineState,
        OnlineStateConversionError,
    >)
        ensures
            r == OnlineState::reported(reply),
    {
        get_online_state(reply)
    }

    /// The request that reads how bright the light is.
    pub fn brightness_request(&self) -> (r: Request)
        ensures
            r@ == read_request(self.thing()@.uid, "dimmer"@),
    {
        get_field_request(&self.thing, "dimmer")
    }

    /// What a reply to `brightness_request` reports: a percentage, a text that
    /// writes none, or a failed read.
    pub open spec fn brightness_reported(
        reply: Result<String, GetFailure>,
    ) -> Result<Percentage, DimmerBrightnessError> {
        match reply {
            Ok(string) => match Percentage::parse(string@) {
                Ok(percentage) => Ok(percentage),
                Err(reason) => Err(DimmerBrightnessError::Parse(string, reason)),
            },
            Err(failure) => Err(DimmerBrightnessError::GetFailure(failure)),
        }
    }

    /// How bright the light is, from the gateway's reply.
    pub fn brightness(
        &self,
        reply: Result<String, GetFailure>,
    ) -> (r: Result<Percentage, DimmerBrightnessError>)
        ensures
            r == Self::brightness_reported(reply),
    {
        match reply {
            Ok(string) => match Percentage::from_str(string.as_str()) {
                Ok(percentage) => Ok(percentage),
                Err(reason) => Err(DimmerBrightnessError::Parse(string, reason)),
            },
            Err(failure) => Err(DimmerBrightnessError::GetFailure(failure)),
        }
    }

    /// The request that turns the light on, at full brightness.
    pub fn on_request(&self) -> (r: Request)
        ensures
            r@ == write_request(self.thing()@.uid, "dimmer"@, "ON"@),
    {
        set_field_request(&self.thing, "dimmer", String::from_str("ON"))
    }

    /// Whether the gateway took the command to turn the light on. The dimmer
    /// itself stays as it was.
    pub fn on(&mut self, outcome: Result<u16, reqwest::Error>) -> (r: Result<(), SetError>)
        ensures
            r == written(outcome),
            *final(self) == *old(self),
    {
        set_field(outcome)
    }

    /// The request that turns the light off.
    pub fn off_request(&self) -> (r: Request)
        ensures
            r@ == write_request(self.thing()@.uid, "dimmer"@, "OFF"@),
    {
        set_field_request(&self.thing, "dimmer", String::from_str("OFF"))
    }

    /// Whether the gateway took the command to turn the light off. The dimmer
    /// itself stays as it was.
    pub fn off(&mut self, outcome: Result<u16, reqwest::Error>) -> (r: Result<(), SetError>)
        ensures
            r == written(outcome),
            *final(self) == *old(self),
    {
        set_field(outcome)
    }

    /// The request that sets the brightness of the light, for a brightness
    /// from 0 to 100. A brightness above 100 is refused and makes no request.
    pub fn set_brightness_request(&self, brightness: u8) -> (r: Result<Request, SetBrightnessError>)
        ensures
            match r {
                Ok(request) => brightness <= 100 && request@ == write_request(
                    self.thing()@.uid,
                    "dimmer"@,
                    decimal(brightness as nat),
                ),
                Err(e) => brightness > 100 && e == SetBrightnessError::InvalidValue(brightness),
            },
    {
        if brightness > 100 {
            return Err(SetBrightnessError::InvalidValue(brightness));
        }
        Ok(set_field_request(&self.thing, "dimmer", decimal_string(brightness as u64)))
    }

    /// Whether the gateway took the new brightness. The dimmer itself stays
    /// as it was.
    pub fn set_brightness(&mut self, outcome: Result<u16, reqwest::Error>) -> (r: Result<
        (),
        SetBrightnessError,
    >)
        ensures
            r == match written(outcome) {
                Ok(done) => Ok::<(), SetBrightnessError>(done),
                Err(e) => Err::<(), SetBrightnessError>(SetBrightnessError::SetError(e)),
            },
            *final(self) == *old(self),
    {
        match set_field(outcome) {
            Ok(done) => Ok(done),
            Err(e) => Err(SetBrightnessError::from(e)),
        }
    }
}

} // verus!
