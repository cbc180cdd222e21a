//! Tanks and their levels.

use crate::common::{
    get_field_request, get_online_state, get_online_state_request, online_state_request,
    read_request, GetFailure, OnlineState, OnlineStateConversionError, Percentage, Request,
};
use crate::sse::{resolve, DeviceType, Thing};
use crate::text::NumberError;
use vstd::prelude::*;

verus! {

/// A tank cannot be made from the thing that was given.
#[derive(Debug)]
pub enum TankError {
    /// The thing is of another device type, or of none that is known.
    InvalidDeviceType(Option<DeviceType>),
}

/// The level of the tank could not be told.
#[derive(Debug)]
pub enum TankLevelError {
    /// The read from the gateway failed.
    GetFailure(GetFailure),
    /// The gateway reported a text that writes no percentage, for the reason
    /// that stands beside it.
    Parse(String, NumberError),
}

impl From<GetFailure> for TankLevelError {
    fn from(error: GetFailure) -> (r: Self) {
        TankLevelError::GetFailure(error)
    }
}

impl vstd::std_specs::convert::FromSpecImpl<GetFailure> for TankLevelError {
    open spec fn obeys_from_spec() -> bool {
        true
    }

    open spec fn from_spec(error: GetFailure) -> Self {
        TankLevelError::GetFailure(error)
    }
}

/// A connected tank.
#[derive(Debug)]
pub struct Tank {
    thing: Thing,
}

impl Tank {
    #[verifier::type_invariant]
    spec fn made_of_tank(self) -> bool {
        Tank::accepts(self.thing)
    }

    /// Whether the gateway publishes `thing` as a tank.
    pub open spec fn accepts(thing: Thing) -> bool {
        resolve(thing@.device_type) == Some(DeviceType::Tank)
    }

    /// The thing that the tank was made from.
    pub closed spec fn thing(self) -> Thing {
        self.thing
    }

    /// Makes a tank from a thing that the gateway publishes as one. Any
    /// other thing is refused, with its device type in the error.
    pub fn new(thing: Thing) -> (r: Result<Self, TankError>)
        ensures
            match r {
                Ok(device) => Tank::accepts(thing) && device.thing() == thing,
                Err(e) => !Tank::accepts(thing) && e == TankError::InvalidDeviceType(
                    resolve(thing@.device_type),
                ),
            },
    {
        let thing_type: Option<DeviceType> = thing.get_type();
        match thing_type {
            Some(DeviceType::Tank) => Ok(Tank { thing }),
            _ => Err(TankError::InvalidDeviceType(thing_type)),
        }
    }

    /// The name of the tank, such as "Fresh Water".
    pub fn label(&self) -> (r: String)
        ensures
            r@ == self.thing()@.label,
    {
        self.thing.label().clone()
    }

    /// The request that reads whether the tank is online.
    pub fn online_request(&self) -> (r: Request)
        ensures
            r@ == online_state_request(self.thing()@.uid),
    {
        get_online_state_request(&self.thing)
    }

    /// Whether the tank is online, from the gateway's reply.
    pub fn online(&self, reply: Result<String, GetFailure>) -> (r: Result<
        OnlineState,
        OnlineStateConversionError,
    >)
        ensures
            r == OnlineState::reported(reply),
    {
        get_online_state(reply)
    }

    /// The request that reads how full the tank is.
    pub fn level_request(&self) -> (r: Request)
        ensures
            r@ == read_request(self.thing()@.uid, "tank_level"@),
    {
        get_field_request(&self.thing, "tank_level")
    }

    /// What a reply to `level_request` reports: a percentage, a text that
    /// writes none, or a failed read.
    pub open spec fn level_reported(
        reply: Result<String, GetFailure>,
    ) -> Result<Percentage, TankLevelError> {
        match reply {
            Ok(string) => match Percentage::parse(string@) {
                Ok(percentage) => Ok(percentage),
                Err(reason) => Err(TankLevelError::Parse(string, reason)),
            },
            Err(failure) => Err(TankLevelError::GetFailure(failure)),
        }
    }

    /// How full the tank is, from the gateway's reply.
    pub fn level(
        &self,
        reply: Result<String, GetFailure>,
    ) -> (r: Result<Percentage, TankLevelError>)
        ensures
            r == Self::level_reported(reply),
    {
        match reply {
            Ok(string) => match Percentage::from_str(string.as_str()) {
                Ok(percentage) => Ok(percentage),
                Err(reason) => Err(TankLevelError::Parse(string, reason)),
            },
            Err(failure) => Err(TankLevelError::from(failure)),
        }
    }
}

} // verus!
