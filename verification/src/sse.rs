//! The things that the gateway lists, and the kind of device each one is.

use crate::common::{
    get_online_state, get_online_state_request, online_state_request, GetFailure, OnlineState,
    OnlineStateConversionError, Request,
};
use vstd::prelude::*;

verus! {

/// The type of device that a thing represents.
#[derive(Debug, Clone, Copy, PartialEq, Eq, Structural)]
pub enum DeviceType {
    /// The root gateway. No device wrapper exists for it.
    Gateway,
    /// A tank with a level.
    Tank,
    /// RGB lights. No device wrapper exists for them.
    RgbLights,
    /// Heating, ventilation and air conditioning.
    Hvac,
    /// A light whose brightness can be set.
    Dimmer,
    /// A generator.
    Generator,
    /// A relay that is either on or off.
    Switch,
}

/// The device type that a device-type code stands for. A thing without a
/// code is the gateway itself; a code outside the table stands for nothing.
pub open spec fn resolve(device_type: Option<u32>) -> Option<DeviceType> {
    match device_type {
        None => Some(DeviceType::Gateway),
        Some(code) => if code == 10 {
            Some(DeviceType::Tank)
        } else if code == 13 {
            Some(DeviceType::RgbLights)
        } else if code == 16 {
            Some(DeviceType::Hvac)
        } else if code == 20 {
            Some(DeviceType::Dimmer)
        } else if code == 24 {
            Some(DeviceType::Generator)
        } else if code == 30 {
            Some(DeviceType::Switch)
        } else {
            None
        },
    }
}

/// How a thing is configured in the gateway.
#[derive(Debug, Clone, Copy, PartialEq, Eq, Structural)]
pub struct Configuration {
    device_type: Option<u32>,
}

impl Configuration {
    /// The device-type code of the configuration.
    pub closed spec fn code(self) -> Option<u32> {
        self.device_type
    }

    /// A configuration with the given device-type code, or with none.
    pub fn new(device_type: Option<u32>) -> (r: Self)
        ensures
            r.code() == device_type,
    {
        Configuration { device_type }
    }

    /// The device-type code. The gateway itself has none.
    pub fn device_type(&self) -> (r: Option<u32>)
        ensures
            r == self.code(),
    {
        self.device_type
    }
}

/// What a thing holds: its name, its identifier and its device-type code.
pub struct ThingView {
    pub label: Seq<char>,
    pub uid: Seq<char>,
    pub device_type: Option<u32>,
}

/// A device record as the gateway lists it. It does not change once made.
#[derive(Debug)]
pub struct Thing {
    label: String,
    uid: String,
    configuration: Configuration,
}

impl View for Thing {
    type V = ThingView;

    closed spec fn view(&self) -> ThingView {
        ThingView {
            label: self.label@,
            uid: self.uid@,
            device_type: self.configuration.code(),
        }
    }
}

impl Thing {
    /// A thing with the given name, identifier and configuration.
    pub fn new(label: String, uid: String, configuration: Configuration) -> (r: Self)
        ensures
            r@ == (ThingView {
                label: label@,
                uid: uid@,
                device_type: configuration.code(),
            }),
    {
        Thing { label, uid, configuration }
    }

    /// The name of the thing.
    pub fn label(&self) -> (r: &String)
        ensures
            r@ == self@.label,
    {
        &self.label
    }

    /// The unique identifier of the thing.
    pub fn uid(&self) -> (r: &String)
        ensures
            r@ == self@.uid,
    {
        &self.uid
    }

    /// The configuration of the thing.
    pub fn configuration(&self) -> (r: &Configuration)
        ensures
            r.code() == self@.device_type,
    {
        &self.configuration
    }

    /// The type of device that the thing is configured as, if its code is a
    /// known one.
    pub fn get_type(&self) -> (r: Option<DeviceType>)
        ensures
            r == resolve(self@.device_type),
    {
        match self.configuration.device_type() {
            None => Some(DeviceType::Gateway),
            Some(code) => if code == 10 {
                Some(DeviceType::Tank)
            } else if code == 13 {
                Some(DeviceType::RgbLights)
            } else if code == 16 {
                Some(DeviceType::Hvac)
            } else if code == 20 {
                Some(DeviceType::Dimmer)
            } else if code == 24 {
                Some(DeviceType::Generator)
            } else if code == 30 {
                Some(DeviceType::Switch)
            } else {
                None
            },
        }
    }

    /// The request that reads whether the thing is online.
    pub fn online_request(&self) -> (r: Request)
        ensures
            r@ == online_state_request(self@.uid),
    {
        get_online_state_request(self)
    }

    /// The online state that the gateway's reply reports.
    pub fn online(&self, reply: Result<String, GetFailure>) -> (r: Result<
        OnlineState,
        OnlineStateConversionError,
    >)
        ensures
            r == OnlineState::reported(reply),
    {
        get_online_state(reply)
    }
}

} // verus!
