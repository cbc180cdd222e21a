//! Relays that are either on or off: lights, a water pump, a water heater.

use crate::common::{
    get_field_request, get_online_state, get_online_state_request, online_state_request,
    read_request, set_field, set_field_request, write_request, written, GetFailure, OnlineState,
    OnlineStateConversionError, Request, SetError,
};
use crate::sse::{resolve, DeviceType, Thing};
use crate::text::{
    is_title_case, is_upper_case, is_word, lemma_upper_text_of_upper_case, upper_text,
};
use vstd::prelude::*;
use vstd::string::*;

verus! {

/// A switch cannot be made from the thing that was given.
#[derive(Debug)]
pub enum SwitchError {
    /// The thing is of another device type, or of none that is known.
    InvalidDeviceType(Option<DeviceType>),
}

/// The state could not be told.
#[derive(Debug)]
pub enum SwitchStateConversionError {
    /// The read from the gateway failed.
    GetFailure(GetFailure),
    /// The gateway reported a text that names no state.
    UnknownValue(String),
}

/// The current through the relay could not be told.
#[derive(Debug)]
pub enum SwitchRelayCurrentError {
    /// The read from the gateway failed.
    GetFailure(GetFailure),
}

impl From<GetFailure> for SwitchStateConversionError {
    fn from(error: GetFailure) -> (r: Self) {
        SwitchStateConversionError::GetFailure(error)
    }
}

impl vstd::std_specs::convert::FromSpecImpl<GetFailure> for SwitchStateConversionError {
    open spec fn obeys_from_spec() -> bool {
        true
    }

    open spec fn from_spec(error: GetFailure) -> Self {
        SwitchStateConversionError::GetFailure(error)
    }
}

impl From<GetFailure> for SwitchRelayCurrentError {
    fn from(error: GetFailure) -> (r: Self) {
        SwitchRelayCurrentError::GetFailure(error)
    }
}

impl vstd::std_specs::convert::FromSpecImpl<GetFailure> for SwitchRelayCurrentError {
    open spec fn obeys_from_spec() -> bool {
        true
    }

    open spec fn from_spec(error: GetFailure) -> Self {
        SwitchRelayCurrentError::GetFailure(error)
    }
}

/// The two states of a relay.
#[derive(Debug, Clone, Copy, PartialEq, Eq, Structural)]
pub enum SwitchState {
    /// The relay is open.
    Off,
    /// The relay is closed.
    On,
}

impl SwitchState {
    /// The word that the gateway uses for the state, in upper case.
    pub open spec fn wire(self) -> Seq<char> {
        match self {
            SwitchState::Off => "OFF"@,
            SwitchState::On => "ON"@,
        }
    }

    /// The name under which the state is shown.
    pub open spec fn title(self) -> Seq<char> {
        match self {
            SwitchState::Off => "Off"@,
            SwitchState::On => "On"@,
        }
    }

    /// The state that a text names: the text is the state's word, in any
    /// mix of upper and lower case.
    pub open spec fn parse(s: Seq<char>) -> Option<SwitchState> {
        let word = upper_text(s);
        if word == SwitchState::Off.wire() {
            Some(SwitchState::Off)
        } else if word == SwitchState::On.wire() {
            Some(SwitchState::On)
        } else {
            None
        }
    }

    /// What a text stands for: the state it names, or the text itself as an
    /// unknown value.
    pub open spec fn converted(string: String) -> Result<SwitchState, SwitchStateConversionError> {
        match SwitchState::parse(string@) {
            Some(value) => Ok(value),
            None => Err(SwitchStateConversionError::UnknownValue(string)),
        }
    }

    /// The state that the gateway's reply to a read reports.
    pub open spec fn reported(
        reply: Result<String, GetFailure>,
    ) -> Result<SwitchState, SwitchStateConversionError> {
        match reply {
            Ok(string) => SwitchState::converted(string),
            Err(failure) => Err(SwitchStateConversionError::GetFailure(failure)),
        }
    }

    /// Reads a state from the text that the gateway reports for it.
    pub fn from_string(string: String) -> (r: Result<Self, SwitchStateConversionError>)
        ensures
            r == SwitchState::converted(string),
    {
        if is_word(string.as_str(), "OFF") {
            Ok(SwitchState::Off)
        } else if is_word(string.as_str(), "ON") {
            Ok(SwitchState::On)
        } else {
            Err(SwitchStateConversionError::UnknownValue(string))
        }
    }

    /// The word that the gateway uses for the state, in upper case.
    pub fn serialize(&self) -> (r: String)
        ensures
            r@ == self.wire(),
    {
        match self {
            SwitchState::Off => String::from_str("OFF"),
            SwitchState::On => String::from_str("ON"),
        }
    }

    /// The name under which the state is shown.
    pub fn to_string(&self) -> (r: String)
        ensures
            r@ == self.title(),
    {
        match self {
            SwitchState::Off => String::from_str("Off"),
            SwitchState::On => String::from_str("On"),
        }
    }

    /// What the words and the shown names of the vocabulary hold.
    proof fn lemma_words()
        ensures
            forall|value: SwitchState| is_upper_case(#[trigger] value.wire()),
            forall|value: SwitchState| is_title_case(#[trigger] value.title()),
            forall|a: SwitchState, b: SwitchState|
                #[trigger] a.wire() == #[trigger] b.wire() ==> a == b,
    {
        reveal_strlit("OFF");
        reveal_strlit("Off");
        reveal_strlit("ON");
        reveal_strlit("On");
        assert("OFF"@.len() == 3);
        assert("ON"@.len() == 2);
    }
}

/// Every state is read back from its own word. The word is in upper case
/// and the shown name in title case. A text names a state exactly when,
/// with its letters put in upper case, it is that state's word.
pub proof fn law_switch_state_round_trip(value: SwitchState, s: Seq<char>)
    ensures
        SwitchState::parse(value.wire()) == Some(value),
        is_upper_case(value.wire()),
        is_title_case(value.title()),
        SwitchState::parse(s) == Some(value) <==> upper_text(s) == value.wire(),
{
    SwitchState::lemma_words();
    lemma_upper_text_of_upper_case(value.wire());
}

/// A connected relay.
#[derive(Debug)]
pub struct Switch {
    thing: Thing,
}

impl Switch {
    #[verifier::type_invariant]
    spec fn made_of_switch(self) -> bool {
        Switch::accepts(self.thing)
    }

    /// Whether the gateway publishes `thing` as a switch.
    pub open spec fn accepts(thing: Thing) -> bool {
        resolve(thing@.device_type) == Some(DeviceType::Switch)
    }

    /// The thing that the switch was made from.
    pub closed spec fn thing(self) -> Thing {
        self.thing
    }

    /// Makes a switch from a thing that the gateway publishes as one. Any
    /// other thing is refused, with its device type in the error.
    pub fn new(thing: Thing) -> (r: Result<Self, SwitchError>)
        ensures
            match r {
                Ok(device) => Switch::accepts(thing) && device.thing() == thing,
                Err(e) => !Switch::accepts(thing) && e == SwitchError::InvalidDeviceType(
                    resolve(thing@.device_type),
                ),
            },
    {
        let thing_type: Option<DeviceType> = thing.get_type();
        match thing_type {
            Some(DeviceType::Switch) => Ok(Switch { thing }),
            _ => Err(SwitchError::InvalidDeviceType(thing_type)),
        }
    }

    /// The name of the switch, such as "Water Pump".
    pub fn label(&self) -> (r: String)
        ensures
            r@ == self.thing()@.label,
    {
        self.thing.label().clone()
    }

    /// The request that reads whether the switch is online.
    pub fn online_request(&self) -> (r: Request)
        ensures
            r@ == online_state_request(self.thing()@.uid),
    {
        get_online_state_request(&self.thing)
    }

    /// Whether the switch is online, from the gateway's reply.
    pub fn online(&self, reply: Result<String, GetFailure>) -> (r: Result<
        OnlineState,
        OnlineStateConversionError,
    >)
        ensures
            r == OnlineState::reported(reply),
    {
        get_online_state(reply)
    }

    /// The request that closes the relay.
    pub fn on_request(&self) -> (r: Request)
        ensures
            r@ == write_request(self.thing()@.uid, "switch"@, SwitchState::On.wire()),
    {
        set_field_request(&self.thing, "switch", SwitchState::On.serialize())
    }

    /// Whether the gateway took the command to close the relay. The switch
    /// itself stays as it was.
    pub fn on(&mut self, outcome: Result<u16, reqwest::Error>) -> (r: Result<(), SetError>)
        ensures
            r == written(outcome),
            *final(self) == *old(self),
    {
        set_field(outcome)
    }

    /// The request that opens the relay.
    pub fn off_request(&self) -> (r: Request)
        ensures
            r@ == write_request(self.thing()@.uid, "switch"@, SwitchState::Off.wire()),
    {
        set_field_request(&self.thing, "switch", SwitchState::Off.serialize())
    }

    /// Whether the gateway took the command to open the relay. The switch
    /// itself stays as it was.
    pub fn off(&mut self, outcome: Result<u16, reqwest::Error>) -> (r: Result<(), SetError>)
        ensures
            r == written(outcome),
            *final(self) == *old(self),
    {
        set_field(outcome)
    }

    /// The request that reads the state of the relay.
    pub fn state_request(&self) -> (r: Request)
        ensures
            r@ == read_request(self.thing()@.uid, "switch"@),
    {
        get_field_request(&self.thing, "switch")
    }

    /// The state of the relay, from the gateway's reply.
    pub fn state(
        &self,
        reply: Result<String, GetFailure>,
    ) -> (r: Result<SwitchState, SwitchStateConversionError>)
        ensures
            r == SwitchState::reported(reply),
    {
        match reply {
            Ok(string) => SwitchState::from_string(string),
            Err(failure) => Err(SwitchStateConversionError::from(failure)),
        }
    }

    /// The request that reads whether the relay reports a fault.
    pub fn fault_request(&self) -> (r: Request)
        ensures
            r@ == read_request(self.thing()@.uid, "fault"@),
    {
        get_field_request(&self.thing, "fault")
    }

    /// Whether the relay reports a fault, from the gateway's reply.
    pub fn fault(
        &self,
        reply: Result<String, GetFailure>,
    ) -> (r: Result<SwitchState, SwitchStateConversionError>)
        ensures
            r == SwitchState::reported(reply),
    {
        match reply {
            Ok(string) => SwitchState::from_string(string),
            Err(failure) => Err(SwitchStateConversionError::from(failure)),
        }
    }

    /// The request that reads the current through the relay.
    pub fn relay_current_request(&self) -> (r: Request)
        ensures
            r@ == read_request(self.thing()@.uid, "current"@),
    {
        get_field_request(&self.thing, "current")
    }

    /// The current through the relay, as the text of a number, from the
    /// gateway's reply.
    pub fn relay_current(
        &self,
        reply: Result<String, GetFailure>,
    ) -> (r: Result<String, SwitchRelayCurrentError>)
        ensures
            r == match reply {
                Ok(string) => Ok::<String, SwitchRelayCurrentError>(string),
                Err(failure) => Err::<String, SwitchRelayCurrentError>(
                    SwitchRelayCurrentError::GetFailure(failure),
                ),
            },
    {
        match reply {
            Ok(string) => Ok(string),
            Err(failure) => Err(SwitchRelayCurrentError::from(failure)),
        }
    }
}

} // verus!
