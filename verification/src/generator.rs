//! The generator.

use crate::common::{
    get_field_request, get_online_state, get_online_state_request, online_state_request,
    read_request, set_field, set_field_request, write_request, written, GetFailure, OnlineState,
    OnlineStateConversionError, Request, SetError,
};
use crate::sse::{resolve, DeviceType, Thing};
use crate::text::{
    is_title_case, is_upper_case, is_word, lemma_upper_text_of_upper_case, upper_text,
};
use vstd::prelude::*;
use vstd::string::*;

verus! {

/// A generator cannot be made from the thing that was given.
#[derive(Debug)]
pub enum GeneratorError {
    /// The thing is of another device type, or of none that is known.
    InvalidDeviceType(Option<DeviceType>),
}

/// The state could not be told.
#[derive(Debug)]
pub enum GeneratorStateConversionError {
    /// The read from the gateway failed.
    GetFailure(GetFailure),
    /// The gateway reported a text that names no state.
    UnknownValue(String),
}

/// What the generator is doing.
#[derive(Debug, Clone, Copy, PartialEq, Eq, Structural)]
pub enum GeneratorState {
    /// The generator is off.
    Off,
    /// The generator primes its fuel line.
    Priming,
    /// The generator cranks.
    Starting,
    /// The generator runs.
    Running,
}

impl GeneratorState {
    /// The word that the gateway uses for the state, in upper case.
    pub open spec fn wire(self) -> Seq<char> {
        match self {
            GeneratorState::Off => "OFF"@,
            GeneratorState::Priming => "PRIMING"@,
            GeneratorState::Starting => "STARTING"@,
            GeneratorState::Running => "RUNNING"@,
        }
    }

    /// The name under which the state is shown.
    pub open spec fn title(self) -> Seq<char> {
        match self {
            GeneratorState::Off => "Off"@,
            GeneratorState::Priming => "Priming"@,
            GeneratorState::Starting => "Starting"@,
            GeneratorState::Running => "Running"@,
        }
    }

    /// The state that a text names: the text is the state's word, in any
    /// mix of upper and lower case.
    pub open spec fn parse(s: Seq<char>) -> Option<GeneratorState> {
        let word = upper_text(s);
        if word == GeneratorState::Off.wire() {
            Some(GeneratorState::Off)
        } else if word == GeneratorState::Priming.wire() {
            Some(GeneratorState::Priming)
        } else if word == GeneratorState::Starting.wire() {
            Some(GeneratorState::Starting)
        } else if word == GeneratorState::Running.wire() {
            Some(GeneratorState::Running)
        } else {
            None
        }
    }

    /// What a text stands for: the state it names, or the text itself as an
    /// unknown value.
    pub open spec fn converted(
        string: String,
    ) -> Result<GeneratorState, GeneratorStateConversionError> {
        match GeneratorState::parse(string@) {
            Some(value) => Ok(value),
            None => Err(GeneratorStateConversionError::UnknownValue(string)),
        }
    }

    /// The state that the gateway's reply to a read reports.
    pub open spec fn reported(
        reply: Result<String, GetFailure>,
    ) -> Result<GeneratorState, GeneratorStateConversionError> {
        match reply {
            Ok(string) => GeneratorState::converted(string),
            Err(failure) => Err(GeneratorStateConversionError::GetFailure(failure)),
        }
    }

    /// Reads a state from the text that the gateway reports for it.
    pub fn from_string(string: String) -> (r: Result<Self, GeneratorStateConversionError>)
        ensures
            r == GeneratorState::converted(string),
    {
        if is_word(string.as_str(), "OFF") {
            Ok(GeneratorState::Off)
        } else if is_word(string.as_str(), "PRIMING") {
            Ok(GeneratorState::Priming)
        } else if is_word(string.as_str(), "STARTING") {
            Ok(GeneratorState::Starting)
        } else if is_word(string.as_str(), "RUNNING") {
            Ok(GeneratorState::Running)
        } else {
            Err(GeneratorStateConversionError::UnknownValue(string))
        }
    }

    /// The word that the gateway uses for the state, in upper case.
    pub fn serialize(&self) -> (r: String)
        ensures
            r@ == self.wire(),
    {
        match self {
            GeneratorState::Off => String::from_str("OFF"),
            GeneratorState::Priming => String::from_str("PRIMING"),
            GeneratorState::Starting => String::from_str("STARTING"),
            GeneratorState::Running => String::from_str("RUNNING"),
        }
    }

    /// The name under which the state is shown.
    pub fn to_string(&self) -> (r: String)
        ensures
            r@ == self.title(),
    {
        match self {
            GeneratorState::Off => String::from_str("Off"),
            GeneratorState::Priming => String::from_str("Priming"),
            GeneratorState::Starting => String::from_str("Starting"),
            GeneratorState::Running => String::from_str("Running"),
        }
    }

    /// What the words and the shown names of the vocabulary hold.
    proof fn lemma_words()
        ensures
            forall|value: GeneratorState| is_upper_case(#[trigger] value.wire()),
            forall|value: GeneratorState| is_title_case(#[trigger] value.title()),
            forall|a: GeneratorState, b: GeneratorState|
                #[trigger] a.wire() == #[trigger] b.wire() ==> a == b,
    {
        reveal_strlit("OFF");
        reveal_strlit("Off");
        reveal_strlit("PRIMING");
        reveal_strlit("Priming");
        reveal_strlit("STARTING");
        reveal_strlit("Starting");
        reveal_strlit("RUNNING");
        reveal_strlit("Running");
        assert("OFF"@.len() == 3);
        assert("PRIMING"@.len() == 7);
        assert("STARTING"@.len() == 8);
        assert("RUNNING"@.len() == 7);
        assert("PRIMING"@[0] == 'P');
        assert("RUNNING"@[0] == 'R');
    }
}

/// Every state is read back from its own word. The word is in upper case
/// and the shown name in title case. A text names a state exactly when,
/// with its letters put in upper case, it is that state's word.
pub proof fn law_generator_state_round_trip(value: GeneratorState, s: Seq<char>)
    ensures
        GeneratorState::parse(value.wire()) == Some(value),
        is_upper_case(value.wire()),
        is_title_case(value.title()),
        GeneratorState::parse(s) == Some(value) <==> upper_text(s) == value.wire(),
{
    GeneratorState::lemma_words();
    lemma_upper_text_of_upper_case(value.wire());
}

/// A connected generator.
#[derive(Debug)]
pub struct Generator {
    thing: Thing,
}

impl Generator {
    #[verifier::type_invariant]
    spec fn made_of_generator(self) -> bool {
        Generator::accepts(self.thing)
    }

    /// Whether the gateway publishes `thing` as a generator.
    pub open spec fn accepts(thing: Thing) -> bool {
        resolve(thing@.device_type) == Some(DeviceType::Generator)
    }

    /// The thing that the generator was made from.
    pub closed spec fn thing(self) -> Thing {
        self.thing
    }

    /// Makes a generator from a thing that the gateway publishes as one. Any
    /// other thing is refused, with its device type in the error.
    pub fn new(thing: Thing) -> (r: Result<Self, GeneratorError>)
        ensures
            match r {
                Ok(device) => Generator::accepts(thing) && device.thing() == thing,
                Err(e) => !Generator::accepts(thing) && e == GeneratorError::InvalidDeviceType(
                    resolve(thing@.device_type),
                ),
            },
    {
        let thing_type: Option<DeviceType> = thing.get_type();
        match thing_type {
            Some(DeviceType::Generator) => Ok(Generator { thing }),
            _ => Err(GeneratorError::InvalidDeviceType(thing_type)),
        }
    }

    /// The name of the generator, such as "Generator".
    pub fn label(&self) -> (r: String)
        ensures
            r@ == self.thing()@.label,
    {
        self.thing.label().clone()
    }

    /// The request that reads whether the generator is online.
    pub fn online_request(&self) -> (r: Request)
        ensures
            r@ == online_state_request(self.thing()@.uid),
    {
        get_online_state_request(&self.thing)
    }

    /// Whether the generator is online, from the gateway's reply.
    pub fn online(&self, reply: Result<String, GetFailure>) -> (r: Result<
        OnlineState,
        OnlineStateConversionError,
    >)
        ensures
            r == OnlineState::reported(reply),
    {
        get_online_state(reply)
    }

    /// The request that starts the generator; the gateway primes and cranks it
    /// by itself.
    pub fn on_request(&self) -> (r: Request)
        ensures
            r@ == write_request(self.thing()@.uid, "command"@, "ON"@),
    {
        set_field_request(&self.thing, "command", String::from_str("ON"))
    }

    /// Whether the gateway took the command to start. The generator itself
    /// stays as it was.
    pub fn on(&mut self, outcome: Result<u16, reqwest::Error>) -> (r: Result<(), SetError>)
        ensures
            r == written(outcome),
            *final(self) == *old(self),
    {
        set_field(outcome)
    }

    /// The request that stops the generator.
    pub fn off_request(&self) -> (r: Request)
        ensures
            r@ == write_request(self.thing()@.uid, "command"@, "OFF"@),
    {
        set_field_request(&self.thing, "command", String::from_str("OFF"))
    }

    /// Whether the gateway took the command to stop. The generator itself
    /// stays as it was.
    pub fn off(&mut self, outcome: Result<u16, reqwest::Error>) -> (r: Result<(), SetError>)
        ensures
            r == written(outcome),
            *final(self) == *old(self),
    {
        set_field(outcome)
    }

    /// The request that reads what the generator is doing.
    pub fn state_request(&self) -> (r: Request)
        ensures
            r@ == read_request(self.thing()@.uid, "state"@),
    {
        get_field_request(&self.thing, "state")
    }

    /// What the generator is doing, from the gateway's reply.
    pub fn state(
        &self,
        reply: Result<String, GetFailure>,
    ) -> (r: Result<GeneratorState, GeneratorStateConversionError>)
        ensures
            r == GeneratorState::reported(reply),
    {
        match reply {
            Ok(string) => GeneratorState::from_string(string),
            Err(failure) => Err(GeneratorStateConversionError::GetFailure(failure)),
        }
    }
}

} // verus!
