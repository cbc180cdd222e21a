//! Values, requests and failures shared by every device.

use crate::sse::Thing;
use crate::text::{
    decimal, decimal_string, is_title_case, is_upper_case, is_word, law_number_of_decimal,
    lemma_upper_text_of_upper_case, number, parse_number, sanitize, sanitized, upper_text,
    NumberError,
};
use vstd::prelude::*;
use vstd::string::*;

verus! {

/// The address at which the gateway is found where no other is given.
pub const GATEWAY: &'static str = "http://192.168.1.4:8080";

/// What the gateway is to be asked. The library decides it; its caller sends
/// it to the gateway, at the gateway's address followed by the path.
#[derive(Debug, PartialEq, Eq)]
pub enum Request {
    /// Read the resource at `path`.
    Get { path: String },
    /// Write `body`, as plain text, to the resource at `path`, with `accept`
    /// as the value of the `Accept` header.
    Post { path: String, accept: String, body: String },
}

/// A request by the texts it is made of.
pub enum RequestView {
    Get { path: Seq<char> },
    Post { path: Seq<char>, accept: Seq<char>, body: Seq<char> },
}

impl RequestView {
    /// The path of the resource that the request is about.
    pub open spec fn path(self) -> Seq<char> {
        match self {
            RequestView::Get { path } => path,
            RequestView::Post { path, accept, body } => path,
        }
    }
}

impl View for Request {
    type V = RequestView;

    open spec fn view(&self) -> RequestView {
        match self {
            Request::Get { path } => RequestView::Get { path: path@ },
            Request::Post { path, accept, body } => RequestView::Post {
                path: path@,
                accept: accept@,
                body: body@,
            },
        }
    }
}

impl Request {
    /// The address of the request's resource at the gateway that is found at
    /// `base`: the base followed by the path.
    pub fn url(&self, base: &str) -> (r: String)
        ensures
            r@ == base@ + self@.path(),
    {
        let mut r: String = String::from_str(base);
        match self {
            Request::Get { path } => r.append(path.as_str()),
            Request::Post { path, accept: _, body: _ } => r.append(path.as_str()),
        }
        r
    }
}

/// The path of one field of the thing with the identifier `uid`.
pub open spec fn item_path(uid: Seq<char>, field: Seq<char>) -> Seq<char> {
    "/rest/items/"@ + sanitized(uid) + "_"@ + field
}

/// The request that reads one field of a thing.
pub open spec fn read_request(uid: Seq<char>, field: Seq<char>) -> RequestView {
    RequestView::Get { path: item_path(uid, field) }
}

/// The request that writes `value` to one field of a thing.
pub open spec fn write_request(uid: Seq<char>, field: Seq<char>, value: Seq<char>) -> RequestView {
    RequestView::Post { path: item_path(uid, field), accept: "application/json"@, body: value }
}

/// The request that reads whether a thing is online.
pub open spec fn online_state_request(uid: Seq<char>) -> RequestView {
    read_request(uid, "online"@)
}

fn item_address(thing: &Thing, field: &str) -> (r: String)
    ensures
        r@ == item_path(thing@.uid, field@),
{
    let item_id: String = sanitize(thing.uid().as_str());
    let mut path: String = String::from_str("/rest/items/");
    path.append(item_id.as_str());
    path.append("_");
    path.append(field);
    path
}

/// The request that reads the field `field` of `thing`.
pub fn get_field_request(thing: &Thing, field: &str) -> (r: Request)
    ensures
        r@ == read_request(thing@.uid, field@),
{
    Request::Get { path: item_address(thing, field) }
}

/// The request that writes `value` to the field `field` of `thing`.
pub fn set_field_request(thing: &Thing, field: &str, value: String) -> (r: Request)
    ensures
        r@ == write_request(thing@.uid, field@, value@),
{
    Request::Post {
        path: item_address(thing, field),
        accept: String::from_str("application/json"),
        body: value,
    }
}

/// At the gateway's usual address, a field of a thing is found under
/// `http://192.168.1.4:8080/rest/items/`, the thing's sanitized identifier,
/// an underscore and the name of the field; and it is written where it is
/// read.
pub proof fn law_item_url(uid: Seq<char>, field: Seq<char>, value: Seq<char>)
    ensures
        GATEWAY@ + read_request(uid, field).path()
            == "http://192.168.1.4:8080/rest/items/"@ + sanitized(uid) + "_"@ + field,
        write_request(uid, field, value).path() == read_request(uid, field).path(),
{
    reveal_strlit("http://192.168.1.4:8080");
    reveal_strlit("/rest/items/");
    reveal_strlit("http://192.168.1.4:8080/rest/items/");
    assert("http://192.168.1.4:8080"@ + "/rest/items/"@ =~= "http://192.168.1.4:8080/rest/items/"@);
    assert(GATEWAY@ + ("/rest/items/"@ + sanitized(uid) + "_"@ + field)
        =~= "http://192.168.1.4:8080/rest/items/"@ + sanitized(uid) + "_"@ + field);
}

/// A read from the gateway that did not yield a field's state.
#[derive(Debug)]
pub enum GetFailure {
    /// The gateway could not be reached.
    Request(reqwest::Error),
    /// The text of the reply could not be retrieved.
    Text(reqwest::Error),
    /// The reply was not the JSON that was expected.
    SerdeJsonConversion(serde_json::Error),
}

/// A write that the gateway did not accept.
#[derive(Debug)]
pub enum SetError {
    /// The request could not be sent to the gateway.
    Send(reqwest::Error),
    /// The gateway answered with a status outside 200 to 299.
    Status(u16),
}

/// Whether an HTTP status says that the request was accepted: what
/// `StatusCode::is_success` of the `http` crate tells of the status.
pub open spec fn is_success(status: u16) -> bool {
    200 <= status && status < 300
}

/// What a write has come to, given the status that the gateway answered
/// with or the reason why nothing was sent.
pub open spec fn written(outcome: Result<u16, reqwest::Error>) -> Result<(), SetError> {
    match outcome {
        Ok(status) => if is_success(status) {
            Ok(())
        } else {
            Err(SetError::Status(status))
        },
        Err(e) => Err(SetError::Send(e)),
    }
}

/// Judges a write by the status that the gateway answered with.
pub fn set_field(outcome: Result<u16, reqwest::Error>) -> (r: Result<(), SetError>)
    ensures
        r == written(outcome),
{
    match outcome {
        Ok(status) => if 200 <= status && status < 300 {
            Ok(())
        } else {
            Err(SetError::Status(status))
        },
        Err(e) => Err(SetError::Send(e)),
    }
}

/// The online state of a device could not be told.
#[derive(Debug)]
pub enum OnlineStateConversionError {
    /// The gateway reported a text that is none of `OFF`, `ON` and `LOCKED`.
    UnknownValue(String),
    /// The read from the gateway failed.
    GetFailure(GetFailure),
}

/// Whether the gateway can talk to a device.
#[derive(Debug, Clone, Copy, PartialEq, Eq, Structural)]
pub enum OnlineState {
    /// The device does not respond.
    Offline,
    /// The device responds and works.
    Online,
    /// The device is locked.
    Locked,
}

impl OnlineState {
    /// The word that the gateway uses for the online state, in upper case.
    pub open spec fn wire(self) -> Seq<char> {
        match self {
            OnlineState::Offline => "OFF"@,
            OnlineState::Online => "ON"@,
            OnlineState::Locked => "LOCKED"@,
        }
    }

    /// The name under which the online state is shown.
    pub open spec fn title(self) -> Seq<char> {
        match self {
            OnlineState::Offline => "Offline"@,
            OnlineState::Online => "Online"@,
            OnlineState::Locked => "Locked"@,
        }
    }

    /// The online state that a text names: the text is the online state's
    /// word, in any mix of upper and lower case.
    pub open spec fn parse(s: Seq<char>) -> Option<OnlineState> {
        let word = upper_text(s);
        if word == OnlineState::Offline.wire() {
            Some(OnlineState::Offline)
        } else if word == OnlineState::Online.wire() {
            Some(OnlineState::Online)
        } else if word == OnlineState::Locked.wire() {
            Some(OnlineState::Locked)
        } else {
            None
        }
    }

    /// What a text stands for: the online state it names, or the text itself
    /// as an unknown value.
    pub open spec fn converted(string: String) -> Result<OnlineState, OnlineStateConversionError> {
        match OnlineState::parse(string@) {
            Some(value) => Ok(value),
            None => Err(OnlineStateConversionError::UnknownValue(string)),
        }
    }

    /// The online state that the gateway's reply to a read reports.
    pub open spec fn reported(
        reply: Result<String, GetFailure>,
    ) -> Result<OnlineState, OnlineStateConversionError> {
        match reply {
            Ok(string) => OnlineState::converted(string),
            Err(failure) => Err(OnlineStateConversionError::GetFailure(failure)),
        }
    }

    /// Reads a online state from the text that the gateway reports for it.
    pub fn from_string(string: String) -> (r: Result<Self, OnlineStateConversionError>)
        ensures
            r == OnlineState::converted(string),
    {
        if is_word(string.as_str(), "OFF") {
            Ok(OnlineState::Offline)
        } else if is_word(string.as_str(), "ON") {
            Ok(OnlineState::Online)
        } else if is_word(string.as_str(), "LOCKED") {
            Ok(OnlineState::Locked)
        } else {
            Err(OnlineStateConversionError::UnknownValue(string))
        }
    }

    /// The name under which the online state is shown.
    pub fn to_string(&self) -> (r: String)
        ensures
            r@ == self.title(),
    {
        match self {
            OnlineState::Offline => String::from_str("Offline"),
            OnlineState::Online => String::from_str("Online"),
            OnlineState::Locked => String::from_str("Locked"),
        }
    }

    /// What the words and the shown names of the vocabulary hold.
    proof fn lemma_words()
        ensures
            forall|value: OnlineState| is_upper_case(#[trigger] value.wire()),
            forall|value: OnlineState| is_title_case(#[trigger] value.title()),
            forall|a: OnlineState, b: OnlineState|
                #[trigger] a.wire() == #[trigger] b.wire() ==> a == b,
    {
        reveal_strlit("OFF");
        reveal_strlit("Offline");
        reveal_strlit("ON");
        reveal_strlit("Online");
        reveal_strlit("LOCKED");
        reveal_strlit("Locked");
        assert("OFF"@.len() == 3);
        assert("ON"@.len() == 2);
        assert("LOCKED"@.len() == 6);
    }
}

/// Every online state is read back from its own word. The word is in upper
/// case and the shown name in title case. A text names a online state exactly
/// when, with its letters put in upper case, it is that online state's word.
pub proof fn law_online_state_round_trip(value: OnlineState, s: Seq<char>)
    ensures
        OnlineState::parse(value.wire()) == Some(value),
        is_upper_case(value.wire()),
        is_title_case(value.title()),
        OnlineState::parse(s) == Some(value) <==> upper_text(s) == value.wire(),
{
    OnlineState::lemma_words();
    lemma_upper_text_of_upper_case(value.wire());
}

/// The request that reads whether `thing` is online.
pub fn get_online_state_request(thing: &Thing) -> (r: Request)
    ensures
        r@ == online_state_request(thing@.uid),
{
    get_field_request(thing, "online")
}

/// The online state that the gateway's reply reports.
pub fn get_online_state(reply: Result<String, GetFailure>) -> (r: Result<
    OnlineState,
    OnlineStateConversionError,
>)
    ensures
        r == OnlineState::reported(reply),
{
    match reply {
        Ok(string) => OnlineState::from_string(string),
        Err(failure) => Err(OnlineStateConversionError::GetFailure(failure)),
    }
}

/// A share of a whole, from 0 to 100.
#[derive(Debug, Clone, Copy, PartialEq, Eq, Structural)]
pub struct Percentage {
    value: u8,
}

impl View for Percentage {
    type V = nat;

    closed spec fn view(&self) -> nat {
        self.value as nat
    }
}

impl Percentage {
    #[verifier::type_invariant]
    spec fn in_range(self) -> bool {
        self.value <= 100
    }

    /// The percentage that holds `value`.
    pub closed spec fn of(value: u8) -> Percentage {
        Percentage { value }
    }

    /// The percentage that holds `value`, which its caller has found to be
    /// no more than 100.
    pub fn new(value: u8) -> (r: Self)
        requires
            value <= 100,
        ensures
            r == Percentage::of(value),
            r@ == value,
    {
        Percentage { value }
    }

    /// The number of the percentage, from 0 to 100.
    pub fn value(&self) -> (r: u8)
        ensures
            r == self@,
            r <= 100,
    {
        proof {
            use_type_invariant(self);
        }
        self.value
    }

    /// The percentage as it is shown: its number and a percent sign.
    pub open spec fn shown(self) -> Seq<char> {
        decimal(self@) + "%"@
    }

    /// The percentage as it is shown: its number and a percent sign.
    pub fn to_string(&self) -> (r: String)
        ensures
            r@ == self.shown(),
    {
        let mut r: String = decimal_string(self.value as u64);
        r.append("%");
        r
    }

    /// The percentage that a text writes, or the reason why it writes none:
    /// it is no number, or a number above 100.
    pub open spec fn parse(s: Seq<char>) -> Result<Percentage, NumberError> {
        match number(s, 100) {
            Ok(n) => Ok(Percentage::of(n as u8)),
            Err(e) => Err(e),
        }
    }

    /// Reads a percentage from the text that the gateway reports for it.
    pub fn from_str(s: &str) -> (r: Result<Percentage, NumberError>)
        ensures
            r == Percentage::parse(s@),
    {
        match parse_number(s, 100) {
            Ok(n) => Ok(Percentage::new(n)),
            Err(e) => Err(e),
        }
    }
}

/// A percentage made from a number up to 100 holds that number.
pub proof fn law_percentage_holds_its_number(n: u8)
    requires
        n <= 100,
    ensures
        Percentage::of(n)@ == n,
{
}

/// The decimal numeral of a number up to 100 is read as the percentage that
/// holds the number: a brightness that was written is read back unchanged.
pub proof fn law_percentage_reads_back(n: u8)
    requires
        n <= 100,
    ensures
        Percentage::parse(decimal(n as nat)) == Ok::<Percentage, NumberError>(Percentage::of(n)),
{
    law_number_of_decimal(n as nat, 100);
}

/// Two percentages that hold the same number are the same percentage.
pub proof fn law_percentage_by_number(p: Percentage, q: Percentage)
    ensures
        p@ == q@ <==> p == q,
{
}

} // verus!
