//! The notification dispatcher's side of the conversation with the mail
//! provider: the requests it sends and what it makes of the replies.
//!
//! Nothing here performs a request. A request is described, handed to whoever
//! owns the connection, and the reply is brought back to be classified.

use vstd::prelude::*;
use crate::json::{self, Json, json_of, no_members};
use crate::text::{contains, mentions, parse_i64, spelled_i64, text_view};

verus! {

/// Where contacts are registered.
pub const CONTACTS_URL: &'static str = "https://api.brevo.com/v3/contacts";

/// Where transactional messages are sent.
pub const EMAIL_URL: &'static str = "https://api.brevo.com/v3/smtp/email";

/// The method of every request to the provider.
pub const METHOD: &'static str = "POST";

/// The header that carries the provider's API key.
pub const API_KEY_HEADER: &'static str = "api-key";

/// The sender's display name where none is configured.
pub const DEFAULT_SENDER_NAME: &'static str = "Waitlist Team";

/// Subject of the confirmation where no template is configured.
pub const FALLBACK_SUBJECT: &'static str = "Welcome to the list!";

/// Body of the confirmation where no template is configured.
pub const FALLBACK_HTML: &'static str =
    "<html><body><h1>You are on the list!</h1><p>Thank you for joining our waitlist.</p></body></html>";

/// What the provider's reply holds when the contact is already registered.
pub const DUPLICATE_MARKER: &'static str = "duplicate_parameter";

/// The header that names the format of a request's body.
pub const CONTENT_TYPE_HEADER: &'static str = "content-type";

/// The format of every request's body.
pub const JSON_CONTENT_TYPE: &'static str = "application/json";

/// How many seconds a request to the provider may take.
pub const OUTBOUND_TIMEOUT_SECS: u64 = 10;

/// One header of a request.
#[derive(Debug, PartialEq, Eq)]
pub struct Header {
    pub name: String,
    pub value: String,
}

/// A request to the provider, its body to be sent as JSON.
#[derive(Debug, PartialEq)]
pub struct OutboundRequest {
    pub method: String,
    pub url: String,
    pub headers: Vec<Header>,
    pub body: serde_json::Value,
    pub timeout_secs: u64,
}

/// A request as a mathematical value.
pub struct OutboundRequestView {
    pub method: Seq<char>,
    pub url: Seq<char>,
    pub headers: Seq<(Seq<char>, Seq<char>)>,
    pub body: Json,
    pub timeout_secs: u64,
}

impl View for OutboundRequest {
    type V = OutboundRequestView;

    open spec fn view(&self) -> OutboundRequestView {
        OutboundRequestView {
            method: self.method@,
            url: self.url@,
            headers: Seq::new(
                self.headers@.len(),
                |i: int| (self.headers@[i].name@, self.headers@[i].value@),
            ),
            body: json_of(self.body),
            timeout_secs: self.timeout_secs,
        }
    }
}

/// What came back from the provider: an HTTP response, or nothing because
/// the request never got through.
#[derive(Debug, PartialEq, Eq)]
pub enum Reply {
    Answered { status: u16, body: String },
    Unreachable,
}

/// Why a request to the provider failed.
#[derive(Clone, Copy, Debug, PartialEq, Eq, Structural)]
pub enum Fault {
    /// The provider answered with this status.
    Refused(u16),
    /// The provider could not be reached.
    Unreachable,
}

/// What the dispatcher makes of a reply.
#[derive(Clone, Copy, Debug, PartialEq, Eq, Structural)]
pub enum Outcome {
    Success,
    /// The contact exists already: as good as a success.
    RecognizedConflict,
    Failure(Fault),
}

/// The numeric identifier that an optional setting holds: none where the
/// setting is absent or does not spell an integer.
pub open spec fn configured_id(setting: Option<Seq<char>>) -> Option<i64> {
    match setting {
        Some(t) => spelled_i64(t),
        None => None,
    }
}

/// The profile attributes of a contact: the country, and the state where one
/// was given.
pub open spec fn attributes_json(country: Seq<char>, state: Option<Seq<char>>) -> Json {
    let base = no_members().insert("COUNTRY"@, Json::Text(country));
    Json::Object(
        match state {
            Some(s) => base.insert("STATE"@, Json::Text(s)),
            None => base,
        },
    )
}

/// The document that registers a contact. Updates are enabled, so that a
/// repeated registration refreshes the contact; the contact joins the list
/// named by `list_id`, where there is one.
pub open spec fn contact_json(
    email: Seq<char>,
    country: Seq<char>,
    state: Option<Seq<char>>,
    list_id: Option<i64>,
) -> Json {
    let base = no_members().insert("email"@, Json::Text(email)).insert(
        "attributes"@,
        attributes_json(country, state),
    ).insert("updateEnabled"@, Json::Bool(true));
    Json::Object(
        match list_id {
            Some(id) => base.insert("listIds"@, Json::List(seq![Json::Number(id as int)])),
            None => base,
        },
    )
}

/// Reads an optional setting as a numeric identifier.
pub fn parse_id(setting: Option<&str>) -> (id: Option<i64>)
    ensures
        id == configured_id(text_view(setting)),
{
    match setting {
        Some(t) => parse_i64(t),
        None => None,
    }
}

/// Builds the document that registers `email` as a contact.
pub fn contact_body(email: &str, country: &str, state: Option<&str>, list_id: Option<&str>) -> (body:
    serde_json::Value)
    ensures
        json_of(body) == contact_json(
            email@,
            country@,
            text_view(state),
            configured_id(text_view(list_id)),
        ),
{
    let mut attributes = json::empty_map();
    json::insert(&mut attributes, "COUNTRY", json::text(country));
    if let Some(s) = state {
        json::insert(&mut attributes, "STATE", json::text(s));
    }
    let mut body = json::empty_map();
    json::insert(&mut body, "email", json::text(email));
    json::insert(&mut body, "attributes", json::object(attributes));
    json::insert(&mut body, "updateEnabled", json::boolean(true));
    if let Some(id) = parse_id(list_id) {
        let mut ids: Vec<serde_json::Value> = Vec::new();
        ids.push(json::number(id));
        assert(json::jsons_of(ids@) =~= seq![Json::Number(id as int)]);
        json::insert(&mut body, "listIds", json::list(ids));
    }
    json::object(body)
}

/// The document that sends the confirmation to `email`: sender and recipient,
/// then either the configured template or the built-in subject and body.
pub open spec fn confirmation_json(
    email: Seq<char>,
    sender_name: Seq<char>,
    sender_email: Seq<char>,
    template_id: Option<i64>,
) -> Json {
    let sender = Json::Object(
        no_members().insert("name"@, Json::Text(sender_name)).insert(
            "email"@,
            Json::Text(sender_email),
        ),
    );
    let recipient = Json::Object(no_members().insert("email"@, Json::Text(email)));
    let base = no_members().insert("sender"@, sender).insert("to"@, Json::List(seq![recipient]));
    Json::Object(
        match template_id {
            Some(id) => base.insert("templateId"@, Json::Number(id as int)),
            None => base.insert("subject"@, Json::Text(FALLBACK_SUBJECT@)).insert(
                "htmlContent"@,
                Json::Text(FALLBACK_HTML@),
            ),
        },
    )
}

/// Builds the document that sends the confirmation to `email`.
pub fn confirmation_body(
    email: &str,
    sender_name: &str,
    sender_email: &str,
    template_id: Option<&str>,
) -> (body: serde_json::Value)
    ensures
        json_of(body) == confirmation_json(
            email@,
            sender_name@,
            sender_email@,
            configured_id(text_view(template_id)),
        ),
{
    let mut sender = json::empty_map();
    json::insert(&mut sender, "name", json::text(sender_name));
    json::insert(&mut sender, "email", json::text(sender_email));
    let mut recipient = json::empty_map();
    json::insert(&mut recipient, "email", json::text(email));
    let mut recipients: Vec<serde_json::Value> = Vec::new();
    recipients.push(json::object(recipient));
    assert(json::jsons_of(recipients@) =~= seq![
        Json::Object(no_members().insert("email"@, Json::Text(email@))),
    ]);
    let mut body = json::empty_map();
    json::insert(&mut body, "sender", json::object(sender));
    json::insert(&mut body, "to", json::list(recipients));
    match parse_id(template_id) {
        Some(id) => {
            json::insert(&mut body, "templateId", json::number(id));
        },
        None => {
            json::insert(&mut body, "subject", json::text(FALLBACK_SUBJECT));
            json::insert(&mut body, "htmlContent", json::text(FALLBACK_HTML));
        },
    }
    json::object(body)
}

/// The sender's display name: the configured one, or the default.
pub fn sender_name(configured: Option<&str>) -> (name: &str)
    ensures
        name@ == match configured {
            Some(n) => n@,
            None => DEFAULT_SENDER_NAME@,
        },
{
    match configured {
        Some(n) => n,
        None => DEFAULT_SENDER_NAME,
    }
}

/// The request that registers a contact: the API key and the body's format
/// in its headers.
pub open spec fn contact_request_view(
    api_key: Seq<char>,
    email: Seq<char>,
    country: Seq<char>,
    state: Option<Seq<char>>,
    list_id: Option<Seq<char>>,
) -> OutboundRequestView {
    OutboundRequestView {
        method: METHOD@,
        url: CONTACTS_URL@,
        headers: seq![(API_KEY_HEADER@, api_key), (CONTENT_TYPE_HEADER@, JSON_CONTENT_TYPE@)],
        body: contact_json(email, country, state, configured_id(list_id)),
        timeout_secs: OUTBOUND_TIMEOUT_SECS,
    }
}

/// The request that sends the confirmation: the API key in its header.
pub open spec fn confirmation_request_view(
    api_key: Seq<char>,
    email: Seq<char>,
    sender_name: Seq<char>,
    sender_email: Seq<char>,
    template_id: Option<Seq<char>>,
) -> OutboundRequestView {
    OutboundRequestView {
        method: METHOD@,
        url: EMAIL_URL@,
        headers: seq![(API_KEY_HEADER@, api_key)],
        body: confirmation_json(email, sender_name, sender_email, configured_id(template_id)),
        timeout_secs: OUTBOUND_TIMEOUT_SECS,
    }
}

fn header(name: &str, value: &str) -> (header: Header)
    ensures
        header.name@ == name@,
        header.value@ == value@,
{
    Header { name: name.to_owned(), value: value.to_owned() }
}

/// Shapes the request that registers `email` as a contact.
pub fn contact_request(
    api_key: &str,
    email: &str,
    country: &str,
    state: Option<&str>,
    list_id: Option<&str>,
) -> (request: OutboundRequest)
    ensures
        request@ == contact_request_view(
            api_key@,
            email@,
            country@,
            text_view(state),
            text_view(list_id),
        ),
{
    let mut headers: Vec<Header> = Vec::new();
    headers.push(header(API_KEY_HEADER, api_key));
    headers.push(header(CONTENT_TYPE_HEADER, JSON_CONTENT_TYPE));
    let request = OutboundRequest {
        method: METHOD.to_owned(),
        url: CONTACTS_URL.to_owned(),
        headers,
        body: contact_body(email, country, state, list_id),
        timeout_secs: OUTBOUND_TIMEOUT_SECS,
    };
    assert(request@.headers =~= seq![
        (API_KEY_HEADER@, api_key@),
        (CONTENT_TYPE_HEADER@, JSON_CONTENT_TYPE@),
    ]);
    request
}

/// Shapes the request that sends the confirmation to `email`.
pub fn confirmation_request(
    api_key: &str,
    email: &str,
    sender_name: &str,
    sender_email: &str,
    template_id: Option<&str>,
) -> (request: OutboundRequest)
    ensures
        request@ == confirmation_request_view(
            api_key@,
            email@,
            sender_name@,
            sender_email@,
            text_view(template_id),
        ),
{
    let mut headers: Vec<Header> = Vec::new();
    headers.push(header(API_KEY_HEADER, api_key));
    let request = OutboundRequest {
        method: METHOD.to_owned(),
        url: EMAIL_URL.to_owned(),
        headers,
        body: confirmation_body(email, sender_name, sender_email, template_id),
        timeout_secs: OUTBOUND_TIMEOUT_SECS,
    };
    assert(request@.headers =~= seq![(API_KEY_HEADER@, api_key@)]);
    request
}

/// A status in the 2xx range.
pub open spec fn is_success(status: u16) -> bool {
    200 <= status < 300
}

/// What the dispatcher makes of the reply to a contact registration. A 2xx
/// status is a success. A 400 whose body holds the duplicate marker is the
/// recognized conflict. Every other reply, and no reply at all, is a failure.
pub open spec fn contact_outcome(reply: Reply) -> Outcome {
    match reply {
        Reply::Unreachable => Outcome::Failure(Fault::Unreachable),
        Reply::Answered { status, body } => {
            if is_success(status) {
                Outcome::Success
            } else if status == 400 && mentions(body@, DUPLICATE_MARKER@) {
                Outcome::RecognizedConflict
            } else {
                Outcome::Failure(Fault::Refused(status))
            }
        },
    }
}

/// What the dispatcher makes of the reply to a confirmation: a 2xx status is
/// a success, everything else a failure.
pub open spec fn confirmation_outcome(reply: Reply) -> Outcome {
    match reply {
        Reply::Unreachable => Outcome::Failure(Fault::Unreachable),
        Reply::Answered { status, body } => {
            if is_success(status) {
                Outcome::Success
            } else {
                Outcome::Failure(Fault::Refused(status))
            }
        },
    }
}

/// Classifies the reply to a contact registration.
pub fn classify_contact(reply: &Reply) -> (outcome: Outcome)
    ensures
        outcome == contact_outcome(*reply),
{
    match reply {
        Reply::Unreachable => Outcome::Failure(Fault::Unreachable),
        Reply::Answered { status, body } => {
            if 200 <= *status && *status < 300 {
                Outcome::Success
            } else if *status == 400 && contains(body.as_str(), DUPLICATE_MARKER) {
                Outcome::RecognizedConflict
            } else {
                Outcome::Failure(Fault::Refused(*status))
            }
        },
    }
}

/// Classifies the reply to a confirmation.
pub fn classify_confirmation(reply: &Reply) -> (outcome: Outcome)
    ensures
        outcome == confirmation_outcome(*reply),
{
    match reply {
        Reply::Unreachable => Outcome::Failure(Fault::Unreachable),
        Reply::Answered { status, body } => {
            if 200 <= *status && *status < 300 {
                Outcome::Success
            } else {
                Outcome::Failure(Fault::Refused(*status))
            }
        },
    }
}

/// How the contact step ends for the task. A reply that was answered ends it
/// well, whatever its status: what the provider refused is put on record
/// where the reply is classified, and is handed on to nobody. Only a request
/// that never got through ends the step with a fault.
pub open spec fn contact_result(reply: Reply) -> Result<(), Fault> {
    match reply {
        Reply::Answered { .. } => Ok(()),
        Reply::Unreachable => Err(Fault::Unreachable),
    }
}

/// How the confirmation step ends for the task: well on a success, with the
/// fault on everything else.
pub open spec fn confirmation_result(reply: Reply) -> Result<(), Fault> {
    match confirmation_outcome(reply) {
        Outcome::Failure(fault) => Err(fault),
        _ => Ok(()),
    }
}

/// Says how the contact step ends on `reply`.
pub fn settle_contact(reply: &Reply) -> (result: Result<(), Fault>)
    ensures
        result == contact_result(*reply),
{
    match reply {
        Reply::Answered { .. } => Ok(()),
        Reply::Unreachable => Err(Fault::Unreachable),
    }
}

/// Says how the confirmation step ends on `reply`.
pub fn settle_confirmation(reply: &Reply) -> (result: Result<(), Fault>)
    ensures
        result == confirmation_result(*reply),
{
    match classify_confirmation(reply) {
        Outcome::Failure(fault) => Err(fault),
        _ => Ok(()),
    }
}

} // verus!
