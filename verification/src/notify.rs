//! The notification service: messages, the requests that carry them, and
//! the decisions taken for each request.

use fake::Fake;
use vstd::prelude::*;
use vstd::std_specs::convert::FromSpec;
use vstd::std_specs::convert::FromSpecImpl;

use crate::metadata::{contents_debug, Content, Tpl};
use crate::text::lower_word;
use crate::time::{latest_utc_second, utc_now, Timestamp};

verus! {

/// An e-mail.
#[derive(Clone, Debug)]
pub struct EmailMsg {
    pub msg_id: String,
    pub subject: String,
    pub sender: String,
    pub recipients: Vec<String>,
    pub body: String,
}

/// A text message.
#[derive(Clone, Debug)]
pub struct SmsMsg {
    pub msg_id: String,
    pub sender: String,
    pub recipients: Vec<String>,
    pub body: String,
}

/// A message shown inside the application on one device.
#[derive(Clone, Debug)]
pub struct InAppMsg {
    pub msg_id: String,
    pub device_id: String,
    pub title: String,
    pub body: String,
}

/// One message of any kind.
#[derive(Clone, Debug)]
pub enum Msg {
    Email(EmailMsg),
    Sms(SmsMsg),
    InAppMsg(InAppMsg),
}

/// A request to send one message; it may carry none.
#[derive(Clone, Debug)]
pub struct SendRequest {
    pub msg: Option<Msg>,
}

/// The answer to a request whose message was handed on.
#[derive(Clone, Debug)]
pub struct SendResponse {
    pub msg_id: String,
    pub timestamp: Option<Timestamp>,
}

/// Why a request was not answered with a response.
#[derive(Clone, Copy, Debug, PartialEq, Eq, Structural)]
pub enum NotifyError {
    /// The request carried no message.
    InvalidRequest,
    /// The message could not be handed to the sender.
    SendFailed,
}

impl NotifyError {
    /// The message the error is reported with.
    pub fn message(&self) -> (msg: String)
        ensures
            msg@ == match self {
                NotifyError::InvalidRequest => "invalid request"@,
                NotifyError::SendFailed => "Failed to send msg"@,
            },
    {
        match self {
            NotifyError::InvalidRequest => String::from_str("invalid request"),
            NotifyError::SendFailed => String::from_str("Failed to send msg"),
        }
    }
}

/// The id of a message, whatever its kind.
pub open spec fn msg_id_of(m: Msg) -> Seq<char> {
    match m {
        Msg::Email(e) => e.msg_id@,
        Msg::Sms(s) => s.msg_id@,
        Msg::InAppMsg(a) => a.msg_id@,
    }
}

impl Msg {
    /// The id of the message.
    pub fn msg_id(&self) -> (id: String)
        ensures
            id@ == msg_id_of(*self),
    {
        match self {
            Msg::Email(e) => e.msg_id.clone(),
            Msg::Sms(s) => s.msg_id.clone(),
            Msg::InAppMsg(a) => a.msg_id.clone(),
        }
    }
}

/// The message a request carries, or `InvalidRequest` when it carries none.
pub open spec fn routed(req: SendRequest) -> Result<Msg, NotifyError> {
    match req.msg {
        Some(m) => Ok(m),
        None => Err(NotifyError::InvalidRequest),
    }
}

/// The answer for a message with id `msg_id`: `SendFailed` when it could
/// not be handed to the sender, else a response with its id and `now`.
pub open spec fn answered(msg_id: String, delivered: bool, now: Timestamp) -> Result<
    SendResponse,
    NotifyError,
> {
    if delivered {
        Ok(SendResponse { msg_id, timestamp: Some(now) })
    } else {
        Err(NotifyError::SendFailed)
    }
}

/// The message a request carries, or `InvalidRequest` when it carries none.
pub fn route(req: SendRequest) -> (res: Result<Msg, NotifyError>)
    ensures
        res == routed(req),
{
    match req.msg {
        Some(m) => Ok(m),
        None => Err(NotifyError::InvalidRequest),
    }
}

/// The answer for a message with id `msg_id`: `SendFailed` when it could
/// not be handed to the sender, else a response with its id and `now`.
pub fn send_response(msg_id: String, delivered: bool, now: Timestamp) -> (res: Result<
    SendResponse,
    NotifyError,
>)
    ensures
        res == answered(msg_id, delivered, now),
{
    if delivered {
        Ok(SendResponse { msg_id, timestamp: Some(now) })
    } else {
        Err(NotifyError::SendFailed)
    }
}

/// The current time, as responses carry it.
pub fn to_ts() -> (now: Timestamp)
    ensures
        0 <= now.seconds <= latest_utc_second(),
        0 <= now.nanos < 1_000_000_000,
{
    utc_now()
}

// ----- message ids -----

/// A lower-case hexadecimal digit.
pub open spec fn lower_hex(c: char) -> bool {
    ('0' <= c <= '9') || ('a' <= c <= 'f')
}

/// The hyphenated lower-case text of a random (version 4, RFC 4122 variant)
/// UUID: `xxxxxxxx-xxxx-4xxx-yxxx-xxxxxxxxxxxx` with `y` one of `8 9 a b`.
pub open spec fn uuid_v4_text(s: Seq<char>) -> bool {
    &&& s.len() == 36
    &&& forall|i: int|
        0 <= i < 36 ==> if i == 8 || i == 13 || i == 18 || i == 23 {
            s[i] == '-'
        } else {
            lower_hex(#[trigger] s[i])
        }
    &&& s[14] == '4'
    &&& (s[19] == '8' || s[19] == '9' || s[19] == 'a' || s[19] == 'b')
}

/// Trusted: `uuid::Uuid::new_v4().to_string()`. uuid's source sets the
/// version bits to 4 and the variant bits to RFC 4122, and its `Display`
/// writes the hyphenated lower-case form; which UUID comes out is chance.
#[verifier::external_body]
pub(crate) fn new_msg_id() -> (id: String)
    ensures
        uuid_v4_text(id@),
{
    uuid::Uuid::new_v4().to_string()
}

fn clone_all(items: &[String]) -> (res: Vec<String>)
    ensures
        res@ == items@,
{
    let mut res: Vec<String> = Vec::new();
    let mut i: usize = 0;
    while i < items.len()
        invariant
            0 <= i <= items@.len(),
            res@ == items@.take(i as int),
        decreases items@.len() - i,
    {
        res.push(items[i].clone());
        assert(res@ =~= items@.take(i + 1));
        i = i + 1;
    }
    assert(items@.take(items@.len() as int) =~= items@);
    res
}

impl SendRequest {
    /// A request for an e-mail with a fresh id whose body renders `contents`.
    pub fn new(subject: String, sender: String, recipients: &[String], contents: &[Content]) -> (req:
        Self)
        ensures
            req.msg matches Some(Msg::Email(e)) && {
                &&& e.subject == subject
                &&& e.sender == sender
                &&& e.recipients@ == recipients@
                &&& e.body@ == "Tpl: "@ + contents_debug(contents@)
                &&& uuid_v4_text(e.msg_id@)
            },
    {
        let tpl = Tpl(contents);
        let msg = Msg::Email(
            EmailMsg {
                msg_id: new_msg_id(),
                subject,
                sender,
                recipients: clone_all(recipients),
                body: tpl.to_body(),
            },
        );
        SendRequest { msg: Some(msg) }
    }
}

// ----- conversions -----

impl From<EmailMsg> for Msg {
    fn from(value: EmailMsg) -> (m: Msg) {
        Msg::Email(value)
    }
}

impl FromSpecImpl<EmailMsg> for Msg {
    open spec fn obeys_from_spec() -> bool {
        true
    }

    open spec fn from_spec(v: EmailMsg) -> Msg {
        Msg::Email(v)
    }
}

impl From<SmsMsg> for Msg {
    fn from(value: SmsMsg) -> (m: Msg) {
        Msg::Sms(value)
    }
}

impl FromSpecImpl<SmsMsg> for Msg {
    open spec fn obeys_from_spec() -> bool {
        true
    }

    open spec fn from_spec(v: SmsMsg) -> Msg {
        Msg::Sms(v)
    }
}

impl From<InAppMsg> for Msg {
    fn from(value: InAppMsg) -> (m: Msg) {
        Msg::InAppMsg(value)
    }
}

impl FromSpecImpl<InAppMsg> for Msg {
    open spec fn obeys_from_spec() -> bool {
        true
    }

    open spec fn from_spec(v: InAppMsg) -> Msg {
        Msg::InAppMsg(v)
    }
}

impl From<EmailMsg> for SendRequest {
    fn from(value: EmailMsg) -> (req: SendRequest) {
        SendRequest { msg: Some(Msg::Email(value)) }
    }
}

impl FromSpecImpl<EmailMsg> for SendRequest {
    open spec fn obeys_from_spec() -> bool {
        true
    }

    open spec fn from_spec(v: EmailMsg) -> SendRequest {
        SendRequest { msg: Some(Msg::Email(v)) }
    }
}

impl From<SmsMsg> for SendRequest {
    fn from(value: SmsMsg) -> (req: SendRequest) {
        SendRequest { msg: Some(Msg::Sms(value)) }
    }
}

impl FromSpecImpl<SmsMsg> for SendRequest {
    open spec fn obeys_from_spec() -> bool {
        true
    }

    open spec fn from_spec(v: SmsMsg) -> SendRequest {
        SendRequest { msg: Some(Msg::Sms(v)) }
    }
}

impl From<InAppMsg> for SendRequest {
    fn from(value: InAppMsg) -> (req: SendRequest) {
        SendRequest { msg: Some(Msg::InAppMsg(value)) }
    }
}

impl FromSpecImpl<InAppMsg> for SendRequest {
    open spec fn obeys_from_spec() -> bool {
        true
    }

    open spec fn from_spec(v: InAppMsg) -> SendRequest {
        SendRequest { msg: Some(Msg::InAppMsg(v)) }
    }
}

/// The answer to the next item of a request stream: none once the stream
/// has ended or failed, else the routing of the request.
pub open spec fn next_answer<E>(item: Option<Result<SendRequest, E>>) -> Option<
    Result<Msg, NotifyError>,
> {
    match item {
        Some(Ok(req)) => Some(routed(req)),
        _ => None,
    }
}

/// What the service does with the next item of a request stream: `None`
/// stops the stream (it ended, or the item is an error), else the message
/// to hand on or the refusal.
pub fn answer_next<E>(item: Option<Result<SendRequest, E>>) -> (res: Option<
    Result<Msg, NotifyError>,
>)
    ensures
        res == next_answer(item),
{
    match item {
        Some(Ok(req)) => Some(route(req)),
        _ => None,
    }
}

/// The answers to a stream of items: one per item, in order, up to the
/// first item that is an error.
pub open spec fn stream_answers<E>(items: Seq<Result<SendRequest, E>>) -> Seq<
    Result<Msg, NotifyError>,
>
    decreases items.len(),
{
    if items.len() == 0 {
        Seq::empty()
    } else {
        match next_answer(Some(items[0])) {
            Some(a) => seq![a] + stream_answers(items.drop_first()),
            None => Seq::empty(),
        }
    }
}

/// The requests as stream items that are all successes.
pub open spec fn all_ok<E>(reqs: Seq<SendRequest>) -> Seq<Result<SendRequest, E>> {
    reqs.map_values(|r: SendRequest| Ok::<SendRequest, E>(r))
}

/// A stream of requests without errors gets exactly one answer per
/// request, in order: the routing of that request.
pub proof fn every_request_is_answered_once<E>(reqs: Seq<SendRequest>)
    ensures
        stream_answers(all_ok::<E>(reqs)).len() == reqs.len(),
        forall|i: int|
            0 <= i < reqs.len() ==> #[trigger] stream_answers(all_ok::<E>(reqs))[i] == routed(
                reqs[i],
            ),
    decreases reqs.len(),
{
    let items = all_ok::<E>(reqs);
    if reqs.len() > 0 {
        let rest = reqs.drop_first();
        every_request_is_answered_once::<E>(rest);
        assert(items.drop_first() =~= all_ok::<E>(rest));
        assert forall|i: int| 0 <= i < reqs.len() implies #[trigger] stream_answers(items)[i]
            == routed(reqs[i]) by {
            if i > 0 {
                assert(rest[i - 1] == reqs[i]);
            }
        }
    }
}

/// A stream stops being answered at its first error: what follows it is
/// never answered.
pub proof fn stream_stops_at_first_error<E>(
    before: Seq<SendRequest>,
    err: E,
    after: Seq<Result<SendRequest, E>>,
)
    ensures
        stream_answers(all_ok::<E>(before).push(Err::<SendRequest, E>(err)) + after).len()
            == before.len(),
    decreases before.len(),
{
    let items = all_ok::<E>(before).push(Err::<SendRequest, E>(err)) + after;
    if before.len() == 0 {
        assert(items[0] == Err::<SendRequest, E>(err));
    } else {
        let rest = before.drop_first();
        stream_stops_at_first_error(rest, err, after);
        assert(items.drop_first() =~= all_ok::<E>(rest).push(Err::<SendRequest, E>(err)) + after);
    }
}

/// A request made from a message of any kind is routed to the message made
/// from it, and once that message is handed on, the answer carries the
/// message's id and the time of sending.
pub proof fn converted_request_is_answered_with_its_id(
    e: EmailMsg,
    s: SmsMsg,
    a: InAppMsg,
    now: Timestamp,
)
    ensures
        routed(<SendRequest as FromSpec<EmailMsg>>::from_spec(e)) == Ok::<Msg, NotifyError>(
            <Msg as FromSpec<EmailMsg>>::from_spec(e),
        ),
        routed(<SendRequest as FromSpec<SmsMsg>>::from_spec(s)) == Ok::<Msg, NotifyError>(
            <Msg as FromSpec<SmsMsg>>::from_spec(s),
        ),
        routed(<SendRequest as FromSpec<InAppMsg>>::from_spec(a)) == Ok::<Msg, NotifyError>(
            <Msg as FromSpec<InAppMsg>>::from_spec(a),
        ),
        answered(e.msg_id, true, now) matches Ok(r) && r.msg_id@ == msg_id_of(
            <Msg as FromSpec<EmailMsg>>::from_spec(e),
        ) && r.timestamp == Some(now),
        answered(s.msg_id, true, now) matches Ok(r) && r.msg_id@ == msg_id_of(
            <Msg as FromSpec<SmsMsg>>::from_spec(s),
        ) && r.timestamp == Some(now),
        answered(a.msg_id, true, now) matches Ok(r) && r.msg_id@ == msg_id_of(
            <Msg as FromSpec<InAppMsg>>::from_spec(a),
        ) && r.timestamp == Some(now),
{
}

/// A request without a message is refused, and a message that could not be
/// handed on is answered with `SendFailed`, whatever the time.
pub proof fn refused_requests(id: String, now: Timestamp)
    ensures
        routed(SendRequest { msg: None }) == Err::<Msg, NotifyError>(NotifyError::InvalidRequest),
        answered(id, false, now) == Err::<SendResponse, NotifyError>(NotifyError::SendFailed),
{
}

// ----- sample messages -----

/// A sample e-mail address: a lower-case first name at `example.com`,
/// `example.net` or `example.org`.
pub open spec fn sample_email(s: Seq<char>) -> bool {
    exists|name: Seq<char>|
        #[trigger] lower_word(name) && (s == name + "@example.com"@ || s == name
            + "@example.net"@ || s == name + "@example.org"@)
}

/// Trusted: `fake::faker::internet::en::SafeEmail().fake()`. fake's source
/// writes a first name of its English list (all of them ASCII letters, at
/// least two) in lower case, `@example.` and one of `com`, `net`, `org`;
/// which name and ending is chance.
#[verifier::external_body]
fn fake_email() -> (addr: String)
    ensures
        sample_email(addr@),
{
    fake::faker::internet::en::SafeEmail().fake::<String>()
}

/// A character of a sample phone number: a digit, or one of `(`, `)`,
/// `-`, `.`, the space and `x`.
pub open spec fn phone_char(c: char) -> bool {
    ('0' <= c <= '9') || c == '(' || c == ')' || c == '-' || c == '.' || c == ' ' || c == 'x'
}

/// A sample phone number: a non-empty text of phone characters.
pub open spec fn sample_phone(s: Seq<char>) -> bool {
    s.len() > 0 && forall|i: int| 0 <= i < s.len() ==> phone_char(#[trigger] s[i])
}

/// Trusted: `fake::faker::phone_number::en::PhoneNumber().fake()`. fake's
/// source picks one of its English formats (none empty, made of digits,
/// `#`, `^`, `(`, `)`, `-`, `.`, space and `x`) and replaces each `#` and
/// `^` by one digit; which format and digits is chance.
#[verifier::external_body]
fn fake_phone_number() -> (number: String)
    ensures
        sample_phone(number@),
{
    fake::faker::phone_number::en::PhoneNumber().fake::<String>()
}

impl EmailMsg {
    /// A sample e-mail from a sample address to one sample address.
    pub fn fake() -> (m: Self)
        ensures
            uuid_v4_text(m.msg_id@),
            sample_email(m.sender@),
            m.recipients@.len() == 1,
            sample_email(m.recipients@[0]@),
            m.subject@ == "Hi"@,
            m.body@ == "Hi, Girl"@,
    {
        let mut recipients: Vec<String> = Vec::new();
        recipients.push(fake_email());
        EmailMsg {
            msg_id: new_msg_id(),
            sender: fake_email(),
            recipients,
            subject: String::from_str("Hi"),
            body: String::from_str("Hi, Girl"),
        }
    }
}

impl SmsMsg {
    /// A sample text message from one sample number to another.
    pub fn fake() -> (m: Self)
        ensures
            uuid_v4_text(m.msg_id@),
            sample_phone(m.sender@),
            m.recipients@.len() == 1,
            sample_phone(m.recipients@[0]@),
            m.body@ == "Hello world!"@,
    {
        let mut recipients: Vec<String> = Vec::new();
        recipients.push(fake_phone_number());
        SmsMsg {
            msg_id: new_msg_id(),
            sender: fake_phone_number(),
            recipients,
            body: String::from_str("Hello world!"),
        }
    }
}

impl InAppMsg {
    /// A sample in-app message to a random device.
    pub fn fake() -> (m: Self)
        ensures
            uuid_v4_text(m.msg_id@),
            uuid_v4_text(m.device_id@),
            m.title@ == "Hi"@,
            m.body@ == "Hi, Girl"@,
    {
        InAppMsg {
            msg_id: new_msg_id(),
            device_id: new_msg_id(),
            title: String::from_str("Hi"),
            body: String::from_str("Hi, Girl"),
        }
    }
}

} // verus!
