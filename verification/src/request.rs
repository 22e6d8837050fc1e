//! The signed request: stamping, signing and wrapping one message, and the
//! JSON text that is posted.

use crate::decimal::{decimal_digits, decimal_string};
use crate::msg_type::{Card, CardView, Text, TextView};
use crate::response::{SendError, SendErrorView};
use crate::sign::{gen_sign, signature};
use crate::text::text_eq;
use crate::wire::{card_json, card_to_json, json_string, quoted, text_json, text_to_json};
use vstd::prelude::*;

verus! {

/// What a [`Message`] holds.
pub enum MessageView {
    Text(TextView),
    Interactive(CardView),
}

impl MessageView {
    /// The name of the message kind on the wire.
    pub open spec fn msg_type(self) -> Seq<char> {
        match self {
            MessageView::Text(_) => "text"@,
            MessageView::Interactive(_) => "interactive"@,
        }
    }
}

/// What a [`WebHookInput`] holds.
pub struct WebHookInputView {
    pub timestamp: Seq<char>,
    pub sign: Seq<char>,
    pub message: MessageView,
}

/// What [`Credentials`] hold.
pub struct CredentialsView {
    pub secret: Seq<char>,
    pub url: Seq<char>,
}

/// The one message that a request carries. The kind on the wire follows from
/// the variant, so the two cannot disagree.
#[derive(Debug)]
pub enum Message {
    /// A plain text message, sent as `"text"`.
    Text(Text),
    /// A card, sent as `"interactive"`.
    Interactive(Card),
}

impl View for Message {
    type V = MessageView;

    open spec fn view(&self) -> MessageView {
        match *self {
            Message::Text(text) => MessageView::Text(text@),
            Message::Interactive(card) => MessageView::Interactive(card@),
        }
    }
}

impl Message {
    /// The name of the message kind on the wire.
    pub fn msg_type(&self) -> (msg_type: &'static str)
        ensures
            msg_type@ == self@.msg_type(),
    {
        match self {
            Message::Text(_) => "text",
            Message::Interactive(_) => "interactive",
        }
    }
}

/// The request that is posted to the remote service.
#[derive(Debug)]
pub struct WebHookInput {
    timestamp: String,
    sign: String,
    message: Message,
}

impl View for WebHookInput {
    type V = WebHookInputView;

    closed spec fn view(&self) -> WebHookInputView {
        WebHookInputView { timestamp: self.timestamp@, sign: self.sign@, message: self.message@ }
    }
}

/// The secret that requests are signed with, and where they are posted.
#[derive(Debug)]
pub struct Credentials {
    secret: String,
    url: String,
}

impl View for Credentials {
    type V = CredentialsView;

    closed spec fn view(&self) -> CredentialsView {
        CredentialsView { secret: self.secret@, url: self.url@ }
    }
}

/// The stamp of a request made at `now_seconds`: one second earlier, which
/// leaves room for a clock that runs ahead of the verifier's.
pub open spec fn stamp(now_seconds: int) -> int {
    now_seconds - 1
}

/// The request for `message`, stamped `timestamp` and signed with `secret`.
pub open spec fn signed_request(secret: Seq<char>, timestamp: nat, message: MessageView) -> WebHookInputView {
    WebHookInputView {
        timestamp: decimal_digits(timestamp),
        sign: signature(secret, timestamp),
        message,
    }
}

/// Whether the switch that turns card notifications off is set: it is only
/// where its value is exactly `true`.
pub open spec fn sending_disabled(flag: Option<Seq<char>>) -> bool {
    flag == Some("true"@)
}

/// The member that carries the message: `"content"` for a text, `"card"` for
/// a card. The other of the two is left out.
pub open spec fn message_member(message: MessageView) -> Seq<char> {
    match message {
        MessageView::Text(text) => ",\"content\":"@ + text_json(text),
        MessageView::Interactive(card) => ",\"card\":"@ + card_json(card),
    }
}

/// `{"timestamp":…,"sign":…,"msg_type":…,"content":{…}}`, or the same with
/// `"card":{…}` in the last place.
pub open spec fn request_json(input: WebHookInputView) -> Seq<char> {
    "{\"timestamp\":"@ + json_string(input.timestamp) + ",\"sign\":"@ + json_string(input.sign)
        + ",\"msg_type\":"@ + json_string(input.message.msg_type()) + message_member(
        input.message,
    ) + "}"@
}

/// Stamps are in step with the clock: a later request never bears an earlier
/// stamp.
pub proof fn lemma_stamp_monotonic(earlier: int, later: int)
    requires
        earlier <= later,
    ensures
        stamp(earlier) <= stamp(later),
        stamp(earlier) == earlier - 1,
        stamp(later) == later - 1,
{
}

/// The stamp of a request made at `now_seconds`, in seconds since the epoch.
pub fn request_timestamp(now_seconds: u64) -> (timestamp: u64)
    requires
        now_seconds >= 1,
    ensures
        timestamp == stamp(now_seconds as int),
{
    now_seconds - 1
}

/// Whether the switch that turns card notifications off is set.
pub fn is_sending_disabled(flag: Option<&str>) -> (disabled: bool)
    ensures
        disabled == sending_disabled(flag.deep_view()),
{
    match flag {
        Some(value) => text_eq(value, "true"),
        None => false,
    }
}

impl Credentials {
    /// Credentials from what the configuration holds. Both values are
    /// required: where one is missing, no request can be made.
    pub fn resolve(secret: Option<String>, url: Option<String>) -> (resolved: Result<
        Credentials,
        SendError,
    >)
        ensures
            match resolved {
                Ok(credentials) => secret matches Some(s) && url matches Some(u) && credentials@ == (
                CredentialsView { secret: s@, url: u@ }),
                Err(error) => (secret is None || url is None) && error@
                    == SendErrorView::Configuration,
            },
    {
        match (secret, url) {
            (Some(secret), Some(url)) => Ok(Credentials { secret, url }),
            _ => Err(SendError::Configuration),
        }
    }

    /// The shared secret.
    pub fn secret(&self) -> (secret: &str)
        ensures
            secret@ == self@.secret,
    {
        self.secret.as_str()
    }

    /// The address that requests are posted to.
    pub fn url(&self) -> (url: &str)
        ensures
            url@ == self@.url,
    {
        self.url.as_str()
    }
}

impl WebHookInput {
    /// Stamps `message` one second before `now_seconds`, and signs it with
    /// `secret`.
    pub fn new(secret: &str, now_seconds: u64, message: Message) -> (input: WebHookInput)
        requires
            now_seconds >= 1,
        ensures
            input@ == signed_request(secret@, stamp(now_seconds as int) as nat, message@),
    {
        let timestamp: u64 = request_timestamp(now_seconds);
        WebHookInput {
            timestamp: decimal_string(timestamp),
            sign: gen_sign(secret, timestamp),
            message,
        }
    }

    /// The stamp, in decimal.
    pub fn timestamp(&self) -> (timestamp: &str)
        ensures
            timestamp@ == self@.timestamp,
    {
        self.timestamp.as_str()
    }

    /// The signature.
    pub fn sign(&self) -> (sign: &str)
        ensures
            sign@ == self@.sign,
    {
        self.sign.as_str()
    }

    /// The name of the message kind on the wire.
    pub fn msg_type(&self) -> (msg_type: &'static str)
        ensures
            msg_type@ == self@.message.msg_type(),
    {
        self.message.msg_type()
    }

    /// The message.
    pub fn message(&self) -> (message: &Message)
        ensures
            message@ == self@.message,
    {
        &self.message
    }

    /// Writes the request as it is posted.
    pub fn to_json(&self) -> (json: String)
        ensures
            json@ == request_json(self@),
    {
        let mut json: String = String::from_str("{\"timestamp\":");
        json.append(quoted(self.timestamp.as_str()).as_str());
        json.append(",\"sign\":");
        json.append(quoted(self.sign.as_str()).as_str());
        json.append(",\"msg_type\":");
        json.append(quoted(self.message.msg_type()).as_str());
        let ghost head = json@;
        match &self.message {
            Message::Text(text) => {
                json.append(",\"content\":");
                json.append(text_to_json(text).as_str());
            },
            Message::Interactive(card) => {
                json.append(",\"card\":");
                json.append(card_to_json(card).as_str());
            },
        }
        assert(json@ =~= head + message_member(self@.message));
        json.append("}");
        json
    }
}

/// The message that delivers `card`, or `None` where the switch `flag` turns
/// card notifications off: then there is nothing to stamp, sign or send.
pub fn card_to_send(flag: Option<&str>, card: Card) -> (message: Option<Message>)
    ensures
        match message {
            Some(m) => !sending_disabled(flag.deep_view()) && m@ == MessageView::Interactive(card@),
            None => sending_disabled(flag.deep_view()),
        },
{
    if is_sending_disabled(flag) {
        None
    } else {
        Some(Message::Interactive(card))
    }
}

} // verus!
