//! The remote reply: reading it out of the response body, and telling an
//! accepted request from a refused one.

use crate::decimal::{decimal_digits, decimal_string};
use crate::text::text_eq;
use crate::wire::{json_string, quoted};
use vstd::prelude::*;

verus! {

/// One member of a JSON object, as far as a reply is read: its name, the
/// integer it holds if it holds one that fits `i64`, and the string it holds
/// if it holds a string.
pub type Member = (String, Option<i64>, Option<String>);

/// What a [`Member`] holds.
pub type MemberView = (Seq<char>, Option<i64>, Option<Seq<char>>);

/// What a [`WebHookOutput`] holds.
pub struct WebHookOutputView {
    pub status_code: i64,
    pub status_message: Seq<char>,
}

/// What a [`SendError`] holds.
pub enum SendErrorView {
    Configuration,
    Transport(Seq<char>),
    Decode,
    Application(Seq<char>),
}

/// The decoded reply of the remote service.
#[derive(Debug)]
pub struct WebHookOutput {
    status_code: i64,
    status_message: String,
}

impl View for WebHookOutput {
    type V = WebHookOutputView;

    closed spec fn view(&self) -> WebHookOutputView {
        WebHookOutputView { status_code: self.status_code, status_message: self.status_message@ }
    }
}

/// Why a message was not delivered.
#[derive(Debug)]
pub enum SendError {
    /// The secret or the destination is missing.
    Configuration,
    /// The request did not get through, or no reply came back.
    Transport(String),
    /// The body of the reply is not a JSON object of the expected shape.
    Decode,
    /// The service answered and refused the request.
    Application(String),
}

impl View for SendError {
    type V = SendErrorView;

    open spec fn view(&self) -> SendErrorView {
        match *self {
            SendError::Configuration => SendErrorView::Configuration,
            SendError::Transport(detail) => SendErrorView::Transport(detail@),
            SendError::Decode => SendErrorView::Decode,
            SendError::Application(detail) => SendErrorView::Application(detail@),
        }
    }
}

impl SendErrorView {
    /// The error in words: what the service or the transport said where
    /// either said anything, else a fixed sentence.
    pub open spec fn message(self) -> Seq<char> {
        match self {
            SendErrorView::Configuration => "the secret or the destination URL is not configured"@,
            SendErrorView::Transport(detail) => detail,
            SendErrorView::Decode => "the response body is not a reply of the remote service"@,
            SendErrorView::Application(detail) => detail,
        }
    }
}

impl SendError {
    /// The error in words.
    pub fn message(&self) -> (message: String)
        ensures
            message@ == self@.message(),
    {
        match self {
            SendError::Configuration => String::from_str(
                "the secret or the destination URL is not configured",
            ),
            SendError::Transport(detail) => detail.clone(),
            SendError::Decode => String::from_str(
                "the response body is not a reply of the remote service",
            ),
            SendError::Application(detail) => detail.clone(),
        }
    }
}

/// What the outcome of a send holds.
pub open spec fn outcome_view(outcome: Result<WebHookOutput, SendError>) -> Result<
    WebHookOutputView,
    SendErrorView,
> {
    match outcome {
        Ok(output) => Ok(output@),
        Err(error) => Err(error@),
    }
}

/// The members of the JSON object that `body` holds, or `None` where `body`
/// is not the text of one JSON object.
pub uninterp spec fn json_object_members(body: Seq<char>) -> Option<Seq<MemberView>>;

/// Calls `serde_json::from_str` for a `serde_json::Map`, and hands each
/// member out with what `Value::as_i64` and `Value::as_str` give for it. The
/// contract names the members after the body: the call fails exactly where
/// the name is `None`.
#[verifier::external_body]
fn parse_object(body: &str) -> (parsed: Result<Vec<Member>, serde_json::Error>)
    ensures
        match parsed {
            Ok(members) => json_object_members(body@) == Some(members.deep_view()),
            Err(_) => json_object_members(body@) is None,
        },
{
    let object: serde_json::Map<String, serde_json::Value> = serde_json::from_str(body)?;
    Ok(
        object.into_iter().map(
            |(name, value)| {
                let (integer, text) = (value.as_i64(), value.as_str().map(String::from));
                (name, integer, text)
            },
        ).collect(),
    )
}

/// The first member called `name`, if there is one.
pub open spec fn find_member(members: Seq<MemberView>, name: Seq<char>) -> Option<MemberView>
    decreases members.len(),
{
    if members.len() == 0 {
        None
    } else if members[0].0 == name {
        Some(members[0])
    } else {
        find_member(members.drop_first(), name)
    }
}

/// The reply that an object holds: its `StatusCode` must be an integer and
/// its `StatusMessage` a string. Other members are ignored.
pub open spec fn decoded_response(members: Seq<MemberView>) -> Option<WebHookOutputView> {
    match (find_member(members, "StatusCode"@), find_member(members, "StatusMessage"@)) {
        (Some(code), Some(message)) => match (code.1, message.2) {
            (Some(status_code), Some(status_message)) => Some(
                WebHookOutputView { status_code, status_message },
            ),
            _ => None,
        },
        _ => None,
    }
}

/// Status code 0 means that the request was accepted. Any other code is a
/// refusal, and the status message says why.
pub open spec fn classified(output: WebHookOutputView) -> Result<WebHookOutputView, SendErrorView> {
    if output.status_code == 0 {
        Ok(output)
    } else {
        Err(SendErrorView::Application(output.status_message))
    }
}

/// What a response body amounts to, given the members read out of it.
pub open spec fn response_outcome(parsed: Option<Seq<MemberView>>) -> Result<
    WebHookOutputView,
    SendErrorView,
> {
    match parsed {
        Some(members) => match decoded_response(members) {
            Some(output) => classified(output),
            None => Err(SendErrorView::Decode),
        },
        None => Err(SendErrorView::Decode),
    }
}

/// What a round trip amounts to: a transport failure as it is, else what the
/// body says.
pub open spec fn reply_outcome(reply: Result<Seq<char>, Seq<char>>) -> Result<
    WebHookOutputView,
    SendErrorView,
> {
    match reply {
        Ok(body) => response_outcome(json_object_members(body)),
        Err(detail) => Err(SendErrorView::Transport(detail)),
    }
}

/// The JSON literal of an integer.
pub open spec fn json_integer(value: int) -> Seq<char> {
    if value < 0 {
        "-"@ + decimal_digits((-value) as nat)
    } else {
        decimal_digits(value as nat)
    }
}

/// `{"StatusCode":…,"StatusMessage":…}`
pub open spec fn output_json(output: WebHookOutputView) -> Seq<char> {
    "{\"StatusCode\":"@ + json_integer(output.status_code as int) + ",\"StatusMessage\":"@
        + json_string(output.status_message) + "}"@
}

/// Where a member that is searched from `from` on is found in the whole.
proof fn lemma_find_member_skip(members: Seq<MemberView>, name: Seq<char>, from: int)
    requires
        0 <= from <= members.len(),
        forall|j: int| 0 <= j < from ==> (#[trigger] members[j]).0 != name,
    ensures
        find_member(members, name) == find_member(members.skip(from), name),
    decreases from,
{
    if from == 0 {
        assert(members.skip(0) =~= members);
    } else {
        lemma_find_member_skip(members, name, from - 1);
        let rest = members.skip(from - 1);
        assert(rest[0] == members[from - 1]);
        assert(rest.drop_first() =~= members.skip(from));
    }
}

/// Finds the first member called `name`.
fn position_of(members: &Vec<Member>, name: &str) -> (position: Option<usize>)
    ensures
        match position {
            Some(i) => i < members.len() && find_member(members.deep_view(), name@) == Some(
                members@[i as int].deep_view(),
            ),
            None => find_member(members.deep_view(), name@) is None,
        },
{
    let ghost all = members.deep_view();
    let mut i: usize = 0;
    while i < members.len()
        invariant
            i <= members.len(),
            all == members.deep_view(),
            forall|j: int| 0 <= j < i ==> (#[trigger] all[j]).0 != name@,
        decreases members.len() - i,
    {
        if text_eq(members[i].0.as_str(), name) {
            proof {
                lemma_find_member_skip(all, name@, i as int);
                assert(all.skip(i as int)[0] == all[i as int]);
            }
            return Some(i);
        }
        i += 1;
    }
    proof {
        lemma_find_member_skip(all, name@, all.len() as int);
    }
    None
}

impl WebHookOutput {
    /// A reply with the given status.
    pub fn new(status_code: i64, status_message: String) -> (output: WebHookOutput)
        ensures
            output@ == (WebHookOutputView { status_code, status_message: status_message@ }),
    {
        WebHookOutput { status_code, status_message }
    }

    /// The status code; 0 means that the request was accepted.
    pub fn status_code(&self) -> (status_code: i64)
        ensures
            status_code == self@.status_code,
    {
        self.status_code
    }

    /// The status message.
    pub fn status_message(&self) -> (status_message: &str)
        ensures
            status_message@ == self@.status_message,
    {
        self.status_message.as_str()
    }

    /// Writes the reply as the service does.
    pub fn to_json(&self) -> (json: String)
        ensures
            json@ == output_json(self@),
    {
        let mut json: String = String::from_str("{\"StatusCode\":");
        if self.status_code < 0 {
            let magnitude: u64 = (-(self.status_code + 1)) as u64 + 1;
            let ghost head = json@;
            json.append("-");
            json.append(decimal_string(magnitude).as_str());
            assert(json@ =~= head + json_integer(self.status_code as int));
        } else {
            json.append(decimal_string(self.status_code as u64).as_str());
        }
        json.append(",\"StatusMessage\":");
        json.append(quoted(self.status_message.as_str()).as_str());
        json.append("}");
        json
    }
}

/// Tells an accepted request from a refused one.
pub fn classify(output: WebHookOutput) -> (outcome: Result<WebHookOutput, SendError>)
    ensures
        outcome_view(outcome) == classified(output@),
{
    if output.status_code != 0 {
        Err(SendError::Application(output.status_message))
    } else {
        Ok(output)
    }
}

/// Reads the reply out of the members of a JSON object and classifies it.
pub fn response_from_members(members: &Vec<Member>) -> (outcome: Result<WebHookOutput, SendError>)
    ensures
        outcome_view(outcome) == response_outcome(Some(members.deep_view())),
{
    let code = position_of(members, "StatusCode");
    let message = position_of(members, "StatusMessage");
    match (code, message) {
        (Some(c), Some(m)) => {
            match (members[c].1, &members[m].2) {
                (Some(status_code), Some(status_message)) => classify(
                    WebHookOutput::new(status_code, status_message.clone()),
                ),
                _ => Err(SendError::Decode),
            }
        },
        _ => Err(SendError::Decode),
    }
}

/// Decodes and classifies the body of a response. A body that is not a JSON
/// object, or lacks an integer `StatusCode` or a string `StatusMessage`, is a
/// decode error; it is never taken for an accepted request.
pub fn decode_response(body: &str) -> (outcome: Result<WebHookOutput, SendError>)
    ensures
        outcome_view(outcome) == response_outcome(json_object_members(body@)),
        json_object_members(body@) is None ==> outcome_view(outcome) == Err::<
            WebHookOutputView,
            SendErrorView,
        >(SendErrorView::Decode),
{
    match parse_object(body) {
        Ok(members) => response_from_members(&members),
        Err(_) => Err(SendError::Decode),
    }
}

/// Turns what the transport brought back into the outcome of the send: the
/// body of the response, whatever the HTTP status was, or the reason why no
/// response was read.
pub fn interpret_reply(reply: Result<String, String>) -> (outcome: Result<WebHookOutput, SendError>)
    ensures
        outcome_view(outcome) == reply_outcome(
            match reply {
                Ok(body) => Ok(body@),
                Err(detail) => Err(detail@),
            },
        ),
{
    match reply {
        Ok(body) => decode_response(body.as_str()),
        Err(detail) => Err(SendError::Transport(detail)),
    }
}

} // verus!
