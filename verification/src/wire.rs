//! The JSON text of the message model, as the remote service reads it.
//!
//! Objects are written compactly, members in a fixed order. Every string
//! value is quoted and escaped by serde_json.

use crate::msg_type::{
    action_views, context_views, element_views, Action, ActionView, Card, CardElement,
    CardElementView, CardView, Context, ContextView, Text, TextView,
};
use vstd::prelude::*;

verus! {

/// The error type of serde_json. Nothing is read out of it.
#[verifier::external_type_specification]
#[verifier::external_body]
pub struct ExJsonError(serde_json::Error);

/// The JSON string literal that stands for `text`: quoted and escaped.
pub uninterp spec fn json_string(text: Seq<char>) -> Seq<char>;

/// Calls `serde_json::to_string` on a string slice. The contract names the
/// literal after the text, and promises success: the serializer writes into a
/// byte vector and a string slice always serializes, so no error can arise.
#[verifier::external_body]
fn json_quote(text: &str) -> (quoted: Result<String, serde_json::Error>)
    ensures
        quoted is Ok,
        quoted matches Ok(literal) ==> literal@ == json_string(text@),
{
    serde_json::to_string(text)
}

/// The JSON literal of a boolean.
pub open spec fn json_bool(value: bool) -> Seq<char> {
    if value {
        "true"@
    } else {
        "false"@
    }
}

/// The items with a comma between each two neighbours.
pub open spec fn comma_separated(items: Seq<Seq<char>>) -> Seq<char>
    decreases items.len(),
{
    if items.len() == 0 {
        Seq::<char>::empty()
    } else if items.len() == 1 {
        items[0]
    } else {
        comma_separated(items.drop_last()) + ","@ + items.last()
    }
}

/// The JSON array whose items are the given JSON texts, in their order.
pub open spec fn json_array(items: Seq<Seq<char>>) -> Seq<char> {
    "["@ + comma_separated(items) + "]"@
}

/// `{"text":…}`
pub open spec fn text_json(text: TextView) -> Seq<char> {
    "{\"text\":"@ + json_string(text.text) + "}"@
}

/// `{"tag":…,"content":…}`
pub open spec fn context_json(context: ContextView) -> Seq<char> {
    "{\"tag\":"@ + json_string(context.tag) + ",\"content\":"@ + json_string(context.content)
        + "}"@
}

/// `{"tag":…,"text":{…},"url":…,"type":…}`
pub open spec fn action_json(action: ActionView) -> Seq<char> {
    "{\"tag\":"@ + json_string(action.tag) + ",\"text\":"@ + context_json(action.text)
        + ",\"url\":"@ + json_string(action.url) + ",\"type\":"@ + json_string(action.action_type)
        + "}"@
}

/// The JSON texts of a run of fragments.
pub open spec fn context_jsons(contexts: Seq<ContextView>) -> Seq<Seq<char>> {
    contexts.map_values(|c: ContextView| context_json(c))
}

/// The JSON texts of a run of buttons.
pub open spec fn action_jsons(actions: Seq<ActionView>) -> Seq<Seq<char>> {
    actions.map_values(|a: ActionView| action_json(a))
}

/// The tag of the element, then the one member that holds its content:
/// `"text"` for a body block, `"actions"` for buttons, `"elements"` for a
/// note. No other member is written.
pub open spec fn element_json(element: CardElementView) -> Seq<char> {
    match element {
        CardElementView::Div(text) => "{\"tag\":"@ + json_string(element.tag()) + ",\"text\":"@
            + context_json(text) + "}"@,
        CardElementView::Action(actions) => "{\"tag\":"@ + json_string(element.tag())
            + ",\"actions\":"@ + json_array(action_jsons(actions)) + "}"@,
        CardElementView::Note(notes) => "{\"tag\":"@ + json_string(element.tag())
            + ",\"elements\":"@ + json_array(context_jsons(notes)) + "}"@,
    }
}

/// The JSON texts of a run of elements.
pub open spec fn element_jsons(elements: Seq<CardElementView>) -> Seq<Seq<char>> {
    elements.map_values(|e: CardElementView| element_json(e))
}

/// `{"config":{"enable_forward":…},"header":{"title":{…},"template":…},"elements":[…]}`
pub open spec fn card_json(card: CardView) -> Seq<char> {
    "{\"config\":{\"enable_forward\":"@ + json_bool(card.config.enable_forward)
        + "},\"header\":{\"title\":"@ + context_json(card.header.title) + ",\"template\":"@
        + json_string(card.header.template) + "},\"elements\":"@ + json_array(
        element_jsons(card.elements),
    ) + "}"@
}

/// The texts that a run of strings holds.
pub open spec fn texts_of(items: Seq<String>) -> Seq<Seq<char>> {
    items.map_values(|s: String| s@)
}

/// Quotes and escapes `text` as a JSON string literal.
pub(crate) fn quoted(text: &str) -> (literal: String)
    ensures
        literal@ == json_string(text@),
{
    json_quote(text).unwrap()
}

/// Writes the JSON array of items that are JSON texts already.
pub fn array_to_json(items: &Vec<String>) -> (json: String)
    ensures
        json@ == json_array(texts_of(items@)),
{
    let ghost texts = texts_of(items@);
    let mut json: String = String::from_str("[");
    let mut i: usize = 0;
    assert(comma_separated(texts.take(0)) =~= Seq::<char>::empty());
    assert("["@ + Seq::<char>::empty() =~= "["@);
    while i < items.len()
        invariant
            i <= items.len(),
            texts == texts_of(items@),
            json@ == "["@ + comma_separated(texts.take(i as int)),
        decreases items.len() - i,
    {
        let ghost done = comma_separated(texts.take(i as int));
        assert(texts.take(i + 1).drop_last() =~= texts.take(i as int));
        assert(texts.take(i + 1).last() == items@[i as int]@);
        if i > 0 {
            json.append(",");
            assert(json@ + items@[i as int]@ =~= "["@ + (done + ","@ + items@[i as int]@));
        } else {
            assert(done =~= Seq::<char>::empty());
            assert(json@ + items@[i as int]@ =~= "["@ + items@[i as int]@);
        }
        json.append(items[i].as_str());
        i += 1;
    }
    assert(texts.take(items.len() as int) =~= texts);
    json.append("]");
    json
}

/// Writes a text message.
pub fn text_to_json(text: &Text) -> (json: String)
    ensures
        json@ == text_json(text@),
{
    let mut json: String = String::from_str("{\"text\":");
    json.append(quoted(text.text()).as_str());
    json.append("}");
    json
}

/// Writes a text fragment.
pub fn context_to_json(context: &Context) -> (json: String)
    ensures
        json@ == context_json(context@),
{
    let mut json: String = String::from_str("{\"tag\":");
    json.append(quoted(context.tag()).as_str());
    json.append(",\"content\":");
    json.append(quoted(context.content()).as_str());
    json.append("}");
    json
}

/// Writes a button.
pub fn action_to_json(action: &Action) -> (json: String)
    ensures
        json@ == action_json(action@),
{
    let mut json: String = String::from_str("{\"tag\":");
    json.append(quoted(action.tag()).as_str());
    json.append(",\"text\":");
    json.append(context_to_json(action.text()).as_str());
    json.append(",\"url\":");
    json.append(quoted(action.url()).as_str());
    json.append(",\"type\":");
    json.append(quoted(action.action_type()).as_str());
    json.append("}");
    json
}

/// Writes a run of fragments as a JSON array.
fn contexts_to_json(contexts: &Vec<Context>) -> (json: String)
    ensures
        json@ == json_array(context_jsons(context_views(contexts@))),
{
    let mut items: Vec<String> = Vec::new();
    let mut i: usize = 0;
    while i < contexts.len()
        invariant
            i <= contexts.len(),
            texts_of(items@) == context_jsons(context_views(contexts@.take(i as int))),
        decreases contexts.len() - i,
    {
        let ghost before = texts_of(items@);
        let item = context_to_json(&contexts[i]);
        items.push(item);
        assert(texts_of(items@) =~= before.push(context_json(contexts@[i as int]@)));
        assert(context_jsons(context_views(contexts@.take(i + 1))) =~= before.push(
            context_json(contexts@[i as int]@),
        ));
        i += 1;
    }
    assert(contexts@.take(contexts.len() as int) =~= contexts@);
    array_to_json(&items)
}

/// Writes a run of buttons as a JSON array.
fn actions_to_json(actions: &Vec<Action>) -> (json: String)
    ensures
        json@ == json_array(action_jsons(action_views(actions@))),
{
    let mut items: Vec<String> = Vec::new();
    let mut i: usize = 0;
    while i < actions.len()
        invariant
            i <= actions.len(),
            texts_of(items@) == action_jsons(action_views(actions@.take(i as int))),
        decreases actions.len() - i,
    {
        let ghost before = texts_of(items@);
        let item = action_to_json(&actions[i]);
        items.push(item);
        assert(texts_of(items@) =~= before.push(action_json(actions@[i as int]@)));
        assert(action_jsons(action_views(actions@.take(i + 1))) =~= before.push(
            action_json(actions@[i as int]@),
        ));
        i += 1;
    }
    assert(actions@.take(actions.len() as int) =~= actions@);
    array_to_json(&items)
}

/// Writes one element of a card.
pub fn element_to_json(element: &CardElement) -> (json: String)
    ensures
        json@ == element_json(element@),
{
    let mut json: String = String::from_str("{\"tag\":");
    json.append(quoted(element.tag()).as_str());
    if let Some(text) = element.text() {
        json.append(",\"text\":");
        json.append(context_to_json(text).as_str());
    } else if let Some(actions) = element.actions() {
        json.append(",\"actions\":");
        json.append(actions_to_json(actions).as_str());
    } else {
        let notes = element.note().unwrap();
        json.append(",\"elements\":");
        json.append(contexts_to_json(notes).as_str());
    }
    json.append("}");
    json
}

/// Writes the elements of a card as a JSON array.
fn elements_to_json(elements: &Vec<CardElement>) -> (json: String)
    ensures
        json@ == json_array(element_jsons(element_views(elements@))),
{
    let mut items: Vec<String> = Vec::new();
    let mut i: usize = 0;
    while i < elements.len()
        invariant
            i <= elements.len(),
            texts_of(items@) == element_jsons(element_views(elements@.take(i as int))),
        decreases elements.len() - i,
    {
        let ghost before = texts_of(items@);
        let item = element_to_json(&elements[i]);
        items.push(item);
        assert(texts_of(items@) =~= before.push(element_json(elements@[i as int]@)));
        assert(element_jsons(element_views(elements@.take(i + 1))) =~= before.push(
            element_json(elements@[i as int]@),
        ));
        i += 1;
    }
    assert(elements@.take(elements.len() as int) =~= elements@);
    array_to_json(&items)
}

/// Writes a card.
pub fn card_to_json(card: &Card) -> (json: String)
    ensures
        json@ == card_json(card@),
{
    let mut json: String = String::from_str("{\"config\":{\"enable_forward\":");
    if card.config().enable_forward() {
        json.append("true");
    } else {
        json.append("false");
    }
    json.append("},\"header\":{\"title\":");
    json.append(context_to_json(card.header().title()).as_str());
    json.append(",\"template\":");
    json.append(quoted(card.header().template()).as_str());
    json.append("},\"elements\":");
    json.append(elements_to_json(card.elements()).as_str());
    json.append("}");
    json
}

} // verus!
