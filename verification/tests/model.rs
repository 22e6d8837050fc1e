use feishu_notifier::msg_type::{Card, CardElement, Text};

fn strings(items: &[&str]) -> Vec<String> {
    items.iter().map(|s| s.to_string()).collect()
}

#[test]
fn text_new_wraps_the_body_unchanged() {
    let text = Text::new("hello word".to_string());
    assert_eq!(text.text(), "hello word");
    let empty = Text::new(String::new());
    assert_eq!(empty.text(), "");
}

#[test]
fn card_new_without_messages_or_url_has_only_a_header() {
    let card = Card::new("T".to_string(), Vec::new(), None);
    assert_eq!(card.header().title().content(), "T");
    assert_eq!(card.header().title().tag(), "plain_text");
    assert!(card.config().enable_forward());
    assert_eq!(card.header().template(), "wathet");
    assert!(card.elements().is_empty());
}

#[test]
fn card_new_with_two_messages_and_url_has_three_elements_in_order() {
    let card = Card::new("T".to_string(), strings(&["a", "b"]), Some("http://x".to_string()));
    let elements = card.elements();
    assert_eq!(elements.len(), 3);
    let first = elements[0].text().unwrap();
    assert_eq!(first.tag(), "lark_md");
    assert_eq!(first.content(), "a");
    assert_eq!(elements[1].text().unwrap().content(), "b");
    let actions = elements[2].actions().unwrap();
    assert_eq!(actions.len(), 1);
    assert_eq!(actions[0].url(), "http://x");
    assert!(elements[2].text().is_none());
    assert_eq!(elements[0].tag(), "div");
    assert_eq!(elements[1].tag(), "div");
    assert_eq!(elements[2].tag(), "action");
}

#[test]
fn card_new_without_messages_but_with_url_has_only_the_button() {
    let card = Card::new("T".to_string(), Vec::new(), Some("http://x".to_string()));
    assert_eq!(card.elements().len(), 1);
    assert_eq!(card.elements()[0].tag(), "action");
    assert_eq!(card.elements()[0].actions().unwrap()[0].url(), "http://x");
}

#[test]
fn card_new_keeps_repeated_messages() {
    let card = Card::new(
        "test".to_string(),
        strings(&["**key1**: value1", "**key1**: value1"]),
        Some("https://www.google.com".to_string()),
    );
    assert_eq!(card.elements().len(), 3);
    for element in &card.elements()[..2] {
        assert_eq!(element.text().unwrap().content(), "**key1**: value1");
    }
}

#[test]
fn new_text_is_a_markdown_div() {
    let element = CardElement::new_text("**bold**".to_string());
    assert_eq!(element.tag(), "div");
    let text = element.text().unwrap();
    assert_eq!(text.tag(), "lark_md");
    assert_eq!(text.content(), "**bold**");
    assert!(element.actions().is_none());
    assert!(element.note().is_none());
}

#[test]
fn new_url_button_is_one_primary_button_with_the_fixed_label() {
    let element = CardElement::new_url_button("https://example.com/a?b=c".to_string());
    assert_eq!(element.tag(), "action");
    let actions = element.actions().unwrap();
    assert_eq!(actions.len(), 1);
    let button = &actions[0];
    assert_eq!(button.tag(), "button");
    assert_eq!(button.text().tag(), "lark_md");
    assert_eq!(button.text().content(), "查看详情");
    assert_eq!(button.url(), "https://example.com/a?b=c");
    assert_eq!(button.action_type(), "primary");
    assert!(element.text().is_none());
    assert!(element.note().is_none());
}

#[test]
fn new_note_is_one_markdown_fragment() {
    let element = CardElement::new_note("sent by the build".to_string());
    assert_eq!(element.tag(), "note");
    let notes = element.note().unwrap();
    assert_eq!(notes.len(), 1);
    assert_eq!(notes[0].tag(), "lark_md");
    assert_eq!(notes[0].content(), "sent by the build");
    assert!(element.text().is_none());
    assert!(element.actions().is_none());
}

#[test]
fn set_title_color_changes_only_the_template() {
    let mut card = Card::new("T".to_string(), strings(&["a"]), None);
    card.set_title_color("red");
    assert_eq!(card.header().template(), "red");
    assert_eq!(card.header().title().content(), "T");
    assert_eq!(card.header().title().tag(), "plain_text");
    assert!(card.config().enable_forward());
    assert_eq!(card.elements().len(), 1);
    card.set_title_color("no such colour");
    assert_eq!(card.header().template(), "no such colour");
}

#[test]
fn append_elements_adds_at_the_end() {
    let mut card = Card::new("T".to_string(), strings(&["a"]), Some("http://x".to_string()));
    card.append_elements(CardElement::new_note("n".to_string()));
    card.append_elements(CardElement::new_text("late".to_string()));
    let tags: Vec<&str> = card.elements().iter().map(|e| e.tag()).collect();
    assert_eq!(tags, vec!["div", "action", "note", "div"]);
    assert_eq!(card.elements()[3].text().unwrap().content(), "late");
    assert_eq!(card.elements()[2].note().unwrap()[0].content(), "n");
    assert_eq!(card.header().template(), "wathet");
}
