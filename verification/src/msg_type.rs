//! The message model: a plain text message, and a card made of a header and an
//! ordered list of elements.

use vstd::prelude::*;

verus! {

/// What a [`Text`] holds.
pub struct TextView {
    pub text: Seq<char>,
}

/// What a [`Context`] holds.
pub struct ContextView {
    pub tag: Seq<char>,
    pub content: Seq<char>,
}

/// What an [`Action`] holds.
pub struct ActionView {
    pub tag: Seq<char>,
    pub text: ContextView,
    pub url: Seq<char>,
    pub action_type: Seq<char>,
}

/// What a [`CardElement`] holds.
pub enum CardElementView {
    Div(ContextView),
    Action(Seq<ActionView>),
    Note(Seq<ContextView>),
}

/// What a [`Header`] holds.
pub struct HeaderView {
    pub title: ContextView,
    pub template: Seq<char>,
}

/// What a [`Config`] holds.
pub struct ConfigView {
    pub enable_forward: bool,
}

/// What a [`Card`] holds.
pub struct CardView {
    pub config: ConfigView,
    pub header: HeaderView,
    pub elements: Seq<CardElementView>,
}

/// A markdown fragment.
pub open spec fn lark_md(content: Seq<char>) -> ContextView {
    ContextView { tag: "lark_md"@, content }
}

/// A plain-text fragment.
pub open spec fn plain_text(content: Seq<char>) -> ContextView {
    ContextView { tag: "plain_text"@, content }
}

/// The body block that shows `msg`.
pub open spec fn text_element(msg: Seq<char>) -> CardElementView {
    CardElementView::Div(lark_md(msg))
}

/// The block with the one button that opens `url`.
pub open spec fn url_button_element(url: Seq<char>) -> CardElementView {
    CardElementView::Action(
        seq![
            ActionView {
                tag: "button"@,
                text: lark_md("查看详情"@),
                url,
                action_type: "primary"@,
            },
        ],
    )
}

/// The secondary-text block that shows `note`.
pub open spec fn note_element(note: Seq<char>) -> CardElementView {
    CardElementView::Note(seq![lark_md(note)])
}

/// The elements of a new card: one body block for each message, in the order
/// given, then the button block if there is a URL.
pub open spec fn new_card_elements(msgs: Seq<Seq<char>>, url: Option<Seq<char>>) -> Seq<
    CardElementView,
> {
    let blocks = msgs.map_values(|msg: Seq<char>| text_element(msg));
    match url {
        Some(u) => blocks.push(url_button_element(u)),
        None => blocks,
    }
}

/// The card that [`Card::new`] builds.
pub open spec fn new_card(title: Seq<char>, msgs: Seq<Seq<char>>, url: Option<Seq<char>>) -> CardView {
    CardView {
        config: ConfigView { enable_forward: true },
        header: HeaderView { title: plain_text(title), template: "wathet"@ },
        elements: new_card_elements(msgs, url),
    }
}

/// The views of a run of fragments.
pub open spec fn context_views(contexts: Seq<Context>) -> Seq<ContextView> {
    contexts.map_values(|c: Context| c@)
}

/// The views of a run of buttons.
pub open spec fn action_views(actions: Seq<Action>) -> Seq<ActionView> {
    actions.map_values(|a: Action| a@)
}

/// The views of a run of elements.
pub open spec fn element_views(elements: Seq<CardElement>) -> Seq<CardElementView> {
    elements.map_values(|e: CardElement| e@)
}

/// A plain text message.
#[derive(Debug)]
pub struct Text {
    text: String,
}

impl View for Text {
    type V = TextView;

    closed spec fn view(&self) -> TextView {
        TextView { text: self.text@ }
    }
}

impl Text {
    /// Wraps the message body as it is.
    pub fn new(msg: String) -> (text: Text)
        ensures
            text@.text == msg@,
    {
        Text { text: msg }
    }

    /// The message body.
    pub fn text(&self) -> (body: &str)
        ensures
            body@ == self@.text,
    {
        self.text.as_str()
    }
}

/// A text fragment together with the way it is to be rendered.
#[derive(Debug)]
pub struct Context {
    tag: String,
    content: String,
}

impl View for Context {
    type V = ContextView;

    closed spec fn view(&self) -> ContextView {
        ContextView { tag: self.tag@, content: self.content@ }
    }
}

impl Context {
    /// The rendering mode.
    pub fn tag(&self) -> (tag: &str)
        ensures
            tag@ == self@.tag,
    {
        self.tag.as_str()
    }

    /// The text itself.
    pub fn content(&self) -> (content: &str)
        ensures
            content@ == self@.content,
    {
        self.content.as_str()
    }
}

/// A button of an action block.
#[derive(Debug)]
pub struct Action {
    tag: String,
    text: Context,
    url: String,
    action_type: String,
}

impl View for Action {
    type V = ActionView;

    closed spec fn view(&self) -> ActionView {
        ActionView {
            tag: self.tag@,
            text: self.text@,
            url: self.url@,
            action_type: self.action_type@,
        }
    }
}

impl Action {
    /// The kind of control.
    pub fn tag(&self) -> (tag: &str)
        ensures
            tag@ == self@.tag,
    {
        self.tag.as_str()
    }

    /// The label.
    pub fn text(&self) -> (text: &Context)
        ensures
            text@ == self@.text,
    {
        &self.text
    }

    /// The address that the button opens.
    pub fn url(&self) -> (url: &str)
        ensures
            url@ == self@.url,
    {
        self.url.as_str()
    }

    /// The visual style.
    pub fn action_type(&self) -> (action_type: &str)
        ensures
            action_type@ == self@.action_type,
    {
        self.action_type.as_str()
    }
}

/// What an element shows.
#[derive(Debug)]
enum Body {
    Div(Context),
    Action(Vec<Action>),
    Note(Vec<Context>),
}

/// One visual block of a card: a body block, a row of buttons, or a note.
/// Exactly one kind of content is present, and the wire tag follows from it.
#[derive(Debug)]
pub struct CardElement {
    body: Body,
}

impl View for CardElement {
    type V = CardElementView;

    closed spec fn view(&self) -> CardElementView {
        match self.body {
            Body::Div(text) => CardElementView::Div(text@),
            Body::Action(actions) => CardElementView::Action(action_views(actions@)),
            Body::Note(notes) => CardElementView::Note(context_views(notes@)),
        }
    }
}

impl CardElementView {
    /// The tag under which the element goes on the wire.
    pub open spec fn tag(self) -> Seq<char> {
        match self {
            CardElementView::Div(_) => "div"@,
            CardElementView::Action(_) => "action"@,
            CardElementView::Note(_) => "note"@,
        }
    }

    /// A body block shows markdown; a row of buttons has at least one
    /// button; a note has at least one fragment, each of them markdown.
    pub open spec fn well_formed(self) -> bool {
        match self {
            CardElementView::Div(text) => text.tag == "lark_md"@,
            CardElementView::Action(actions) => actions.len() >= 1,
            CardElementView::Note(notes) => notes.len() >= 1 && forall|i: int|
                0 <= i < notes.len() ==> (#[trigger] notes[i]).tag == "lark_md"@,
        }
    }
}

impl CardElement {
    #[verifier::type_invariant]
    closed spec fn inv(self) -> bool {
        self@.well_formed()
    }

    /// A body block that shows `msg` as markdown.
    pub fn new_text(msg: String) -> (element: CardElement)
        ensures
            element@ == text_element(msg@),
    {
        CardElement { body: Body::Div(Context { tag: String::from_str("lark_md"), content: msg }) }
    }

    /// An action block with a single primary button that opens `url`.
    pub fn new_url_button(url: String) -> (element: CardElement)
        ensures
            element@ == url_button_element(url@),
    {
        let button = Action {
            tag: String::from_str("button"),
            text: Context {
                tag: String::from_str("lark_md"),
                content: String::from_str("查看详情"),
            },
            url,
            action_type: String::from_str("primary"),
        };
        let ghost shown = button@;
        let mut actions: Vec<Action> = Vec::new();
        actions.push(button);
        assert(action_views(actions@) =~= seq![shown]);
        CardElement { body: Body::Action(actions) }
    }

    /// A note block that shows `note` as markdown.
    pub fn new_note(note: String) -> (element: CardElement)
        ensures
            element@ == note_element(note@),
    {
        let fragment = Context { tag: String::from_str("lark_md"), content: note };
        let ghost shown = fragment@;
        let mut notes: Vec<Context> = Vec::new();
        notes.push(fragment);
        assert(context_views(notes@) =~= seq![shown]);
        CardElement { body: Body::Note(notes) }
    }

    /// The tag under which the element goes on the wire.
    pub fn tag(&self) -> (tag: &'static str)
        ensures
            tag@ == self@.tag(),
    {
        match &self.body {
            Body::Div(_) => "div",
            Body::Action(_) => "action",
            Body::Note(_) => "note",
        }
    }

    /// The markdown of a body block; `None` for an element of another kind.
    pub fn text(&self) -> (text: Option<&Context>)
        ensures
            self@.well_formed(),
            match text {
                Some(shown) => self@ == CardElementView::Div(shown@),
                None => !(self@ is Div),
            },
    {
        proof {
            use_type_invariant(self);
        }
        match &self.body {
            Body::Div(text) => Some(text),
            _ => None,
        }
    }

    /// The buttons of an action block, of which there is at least one; `None`
    /// for an element of another kind.
    pub fn actions(&self) -> (actions: Option<&Vec<Action>>)
        ensures
            self@.well_formed(),
            match actions {
                Some(buttons) => self@ == CardElementView::Action(action_views(buttons@)),
                None => !(self@ is Action),
            },
    {
        proof {
            use_type_invariant(self);
        }
        match &self.body {
            Body::Action(actions) => Some(actions),
            _ => None,
        }
    }

    /// The fragments of a note, of which there is at least one; `None` for an
    /// element of another kind.
    pub fn note(&self) -> (note: Option<&Vec<Context>>)
        ensures
            self@.well_formed(),
            match note {
                Some(fragments) => self@ == CardElementView::Note(context_views(fragments@)),
                None => !(self@ is Note),
            },
    {
        proof {
            use_type_invariant(self);
        }
        match &self.body {
            Body::Note(notes) => Some(notes),
            _ => None,
        }
    }
}

/// The settings of a card.
#[derive(Debug)]
pub struct Config {
    enable_forward: bool,
}

impl View for Config {
    type V = ConfigView;

    closed spec fn view(&self) -> ConfigView {
        ConfigView { enable_forward: self.enable_forward }
    }
}

impl Config {
    /// Whether readers may forward the card.
    pub fn enable_forward(&self) -> (enabled: bool)
        ensures
            enabled == self@.enable_forward,
    {
        self.enable_forward
    }
}

/// The title bar of a card.
#[derive(Debug)]
pub struct Header {
    title: Context,
    template: String,
}

impl View for Header {
    type V = HeaderView;

    closed spec fn view(&self) -> HeaderView {
        HeaderView { title: self.title@, template: self.template@ }
    }
}

impl Header {
    /// The title.
    pub fn title(&self) -> (title: &Context)
        ensures
            title@ == self@.title,
    {
        &self.title
    }

    /// The name of the colour scheme.
    pub fn template(&self) -> (template: &str)
        ensures
            template@ == self@.template,
    {
        self.template.as_str()
    }
}

/// A structured message: settings, a title bar, and the elements in the
/// order in which they are shown.
#[derive(Debug)]
pub struct Card {
    config: Config,
    header: Header,
    card_elements: Vec<CardElement>,
}

impl View for Card {
    type V = CardView;

    closed spec fn view(&self) -> CardView {
        CardView {
            config: self.config@,
            header: self.header@,
            elements: element_views(self.card_elements@),
        }
    }
}

impl CardView {
    /// Forwarding is on, the title is plain text, and every element is well
    /// formed.
    pub open spec fn well_formed(self) -> bool {
        &&& self.config.enable_forward
        &&& self.header.title.tag == "plain_text"@
        &&& forall|i: int|
            0 <= i < self.elements.len() ==> (#[trigger] self.elements[i]).well_formed()
    }
}

impl Card {
    #[verifier::type_invariant]
    closed spec fn inv(self) -> bool {
        self@.well_formed()
    }

    /// A card titled `title` in the default colour scheme, with one body block
    /// for each of `msgs`, in their order, followed by a button that opens
    /// `url` if one is given. `msgs` may be empty.
    pub fn new(title: String, msgs: Vec<String>, url: Option<String>) -> (card: Card)
        ensures
            card@ == new_card(title@, msgs.deep_view(), url.deep_view()),
            card@.well_formed(),
    {
        let ghost texts = msgs.deep_view();
        let mut card_elements: Vec<CardElement> = Vec::new();
        for msg in it: msgs
            invariant
                texts == it.seq().map_values(|s: String| s@),
                element_views(card_elements@) == texts.take(it.index()).map_values(
                    |m: Seq<char>| text_element(m),
                ),
                forall|i: int|
                    0 <= i < card_elements@.len() ==> (#[trigger] element_views(
                        card_elements@,
                    )[i]).well_formed(),
        {
            let ghost before = element_views(card_elements@);
            let element = CardElement::new_text(msg);
            card_elements.push(element);
            assert(element_views(card_elements@) =~= before.push(text_element(texts[it.index()])));
            assert(texts.take(it.index() + 1).map_values(|m: Seq<char>| text_element(m))
                =~= before.push(text_element(texts[it.index()])));
        }
        assert(texts.take(texts.len() as int) =~= texts);
        match url {
            Some(url) => {
                let ghost before = element_views(card_elements@);
                let button = CardElement::new_url_button(url);
                card_elements.push(button);
                assert(element_views(card_elements@) =~= before.push(url_button_element(url@)));
            },
            None => {},
        }
        Card {
            config: Config { enable_forward: true },
            header: Header {
                title: Context { tag: String::from_str("plain_text"), content: title },
                template: String::from_str("wathet"),
            },
            card_elements,
        }
    }

    /// Replaces the colour scheme of the title bar. Any name is accepted.
    pub fn set_title_color(&mut self, color: &str)
        ensures
            final(self)@ == (CardView {
                header: HeaderView { template: color@, ..old(self)@.header },
                ..old(self)@
            }),
            final(self)@.well_formed(),
    {
        proof {
            use_type_invariant(&*self);
        }
        self.header.template = String::from_str(color);
    }

    /// Adds `element` after the elements that the card already has.
    pub fn append_elements(&mut self, element: CardElement)
        ensures
            final(self)@ == (CardView {
                elements: old(self)@.elements.push(element@),
                ..old(self)@
            }),
            final(self)@.well_formed(),
    {
        proof {
            use_type_invariant(&*self);
            use_type_invariant(&element);
        }
        let ghost before = element_views(self.card_elements@);
        // The elements leave the card while the new one is added, so that the
        // card is well formed at every step.
        let mut elements: Vec<CardElement> = Vec::new();
        core::mem::swap(&mut self.card_elements, &mut elements);
        elements.push(element);
        assert(element_views(elements@) =~= before.push(element@));
        core::mem::swap(&mut self.card_elements, &mut elements);
    }

    /// The settings.
    pub fn config(&self) -> (config: &Config)
        ensures
            config@ == self@.config,
            self@.well_formed(),
    {
        proof {
            use_type_invariant(self);
        }
        &self.config
    }

    /// The title bar.
    pub fn header(&self) -> (header: &Header)
        ensures
            header@ == self@.header,
            self@.well_formed(),
    {
        proof {
            use_type_invariant(self);
        }
        &self.header
    }

    /// The elements, in the order in which they are shown.
    pub fn elements(&self) -> (elements: &Vec<CardElement>)
        ensures
            element_views(elements@) == self@.elements,
            self@.well_formed(),
    {
        proof {
            use_type_invariant(self);
        }
        &self.card_elements
    }
}

} // verus!
