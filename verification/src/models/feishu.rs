use vstd::prelude::*;

use crate::text::opt_view;

verus! {

/// Feishu webhook message types (interactive card only).
#[derive(Debug, Clone, PartialEq)]
pub enum FeishuMessage {
    Interactive { card: Card },
}

/// An interactive card.
#[derive(Debug, Clone, PartialEq)]
pub struct Card {
    pub header: Option<CardHeader>,
    pub elements: Vec<CardElement>,
}

#[derive(Debug, Clone, PartialEq)]
pub struct CardHeader {
    pub title: CardText,
    pub template: Option<String>,
}

#[derive(Debug, Clone, PartialEq)]
pub struct CardText {
    pub tag: String,
    pub content: String,
}

#[derive(Debug, Clone, PartialEq)]
pub enum CardElement {
    Div { text: Option<CardMarkdown>, fields: Option<Vec<CardField>> },
    Hr {},
    Action { actions: Vec<CardAction> },
    Note { elements: Vec<CardMarkdown> },
}

#[derive(Debug, Clone, PartialEq)]
pub struct CardMarkdown {
    pub tag: String,
    pub content: String,
}

#[derive(Debug, Clone, PartialEq)]
pub struct CardField {
    pub is_short: bool,
    pub text: CardMarkdown,
}

#[derive(Debug, Clone, PartialEq)]
pub enum CardAction {
    Button { text: CardText, url: String, button_type: String, width: Option<String> },
}

// ============ Abstract view of a message ============

/// A text node: its tag (`plain_text`, `lark_md`) and content.
pub struct TextV {
    pub tag: Seq<char>,
    pub content: Seq<char>,
}

pub struct FieldV {
    pub is_short: bool,
    pub text: TextV,
}

pub struct HeaderV {
    pub title: TextV,
    pub template: Option<Seq<char>>,
}

pub enum ActionV {
    Button { text: TextV, url: Seq<char>, button_type: Seq<char>, width: Option<Seq<char>> },
}

pub enum ElementV {
    Div { text: Option<TextV>, fields: Option<Seq<FieldV>> },
    Hr,
    Action { actions: Seq<ActionV> },
    Note { elements: Seq<TextV> },
}

pub struct CardV {
    pub header: Option<HeaderV>,
    pub elements: Seq<ElementV>,
}

impl View for CardText {
    type V = TextV;

    open spec fn view(&self) -> TextV {
        TextV { tag: self.tag@, content: self.content@ }
    }
}

impl View for CardMarkdown {
    type V = TextV;

    open spec fn view(&self) -> TextV {
        TextV { tag: self.tag@, content: self.content@ }
    }
}

impl View for CardField {
    type V = FieldV;

    open spec fn view(&self) -> FieldV {
        FieldV { is_short: self.is_short, text: self.text@ }
    }
}

impl View for CardHeader {
    type V = HeaderV;

    open spec fn view(&self) -> HeaderV {
        HeaderV { title: self.title@, template: opt_view(self.template) }
    }
}

impl View for CardAction {
    type V = ActionV;

    open spec fn view(&self) -> ActionV {
        match self {
            CardAction::Button { text, url, button_type, width } => ActionV::Button {
                text: text@,
                url: url@,
                button_type: button_type@,
                width: opt_view(*width),
            },
        }
    }
}

/// The views of a vector's items.
pub open spec fn item_views<T: View>(v: Seq<T>) -> Seq<T::V> {
    Seq::new(v.len(), |i: int| v[i]@)
}

impl View for CardElement {
    type V = ElementV;

    open spec fn view(&self) -> ElementV {
        match self {
            CardElement::Div { text, fields } => ElementV::Div {
                text: match text {
                    Some(t) => Some(t@),
                    None => None,
                },
                fields: match fields {
                    Some(f) => Some(item_views(f@)),
                    None => None,
                },
            },
            CardElement::Hr {  } => ElementV::Hr,
            CardElement::Action { actions } => ElementV::Action { actions: item_views(actions@) },
            CardElement::Note { elements } => ElementV::Note { elements: item_views(elements@) },
        }
    }
}

impl View for FeishuMessage {
    type V = CardV;

    open spec fn view(&self) -> CardV {
        match self {
            FeishuMessage::Interactive { card } => CardV {
                header: match card.header {
                    Some(h) => Some(h@),
                    None => None,
                },
                elements: item_views(card.elements@),
            },
        }
    }
}

/// A `lark_md` text node.
pub open spec fn markdown_v(content: Seq<char>) -> TextV {
    TextV { tag: "lark_md"@, content }
}

// ============ Builder Helpers ============

impl FeishuMessage {
    /// Create an interactive card message.
    pub fn card(header: Option<CardHeader>, elements: Vec<CardElement>) -> (r: Self)
        ensures
            r == (FeishuMessage::Interactive { card: Card { header, elements } }),
    {
        FeishuMessage::Interactive { card: Card { header, elements } }
    }
}

impl CardHeader {
    /// A header with a plain-text title and an optional colour template.
    pub fn new(title: &str, color: Option<&str>) -> (r: Self)
        ensures
            r@ == (HeaderV {
                title: TextV { tag: "plain_text"@, content: title@ },
                template: match color {
                    Some(c) => Some(c@),
                    None => None,
                },
            }),
    {
        CardHeader {
            title: CardText { tag: "plain_text".to_owned(), content: title.to_owned() },
            template: match color {
                Some(c) => Some(c.to_owned()),
                None => None,
            },
        }
    }
}

impl CardMarkdown {
    /// A `lark_md` text node.
    pub fn new(content: &str) -> (r: Self)
        ensures
            r@ == markdown_v(content@),
    {
        CardMarkdown { tag: "lark_md".to_owned(), content: content.to_owned() }
    }
}

impl CardField {
    /// A field holding `lark_md` content.
    pub fn new(content: &str, is_short: bool) -> (r: Self)
        ensures
            r@ == (FieldV { is_short, text: markdown_v(content@) }),
    {
        CardField { is_short, text: CardMarkdown::new(content) }
    }
}

} // verus!
