//! Pages that editors compose from elements.

pub mod render;

use vstd::prelude::*;
use vstd::string::StringExecFns;

verus! {

/// The rank of a header.
#[derive(Clone, Copy, Debug, PartialEq, Eq, Structural)]
pub enum HeaderSize {
    H1,
    H2,
    H3,
    H4,
}

impl HeaderSize {
    /// The tag that opens a header of this rank.
    pub open spec fn opening(self) -> Seq<char> {
        match self {
            HeaderSize::H1 => "<h1>"@,
            HeaderSize::H2 => "<h2>"@,
            HeaderSize::H3 => "<h3>"@,
            HeaderSize::H4 => "<h4>"@,
        }
    }

    /// The tag that closes a header of this rank.
    pub open spec fn closing(self) -> Seq<char> {
        match self {
            HeaderSize::H1 => "</h1>"@,
            HeaderSize::H2 => "</h2>"@,
            HeaderSize::H3 => "</h3>"@,
            HeaderSize::H4 => "</h4>"@,
        }
    }

    /// The tags that open and close a header of this rank.
    pub fn into_tag(self) -> (tags: (String, String))
        ensures
            tags.0@ == self.opening(),
            tags.1@ == self.closing(),
    {
        let (open, close) = match self {
            Self::H1 => ("<h1>", "</h1>"),
            Self::H2 => ("<h2>", "</h2>"),
            Self::H3 => ("<h3>", "</h3>"),
            Self::H4 => ("<h4>", "</h4>"),
        };
        (String::from_str(open), String::from_str(close))
    }
}

/// How a piece of text is set.
#[derive(Clone, Copy, Debug, PartialEq, Eq, Structural)]
pub enum TextModifier {
    Bold,
    Italic,
    Underline,
}

impl TextModifier {
    /// The tag that opens text set this way.
    pub open spec fn opening(self) -> Seq<char> {
        match self {
            TextModifier::Bold => "<b>"@,
            TextModifier::Italic => "<i>"@,
            TextModifier::Underline => "<p class=\"underline\">"@,
        }
    }

    /// The tag that closes text set this way.
    pub open spec fn closing(self) -> Seq<char> {
        match self {
            TextModifier::Bold => "</b>"@,
            TextModifier::Italic => "</i>"@,
            TextModifier::Underline => "</p>"@,
        }
    }

    /// The tags that open and close text set this way.
    pub fn into_tag(self) -> (tags: (String, String))
        ensures
            tags.0@ == self.opening(),
            tags.1@ == self.closing(),
    {
        let (open, close) = match self {
            Self::Bold => ("<b>", "</b>"),
            Self::Italic => ("<i>", "</i>"),
            Self::Underline => ("<p class=\"underline\">", "</p>"),
        };
        (String::from_str(open), String::from_str(close))
    }
}

/// A piece of text with the ways it is set and where it leads.
#[derive(Debug)]
pub struct TextComponent {
    pub modifiers: Vec<TextModifier>,
    pub link: Option<String>,
    pub content: String,
}

/// A [`TextComponent`] as a value.
pub struct TextComponentView {
    pub modifiers: Seq<TextModifier>,
    pub link: Option<Seq<char>>,
    pub content: Seq<char>,
}

impl View for TextComponent {
    type V = TextComponentView;

    open spec fn view(&self) -> TextComponentView {
        TextComponentView {
            modifiers: self.modifiers@,
            link: self.link.deep_view(),
            content: self.content@,
        }
    }
}

impl DeepView for TextComponent {
    type V = TextComponentView;

    open spec fn deep_view(&self) -> TextComponentView {
        self@
    }
}

/// Whether the items of a list are numbered.
#[derive(Clone, Copy, Debug, PartialEq, Eq, Structural)]
pub enum ListType {
    Ordered,
    Unordered,
}

/// Whether a page has changed since it was last deployed.
#[derive(Clone, Copy, Debug, PartialEq, Eq, Structural)]
pub enum PageStatus {
    Unmodified,
    New,
    Edited,
}

/// An element of a page.
#[derive(Debug)]
pub enum DynamicPageElement {
    Header { size: HeaderSize, contents: String },
    Text { components: Vec<TextComponent> },
    List { items: Vec<Vec<TextComponent>>, list_type: ListType },
}

/// A [`DynamicPageElement`] as a value.
pub enum DynamicPageElementView {
    Header { size: HeaderSize, contents: Seq<char> },
    Text { components: Seq<TextComponentView> },
    List { items: Seq<Seq<TextComponentView>>, list_type: ListType },
}

impl View for DynamicPageElement {
    type V = DynamicPageElementView;

    open spec fn view(&self) -> DynamicPageElementView {
        match *self {
            DynamicPageElement::Header { size, contents } => DynamicPageElementView::Header {
                size,
                contents: contents@,
            },
            DynamicPageElement::Text { components } => DynamicPageElementView::Text {
                components: components.deep_view(),
            },
            DynamicPageElement::List { items, list_type } => DynamicPageElementView::List {
                items: items.deep_view(),
                list_type,
            },
        }
    }
}

impl DeepView for DynamicPageElement {
    type V = DynamicPageElementView;

    open spec fn deep_view(&self) -> DynamicPageElementView {
        self@
    }
}

/// The writer of page fragments: templates that hold the elements of a page
/// as HTML.
#[derive(Debug)]
pub struct Renderer;

} // verus!
