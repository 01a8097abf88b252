//! Page elements as HTML.

use crate::serve::{
    DynamicPageElement, DynamicPageElementView, HeaderSize, ListType, Renderer, TextComponent,
    TextComponentView, TextModifier,
};
use vstd::prelude::*;
use vstd::string::StringExecFns;

verus! {

/// The opening tags of `modifiers`, in their order.
pub open spec fn opening_tags(modifiers: Seq<TextModifier>) -> Seq<char>
    decreases modifiers.len(),
{
    if modifiers.len() == 0 {
        Seq::empty()
    } else {
        opening_tags(modifiers.drop_last()) + modifiers.last().opening()
    }
}

/// The closing tags of `modifiers`, the last modifier's first.
pub open spec fn closing_tags(modifiers: Seq<TextModifier>) -> Seq<char>
    decreases modifiers.len(),
{
    if modifiers.len() == 0 {
        Seq::empty()
    } else {
        closing_tags(modifiers.drop_first()) + modifiers.first().closing()
    }
}

/// The content of `component`, inside an anchor where it leads somewhere.
pub open spec fn linked_content(component: TextComponentView) -> Seq<char> {
    match component.link {
        Some(link) => "<a href=\""@ + link + "\">"@ + component.content + "</a>"@,
        None => component.content,
    }
}

/// `component` as HTML: its content between the tags of its modifiers.
pub open spec fn text_component_html(component: TextComponentView) -> Seq<char> {
    opening_tags(component.modifiers) + linked_content(component) + closing_tags(
        component.modifiers,
    )
}

/// `components` as HTML, one after the other.
pub open spec fn components_html(components: Seq<TextComponentView>) -> Seq<char>
    decreases components.len(),
{
    if components.len() == 0 {
        Seq::empty()
    } else {
        components_html(components.drop_last()) + text_component_html(components.last())
    }
}

/// `components` as HTML between the tags `open` and `close`.
pub open spec fn text_html(
    components: Seq<TextComponentView>,
    open: Seq<char>,
    close: Seq<char>,
) -> Seq<char> {
    open + components_html(components) + close
}

/// `items` as HTML, each a list item.
pub open spec fn items_html(items: Seq<Seq<TextComponentView>>) -> Seq<char>
    decreases items.len(),
{
    if items.len() == 0 {
        Seq::empty()
    } else {
        items_html(items.drop_last()) + text_html(items.last(), "<li>"@, "</li>"@)
    }
}

/// The list of `items` as HTML.
pub open spec fn list_html(items: Seq<Seq<TextComponentView>>, list_type: ListType) -> Seq<char> {
    match list_type {
        ListType::Unordered => "<ul>"@ + items_html(items) + "</ul>"@,
        ListType::Ordered => "<ol>"@ + items_html(items) + "</ol>"@,
    }
}

/// `element` as HTML.
pub open spec fn element_html(element: DynamicPageElementView) -> Seq<char> {
    match element {
        DynamicPageElementView::Header { size, contents } => size.opening() + contents
            + size.closing(),
        DynamicPageElementView::Text { components } => text_html(components, "<p>"@, "</p>"@),
        DynamicPageElementView::List { items, list_type } => list_html(items, list_type),
    }
}

/// `elements` as HTML, one after the other.
pub open spec fn elements_html(elements: Seq<DynamicPageElementView>) -> Seq<char>
    decreases elements.len(),
{
    if elements.len() == 0 {
        Seq::empty()
    } else {
        elements_html(elements.drop_last()) + element_html(elements.last())
    }
}

/// What a fragment begins with: it extends the base template and opens its
/// main block.
pub const FRAGMENT_HEADER: &'static str =
    "\n{% extends \"base.html\" %}\n\n{% block title %}{{ title }}{% endblock main %}\n\n{% block main %}\n";

/// What a fragment ends with: it closes the main block.
pub const FRAGMENT_FOOTER: &'static str = "\n{% endblock main %}\n";

impl Renderer {
    /// The fragment of a page that is made of `elements`: their HTML between
    /// the header and the footer of a fragment.
    pub fn render_fragment(elements: &Vec<DynamicPageElement>) -> (fragment: String)
        ensures
            fragment@ == FRAGMENT_HEADER@ + elements_html(elements.deep_view()) + FRAGMENT_FOOTER@,
    {
        let mut fragment = String::from_str(FRAGMENT_HEADER);
        let mut i: usize = 0;
        while i < elements.len()
            invariant
                i <= elements.len(),
                fragment@ == FRAGMENT_HEADER@ + elements_html(elements.deep_view().take(i as int)),
            decreases elements.len() - i,
        {
            let html = elements[i].html();
            fragment.append(html.as_str());
            proof {
                let all = elements.deep_view();
                assert(all.take(i + 1).drop_last() == all.take(i as int));
                assert(all.take(i + 1).last() == elements[i as int]@);
            }
            i += 1;
        }
        assert(elements.deep_view().take(i as int) == elements.deep_view());
        fragment.append(FRAGMENT_FOOTER);
        fragment
    }
}

impl DynamicPageElement {
    /// The element as HTML.
    pub fn render(self) -> (html: String)
        ensures
            html@ == element_html(self@),
    {
        self.html()
    }

    /// The element as HTML.
    pub fn html(&self) -> (html: String)
        ensures
            html@ == element_html(self@),
    {
        match self {
            Self::Header { size, contents } => Self::render_header(*size, contents.as_str()),
            Self::Text { components } => Self::render_text(components, "<p>", "</p>"),
            Self::List { items, list_type } => Self::render_list(items, *list_type),
        }
    }

    /// `components` as HTML between the tags `open` and `close`.
    pub fn render_text(components: &Vec<TextComponent>, open: &str, close: &str) -> (html: String)
        ensures
            html@ == text_html(components.deep_view(), open@, close@),
    {
        let mut html = String::from_str(open);
        let mut i: usize = 0;
        while i < components.len()
            invariant
                i <= components.len(),
                html@ == open@ + components_html(components.deep_view().take(i as int)),
            decreases components.len() - i,
        {
            let component = Self::render_text_component(&components[i]);
            html.append(component.as_str());
            proof {
                let all = components.deep_view();
                assert(all.take(i + 1).drop_last() == all.take(i as int));
                assert(all.take(i + 1).last() == components[i as int]@);
            }
            i += 1;
        }
        assert(components.deep_view().take(i as int) == components.deep_view());
        html.append(close);
        html
    }

    /// `component` as HTML: the tags of its modifiers open in their order
    /// and close in reverse around the content, which is an anchor where the
    /// component leads somewhere.
    pub fn render_text_component(component: &TextComponent) -> (html: String)
        ensures
            html@ == text_component_html(component@),
    {
        let modifiers = &component.modifiers;
        let mut html = String::new();
        let mut i: usize = 0;
        while i < modifiers.len()
            invariant
                i <= modifiers.len(),
                html@ == opening_tags(modifiers@.take(i as int)),
            decreases modifiers.len() - i,
        {
            let (opening, _) = modifiers[i].into_tag();
            html.append(opening.as_str());
            proof {
                assert(modifiers@.take(i + 1).drop_last() == modifiers@.take(i as int));
            }
            i += 1;
        }
        assert(modifiers@.take(i as int) == modifiers@);
        match &component.link {
            Some(link) => {
                html.append("<a href=\"");
                html.append(link.as_str());
                html.append("\">");
                html.append(component.content.as_str());
                html.append("</a>");
            },
            None => {
                html.append(component.content.as_str());
            },
        }
        let ghost opened = html@;
        let mut j: usize = modifiers.len();
        assert(modifiers@.skip(j as int) == Seq::<TextModifier>::empty());
        while j > 0
            invariant
                j <= modifiers.len(),
                html@ == opened + closing_tags(modifiers@.skip(j as int)),
            decreases j,
        {
            j -= 1;
            let (_, closing) = modifiers[j].into_tag();
            html.append(closing.as_str());
            proof {
                assert(modifiers@.skip(j as int).drop_first() == modifiers@.skip(j + 1));
            }
        }
        assert(modifiers@.skip(0) == modifiers@);
        html
    }

    /// The list of `items` as HTML, numbered or not as `list_type` says.
    pub fn render_list(items: &Vec<Vec<TextComponent>>, list_type: ListType) -> (html: String)
        ensures
            html@ == list_html(items.deep_view(), list_type),
    {
        let (open, close) = match list_type {
            ListType::Unordered => ("<ul>", "</ul>"),
            ListType::Ordered => ("<ol>", "</ol>"),
        };
        let mut html = String::from_str(open);
        let mut i: usize = 0;
        while i < items.len()
            invariant
                i <= items.len(),
                html@ == open@ + items_html(items.deep_view().take(i as int)),
            decreases items.len() - i,
        {
            let item = Self::render_text(&items[i], "<li>", "</li>");
            html.append(item.as_str());
            proof {
                let all = items.deep_view();
                assert(all.take(i + 1).drop_last() == all.take(i as int));
                assert(all.take(i + 1).last() == items[i as int].deep_view());
            }
            i += 1;
        }
        assert(items.deep_view().take(i as int) == items.deep_view());
        html.append(close);
        html
    }

    /// A header of the rank `size` as HTML.
    pub fn render_header(size: HeaderSize, contents: &str) -> (html: String)
        ensures
            html@ == size.opening() + contents@ + size.closing(),
    {
        let (opening, closing) = size.into_tag();
        let mut html = opening;
        html.append(contents);
        html.append(closing.as_str());
        html
    }
}

} // verus!
