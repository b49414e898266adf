//! The event vocabulary of the markdown block parser, and the bridge that
//! obtains those events from the `pulldown_cmark` parser.
use pulldown_cmark::{CodeBlockKind, Event, HeadingLevel as CmarkLevel, Options, Parser, Tag, TagEnd};
use vstd::prelude::*;

verus! {

/// Heading depth, `H1` being the largest.
#[derive(Clone, Copy, PartialEq, Eq, Structural, Debug)]
pub enum HeadingLevel {
    H1,
    H2,
    H3,
    H4,
    H5,
    H6,
}

/// The opening tags the block parser distinguishes.  `CodeBlock` carries the
/// fence's info string (`None` for an indented block); `Link` and `Image`
/// carry their destination.
#[derive(Debug)]
pub enum MdTag {
    Paragraph,
    Heading(HeadingLevel),
    BlockQuote,
    CodeBlock(Option<String>),
    List(Option<u64>),
    Item,
    Table,
    TableHead,
    TableRow,
    TableCell,
    Emphasis,
    Strong,
    Strikethrough,
    Link(String),
    Image(String),
    Other,
}

/// The closing tags the block parser distinguishes.
#[derive(Clone, Copy, PartialEq, Eq, Structural, Debug)]
pub enum MdTagEnd {
    Paragraph,
    Heading,
    BlockQuote,
    CodeBlock,
    List,
    Item,
    TableHead,
    TableRow,
    TableCell,
    Emphasis,
    Strong,
    Strikethrough,
    Link,
    Image,
    Other,
}

/// One markdown parsing event.  Raw HTML, inline or as a block, is `Html`.
#[derive(Debug)]
pub enum MdEvent {
    Start(MdTag),
    End(MdTagEnd),
    Text(String),
    Code(String),
    InlineMath(String),
    DisplayMath(String),
    Html,
    FootnoteReference(String),
    SoftBreak,
    HardBreak,
    Rule,
    TaskListMarker(bool),
}

/// Mathematical view of an [`MdTag`].
pub enum TagView {
    Paragraph,
    Heading(HeadingLevel),
    BlockQuote,
    CodeBlock(Option<Seq<char>>),
    List(Option<u64>),
    Item,
    Table,
    TableHead,
    TableRow,
    TableCell,
    Emphasis,
    Strong,
    Strikethrough,
    Link(Seq<char>),
    Image(Seq<char>),
    Other,
}

/// Mathematical view of an [`MdEvent`].
pub enum EventView {
    Start(TagView),
    End(MdTagEnd),
    Text(Seq<char>),
    Code(Seq<char>),
    InlineMath(Seq<char>),
    DisplayMath(Seq<char>),
    Html,
    FootnoteReference(Seq<char>),
    SoftBreak,
    HardBreak,
    Rule,
    TaskListMarker(bool),
}

pub open spec fn opt_string_view(o: Option<String>) -> Option<Seq<char>> {
    match o {
        Some(s) => Some(s@),
        None => None,
    }
}

impl View for MdTag {
    type V = TagView;

    open spec fn view(&self) -> TagView {
        match self {
            MdTag::Paragraph => TagView::Paragraph,
            MdTag::Heading(l) => TagView::Heading(*l),
            MdTag::BlockQuote => TagView::BlockQuote,
            MdTag::CodeBlock(lang) => TagView::CodeBlock(opt_string_view(*lang)),
            MdTag::List(start) => TagView::List(*start),
            MdTag::Item => TagView::Item,
            MdTag::Table => TagView::Table,
            MdTag::TableHead => TagView::TableHead,
            MdTag::TableRow => TagView::TableRow,
            MdTag::TableCell => TagView::TableCell,
            MdTag::Emphasis => TagView::Emphasis,
            MdTag::Strong => TagView::Strong,
            MdTag::Strikethrough => TagView::Strikethrough,
            MdTag::Link(url) => TagView::Link(url@),
            MdTag::Image(url) => TagView::Image(url@),
            MdTag::Other => TagView::Other,
        }
    }
}

impl View for MdEvent {
    type V = EventView;

    open spec fn view(&self) -> EventView {
        match self {
            MdEvent::Start(t) => EventView::Start(t@),
            MdEvent::End(t) => EventView::End(*t),
            MdEvent::Text(s) => EventView::Text(s@),
            MdEvent::Code(s) => EventView::Code(s@),
            MdEvent::InlineMath(s) => EventView::InlineMath(s@),
            MdEvent::DisplayMath(s) => EventView::DisplayMath(s@),
            MdEvent::Html => EventView::Html,
            MdEvent::FootnoteReference(s) => EventView::FootnoteReference(s@),
            MdEvent::SoftBreak => EventView::SoftBreak,
            MdEvent::HardBreak => EventView::HardBreak,
            MdEvent::Rule => EventView::Rule,
            MdEvent::TaskListMarker(b) => EventView::TaskListMarker(*b),
        }
    }
}

pub open spec fn events_view(events: Seq<MdEvent>) -> Seq<EventView> {
    events.map_values(|e: MdEvent| e@)
}

#[verifier::external_type_specification]
#[verifier::external_body]
pub struct ExCmarkEvent<'a>(Event<'a>);

#[verifier::external_type_specification]
#[verifier::external_body]
pub struct ExCmarkTag<'a>(Tag<'a>);

#[verifier::external_type_specification]
#[verifier::external_body]
pub struct ExCmarkTagEnd(TagEnd);

#[verifier::external_type_specification]
#[verifier::external_body]
pub struct ExCmarkLevel(CmarkLevel);

#[verifier::external_type_specification]
#[verifier::external_body]
pub struct ExCmarkCodeBlockKind<'a>(CodeBlockKind<'a>);

/// The event stream that `pulldown_cmark::Parser::new_ext` yields for a text
/// with the given extensions enabled, each event taken by its view.
pub uninterp spec fn cmark_event_stream(
    markdown: Seq<char>,
    strikethrough: bool,
    tables: bool,
    tasklists: bool,
    footnotes: bool,
) -> Seq<EventView>;

/// Runs `pulldown_cmark::Parser::new_ext` over `markdown` with the four
/// extensions switched on or off as given, and collects its events.  The
/// contract only names the result: the parser is deterministic, so the same
/// text and options give the same events.
#[verifier::external_body]
pub(crate) fn cmark_events(
    markdown: &str,
    strikethrough: bool,
    tables: bool,
    tasklists: bool,
    footnotes: bool,
) -> (events: Vec<MdEvent>)
    ensures
        events_view(events@) == cmark_event_stream(
            markdown@,
            strikethrough,
            tables,
            tasklists,
            footnotes,
        ),
{
    let mut options = Options::empty();
    options.set(Options::ENABLE_STRIKETHROUGH, strikethrough);
    options.set(Options::ENABLE_TABLES, tables);
    options.set(Options::ENABLE_TASKLISTS, tasklists);
    options.set(Options::ENABLE_FOOTNOTES, footnotes);
    Parser::new_ext(markdown, options).map(convert_event).collect()
}

/// Converts one `pulldown_cmark::Event`, variant for variant; raw HTML
/// (block or inline) becomes `Html`.
#[verifier::external_body]
fn convert_event(event: Event<'_>) -> MdEvent {
    match event {
        Event::Start(tag) => MdEvent::Start(convert_tag(tag)),
        Event::End(tag) => MdEvent::End(convert_tag_end(tag)),
        Event::Text(text) => MdEvent::Text(text.into_string()),
        Event::Code(text) => MdEvent::Code(text.into_string()),
        Event::InlineMath(text) => MdEvent::InlineMath(text.into_string()),
        Event::DisplayMath(text) => MdEvent::DisplayMath(text.into_string()),
        Event::Html(_) | Event::InlineHtml(_) => MdEvent::Html,
        Event::FootnoteReference(label) => MdEvent::FootnoteReference(label.into_string()),
        Event::SoftBreak => MdEvent::SoftBreak,
        Event::HardBreak => MdEvent::HardBreak,
        Event::Rule => MdEvent::Rule,
        Event::TaskListMarker(checked) => MdEvent::TaskListMarker(checked),
    }
}

/// Converts a block-level `pulldown_cmark::Tag`; span-level tags go to
/// `convert_span_tag`.
#[verifier::external_body]
fn convert_tag(tag: Tag<'_>) -> MdTag {
    match tag {
        Tag::Paragraph => MdTag::Paragraph,
        Tag::Heading { level, .. } => MdTag::Heading(convert_level(level)),
        Tag::BlockQuote(_) => MdTag::BlockQuote,
        Tag::CodeBlock(kind) => MdTag::CodeBlock(convert_code_kind(kind)),
        Tag::List(start) => MdTag::List(start),
        Tag::Item => MdTag::Item,
        Tag::Table(_) => MdTag::Table,
        Tag::TableHead => MdTag::TableHead,
        Tag::TableRow => MdTag::TableRow,
        Tag::TableCell => MdTag::TableCell,
        other => convert_span_tag(other),
    }
}

/// Converts a span-level `pulldown_cmark::Tag`; tags the block parser
/// ignores (HTML blocks, footnote definitions, definition lists, metadata,
/// super- and subscript) become `Other`.
#[verifier::external_body]
fn convert_span_tag(tag: Tag<'_>) -> MdTag {
    match tag {
        Tag::Emphasis => MdTag::Emphasis,
        Tag::Strong => MdTag::Strong,
        Tag::Strikethrough => MdTag::Strikethrough,
        Tag::Link { dest_url, .. } => MdTag::Link(dest_url.into_string()),
        Tag::Image { dest_url, .. } => MdTag::Image(dest_url.into_string()),
        _ => MdTag::Other,
    }
}

/// Converts a block-level `pulldown_cmark::TagEnd`; span-level ends go to
/// `convert_span_end`.
#[verifier::external_body]
fn convert_tag_end(tag: TagEnd) -> MdTagEnd {
    match tag {
        TagEnd::Paragraph => MdTagEnd::Paragraph,
        TagEnd::Heading(_) => MdTagEnd::Heading,
        TagEnd::BlockQuote(_) => MdTagEnd::BlockQuote,
        TagEnd::CodeBlock => MdTagEnd::CodeBlock,
        TagEnd::List(_) => MdTagEnd::List,
        TagEnd::Item => MdTagEnd::Item,
        TagEnd::TableHead => MdTagEnd::TableHead,
        TagEnd::TableRow => MdTagEnd::TableRow,
        TagEnd::TableCell => MdTagEnd::TableCell,
        other => convert_span_end(other),
    }
}

/// Converts a span-level `pulldown_cmark::TagEnd`; ends the block parser
/// ignores (tables as a whole, HTML blocks, footnotes, definition lists,
/// metadata, super- and subscript) become `Other`.
#[verifier::external_body]
fn convert_span_end(tag: TagEnd) -> MdTagEnd {
    match tag {
        TagEnd::Emphasis => MdTagEnd::Emphasis,
        TagEnd::Strong => MdTagEnd::Strong,
        TagEnd::Strikethrough => MdTagEnd::Strikethrough,
        TagEnd::Link => MdTagEnd::Link,
        TagEnd::Image => MdTagEnd::Image,
        _ => MdTagEnd::Other,
    }
}

/// Converts a `pulldown_cmark::HeadingLevel`, variant for variant.
#[verifier::external_body]
fn convert_level(level: CmarkLevel) -> HeadingLevel {
    match level {
        CmarkLevel::H1 => HeadingLevel::H1,
        CmarkLevel::H2 => HeadingLevel::H2,
        CmarkLevel::H3 => HeadingLevel::H3,
        CmarkLevel::H4 => HeadingLevel::H4,
        CmarkLevel::H5 => HeadingLevel::H5,
        CmarkLevel::H6 => HeadingLevel::H6,
    }
}

/// Converts a `pulldown_cmark::CodeBlockKind`: an indented block has no info
/// string, a fenced one has the text after its fence.
#[verifier::external_body]
fn convert_code_kind(kind: CodeBlockKind<'_>) -> Option<String> {
    match kind {
        CodeBlockKind::Indented => None,
        CodeBlockKind::Fenced(info) => Some(info.into_string()),
    }
}

} // verus!
