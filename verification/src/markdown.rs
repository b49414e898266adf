//! The markdown block parser behind plugin descriptions and read-me panels:
//! it folds parsing events into paragraphs, headings, list items, quotes,
//! code blocks, table rows and rules, each holding runs of styled text.
use crate::markdown_events::{
    cmark_event_stream, cmark_events, events_view, opt_string_view, EventView, HeadingLevel, MdEvent,
    MdTag, MdTagEnd, TagView,
};
use crate::text::{decimal_spec, push_decimal, starts_with};
use vstd::prelude::*;

verus! {

/// Inline styling of a run of text.
#[derive(Debug)]
pub struct InlineStyle {
    pub bold: bool,
    pub italic: bool,
    pub strike: bool,
    pub code: bool,
    pub code_block: bool,
    pub link: Option<String>,
}

/// A run of text sharing one style.
#[derive(Debug)]
pub struct InlineSpan {
    pub text: String,
    pub style: InlineStyle,
}

/// One laid-out unit of a markdown document.
#[derive(Debug)]
pub enum Block {
    Paragraph(Vec<InlineSpan>),
    Heading(HeadingLevel, Vec<InlineSpan>),
    ListItem { depth: usize, marker: String, checked: Option<bool>, content: Vec<InlineSpan> },
    Quote(Vec<InlineSpan>),
    Code { language: Option<String>, text: String },
    TableRow { header: bool, cells: Vec<Vec<InlineSpan>> },
    Rule,
}

/// The kind of block that the inline text being collected will become.
#[derive(Clone, Copy, PartialEq, Eq, Structural, Debug)]
pub enum InlineBlockKind {
    Paragraph,
    Heading(HeadingLevel),
    ListItem,
    Quote,
    TableCell,
}

pub struct StyleView {
    pub bold: bool,
    pub italic: bool,
    pub strike: bool,
    pub code: bool,
    pub code_block: bool,
    pub link: Option<Seq<char>>,
}

pub struct SpanView {
    pub text: Seq<char>,
    pub style: StyleView,
}

pub enum BlockView {
    Paragraph(Seq<SpanView>),
    Heading(HeadingLevel, Seq<SpanView>),
    ListItem { depth: nat, marker: Seq<char>, checked: Option<bool>, content: Seq<SpanView> },
    Quote(Seq<SpanView>),
    Code { language: Option<Seq<char>>, text: Seq<char> },
    TableRow { header: bool, cells: Seq<Seq<SpanView>> },
    Rule,
}

impl View for InlineStyle {
    type V = StyleView;

    open spec fn view(&self) -> StyleView {
        StyleView {
            bold: self.bold,
            italic: self.italic,
            strike: self.strike,
            code: self.code,
            code_block: self.code_block,
            link: opt_string_view(self.link),
        }
    }
}

impl View for InlineSpan {
    type V = SpanView;

    open spec fn view(&self) -> SpanView {
        SpanView { text: self.text@, style: self.style@ }
    }
}

pub open spec fn spans_view(spans: Seq<InlineSpan>) -> Seq<SpanView> {
    spans.map_values(|s: InlineSpan| s@)
}

pub open spec fn cells_view(cells: Seq<Vec<InlineSpan>>) -> Seq<Seq<SpanView>> {
    cells.map_values(|c: Vec<InlineSpan>| spans_view(c@))
}

impl View for Block {
    type V = BlockView;

    open spec fn view(&self) -> BlockView {
        match self {
            Block::Paragraph(c) => BlockView::Paragraph(spans_view(c@)),
            Block::Heading(l, c) => BlockView::Heading(*l, spans_view(c@)),
            Block::ListItem { depth, marker, checked, content } => BlockView::ListItem {
                depth: *depth as nat,
                marker: marker@,
                checked: *checked,
                content: spans_view(content@),
            },
            Block::Quote(c) => BlockView::Quote(spans_view(c@)),
            Block::Code { language, text } => BlockView::Code {
                language: opt_string_view(*language),
                text: text@,
            },
            Block::TableRow { header, cells } => BlockView::TableRow {
                header: *header,
                cells: cells_view(cells@),
            },
            Block::Rule => BlockView::Rule,
        }
    }
}

pub open spec fn blocks_view(blocks: Seq<Block>) -> Seq<BlockView> {
    blocks.map_values(|b: Block| b@)
}

/// The parser's state: blocks finished so far, the inline runs being
/// collected and the context (style, lists, quotes, code, tables) they sit in.
pub struct MarkdownParser {
    blocks: Vec<Block>,
    current: Vec<InlineSpan>,
    current_kind: Option<InlineBlockKind>,
    style: InlineStyle,
    lists: Vec<Option<u64>>,
    item_marker: Option<String>,
    task_checked: Option<bool>,
    quote_depth: usize,
    code: Option<(Option<String>, String)>,
    table_header: bool,
    table_cells: Vec<Vec<InlineSpan>>,
    image_url: Option<String>,
}

pub struct ParserView {
    pub blocks: Seq<BlockView>,
    pub current: Seq<SpanView>,
    pub current_kind: Option<InlineBlockKind>,
    pub style: StyleView,
    pub lists: Seq<Option<u64>>,
    pub item_marker: Option<Seq<char>>,
    pub task_checked: Option<bool>,
    pub quote_depth: nat,
    pub code: Option<(Option<Seq<char>>, Seq<char>)>,
    pub table_header: bool,
    pub table_cells: Seq<Seq<SpanView>>,
    pub image_url: Option<Seq<char>>,
}

pub open spec fn code_view(code: Option<(Option<String>, String)>) -> Option<(Option<Seq<char>>, Seq<char>)> {
    match code {
        Some((language, text)) => Some((opt_string_view(language), text@)),
        None => None,
    }
}

impl View for MarkdownParser {
    type V = ParserView;

    closed spec fn view(&self) -> ParserView {
        ParserView {
            blocks: blocks_view(self.blocks@),
            current: spans_view(self.current@),
            current_kind: self.current_kind,
            style: self.style@,
            lists: self.lists@,
            item_marker: opt_string_view(self.item_marker),
            task_checked: self.task_checked,
            quote_depth: self.quote_depth as nat,
            code: code_view(self.code),
            table_header: self.table_header,
            table_cells: cells_view(self.table_cells@),
            image_url: opt_string_view(self.image_url),
        }
    }
}

pub open spec fn plain_style() -> StyleView {
    StyleView { bold: false, italic: false, strike: false, code: false, code_block: false, link: None }
}

/// The state of a fresh parser.
pub open spec fn initial_state() -> ParserView {
    ParserView {
        blocks: Seq::empty(),
        current: Seq::empty(),
        current_kind: None,
        style: plain_style(),
        lists: Seq::empty(),
        item_marker: None,
        task_checked: None,
        quote_depth: 0,
        code: None,
        table_header: false,
        table_cells: Seq::empty(),
        image_url: None,
    }
}

/// The block kind that loose text opens: a list item inside an item, a quote
/// inside a block quote, a paragraph otherwise.
pub open spec fn text_kind(s: ParserView) -> InlineBlockKind {
    if s.item_marker is Some {
        InlineBlockKind::ListItem
    } else if s.quote_depth > 0 {
        InlineBlockKind::Quote
    } else {
        InlineBlockKind::Paragraph
    }
}

/// The style new text gets: the current style, linked to the image inside an
/// image's alternative text.
pub open spec fn text_style(s: ParserView) -> StyleView {
    match s.image_url {
        Some(url) => StyleView { link: Some(url), ..s.style },
        None => s.style,
    }
}

/// Appending text: it extends the last run when the style is unchanged and
/// starts a new run otherwise.
pub open spec fn push_text_spec(s: ParserView, text: Seq<char>) -> ParserView {
    let kind = if s.current_kind is None { Some(text_kind(s)) } else { s.current_kind };
    let style = text_style(s);
    let current = if s.current.len() > 0 && s.current.last().style == style {
        s.current.update(
            s.current.len() - 1,
            SpanView { text: s.current.last().text + text, style: s.current.last().style },
        )
    } else {
        s.current.push(SpanView { text, style })
    };
    ParserView { current_kind: kind, current, ..s }
}

/// Nesting depth of a list item, given how many lists are open.
pub open spec fn list_depth(open_lists: nat) -> nat {
    if open_lists > 0 { (open_lists - 1) as nat } else { 0 }
}

/// The block that collected inline content of the given kind becomes
/// (table cells excepted: they stay in place until their cell ends).
pub open spec fn finished_block(s: ParserView, kind: InlineBlockKind) -> BlockView {
    match kind {
        InlineBlockKind::Heading(level) => BlockView::Heading(level, s.current),
        InlineBlockKind::Quote => BlockView::Quote(s.current),
        InlineBlockKind::ListItem => BlockView::ListItem {
            depth: list_depth(s.lists.len()),
            marker: match s.item_marker {
                Some(m) => m,
                None => "•"@,
            },
            checked: s.task_checked,
            content: s.current,
        },
        _ => BlockView::Paragraph(s.current),
    }
}

/// Ending the inline content being collected.
pub open spec fn flush_spec(s: ParserView) -> ParserView {
    match s.current_kind {
        None => s,
        Some(kind) => if s.current.len() == 0 {
            ParserView { current_kind: None, current: Seq::empty(), ..s }
        } else if kind == InlineBlockKind::TableCell {
            s
        } else {
            ParserView {
                blocks: s.blocks.push(finished_block(s, kind)),
                current: Seq::empty(),
                current_kind: None,
                ..s
            }
        },
    }
}

pub open spec fn begin_inline_spec(s: ParserView, kind: InlineBlockKind) -> ParserView {
    ParserView { current_kind: Some(kind), ..flush_spec(s) }
}

pub open spec fn with_style(s: ParserView, style: StyleView) -> ParserView {
    ParserView { style, ..s }
}

/// The language a code block records: an empty info string counts as none.
pub open spec fn code_language(info: Option<Seq<char>>) -> Option<Seq<char>> {
    match info {
        Some(l) => if l.len() == 0 { None } else { Some(l) },
        None => None,
    }
}

/// The marker of a new list item and the list counters after it.
pub open spec fn item_spec(s: ParserView) -> ParserView {
    if s.lists.len() > 0 && s.lists.last() is Some {
        let next = s.lists.last()->0;
        ParserView {
            item_marker: Some(decimal_spec(next as nat) + "."@),
            task_checked: None,
            lists: s.lists.update(s.lists.len() - 1, Some(next.wrapping_add(1))),
            ..s
        }
    } else {
        ParserView { item_marker: Some("•"@), task_checked: None, ..s }
    }
}

pub open spec fn start_spec(s: ParserView, tag: TagView) -> ParserView {
    match tag {
        TagView::Paragraph => begin_inline_spec(s, text_kind(s)),
        TagView::Heading(level) => begin_inline_spec(s, InlineBlockKind::Heading(level)),
        TagView::BlockQuote => ParserView { quote_depth: s.quote_depth + 1, ..s },
        TagView::CodeBlock(info) => ParserView {
            code: Some((code_language(info), Seq::empty())),
            ..flush_spec(s)
        },
        TagView::List(start) => ParserView { lists: s.lists.push(start), ..s },
        TagView::Item => item_spec(s),
        TagView::Strong => with_style(s, StyleView { bold: true, ..s.style }),
        TagView::Emphasis => with_style(s, StyleView { italic: true, ..s.style }),
        TagView::Strikethrough => with_style(s, StyleView { strike: true, ..s.style }),
        TagView::Link(url) => with_style(s, StyleView { link: Some(url), ..s.style }),
        TagView::Image(url) => push_text_spec(
            ParserView { image_url: Some(url), ..s },
            "[Image: "@,
        ),
        TagView::Table => ParserView { table_cells: Seq::empty(), ..flush_spec(s) },
        TagView::TableHead => ParserView { table_header: true, ..s },
        TagView::TableRow => ParserView { table_cells: Seq::empty(), ..s },
        TagView::TableCell => ParserView {
            current: Seq::empty(),
            current_kind: Some(InlineBlockKind::TableCell),
            ..s
        },
        TagView::Other => s,
    }
}

pub open spec fn end_spec(s: ParserView, tag: MdTagEnd) -> ParserView {
    match tag {
        MdTagEnd::Paragraph | MdTagEnd::Heading => flush_spec(s),
        MdTagEnd::BlockQuote => ParserView {
            quote_depth: if s.quote_depth > 0 { (s.quote_depth - 1) as nat } else { 0 },
            ..s
        },
        MdTagEnd::CodeBlock => match s.code {
            Some((language, text)) => ParserView {
                blocks: s.blocks.push(BlockView::Code { language, text }),
                code: None,
                ..s
            },
            None => s,
        },
        MdTagEnd::List => ParserView {
            lists: if s.lists.len() > 0 { s.lists.drop_last() } else { s.lists },
            ..s
        },
        MdTagEnd::Item => ParserView {
            item_marker: None,
            task_checked: None,
            ..flush_spec(s)
        },
        MdTagEnd::Strong => with_style(s, StyleView { bold: false, ..s.style }),
        MdTagEnd::Emphasis => with_style(s, StyleView { italic: false, ..s.style }),
        MdTagEnd::Strikethrough => with_style(s, StyleView { strike: false, ..s.style }),
        MdTagEnd::Link => with_style(s, StyleView { link: None, ..s.style }),
        MdTagEnd::Image => {
            let t = push_text_spec(s, "]"@);
            ParserView { image_url: None, style: StyleView { link: None, ..t.style }, ..t }
        },
        MdTagEnd::TableCell => ParserView {
            table_cells: s.table_cells.push(s.current),
            current: Seq::empty(),
            current_kind: None,
            ..s
        },
        MdTagEnd::TableRow => ParserView {
            blocks: s.blocks.push(BlockView::TableRow { header: s.table_header, cells: s.table_cells }),
            table_cells: Seq::empty(),
            ..s
        },
        MdTagEnd::TableHead => ParserView { table_header: false, ..s },
        MdTagEnd::Other => s,
    }
}

/// Inline code: the text is pushed with the code style switched on, and the
/// previous code flag is restored afterwards.
pub open spec fn inline_code_spec(s: ParserView, text: Seq<char>) -> ParserView {
    let t = push_text_spec(with_style(s, StyleView { code: true, ..s.style }), text);
    with_style(t, StyleView { code: s.style.code, ..t.style })
}

/// One step of the parser.
pub open spec fn event_spec(s: ParserView, event: EventView) -> ParserView {
    match event {
        EventView::Start(tag) => start_spec(s, tag),
        EventView::End(tag) => end_spec(s, tag),
        EventView::Text(text) => match s.code {
            Some((language, code)) => ParserView { code: Some((language, code + text)), ..s },
            None => push_text_spec(s, text),
        },
        EventView::Code(text) => inline_code_spec(s, text),
        EventView::InlineMath(text) => push_text_spec(s, "$"@ + text + "$"@),
        EventView::DisplayMath(text) => push_text_spec(s, "$"@ + text + "$"@),
        EventView::SoftBreak => push_text_spec(s, " "@),
        EventView::HardBreak => push_text_spec(s, "\n"@),
        EventView::Rule => {
            let t = flush_spec(s);
            ParserView { blocks: t.blocks.push(BlockView::Rule), ..t }
        },
        EventView::TaskListMarker(checked) => ParserView { task_checked: Some(checked), ..s },
        EventView::FootnoteReference(label) => push_text_spec(s, "["@ + label + "]"@),
        EventView::Html => s,
    }
}

/// A step is possible unless it would open a block quote beyond the deepest
/// nesting a `usize` counts.
pub open spec fn step_ok(s: ParserView, event: EventView) -> bool {
    event == EventView::Start(TagView::BlockQuote) ==> s.quote_depth < usize::MAX
}

/// The state after feeding a sequence of events, in order.
pub open spec fn run_spec(s: ParserView, events: Seq<EventView>) -> ParserView
    decreases events.len(),
{
    if events.len() == 0 {
        s
    } else {
        event_spec(run_spec(s, events.drop_last()), events.last())
    }
}

/// Every step of the run is possible.
pub open spec fn run_ok(s: ParserView, events: Seq<EventView>) -> bool
    decreases events.len(),
{
    events.len() == 0 || (run_ok(s, events.drop_last()) && step_ok(
        run_spec(s, events.drop_last()),
        events.last(),
    ))
}

/// The blocks a run of events yields once the pending inline text is ended.
pub open spec fn parse_spec(s: ParserView, events: Seq<EventView>) -> Seq<BlockView> {
    flush_spec(run_spec(s, events)).blocks
}


fn clone_opt_string(o: &Option<String>) -> (r: Option<String>)
    ensures
        opt_string_view(r) == opt_string_view(*o),
{
    match o {
        Some(s) => Some(s.clone()),
        None => None,
    }
}

fn opt_string_eq(a: &Option<String>, b: &Option<String>) -> (r: bool)
    ensures
        r == (opt_string_view(*a) == opt_string_view(*b)),
{
    match (a, b) {
        (Some(x), Some(y)) => x.eq(y),
        (None, None) => true,
        _ => false,
    }
}

impl InlineStyle {
    /// The unstyled text style.
    pub fn plain() -> (r: InlineStyle)
        ensures
            r@ == plain_style(),
    {
        InlineStyle {
            bold: false,
            italic: false,
            strike: false,
            code: false,
            code_block: false,
            link: None,
        }
    }

    /// A copy of this style.
    pub fn duplicate(&self) -> (r: InlineStyle)
        ensures
            r@ == self@,
    {
        InlineStyle {
            bold: self.bold,
            italic: self.italic,
            strike: self.strike,
            code: self.code,
            code_block: self.code_block,
            link: clone_opt_string(&self.link),
        }
    }

    /// Whether two styles agree on every attribute.
    pub fn same_as(&self, other: &InlineStyle) -> (r: bool)
        ensures
            r == (self@ == other@),
    {
        self.bold == other.bold && self.italic == other.italic && self.strike == other.strike
            && self.code == other.code && self.code_block == other.code_block && opt_string_eq(
            &self.link,
            &other.link,
        )
    }
}

impl MarkdownParser {
    /// A parser with nothing collected yet.
    pub fn new() -> (p: MarkdownParser)
        ensures
            p@ == initial_state(),
    {
        let p = MarkdownParser {
            blocks: Vec::new(),
            current: Vec::new(),
            current_kind: None,
            style: InlineStyle::plain(),
            lists: Vec::new(),
            item_marker: None,
            task_checked: None,
            quote_depth: 0,
            code: None,
            table_header: false,
            table_cells: Vec::new(),
            image_url: None,
        };
        assert(p@.blocks =~= Seq::<BlockView>::empty());
        assert(p@.current =~= Seq::<SpanView>::empty());
        assert(p@.table_cells =~= Seq::<Seq<SpanView>>::empty());
        p
    }

    /// Appends text to the inline content being collected.
    pub fn push_text(&mut self, text: &str)
        ensures
            final(self)@ == push_text_spec(old(self)@, text@),
    {
        let ghost s = self@;
        if self.current_kind.is_none() {
            self.current_kind = Some(
                if self.item_marker.is_some() {
                    InlineBlockKind::ListItem
                } else if self.quote_depth > 0 {
                    InlineBlockKind::Quote
                } else {
                    InlineBlockKind::Paragraph
                },
            );
        }
        let mut style = self.style.duplicate();
        match &self.image_url {
            Some(url) => {
                style.link = Some(url.clone());
            },
            None => {},
        }
        assert(style@ == text_style(s));
        let n = self.current.len();
        if n > 0 && self.current[n - 1].style.same_as(&style) {
            let mut last = self.current.pop().unwrap();
            last.text.append(text);
            self.current.push(last);
            assert(self@.current =~= push_text_spec(s, text@).current);
        } else {
            self.current.push(InlineSpan { text: text.to_owned(), style });
            assert(self@.current =~= push_text_spec(s, text@).current);
        }
    }

    /// Ends the inline content being collected, turning it into a block.
    pub fn flush_inline(&mut self)
        ensures
            final(self)@ == flush_spec(old(self)@),
    {
        let ghost s = self@;
        let kind = match self.current_kind.take() {
            Some(kind) => kind,
            None => return,
        };
        let mut content = Vec::new();
        std::mem::swap(&mut content, &mut self.current);
        if content.len() == 0 {
            assert(self@.current =~= Seq::<SpanView>::empty());
            return;
        }
        let block = match kind {
            InlineBlockKind::Paragraph => Block::Paragraph(content),
            InlineBlockKind::Heading(level) => Block::Heading(level, content),
            InlineBlockKind::Quote => Block::Quote(content),
            InlineBlockKind::ListItem => Block::ListItem {
                depth: if self.lists.len() > 0 { self.lists.len() - 1 } else { 0 },
                marker: match &self.item_marker {
                    Some(m) => m.clone(),
                    None => "•".to_owned(),
                },
                checked: self.task_checked,
                content,
            },
            InlineBlockKind::TableCell => {
                self.current = content;
                self.current_kind = Some(InlineBlockKind::TableCell);
                return;
            },
        };
        assert(block@ == finished_block(s, kind));
        self.blocks.push(block);
        assert(self@.blocks =~= flush_spec(s).blocks);
        assert(self@.current =~= Seq::<SpanView>::empty());
    }

    /// Ends the pending inline content and starts collecting content of `kind`.
    pub fn begin_inline(&mut self, kind: InlineBlockKind)
        ensures
            final(self)@ == begin_inline_spec(old(self)@, kind),
    {
        self.flush_inline();
        self.current_kind = Some(kind);
    }
}


impl MarkdownParser {
    fn set_style_flag(&mut self, tag: MdTagEnd, on: bool)
        requires
            tag == MdTagEnd::Strong || tag == MdTagEnd::Emphasis || tag == MdTagEnd::Strikethrough,
        ensures
            final(self)@ == with_style(
                old(self)@,
                if tag == MdTagEnd::Strong {
                    StyleView { bold: on, ..old(self)@.style }
                } else if tag == MdTagEnd::Emphasis {
                    StyleView { italic: on, ..old(self)@.style }
                } else {
                    StyleView { strike: on, ..old(self)@.style }
                },
            ),
    {
        match tag {
            MdTagEnd::Strong => self.style.bold = on,
            MdTagEnd::Emphasis => self.style.italic = on,
            _ => self.style.strike = on,
        }
    }

    /// Opens a list item: ordered lists number it and advance their counter,
    /// other lists mark it with a bullet.
    fn start_item(&mut self)
        ensures
            final(self)@ == item_spec(old(self)@),
    {
        let ghost s = self@;
        let n = self.lists.len();
        let mut marker = String::new();
        let mut numbered = false;
        if n > 0 {
            if let Some(next) = self.lists[n - 1] {
                push_decimal(&mut marker, next);
                marker.append(".");
                self.lists.set(n - 1, Some(next.wrapping_add(1)));
                numbered = true;
            }
        }
        if !numbered {
            marker.append("•");
        }
        proof {
            reveal_strlit(".");
            reveal_strlit("•");
        }
        self.item_marker = Some(marker);
        self.task_checked = None;
        assert(self@.lists =~= item_spec(s).lists);
        assert(self@.item_marker == item_spec(s).item_marker);
    }

    /// Handles the opening of a tag.
    pub fn start(&mut self, tag: MdTag)
        requires
            tag@ == TagView::BlockQuote ==> old(self)@.quote_depth < usize::MAX,
        ensures
            final(self)@ == start_spec(old(self)@, tag@),
    {
        let ghost s = self@;
        match tag {
            MdTag::Paragraph => {
                let kind = if self.item_marker.is_some() {
                    InlineBlockKind::ListItem
                } else if self.quote_depth > 0 {
                    InlineBlockKind::Quote
                } else {
                    InlineBlockKind::Paragraph
                };
                self.begin_inline(kind);
            },
            MdTag::Heading(level) => self.begin_inline(InlineBlockKind::Heading(level)),
            MdTag::BlockQuote => self.quote_depth = self.quote_depth + 1,
            MdTag::CodeBlock(info) => {
                self.flush_inline();
                let language = match info {
                    Some(l) => if l.as_str().is_empty() {
                        None
                    } else {
                        Some(l)
                    },
                    None => None,
                };
                self.code = Some((language, String::new()));
            },
            MdTag::List(start) => self.lists.push(start),
            MdTag::Item => self.start_item(),
            MdTag::Strong => self.set_style_flag(MdTagEnd::Strong, true),
            MdTag::Emphasis => self.set_style_flag(MdTagEnd::Emphasis, true),
            MdTag::Strikethrough => self.set_style_flag(MdTagEnd::Strikethrough, true),
            MdTag::Link(url) => self.style.link = Some(url),
            MdTag::Image(url) => {
                self.image_url = Some(url);
                proof {
                    reveal_strlit("[Image: ");
                }
                self.push_text("[Image: ");
            },
            MdTag::Table => {
                self.flush_inline();
                self.table_cells.clear();
                assert(self@.table_cells =~= Seq::<Seq<SpanView>>::empty());
            },
            MdTag::TableHead => self.table_header = true,
            MdTag::TableRow => {
                self.table_cells.clear();
                assert(self@.table_cells =~= Seq::<Seq<SpanView>>::empty());
            },
            MdTag::TableCell => {
                self.current.clear();
                self.current_kind = Some(InlineBlockKind::TableCell);
                assert(self@.current =~= Seq::<SpanView>::empty());
            },
            MdTag::Other => {},
        }
        assert(self@ == start_spec(s, tag@)) by {
            assert(self@.lists =~= start_spec(s, tag@).lists);
        }
    }

    /// Handles the closing of a tag.
    pub fn end(&mut self, tag: MdTagEnd)
        ensures
            final(self)@ == end_spec(old(self)@, tag),
    {
        let ghost s = self@;
        match tag {
            MdTagEnd::Paragraph | MdTagEnd::Heading => self.flush_inline(),
            MdTagEnd::BlockQuote => self.quote_depth = if self.quote_depth > 0 {
                self.quote_depth - 1
            } else {
                0
            },
            MdTagEnd::CodeBlock => {
                if let Some((language, text)) = self.code.take() {
                    self.blocks.push(Block::Code { language, text });
                    assert(self@.blocks =~= end_spec(s, tag).blocks);
                }
            },
            MdTagEnd::List => {
                self.lists.pop();
                assert(self@.lists =~= end_spec(s, tag).lists);
            },
            MdTagEnd::Item => {
                self.flush_inline();
                self.item_marker = None;
                self.task_checked = None;
            },
            MdTagEnd::Strong | MdTagEnd::Emphasis | MdTagEnd::Strikethrough => self.set_style_flag(
                tag,
                false,
            ),
            MdTagEnd::Link => self.style.link = None,
            MdTagEnd::Image => {
                proof {
                    reveal_strlit("]");
                }
                self.push_text("]");
                self.image_url = None;
                self.style.link = None;
            },
            MdTagEnd::TableCell => {
                let mut cell = Vec::new();
                std::mem::swap(&mut cell, &mut self.current);
                self.table_cells.push(cell);
                self.current_kind = None;
                assert(self@.table_cells =~= end_spec(s, tag).table_cells);
                assert(self@.current =~= Seq::<SpanView>::empty());
            },
            MdTagEnd::TableRow => {
                let mut cells = Vec::new();
                std::mem::swap(&mut cells, &mut self.table_cells);
                self.blocks.push(Block::TableRow { header: self.table_header, cells });
                assert(self@.blocks =~= end_spec(s, tag).blocks);
                assert(self@.table_cells =~= Seq::<Seq<SpanView>>::empty());
            },
            MdTagEnd::TableHead => self.table_header = false,
            MdTagEnd::Other => {},
        }
    }

    /// Handles one parsing event.
    pub fn event(&mut self, event: MdEvent)
        requires
            step_ok(old(self)@, event@),
        ensures
            final(self)@ == event_spec(old(self)@, event@),
    {
        let ghost s = self@;
        match event {
            MdEvent::Start(tag) => self.start(tag),
            MdEvent::End(tag) => self.end(tag),
            MdEvent::Text(text) => {
                match self.code.take() {
                    Some((language, mut code)) => {
                        code.append(text.as_str());
                        self.code = Some((language, code));
                    },
                    None => self.push_text(text.as_str()),
                }
            },
            MdEvent::Code(text) => {
                let previous = self.style.code;
                self.style.code = true;
                self.push_text(text.as_str());
                self.style.code = previous;
            },
            MdEvent::InlineMath(text) | MdEvent::DisplayMath(text) => {
                let mut wrapped = "$".to_owned();
                wrapped.append(text.as_str());
                wrapped.append("$");
                proof {
                    reveal_strlit("$");
                }
                self.push_text(wrapped.as_str());
            },
            MdEvent::SoftBreak => {
                proof {
                    reveal_strlit(" ");
                }
                self.push_text(" ");
            },
            MdEvent::HardBreak => {
                proof {
                    reveal_strlit("\n");
                }
                self.push_text("\n");
            },
            MdEvent::Rule => {
                self.flush_inline();
                self.blocks.push(Block::Rule);
                assert(self@.blocks =~= event_spec(s, event@).blocks);
            },
            MdEvent::TaskListMarker(checked) => self.task_checked = Some(checked),
            MdEvent::FootnoteReference(label) => {
                let mut wrapped = "[".to_owned();
                wrapped.append(label.as_str());
                wrapped.append("]");
                proof {
                    reveal_strlit("[");
                    reveal_strlit("]");
                }
                self.push_text(wrapped.as_str());
            },
            MdEvent::Html => {},
        }
    }
}


/// A possible run stays possible on each of its prefixes.
pub proof fn lemma_run_ok_prefix(s: ParserView, events: Seq<EventView>, k: int)
    requires
        run_ok(s, events),
        0 <= k <= events.len(),
    ensures
        run_ok(s, events.take(k)),
    decreases events.len(),
{
    if k == events.len() {
        assert(events.take(k) =~= events);
    } else {
        assert(events.drop_last().take(k) =~= events.take(k));
        lemma_run_ok_prefix(s, events.drop_last(), k);
    }
}

proof fn lemma_run_step(s: ParserView, events: Seq<EventView>, i: int)
    requires
        0 <= i < events.len(),
    ensures
        run_spec(s, events.take(i + 1)) == event_spec(run_spec(s, events.take(i)), events[i]),
        run_ok(s, events.take(i + 1)) ==> step_ok(run_spec(s, events.take(i)), events[i]),
{
    assert(events.take(i + 1).drop_last() =~= events.take(i));
}

/// A step deepens block-quote nesting by at most one.
pub proof fn lemma_step_depth(s: ParserView, event: EventView)
    ensures
        event_spec(s, event).quote_depth <= s.quote_depth + 1,
        event != EventView::Start(TagView::BlockQuote) ==> event_spec(s, event).quote_depth
            <= s.quote_depth,
{
}

/// A run deepens block-quote nesting by at most its length, so every run from
/// a shallow enough state is possible.
pub proof fn lemma_run_depth(s: ParserView, events: Seq<EventView>)
    ensures
        run_spec(s, events).quote_depth <= s.quote_depth + events.len(),
        s.quote_depth + events.len() <= usize::MAX ==> run_ok(s, events),
    decreases events.len(),
{
    if events.len() > 0 {
        lemma_run_depth(s, events.drop_last());
        lemma_step_depth(run_spec(s, events.drop_last()), events.last());
    }
}

impl MarkdownParser {
    /// Feeds a sequence of events to the parser, in order.
    pub fn run_events(&mut self, events: Vec<MdEvent>)
        requires
            run_ok(old(self)@, events_view(events@)),
        ensures
            final(self)@ == run_spec(old(self)@, events_view(events@)),
    {
        let ghost s0 = self@;
        let ghost evs = events_view(events@);
        let ghost all = events@;
        let mut index: usize = 0;
        assert(all.len() == events.len());
        let mut source = events;
        let mut remaining: Vec<MdEvent> = Vec::new();
        while source.len() > 0
            invariant
                source@.len() + remaining@.len() == all.len(),
                forall|j: int| 0 <= j < source@.len() ==> #[trigger] source@[j] == all[j],
                forall|j: int|
                    0 <= j < remaining@.len() ==> #[trigger] remaining@[j] == all[all.len() - 1
                        - j],
            decreases source@.len(),
        {
            let event = source.pop().unwrap();
            remaining.push(event);
        }
        while remaining.len() > 0
            invariant
                evs == events_view(all),
                run_ok(s0, evs),
                index + remaining@.len() == all.len(),
                all.len() <= usize::MAX,
                forall|j: int|
                    0 <= j < remaining@.len() ==> #[trigger] remaining@[j] == all[all.len() - 1
                        - j],
                self@ == run_spec(s0, evs.take(index as int)),
            decreases remaining@.len(),
        {
            let event = remaining.pop().unwrap();
            proof {
                assert(event == all[index as int]);
                lemma_run_ok_prefix(s0, evs, index + 1);
                lemma_run_step(s0, evs, index as int);
            }
            self.event(event);
            proof {
                lemma_run_step(s0, evs, index as int);
            }
            index += 1;
        }
        assert(evs.take(index as int) =~= evs);
    }

    /// Parses a markdown text into blocks.
    pub fn parse(self, markdown: &str) -> (blocks: Vec<Block>)
        requires
            run_ok(self@, cmark_event_stream(markdown@, true, true, true, true)),
        ensures
            blocks_view(blocks@) == parse_spec(
                self@,
                cmark_event_stream(markdown@, true, true, true, true),
            ),
    {
        let mut parser = self;
        let events = cmark_events(markdown, true, true, true, true);
        parser.run_events(events);
        parser.flush_inline();
        parser.blocks
    }
}

/// Parses a markdown text into blocks with a fresh parser, the extensions
/// for strikethrough, tables, task lists and footnotes switched on.
pub fn parse_markdown(markdown: &str) -> (blocks: Vec<Block>)
    ensures
        blocks_view(blocks@) == parse_spec(
            initial_state(),
            cmark_event_stream(markdown@, true, true, true, true),
        ),
{
    // The events are collected here first only to learn that they are fewer
    // than the largest quote depth: `parse`, which collects them again, then
    // cannot overflow the depth of a fresh parser.
    let events = cmark_events(markdown, true, true, true, true);
    proof {
        lemma_run_depth(initial_state(), events_view(events@));
    }
    MarkdownParser::new().parse(markdown)
}

/// Strong emphasis makes text bold: opening it switches bold on and leaves
/// the other style flags, the collected blocks and the pending runs as they
/// were; text that follows outside a code block ends in a bold run; closing
/// it switches bold off again and keeps the other flags.
pub proof fn lemma_strong_text_is_bold(s: ParserView, text: Seq<char>)
    requires
        s.code is None,
    ensures
        ({
            let opened = event_spec(s, EventView::Start(TagView::Strong));
            let written = event_spec(opened, EventView::Text(text));
            let closed = event_spec(written, EventView::End(MdTagEnd::Strong));
            &&& opened.style.bold
            &&& opened.style.italic == s.style.italic
            &&& opened.style.strike == s.style.strike
            &&& opened.style.code == s.style.code
            &&& opened.style.code_block == s.style.code_block
            &&& opened.style.link == s.style.link
            &&& opened.blocks == s.blocks
            &&& opened.current == s.current
            &&& written.current.len() > 0
            &&& written.current.last().style.bold
            &&& written.current.last().text.len() >= text.len()
            &&& written.current.last().text.subrange(
                written.current.last().text.len() - text.len(),
                written.current.last().text.len() as int,
            ) == text
            &&& !closed.style.bold
            &&& closed.style.italic == s.style.italic
            &&& closed.style.link == s.style.link
        }),
{
    let opened = event_spec(s, EventView::Start(TagView::Strong));
    let written = event_spec(opened, EventView::Text(text));
    let last = written.current.last().text;
    if opened.current.len() > 0 && opened.current.last().style == text_style(opened) {
        assert(last == opened.current.last().text + text);
    } else {
        assert(last == text);
    }
    assert(last.subrange(last.len() - text.len(), last.len() as int) =~= text);
}

proof fn lemma_run_push(s: ParserView, events: Seq<EventView>, event: EventView)
    ensures
        run_spec(s, events.push(event)) == event_spec(run_spec(s, events), event),
{
    assert(events.push(event).drop_last() =~= events);
}

/// A paragraph whose first words are strong keeps them apart in a bold run,
/// followed by the rest of its text in a plain run.
pub proof fn lemma_bold_then_plain_paragraph(bold: Seq<char>, plain: Seq<char>)
    requires
        bold.len() > 0,
        plain.len() > 0,
    ensures
        parse_spec(
            initial_state(),
            seq![
                EventView::Start(TagView::Paragraph),
                EventView::Start(TagView::Strong),
                EventView::Text(bold),
                EventView::End(MdTagEnd::Strong),
                EventView::Text(plain),
                EventView::End(MdTagEnd::Paragraph),
            ],
        ) == seq![
            BlockView::Paragraph(
                seq![
                    SpanView {
                        text: bold,
                        style: StyleView {
                            bold: true,
                            italic: false,
                            strike: false,
                            code: false,
                            code_block: false,
                            link: None,
                        },
                    },
                    SpanView {
                        text: plain,
                        style: StyleView {
                            bold: false,
                            italic: false,
                            strike: false,
                            code: false,
                            code_block: false,
                            link: None,
                        },
                    },
                ],
            ),
        ],
{
    let s0 = initial_state();
    let e1 = EventView::Start(TagView::Paragraph);
    let e2 = EventView::Start(TagView::Strong);
    let e3 = EventView::Text(bold);
    let e4 = EventView::End(MdTagEnd::Strong);
    let e5 = EventView::Text(plain);
    let e6 = EventView::End(MdTagEnd::Paragraph);
    let empty = Seq::<EventView>::empty();
    lemma_run_push(s0, empty, e1);
    lemma_run_push(s0, empty.push(e1), e2);
    lemma_run_push(s0, empty.push(e1).push(e2), e3);
    lemma_run_push(s0, empty.push(e1).push(e2).push(e3), e4);
    lemma_run_push(s0, empty.push(e1).push(e2).push(e3).push(e4), e5);
    lemma_run_push(s0, empty.push(e1).push(e2).push(e3).push(e4).push(e5), e6);
    assert(empty.push(e1).push(e2).push(e3).push(e4).push(e5).push(e6) =~= seq![e1, e2, e3, e4, e5, e6]);
    let s1 = event_spec(s0, e1);
    let s2 = event_spec(s1, e2);
    let s3 = event_spec(s2, e3);
    let s4 = event_spec(s3, e4);
    let s5 = event_spec(s4, e5);
    let s6 = event_spec(s5, e6);
    assert(s1.current =~= Seq::<SpanView>::empty());
    assert(s3.current =~= seq![SpanView { text: bold, style: s2.style }]);
    assert(s5.current =~= seq![SpanView { text: bold, style: s2.style }, SpanView { text: plain, style: s4.style }]);
    assert(s6.blocks =~= seq![BlockView::Paragraph(s5.current)]);
    assert(flush_spec(s6) == s6);
}

/// Neighbouring runs never share a style.
pub open spec fn spans_maximal(spans: Seq<SpanView>) -> bool {
    forall|i: int| 0 <= i < spans.len() - 1 ==> #[trigger] spans[i].style != spans[i + 1].style
}

/// A block of inline text holds at least one run, and its runs are maximal.
pub open spec fn block_well_formed(b: BlockView) -> bool {
    match b {
        BlockView::Paragraph(c) => c.len() > 0 && spans_maximal(c),
        BlockView::Heading(_, c) => c.len() > 0 && spans_maximal(c),
        BlockView::Quote(c) => c.len() > 0 && spans_maximal(c),
        BlockView::ListItem { content, .. } => content.len() > 0 && spans_maximal(content),
        BlockView::TableRow { cells, .. } => forall|i: int|
            0 <= i < cells.len() ==> spans_maximal(#[trigger] cells[i]),
        _ => true,
    }
}

pub open spec fn state_well_formed(s: ParserView) -> bool {
    &&& spans_maximal(s.current)
    &&& forall|i: int| 0 <= i < s.table_cells.len() ==> spans_maximal(#[trigger] s.table_cells[i])
    &&& forall|i: int| 0 <= i < s.blocks.len() ==> block_well_formed(#[trigger] s.blocks[i])
}

proof fn lemma_push_text_well_formed(s: ParserView, text: Seq<char>)
    requires
        state_well_formed(s),
    ensures
        state_well_formed(push_text_spec(s, text)),
{
    let t = push_text_spec(s, text);
    assert forall|i: int| 0 <= i < t.current.len() - 1 implies #[trigger] t.current[i].style
        != t.current[i + 1].style by {
        if i + 1 < s.current.len() {
            assert(t.current[i].style == s.current[i].style);
            assert(t.current[i + 1].style == s.current[i + 1].style);
        }
    }
}

proof fn lemma_flush_well_formed(s: ParserView)
    requires
        state_well_formed(s),
    ensures
        state_well_formed(flush_spec(s)),
{
    let t = flush_spec(s);
    assert forall|i: int| 0 <= i < t.blocks.len() implies block_well_formed(#[trigger] t.blocks[i]) by {
        if i < s.blocks.len() {
            assert(t.blocks[i] == s.blocks[i]);
        }
    }
}

/// Every parsing step keeps the state well formed.
pub proof fn lemma_event_well_formed(s: ParserView, event: EventView)
    requires
        state_well_formed(s),
    ensures
        state_well_formed(event_spec(s, event)),
{
    lemma_flush_well_formed(s);
    lemma_push_text_well_formed(s, " "@);
    lemma_push_text_well_formed(s, "\n"@);
    let t = event_spec(s, event);
    match event {
        EventView::Start(tag) => {
            match tag {
                TagView::Image(url) => {
                    lemma_push_text_well_formed(ParserView { image_url: Some(url), ..s }, "[Image: "@);
                },
                TagView::Paragraph => {
                    lemma_flush_well_formed(s);
                },
                _ => {},
            }
        },
        EventView::End(tag) => {
            match tag {
                MdTagEnd::Image => {
                    lemma_push_text_well_formed(s, "]"@);
                },
                MdTagEnd::CodeBlock => {
                    assert forall|i: int| 0 <= i < t.blocks.len() implies block_well_formed(
                        #[trigger] t.blocks[i],
                    ) by {
                        if i < s.blocks.len() {
                            assert(t.blocks[i] == s.blocks[i]);
                        }
                    }
                },
                MdTagEnd::TableCell => {
                    assert forall|i: int| 0 <= i < t.table_cells.len() implies spans_maximal(
                        #[trigger] t.table_cells[i],
                    ) by {
                        if i < s.table_cells.len() {
                            assert(t.table_cells[i] == s.table_cells[i]);
                        }
                    }
                },
                MdTagEnd::TableRow => {
                    assert forall|i: int| 0 <= i < t.blocks.len() implies block_well_formed(
                        #[trigger] t.blocks[i],
                    ) by {
                        if i < s.blocks.len() {
                            assert(t.blocks[i] == s.blocks[i]);
                        }
                    }
                },
                _ => {},
            }
        },
        EventView::Text(text) => {
            lemma_push_text_well_formed(s, text);
        },
        EventView::Code(text) => {
            lemma_push_text_well_formed(with_style(s, StyleView { code: true, ..s.style }), text);
        },
        EventView::InlineMath(text) => {
            lemma_push_text_well_formed(s, "$"@ + text + "$"@);
        },
        EventView::DisplayMath(text) => {
            lemma_push_text_well_formed(s, "$"@ + text + "$"@);
        },
        EventView::FootnoteReference(label) => {
            lemma_push_text_well_formed(s, "["@ + label + "]"@);
        },
        EventView::Rule => {
            let f = flush_spec(s);
            assert forall|i: int| 0 <= i < t.blocks.len() implies block_well_formed(
                #[trigger] t.blocks[i],
            ) by {
                if i < f.blocks.len() {
                    assert(t.blocks[i] == f.blocks[i]);
                }
            }
        },
        _ => {},
    }
}

/// Runs from a well-formed state stay well formed.
pub proof fn lemma_run_well_formed(s: ParserView, events: Seq<EventView>)
    requires
        state_well_formed(s),
    ensures
        state_well_formed(run_spec(s, events)),
    decreases events.len(),
{
    if events.len() > 0 {
        lemma_run_well_formed(s, events.drop_last());
        lemma_event_well_formed(run_spec(s, events.drop_last()), events.last());
    }
}

/// Whatever events it is fed, a fresh parser yields only well-formed blocks:
/// each paragraph, heading, quote and list item holds at least one run of
/// text, and neighbouring runs of a block or table cell never share a style.
pub proof fn lemma_parse_blocks_well_formed(events: Seq<EventView>)
    ensures
        forall|i: int|
            0 <= i < parse_spec(initial_state(), events).len() ==> block_well_formed(
                #[trigger] parse_spec(initial_state(), events)[i],
            ),
{
    lemma_run_well_formed(initial_state(), events);
    lemma_flush_well_formed(run_spec(initial_state(), events));
}

/// The text of a code block is kept verbatim: opening a block with an info
/// string, one text event and the closing tag append a code block with that
/// text, after ending whatever inline text was pending.  An empty info string
/// records no language.
pub proof fn lemma_code_block_verbatim(s: ParserView, info: Option<Seq<char>>, text: Seq<char>)
    ensures
        run_spec(
            s,
            seq![
                EventView::Start(TagView::CodeBlock(info)),
                EventView::Text(text),
                EventView::End(MdTagEnd::CodeBlock),
            ],
        ).blocks == flush_spec(s).blocks.push(
            BlockView::Code { language: code_language(info), text },
        ),
{
    let evs = seq![
        EventView::Start(TagView::CodeBlock(info)),
        EventView::Text(text),
        EventView::End(MdTagEnd::CodeBlock),
    ];
    assert(evs.drop_last() =~= seq![evs[0], evs[1]]);
    assert(evs.drop_last().drop_last() =~= seq![evs[0]]);
    assert(evs.drop_last().drop_last().drop_last() =~= Seq::<EventView>::empty());
    reveal_with_fuel(run_spec, 4);
    let s1 = start_spec(s, TagView::CodeBlock(info));
    assert(s1.code == Some((code_language(info), Seq::<char>::empty())));
    assert(Seq::<char>::empty() + text =~= text);
}

/// A block quote that opens and closes again restores the nesting depth.
pub proof fn lemma_quote_restores_depth(s: ParserView)
    ensures
        run_spec(
            s,
            seq![EventView::Start(TagView::BlockQuote), EventView::End(MdTagEnd::BlockQuote)],
        ).quote_depth == s.quote_depth,
{
    let evs = seq![EventView::Start(TagView::BlockQuote), EventView::End(MdTagEnd::BlockQuote)];
    assert(evs.drop_last() =~= seq![evs[0]]);
    assert(evs.drop_last().drop_last() =~= Seq::<EventView>::empty());
    reveal_with_fuel(run_spec, 3);
}

/// A list that opens and closes again restores the open lists.
pub proof fn lemma_list_restores_lists(s: ParserView, start: Option<u64>)
    ensures
        run_spec(s, seq![EventView::Start(TagView::List(start)), EventView::End(MdTagEnd::List)]).lists
            == s.lists,
{
    let evs = seq![EventView::Start(TagView::List(start)), EventView::End(MdTagEnd::List)];
    assert(evs.drop_last() =~= seq![evs[0]]);
    assert(evs.drop_last().drop_last() =~= Seq::<EventView>::empty());
    reveal_with_fuel(run_spec, 3);
    assert(s.lists.push(start).drop_last() =~= s.lists);
}

/// Items of an ordered list are numbered consecutively from its start.
pub proof fn lemma_ordered_list_numbering(s: ParserView, start: u64)
    requires
        start < u64::MAX,
    ensures
        run_spec(
            s,
            seq![
                EventView::Start(TagView::List(Some(start))),
                EventView::Start(TagView::Item),
                EventView::End(MdTagEnd::Item),
                EventView::Start(TagView::Item),
            ],
        ).item_marker == Some(decimal_spec((start + 1) as nat) + "."@),
{
    let evs = seq![
        EventView::Start(TagView::List(Some(start))),
        EventView::Start(TagView::Item),
        EventView::End(MdTagEnd::Item),
        EventView::Start(TagView::Item),
    ];
    assert(evs.drop_last() =~= seq![evs[0], evs[1], evs[2]]);
    assert(evs.drop_last().drop_last() =~= seq![evs[0], evs[1]]);
    assert(evs.drop_last().drop_last().drop_last() =~= seq![evs[0]]);
    assert(evs.drop_last().drop_last().drop_last().drop_last() =~= Seq::<EventView>::empty());
    reveal_with_fuel(run_spec, 5);
    let s1 = start_spec(s, TagView::List(Some(start)));
    let s2 = item_spec(s1);
    let s3 = end_spec(s2, MdTagEnd::Item);
    assert(s1.lists.last() == Some(start));
    assert(s3.lists == s2.lists);
    assert(s2.lists.last() == Some(start.wrapping_add(1)));
    assert(run_spec(s, evs) == item_spec(s3));
    assert(start.wrapping_add(1) == start + 1) by (bit_vector)
        requires
            start < u64::MAX,
    ;
}


/// Links are only followed on the web, over HTTP or HTTPS.
pub fn safe_web_url(url: &str) -> (safe: bool)
    ensures
        safe == ((url@.len() >= "https://"@.len() && url@.subrange(0, "https://"@.len() as int)
            == "https://"@) || (url@.len() >= "http://"@.len() && url@.subrange(
            0,
            "http://"@.len() as int,
        ) == "http://"@)),
{
    starts_with(url, "https://") || starts_with(url, "http://")
}

/// The colours of the settings theme that markdown uses, as ARGB.
#[derive(Clone, Copy, PartialEq, Eq, Structural, Debug)]
pub struct SettingsTheme {
    pub text_pri: u32,
    pub text_sec: u32,
    pub accent: u32,
    pub control_bg: u32,
    pub group_bg: u32,
    pub separator: u32,
}

/// The colours markdown is drawn with, as ARGB.
#[derive(Clone, Copy, PartialEq, Eq, Structural, Debug)]
pub struct MarkdownColors {
    pub text: u32,
    pub secondary: u32,
    pub accent: u32,
    pub code_background: u32,
    pub quote_background: u32,
    pub separator: u32,
}

/// Markdown takes its colours from the settings theme: code sits on the
/// control background, table headers on the group background.
pub fn markdown_colors(theme: &SettingsTheme) -> (colors: MarkdownColors)
    ensures
        colors == (MarkdownColors {
            text: theme.text_pri,
            secondary: theme.text_sec,
            accent: theme.accent,
            code_background: theme.control_bg,
            quote_background: theme.group_bg,
            separator: theme.separator,
        }),
{
    MarkdownColors {
        text: theme.text_pri,
        secondary: theme.text_sec,
        accent: theme.accent,
        code_background: theme.control_bg,
        quote_background: theme.group_bg,
        separator: theme.separator,
    }
}

} // verus!
