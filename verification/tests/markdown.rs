use winisland_window::markdown::{parse_markdown, safe_web_url, Block, InlineSpan, MarkdownParser};
use winisland_window::markdown_events::{HeadingLevel, MdEvent, MdTag, MdTagEnd};

fn texts(spans: &[InlineSpan]) -> Vec<String> {
    spans.iter().map(|s| s.text.clone()).collect()
}

#[test]
fn heading_and_paragraph() {
    let blocks = parse_markdown("# Title\n\nHello *world*");
    assert_eq!(blocks.len(), 2);
    match &blocks[0] {
        Block::Heading(level, spans) => {
            assert_eq!(*level, HeadingLevel::H1);
            assert_eq!(texts(spans), vec!["Title".to_string()]);
        }
        other => panic!("unexpected block {other:?}"),
    }
    match &blocks[1] {
        Block::Paragraph(spans) => {
            assert_eq!(texts(spans), vec!["Hello ".to_string(), "world".to_string()]);
            assert!(!spans[0].style.italic);
            assert!(spans[1].style.italic);
        }
        other => panic!("unexpected block {other:?}"),
    }
}

#[test]
fn soft_breaks_join_runs() {
    let blocks = parse_markdown("one\ntwo");
    match &blocks[0] {
        Block::Paragraph(spans) => assert_eq!(texts(spans), vec!["one two".to_string()]),
        other => panic!("unexpected block {other:?}"),
    }
}

#[test]
fn ordered_list_numbers_items() {
    let blocks = parse_markdown("3. a\n4. b\n5. c");
    let markers: Vec<String> = blocks
        .iter()
        .map(|b| match b {
            Block::ListItem { marker, depth, .. } => {
                assert_eq!(*depth, 0);
                marker.clone()
            }
            other => panic!("unexpected block {other:?}"),
        })
        .collect();
    assert_eq!(markers, vec!["3.", "4.", "5."]);
}

#[test]
fn bullet_and_task_items() {
    let blocks = parse_markdown("- plain\n- [x] done\n- [ ] open");
    match &blocks[0] {
        Block::ListItem { marker, checked, content, depth } => {
            assert_eq!(marker, "•");
            assert_eq!(*checked, None);
            assert_eq!(*depth, 0);
            assert_eq!(texts(content), vec!["plain".to_string()]);
        }
        other => panic!("unexpected block {other:?}"),
    }
    match &blocks[1] {
        Block::ListItem { checked, content, .. } => {
            assert_eq!(*checked, Some(true));
            assert_eq!(texts(content), vec!["done".to_string()]);
        }
        other => panic!("unexpected block {other:?}"),
    }
    assert!(matches!(blocks[2], Block::ListItem { checked: Some(false), .. }));
}

#[test]
fn nested_item_text_joins_the_inner_item() {
    // A tight outer item's text is still pending when the inner list opens,
    // so it ends up in the inner item, one level deep.
    let blocks = parse_markdown("- a\n  - b");
    assert_eq!(blocks.len(), 1);
    match &blocks[0] {
        Block::ListItem { depth, content, .. } => {
            assert_eq!(*depth, 1);
            assert_eq!(texts(content), vec!["ab".to_string()]);
        }
        other => panic!("unexpected block {other:?}"),
    }
}

#[test]
fn fenced_code_is_verbatim() {
    let blocks = parse_markdown("```rust\nlet a = *b;\n```\n\n```\nplain\n```");
    match &blocks[0] {
        Block::Code { language, text } => {
            assert_eq!(language.as_deref(), Some("rust"));
            assert_eq!(text, "let a = *b;\n");
        }
        other => panic!("unexpected block {other:?}"),
    }
    match &blocks[1] {
        Block::Code { language, .. } => assert_eq!(*language, None),
        other => panic!("unexpected block {other:?}"),
    }
}

#[test]
fn quote_rule_and_table() {
    let blocks = parse_markdown("> quoted\n\n---\n\n| a | b |\n|---|---|\n| 1 | 2 |");
    assert!(matches!(&blocks[0], Block::Quote(spans) if texts(spans) == vec!["quoted".to_string()]));
    assert!(matches!(blocks[1], Block::Rule));
    // The header cells are not wrapped in a row, so only body rows become
    // blocks.
    assert_eq!(blocks.len(), 3);
    match &blocks[2] {
        Block::TableRow { header, cells } => {
            assert!(!*header);
            assert_eq!(cells.len(), 2);
            assert_eq!(texts(&cells[0]), vec!["1".to_string()]);
            assert_eq!(texts(&cells[1]), vec!["2".to_string()]);
        }
        other => panic!("unexpected block {other:?}"),
    }
}

#[test]
fn links_images_and_code_spans() {
    let blocks = parse_markdown("see [site](https://x.org) and ![logo](https://x.org/l.png) `code`");
    match &blocks[0] {
        Block::Paragraph(spans) => {
            assert_eq!(spans[1].text, "site");
            assert_eq!(spans[1].style.link.as_deref(), Some("https://x.org"));
            assert_eq!(spans[3].text, "[Image: logo]");
            assert_eq!(spans[3].style.link.as_deref(), Some("https://x.org/l.png"));
            let last = spans.last().unwrap();
            assert_eq!(last.text, "code");
            assert!(last.style.code);
        }
        other => panic!("unexpected block {other:?}"),
    }
}

#[test]
fn strike_and_footnote() {
    let blocks = parse_markdown("~~gone~~ note[^1]\n\n[^1]: text");
    match &blocks[0] {
        Block::Paragraph(spans) => {
            assert_eq!(spans[0].text, "gone");
            assert!(spans[0].style.strike);
            assert_eq!(spans[1].text, " note[1]");
        }
        other => panic!("unexpected block {other:?}"),
    }
}

#[test]
fn events_drive_the_parser() {
    let mut parser = MarkdownParser::new();
    parser.event(MdEvent::Start(MdTag::BlockQuote));
    parser.event(MdEvent::Text("a".to_string()));
    parser.event(MdEvent::Code("b".to_string()));
    parser.event(MdEvent::InlineMath("c".to_string()));
    parser.event(MdEvent::HardBreak);
    parser.event(MdEvent::End(MdTagEnd::BlockQuote));
    parser.event(MdEvent::Rule);
    let blocks = parser.parse("");
    match &blocks[0] {
        Block::Quote(spans) => {
            assert_eq!(texts(spans), vec!["a".to_string(), "b".to_string(), "$c$\n".to_string()]);
            assert!(spans[1].style.code);
        }
        other => panic!("unexpected block {other:?}"),
    }
    assert!(matches!(blocks[1], Block::Rule));
}

#[test]
fn empty_document_has_no_blocks() {
    assert!(parse_markdown("").is_empty());
    assert!(parse_markdown("<div>html</div>").is_empty());
}

#[test]
fn web_urls() {
    assert!(safe_web_url("https://example.com"));
    assert!(safe_web_url("http://example.com"));
    assert!(!safe_web_url("ftp://example.com"));
    assert!(!safe_web_url("javascript:alert(1)"));
    assert!(!safe_web_url("http:/"));
}
