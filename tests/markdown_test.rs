use mimir::{
    convert_to_html, convert_to_html_with, highlight, lines_with_endings, CodeBlock, CodeBlockKind,
    DocEvent, Highlighter, Step, SyntaxCatalog,
};

#[test]
fn test_highlight_output() {
    let output = convert_to_html(
        r#"
```rust
let k = "k".to_string();
let a = 12;
```
"#,
    );
    assert!(output.is_ok(), "<pre><code><span class=\"source rust\">\
        <span class=\"storage type rust\">let</span> k <span class=\"keyword operator rust\">=</span> \
        <span class=\"string quoted double rust\"><span class=\"punctuation definition string begin rust\">&quot;</span>k\
        <span class=\"punctuation definition string end rust\">&quot;</span></span>.\
        <span class=\"support function rust\">to_string</span><span class=\"meta group rust\">\
        <span class=\"punctuation section group begin rust\">(</span></span>\
        <span class=\"meta group rust\"><span class=\"punctuation section group end rust\">)</span></span>\
        <span class=\"punctuation terminator rust\">;</span>\n<span class=\"storage type rust\">let</span> a \
        <span class=\"keyword operator rust\">=</span> <span class=\"constant numeric integer decimal rust\">12\
        </span><span class=\"punctuation terminator rust\">;</span>\n</span></code></pre>");
}

#[test]
fn rust_block_is_highlighted_with_classes() {
    let html = convert_to_html("```rust\nlet a = 12;\n```\n").unwrap();
    assert!(html.starts_with("<pre><code><span class=\"source rust\">"), "{}", html);
    assert!(html.contains("<span class=\"storage type rust\">let</span>"), "{}", html);
    assert!(html.trim_end().ends_with("</code></pre>"), "{}", html);
}

#[test]
fn plain_text_passes_through() {
    let html = convert_to_html("plain text, no code").unwrap();
    assert_eq!(html, "<p>plain text, no code</p>\n");
    assert!(!html.contains("<pre>"));
}

#[test]
fn unknown_language_falls_back_to_plain_text() {
    let html = convert_to_html("```zorp\nfoo <bar>\n```\n").unwrap();
    assert!(html.starts_with("<pre><code>"), "{}", html);
    assert!(html.contains("text plain"), "{}", html);
    assert!(html.contains("foo &lt;bar&gt;"), "{}", html);
    assert!(html.trim_end().ends_with("</code></pre>"), "{}", html);
}

#[test]
fn indented_block_is_plain_text() {
    let html = convert_to_html("para\n\n    let x = 1;\n").unwrap();
    assert!(html.contains("<pre><code><span class=\"text plain\">let x = 1;\n</span></code></pre>"), "{}", html);
}

#[test]
fn consecutive_blocks_do_not_share_state() {
    // The rust block leaves a string literal open at its end.
    let first = "```rust\nlet s = \"open\n```\n";
    let second = "```python\nx = 1\n```\n";
    let both = convert_to_html(&format!("{}\n{}", first, second)).unwrap();
    let alone_first = convert_to_html(first).unwrap();
    let alone_second = convert_to_html(second).unwrap();
    assert_eq!(both, format!("{}{}", alone_first, alone_second));
    assert!(alone_second.contains("source python"));
    assert!(!alone_second.contains("rust"));
}

#[test]
fn transform_passes_other_events_unchanged() {
    let catalog = SyntaxCatalog::load_defaults();
    let events: Vec<DocEvent<u32>> = vec![
        DocEvent::Other(1),
        DocEvent::Text("a < b".to_string()),
        DocEvent::Html("<hr>".to_string()),
        DocEvent::Other(2),
    ];
    let out = highlight(events, &catalog).unwrap();
    assert_eq!(out.len(), 4);
    assert!(matches!(out[0], DocEvent::Other(1)));
    assert!(matches!(&out[1], DocEvent::Text(t) if t == "a < b"));
    assert!(matches!(&out[2], DocEvent::Html(h) if h == "<hr>"));
    assert!(matches!(out[3], DocEvent::Other(2)));
}

#[test]
fn transform_replaces_a_block_by_one_html_event() {
    let catalog = SyntaxCatalog::load_defaults();
    let events: Vec<DocEvent<u32>> = vec![
        DocEvent::Other(7),
        DocEvent::StartCodeBlock(CodeBlockKind::Fenced("zorp".to_string())),
        DocEvent::Text("x\n".to_string()),
        DocEvent::Text("y\n".to_string()),
        DocEvent::EndCodeBlock,
        DocEvent::Other(8),
    ];
    let out = highlight(events, &catalog).unwrap();
    assert_eq!(out.len(), 3);
    assert!(matches!(out[0], DocEvent::Other(7)));
    match &out[1] {
        DocEvent::Html(h) => assert_eq!(
            h,
            "<pre><code><span class=\"text plain\">x\ny\n</span></code></pre>"
        ),
        _ => panic!("expected the highlighted block"),
    }
    assert!(matches!(out[2], DocEvent::Other(8)));
}

#[test]
fn empty_block_renders_empty_envelope() {
    let catalog = SyntaxCatalog::load_defaults();
    let block = CodeBlock { language: None, code: String::new() };
    assert_eq!(catalog.code_block_html(&block).unwrap(), "<pre><code></code></pre>");
    let html = convert_to_html_with(&catalog, "```\n```\n").unwrap();
    assert_eq!(html, "<pre><code></code></pre>");
}

#[test]
fn highlighter_steps() {
    let mut h = Highlighter::new();
    assert!(matches!(h.advance(DocEvent::<u8>::Text("t".to_string())), Step::Emit(DocEvent::Text(_))));
    assert!(matches!(
        h.advance(DocEvent::<u8>::StartCodeBlock(CodeBlockKind::Fenced("rust".to_string()))),
        Step::Absorbed
    ));
    assert!(matches!(h.advance(DocEvent::<u8>::Text("a".to_string())), Step::Absorbed));
    assert!(matches!(h.advance(DocEvent::<u8>::Other(3)), Step::Emit(DocEvent::Other(3))));
    assert!(matches!(h.advance(DocEvent::<u8>::Text("b".to_string())), Step::Absorbed));
    match h.advance(DocEvent::<u8>::EndCodeBlock) {
        Step::Finished(b) => {
            assert_eq!(b.language.as_deref(), Some("rust"));
            assert_eq!(b.code, "ab");
        }
        _ => panic!("expected a finished block"),
    }
    // A stray end after the block hands out an empty plain block.
    match h.advance(DocEvent::<u8>::EndCodeBlock) {
        Step::Finished(b) => {
            assert_eq!(b.language, None);
            assert_eq!(b.code, "");
        }
        _ => panic!("expected a finished block"),
    }
}

#[test]
fn lines_keep_their_endings() {
    assert_eq!(lines_with_endings("a\nbc\n\nd"), vec!["a\n", "bc\n", "\n", "d"]);
    assert_eq!(lines_with_endings("x\n"), vec!["x\n"]);
    assert!(lines_with_endings("").is_empty());
}

#[test]
fn unknown_tokens_render_alike() {
    let a = convert_to_html("```zorp\nlet a = 1;\n```\n").unwrap();
    let b = convert_to_html("```blorf\nlet a = 1;\n```\n").unwrap();
    let plain = convert_to_html("```\nlet a = 1;\n```\n").unwrap();
    assert_eq!(a, b);
    assert_eq!(a, plain);
    assert!(a.contains("let a = 1;"));
}
