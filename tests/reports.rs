use typst_host::diagnostic::{
    char_index, format_diagnostic, join_hints, Severity, SourceDiagnostic, Span, Tracepoint,
};
use typst_host::ident::ResourceId;
use typst_host::store::Source;

fn id(path: &str) -> ResourceId {
    ResourceId { package: None, path: path.to_string() }
}

fn source(path: &str, text: &str) -> Source {
    Source { id: id(path), text: text.to_string() }
}

fn span(path: &str, start: usize, end: usize) -> Span {
    Span { id: Some(id(path)), start, end }
}

fn diagnostic(severity: Severity, message: &str, span: Span, hints: &[&str]) -> SourceDiagnostic {
    SourceDiagnostic {
        severity,
        span,
        message: message.to_string(),
        hints: hints.iter().map(|h| h.to_string()).collect(),
        trace: Vec::new(),
    }
}

#[test]
fn rendering_is_deterministic() {
    let sources = vec![source("/main.typ", "#let x = \n")];
    let diags = vec![diagnostic(
        Severity::Error,
        "unexpected end of input",
        span("/main.typ", 9, 10),
        &["insert a value"],
    )];
    let first = format_diagnostic(&sources, &diags);
    let second = format_diagnostic(&sources, &diags);
    assert_eq!(first, second);
    assert!(first.contains("unexpected end of input"), "{}", first);
    assert!(first.contains("insert a value"), "{}", first);
    assert!(first.contains("/main.typ:1:10"), "{}", first);
    assert!(first.contains("Error"), "{}", first);
    assert!(!first.contains('\u{1b}'), "{}", first);
    assert_eq!(first, first.trim());
    assert!(!first.ends_with('\n'));
    assert!(first.starts_with("Error"), "{}", first);
}

#[test]
fn each_span_uses_its_own_file() {
    let sources = vec![
        source("/a.typ", "alpha\nbeta one\n"),
        source("/b.typ", "gamma\ndelta two\n"),
    ];
    let diags = vec![
        diagnostic(Severity::Error, "first", span("/a.typ", 6, 10), &[]),
        diagnostic(Severity::Warning, "second", span("/b.typ", 6, 11), &[]),
    ];
    let out = format_diagnostic(&sources, &diags);
    let a = out.find("first").unwrap();
    let b = out.find("Warning: second").unwrap();
    assert!(a < b);
    let (head, tail) = out.split_at(b);
    assert!(head.contains("beta one") && head.contains("/a.typ:2:1"), "{}", out);
    assert!(!head.contains("delta"), "{}", out);
    assert!(tail.contains("delta two") && tail.contains("/b.typ:2:1"), "{}", out);
    assert!(!tail.contains("beta"), "{}", out);
    assert!(tail.contains("Warning"), "{}", out);
}

#[test]
fn trace_points_follow_as_advice() {
    let sources = vec![source("/main.typ", "#f()\n#let f() = g()\n")];
    let mut d = diagnostic(Severity::Error, "unknown variable: g", span("/main.typ", 16, 17), &[]);
    d.trace.push(Tracepoint { span: span("/main.typ", 1, 4), message: "error occurred in this call".to_string() });
    let out = format_diagnostic(&sources, &[d].into_iter().collect());
    let head = out.find("unknown variable: g").unwrap();
    let advice = out.find("Advice").unwrap();
    assert!(head < advice, "{}", out);
    assert!(out.contains("error occurred in this call"), "{}", out);
}

#[test]
fn spans_without_location_render() {
    let diags = vec![SourceDiagnostic {
        severity: Severity::Warning,
        span: Span { id: None, start: 3, end: 7 },
        message: "no file here".to_string(),
        hints: vec!["first".to_string(), "second".to_string()],
        trace: Vec::new(),
    }];
    let out = format_diagnostic(&Vec::new(), &diags);
    assert!(out.contains("no file here"), "{}", out);
    assert!(out.contains("first"), "{}", out);
    assert!(out.contains("second"), "{}", out);
}

#[test]
fn no_diagnostics_render_empty() {
    assert_eq!(format_diagnostic(&Vec::new(), &Vec::new()), "");
}

#[test]
fn byte_offsets_become_char_offsets() {
    assert_eq!(char_index("abc", 2), 2);
    assert_eq!(char_index("héllo", 3), 2);
    assert_eq!(char_index("héllo", 2), 2);
    assert_eq!(char_index("héllo", 100), 5);
    assert_eq!(char_index("", 0), 0);
}

#[test]
fn hints_join_with_newlines() {
    assert_eq!(join_hints(&Vec::new()), None);
    assert_eq!(join_hints(&vec!["a".to_string()]), Some("a".to_string()));
    assert_eq!(
        join_hints(&vec!["a".to_string(), "b".to_string(), "c".to_string()]),
        Some("a\nb\nc".to_string())
    );
}

#[test]
fn non_ascii_text_points_at_the_right_column() {
    let sources = vec![source("/u.typ", "é = x\n")];
    // Byte 5 is the `x`, the fifth character.
    let diags = vec![diagnostic(Severity::Error, "bad x", span("/u.typ", 5, 6), &[])];
    let out = format_diagnostic(&sources, &diags);
    assert!(out.contains("/u.typ:1:5"), "{}", out);
}

#[test]
fn inverted_range_renders_without_panic() {
    let sources = vec![source("/main.typ", "ab")];
    let diags = vec![diagnostic(Severity::Error, "backwards", span("/main.typ", 2, 0), &[])];
    let out = format_diagnostic(&sources, &diags);
    assert!(out.contains("backwards"), "{}", out);
    assert!(out.contains("/main.typ:1:3"), "{}", out);
}
