use mygo_lint::analysis::analyze;
use mygo_lint::analysis::publish_list;
use mygo_lint::ast::Expr;
use mygo_lint::ast::Item;
use mygo_lint::ast::Lifetime;
use mygo_lint::ast::PathSegment;
use mygo_lint::ast::SourceFile;
use mygo_lint::ast::Stmt;
use mygo_lint::lints::Severity;
use mygo_lint::span::Position;
use mygo_lint::span::Range;
use mygo_lint::span::Span;
use mygo_lint::span::span_to_range;

fn sp(start_line: u32, start_col: u32, end_line: u32, end_col: u32) -> Span {
    Span { start_line, start_col, end_line, end_col }
}

fn one_fn(body: Vec<Stmt>) -> SourceFile {
    SourceFile { items: vec![Item::Fn { body }] }
}

/// `fn f(){ x.unwrap(); }`: one WARNING diagnostic spanning the `unwrap`
/// token, which sits on parser line 1 at columns 10..16.
#[test]
fn unwrap_call_statement() {
    let file = one_fn(vec![Stmt::Expr(Expr::MethodCall {
        name: "unwrap".to_string(),
        span: sp(1, 10, 1, 16),
    })]);
    let diags = analyze(Some(file));
    assert_eq!(diags.len(), 1);
    assert_eq!(diags[0].severity, Severity::Warning);
    assert_eq!(
        diags[0].range,
        Range { start: Position { line: 0, character: 10 }, end: Position { line: 0, character: 16 } }
    );
    assert_eq!(diags[0].source, "mygo_lint");
}

/// `fn f(){ panic!("x"); }`: one ERROR diagnostic spanning the `panic`
/// token, which sits on parser line 1 at columns 8..13.
#[test]
fn panic_macro_statement() {
    let file = one_fn(vec![Stmt::MacroCall {
        segments: vec![PathSegment { name: "panic".to_string(), span: sp(1, 8, 1, 13) }],
    }]);
    let diags = analyze(Some(file));
    assert_eq!(diags.len(), 1);
    assert_eq!(diags[0].severity, Severity::Error);
    assert_eq!(
        diags[0].range,
        Range { start: Position { line: 0, character: 8 }, end: Position { line: 0, character: 13 } }
    );
    assert_eq!(diags[0].source, "mygo_lint");
}

/// `fn f(){ let y: &'static i32 = &1; }`: one INFORMATION diagnostic
/// spanning the `static` token, which sits on parser line 1 at columns
/// 17..23.
#[test]
fn static_lifetime_local() {
    let file = one_fn(vec![Stmt::Local {
        lifetime: Some(Lifetime { name: "static".to_string(), span: sp(1, 17, 1, 23) }),
        init: Some(Expr::Other),
    }]);
    let diags = analyze(Some(file));
    assert_eq!(diags.len(), 1);
    assert_eq!(diags[0].severity, Severity::Information);
    assert_eq!(
        diags[0].range,
        Range { start: Position { line: 0, character: 17 }, end: Position { line: 0, character: 23 } }
    );
}

/// A document the parser rejected (for instance `fn f( {`) publishes the
/// empty list; no error diagnostic is synthesized.
#[test]
fn parse_failure_yields_empty_list() {
    let diags = analyze(None);
    assert!(diags.is_empty());
}

/// Position mapping is a pure shift: parser line 1 maps to editor line
/// 0 and columns pass through unchanged.
#[test]
fn span_mapping_boundary_line_one() {
    let r = span_to_range(sp(1, 0, 1, 5));
    assert_eq!(r.start, Position { line: 0, character: 0 });
    assert_eq!(r.end, Position { line: 0, character: 5 });
    let r2 = span_to_range(sp(7, 3, 9, 0));
    assert_eq!(r2.start, Position { line: 6, character: 3 });
    assert_eq!(r2.end, Position { line: 8, character: 0 });
}

/// The awaiting side publishes whatever list arrived, and the empty
/// list when the completion signal was dropped without a value.
#[test]
fn publish_list_default() {
    let file = one_fn(vec![Stmt::Expr(Expr::MethodCall {
        name: "unwrap".to_string(),
        span: sp(2, 4, 2, 10),
    })]);
    let diags = analyze(Some(file));
    let published = publish_list(Some(diags.clone()));
    assert_eq!(published, diags);
    let defaulted = publish_list(None);
    assert!(defaulted.is_empty());
}
