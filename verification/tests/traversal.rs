use mygo_lint::analysis::analyze;
use mygo_lint::ast::Expr;
use mygo_lint::ast::Item;
use mygo_lint::ast::Lifetime;
use mygo_lint::ast::PathSegment;
use mygo_lint::ast::SourceFile;
use mygo_lint::ast::Stmt;
use mygo_lint::lints::Lints;
use mygo_lint::lints::Severity;
use mygo_lint::lints::render;
use mygo_lint::span::Position;
use mygo_lint::span::Span;
use mygo_lint::walker::check_block;
use mygo_lint::walker::check_stmt;
use mygo_lint::walker::process_macro;

fn sp(start_line: u32, start_col: u32, end_line: u32, end_col: u32) -> Span {
    Span { start_line, start_col, end_line, end_col }
}

fn unwrap_stmt(line: u32) -> Stmt {
    Stmt::Expr(Expr::MethodCall { name: "unwrap".to_string(), span: sp(line, 4, line, 10) })
}

/// An `unsafe` block is flagged itself at INFORMATION severity and its
/// direct statements are walked with the same rules.
#[test]
fn unsafe_block_walks_inner_statements() {
    let body = vec![Stmt::Expr(Expr::Unsafe {
        span: sp(2, 4, 2, 10),
        body: vec![unwrap_stmt(3), Stmt::Expr(Expr::Try { span: sp(4, 12, 4, 13) })],
    })];
    let diags = check_block(&body);
    assert_eq!(diags.len(), 3);
    assert_eq!(diags[0].severity, Severity::Information);
    assert_eq!(diags[0].range.start, Position { line: 1, character: 4 });
    assert_eq!(diags[1].severity, Severity::Warning);
    assert_eq!(diags[1].range.start, Position { line: 2, character: 4 });
    assert_eq!(diags[2].severity, Severity::Information);
    assert_eq!(diags[2].range.start, Position { line: 3, character: 12 });
}

/// The walk reapplies to each nested `unsafe` block: two levels of
/// nesting flag both blocks and the innermost statement.
#[test]
fn nested_unsafe_blocks() {
    let inner = Expr::Unsafe { span: sp(3, 8, 3, 14), body: vec![unwrap_stmt(4)] };
    let outer = vec![Stmt::Expr(Expr::Unsafe {
        span: sp(2, 4, 2, 10),
        body: vec![Stmt::Expr(inner)],
    })];
    let diags = check_block(&outer);
    assert_eq!(diags.len(), 3);
    assert_eq!(diags[0].severity, Severity::Information);
    assert_eq!(diags[1].severity, Severity::Information);
    assert_eq!(diags[2].severity, Severity::Warning);
}

/// Constructs nested inside unclassified expressions — `if`, `match`,
/// loop bodies, closures — are not flagged: such expressions are opaque
/// to the walker, as are unclassified statements and non-function items.
#[test]
fn unclassified_shapes_yield_nothing() {
    let file = SourceFile {
        items: vec![
            Item::Fn {
                body: vec![Stmt::Expr(Expr::Other), Stmt::Other, Stmt::Local {
                    lifetime: None,
                    init: Some(Expr::Other),
                }],
            },
            Item::Other,
        ],
    };
    let diags = analyze(Some(file));
    assert!(diags.is_empty());
}

/// A method call is flagged only when the method is exactly `unwrap`.
#[test]
fn other_method_names_pass() {
    let body = vec![Stmt::Expr(Expr::MethodCall {
        name: "expect".to_string(),
        span: sp(1, 4, 1, 10),
    })];
    assert!(check_block(&body).is_empty());
}

/// A macro invocation is flagged at the first path segment named
/// `panic`, wherever it stands in the path.
#[test]
fn qualified_panic_macro() {
    let segments = vec![
        PathSegment { name: "std".to_string(), span: sp(1, 8, 1, 11) },
        PathSegment { name: "panic".to_string(), span: sp(1, 13, 1, 18) },
    ];
    let diag = process_macro(&segments).expect("the panic segment is flagged");
    assert_eq!(diag.severity, Severity::Error);
    assert_eq!(diag.range.start, Position { line: 0, character: 13 });
}

/// A macro invocation with no segment named `panic` is not flagged.
#[test]
fn other_macros_pass() {
    let segments = vec![PathSegment { name: "println".to_string(), span: sp(1, 4, 1, 11) }];
    assert!(process_macro(&segments).is_none());
}

/// A lifetime other than `static` is not flagged, with or without an
/// initializer worth flagging.
#[test]
fn other_lifetimes_pass() {
    let stmt = Stmt::Local {
        lifetime: Some(Lifetime { name: "a".to_string(), span: sp(1, 16, 1, 17) }),
        init: None,
    };
    assert!(check_stmt(&stmt).is_empty());
}

/// A binding with the `static` lifetime and a flaggable initializer
/// yields the lifetime diagnostic first, then the initializer's.
#[test]
fn static_lifetime_then_initializer() {
    let stmt = Stmt::Local {
        lifetime: Some(Lifetime { name: "static".to_string(), span: sp(1, 17, 1, 23) }),
        init: Some(Expr::MethodCall { name: "unwrap".to_string(), span: sp(1, 32, 1, 38) }),
    };
    let diags = check_stmt(&stmt);
    assert_eq!(diags.len(), 2);
    assert_eq!(diags[0].severity, Severity::Information);
    assert_eq!(diags[0].range.start, Position { line: 0, character: 17 });
    assert_eq!(diags[1].severity, Severity::Warning);
    assert_eq!(diags[1].range.start, Position { line: 0, character: 32 });
}

/// A binding with the `static` lifetime and no initializer still yields
/// exactly one diagnostic.
#[test]
fn static_lifetime_without_initializer() {
    let stmt = Stmt::Local {
        lifetime: Some(Lifetime { name: "static".to_string(), span: sp(1, 17, 1, 23) }),
        init: None,
    };
    let diags = check_stmt(&stmt);
    assert_eq!(diags.len(), 1);
    assert_eq!(diags[0].severity, Severity::Information);
}

/// Diagnostics of several top-level functions are concatenated in
/// visitation order; items between them contribute nothing.
#[test]
fn functions_in_order() {
    let file = SourceFile {
        items: vec![
            Item::Fn { body: vec![unwrap_stmt(2)] },
            Item::Other,
            Item::Fn {
                body: vec![Stmt::MacroCall {
                    segments: vec![PathSegment {
                        name: "panic".to_string(),
                        span: sp(6, 4, 6, 9),
                    }],
                }],
            },
        ],
    };
    let diags = analyze(Some(file));
    assert_eq!(diags.len(), 2);
    assert_eq!(diags[0].severity, Severity::Warning);
    assert_eq!(diags[0].range.start, Position { line: 1, character: 4 });
    assert_eq!(diags[1].severity, Severity::Error);
    assert_eq!(diags[1].range.start, Position { line: 5, character: 4 });
}

/// Exactly one diagnostic is produced per occurrence: three unwrap
/// statements yield three WARNING diagnostics, in statement order.
#[test]
fn one_diagnostic_per_occurrence() {
    let body = vec![unwrap_stmt(2), unwrap_stmt(3), unwrap_stmt(5)];
    let diags = check_block(&body);
    assert_eq!(diags.len(), 3);
    for (k, line) in [1u32, 2, 4].iter().enumerate() {
        assert_eq!(diags[k].severity, Severity::Warning);
        assert_eq!(diags[k].range.start, Position { line: *line, character: 4 });
    }
}

/// Each finding kind renders with its fixed severity, message and
/// source tag.
#[test]
fn renderer_fixed_fields() {
    let span = sp(1, 0, 1, 6);
    let unwrap_diag = render(Lints::Unwrap(span));
    assert_eq!(unwrap_diag.severity, Severity::Warning);
    assert_eq!(
        unwrap_diag.message,
        "「那傢伙竟敢無視燈？」\n立希不希望各位使用 `unwrap` method 來無視錯誤，請嘗試改用 `expect` method"
    );
    assert_eq!(unwrap_diag.source, "mygo_lint");
    assert_eq!(render(Lints::Unsafe(span)).severity, Severity::Information);
    assert_eq!(render(Lints::Panic(span)).severity, Severity::Error);
    assert_eq!(
        render(Lints::Panic(span)).message,
        "「為什麼要演奏春日影！」\n超級不爽世不允許任何人使用 `panic!` macro"
    );
    assert_eq!(render(Lints::TryExpr(span)).severity, Severity::Information);
    let static_diag = render(Lints::Static(span));
    assert_eq!(static_diag.severity, Severity::Information);
    assert_eq!(
        static_diag.message,
        "「一輩子跟我一起組樂團嗎」\n燈指出這個 reference 被指定了 `static` lifetime"
    );
}
