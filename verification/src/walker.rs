use vstd::prelude::*;

use crate::ast::Expr;
use crate::ast::Item;
use crate::ast::Lifetime;
use crate::ast::PathSegment;
use crate::ast::SourceFile;
use crate::ast::Stmt;
use crate::ast::block_wf;
use crate::lints::Diagnostic;
use crate::lints::Lints;
use crate::lints::render;
use crate::lints::spec_render;
use crate::span::Span;

verus! {

broadcast use vstd::seq::group_seq_axioms, vstd::std_specs::vec::group_vec_axioms;

/// The diagnostics `ds` are, one to one and in order, the renderings of
/// the findings `ls`.
pub open spec fn renders(ds: Seq<Diagnostic>, ls: Seq<Lints>) -> bool {
    &&& ds.len() == ls.len()
    &&& forall|i: int| 0 <= i < ds.len() ==> (#[trigger] ds[i])@ == spec_render(ls[i])
}

/// The span of the first path segment named `panic`, if any.
pub open spec fn spec_find_panic(segments: Seq<PathSegment>) -> Option<Span>
    decreases segments.len(),
{
    if segments.len() == 0 {
        None
    } else if segments[0].name@ == "panic"@ {
        Some(segments[0].span)
    } else {
        spec_find_panic(segments.drop_first())
    }
}

/// Findings of a macro invocation: one `Panic` finding anchored at the
/// first path segment named `panic`, none when no segment is.
pub open spec fn spec_process_macro(segments: Seq<PathSegment>) -> Seq<Lints> {
    match spec_find_panic(segments) {
        Some(span) => seq![Lints::Panic(span)],
        None => seq![],
    }
}

/// The `Static` finding of a `let` binding: one finding anchored at the
/// lifetime token when the declared type carries the `static` lifetime.
pub open spec fn spec_static_part(lifetime: Option<Lifetime>) -> Seq<Lints> {
    match lifetime {
        Some(lt) => if lt.name@ == "static"@ {
            seq![Lints::Static(lt.span)]
        } else {
            seq![]
        },
        None => seq![],
    }
}

/// Findings of a classified expression: an `unwrap` method call, a `?`
/// expression and an `unsafe` block each yield one finding; the `unsafe`
/// block's own statements are walked in turn; nothing else is flagged.
pub open spec fn spec_process_expr(e: Expr) -> Seq<Lints>
    decreases e, 1int,
{
    match e {
        Expr::MethodCall { name, span } => if name@ == "unwrap"@ {
            seq![Lints::Unwrap(span)]
        } else {
            seq![]
        },
        Expr::Try { span } => seq![Lints::TryExpr(span)],
        Expr::Unsafe { span, body } => seq![Lints::Unsafe(span)] + spec_check_block(body@),
        Expr::Other => seq![],
    }
}

/// Findings of the expression-statement check: classify the statement's
/// expression when it is an expression statement.
pub open spec fn spec_check_expresion(s: Stmt) -> Seq<Lints>
    decreases s, 2int,
{
    match s {
        Stmt::Expr(e) => spec_process_expr(e),
        _ => seq![],
    }
}

/// Findings of the macro-statement check.
pub open spec fn spec_check_macro(s: Stmt) -> Seq<Lints> {
    match s {
        Stmt::MacroCall { segments } => spec_process_macro(segments@),
        _ => seq![],
    }
}

/// Findings of the local-binding check: the `static`-lifetime finding,
/// then the classification of the initializer expression.
pub open spec fn spec_check_local(s: Stmt) -> Seq<Lints>
    decreases s, 2int,
{
    match s {
        Stmt::Local { lifetime, init } => spec_static_part(lifetime) + match init {
            Some(e) => spec_process_expr(e),
            None => seq![],
        },
        _ => seq![],
    }
}

/// Findings of one statement: the three checks apply independently and
/// cumulatively, in this fixed order.
pub open spec fn spec_check_stmt(s: Stmt) -> Seq<Lints>
    decreases s, 3int,
{
    spec_check_expresion(s) + spec_check_macro(s) + spec_check_local(s)
}

/// Findings of a statement list: the concatenation, in statement order,
/// of each statement's findings.
pub open spec fn spec_check_block(stmts: Seq<Stmt>) -> Seq<Lints>
    decreases stmts, 0int,
{
    if stmts.len() == 0 {
        seq![]
    } else {
        spec_check_stmt(stmts[0]) + spec_check_block(stmts.drop_first())
    }
}

/// Findings of one top-level item: only function items are walked.
pub open spec fn spec_item_findings(item: Item) -> Seq<Lints> {
    match item {
        Item::Fn { body } => spec_check_block(body@),
        Item::Other => seq![],
    }
}

/// Findings of a whole file: the concatenation, in item order, of each
/// top-level item's findings.
pub open spec fn spec_check_file(items: Seq<Item>) -> Seq<Lints>
    decreases items.len(),
{
    if items.len() == 0 {
        seq![]
    } else {
        spec_item_findings(items[0]) + spec_check_file(items.drop_first())
    }
}

/// Renderings concatenate: rendering two finding lists one after the
/// other renders their concatenation.
pub proof fn lemma_renders_concat(
    d1: Seq<Diagnostic>,
    d2: Seq<Diagnostic>,
    l1: Seq<Lints>,
    l2: Seq<Lints>,
)
    requires
        renders(d1, l1),
        renders(d2, l2),
    ensures
        renders(d1 + d2, l1 + l2),
{
    assert forall|i: int| 0 <= i < (d1 + d2).len() implies (#[trigger] (d1 + d2)[i])@
        == spec_render((l1 + l2)[i]) by {
        if i < d1.len() {
            assert((d1 + d2)[i] == d1[i]);
            assert((l1 + l2)[i] == l1[i]);
        } else {
            assert((d1 + d2)[i] == d2[i - d1.len()]);
            assert((l1 + l2)[i] == l2[i - d1.len()]);
        }
    }
}

/// A single rendered finding.
proof fn lemma_renders_singleton(d: Diagnostic, l: Lints)
    requires
        d@ == spec_render(l),
    ensures
        renders(seq![d], seq![l]),
{
    assert(seq![d][0] == d);
    assert(seq![l][0] == l);
}

/// Walking one more statement appends that statement's findings: the
/// walk of a statement list is the concatenation, statement by
/// statement, of each statement's findings.
pub proof fn lemma_check_block_snoc(stmts: Seq<Stmt>, s: Stmt)
    ensures
        spec_check_block(stmts.push(s)) == spec_check_block(stmts) + spec_check_stmt(s),
    decreases stmts.len(),
{
    if stmts.len() == 0 {
        assert(stmts.push(s)[0] == s);
        assert(stmts.push(s).drop_first() =~= Seq::<Stmt>::empty());
        assert(spec_check_block(stmts.push(s)) == spec_check_stmt(s) + spec_check_block(
            Seq::<Stmt>::empty(),
        ));
        assert(spec_check_stmt(s) + Seq::<Lints>::empty() =~= spec_check_stmt(s));
        assert(spec_check_block(stmts) + spec_check_stmt(s) =~= spec_check_stmt(s));
    } else {
        lemma_check_block_snoc(stmts.drop_first(), s);
        assert(stmts.push(s)[0] == stmts[0]);
        assert(stmts.push(s).drop_first() =~= stmts.drop_first().push(s));
        assert(spec_check_block(stmts.push(s)) == spec_check_stmt(stmts[0]) + (spec_check_block(
            stmts.drop_first(),
        ) + spec_check_stmt(s)));
        assert(spec_check_stmt(stmts[0]) + (spec_check_block(stmts.drop_first())
            + spec_check_stmt(s)) =~= (spec_check_stmt(stmts[0]) + spec_check_block(
            stmts.drop_first(),
        )) + spec_check_stmt(s));
    }
}

/// Walking one more item appends that item's findings: the walk of a
/// file is the concatenation, item by item, of each item's findings.
pub proof fn lemma_check_file_snoc(items: Seq<Item>, item: Item)
    ensures
        spec_check_file(items.push(item)) == spec_check_file(items) + spec_item_findings(item),
    decreases items.len(),
{
    if items.len() == 0 {
        assert(items.push(item)[0] == item);
        assert(items.push(item).drop_first() =~= Seq::<Item>::empty());
        assert(spec_check_file(items.push(item)) == spec_item_findings(item) + spec_check_file(
            Seq::<Item>::empty(),
        ));
        assert(spec_item_findings(item) + Seq::<Lints>::empty() =~= spec_item_findings(item));
        assert(spec_check_file(items) + spec_item_findings(item) =~= spec_item_findings(item));
    } else {
        lemma_check_file_snoc(items.drop_first(), item);
        assert(items.push(item)[0] == items[0]);
        assert(items.push(item).drop_first() =~= items.drop_first().push(item));
        assert(spec_check_file(items.push(item)) == spec_item_findings(items[0]) + (
        spec_check_file(items.drop_first()) + spec_item_findings(item)));
        assert(spec_item_findings(items[0]) + (spec_check_file(items.drop_first())
            + spec_item_findings(item)) =~= (spec_item_findings(items[0]) + spec_check_file(
            items.drop_first(),
        )) + spec_item_findings(item));
    }
}

/// Compares an identifier against an expected spelling.
fn ident_is(name: &String, expected: &str) -> (r: bool)
    ensures
        r == (name@ == expected@),
{
    let owned: String = expected.to_owned();
    *name == owned
}

/// Classifies a statement-level or initializer expression, rendering one
/// diagnostic per finding; an `unsafe` block's own statements are walked
/// with the same rules.
pub fn process_expr(expr: &Expr) -> (r: Vec<Diagnostic>)
    requires
        expr.wf(),
    ensures
        renders(r@, spec_process_expr(*expr)),
    decreases *expr, 1int,
{
    match expr {
        Expr::MethodCall { name, span } => {
            let mut r: Vec<Diagnostic> = Vec::new();
            if ident_is(name, "unwrap") {
                let d = render(Lints::Unwrap(*span));
                r.push(d);
                proof {
                    lemma_renders_singleton(d, Lints::Unwrap(*span));
                    assert(r@ =~= seq![d]);
                }
            }
            r
        },
        Expr::Try { span } => {
            let mut r: Vec<Diagnostic> = Vec::new();
            let d = render(Lints::TryExpr(*span));
            r.push(d);
            proof {
                lemma_renders_singleton(d, Lints::TryExpr(*span));
                assert(r@ =~= seq![d]);
            }
            r
        },
        Expr::Unsafe { span, body } => {
            let mut r: Vec<Diagnostic> = Vec::new();
            let d = render(Lints::Unsafe(*span));
            r.push(d);
            let ghost first = r@;
            let mut rest = check_block(body);
            proof {
                lemma_renders_singleton(d, Lints::Unsafe(*span));
                assert(first =~= seq![d]);
                lemma_renders_concat(
                    first,
                    rest@,
                    seq![Lints::Unsafe(*span)],
                    spec_check_block(body@),
                );
            }
            r.append(&mut rest);
            r
        },
        Expr::Other => Vec::new(),
    }
}

/// The expression-statement check: classifies the expression of an
/// expression statement; any other statement yields nothing here.
pub fn check_expresion(stmt: &Stmt) -> (r: Vec<Diagnostic>)
    requires
        stmt.wf(),
    ensures
        renders(r@, spec_check_expresion(*stmt)),
    decreases *stmt, 2int,
{
    match stmt {
        Stmt::Expr(expr) => process_expr(expr),
        _ => Vec::new(),
    }
}

/// When no segment before index `n` is named `panic`, the search's
/// result is decided from index `n` on.
pub proof fn lemma_find_panic_prefix(segments: Seq<PathSegment>, n: int)
    requires
        0 <= n <= segments.len(),
        forall|k: int| 0 <= k < n ==> !((#[trigger] segments[k]).name@ == "panic"@),
    ensures
        spec_find_panic(segments) == spec_find_panic(segments.skip(n)),
    decreases n,
{
    if n > 0 {
        lemma_find_panic_prefix(segments.drop_first(), n - 1);
        assert(segments.drop_first().skip(n - 1) =~= segments.skip(n));
    } else {
        assert(segments.skip(0) =~= segments);
    }
}

/// Walks a macro invocation's path: one `Panic` diagnostic anchored at
/// the first segment named `panic`, none when no segment is.
pub fn process_macro(segments: &Vec<PathSegment>) -> (r: Option<Diagnostic>)
    requires
        forall|i: int| 0 <= i < segments@.len() ==> (#[trigger] segments@[i]).span.wf(),
    ensures
        match spec_find_panic(segments@) {
            Some(span) => r matches Some(d) && d@ == spec_render(Lints::Panic(span)),
            None => r is None,
        },
{
    let n = segments.len();
    let mut i: usize = 0;
    while i < n
        invariant
            0 <= i <= n,
            n == segments@.len(),
            forall|k: int| 0 <= k < segments@.len() ==> (#[trigger] segments@[k]).span.wf(),
            forall|k: int| 0 <= k < i ==> !((#[trigger] segments@[k]).name@ == "panic"@),
        decreases n - i,
    {
        if ident_is(&segments[i].name, "panic") {
            proof {
                lemma_find_panic_prefix(segments@, i as int);
                assert(segments@.skip(i as int)[0] == segments@[i as int]);
            }
            return Some(render(Lints::Panic(segments[i].span)));
        }
        i += 1;
    }
    proof {
        lemma_find_panic_prefix(segments@, n as int);
        assert(segments@.skip(n as int) =~= Seq::<PathSegment>::empty());
    }
    None
}

/// The macro-statement check: walks the invoked path of a macro
/// statement; any other statement yields nothing here.
pub fn check_macro(stmt: &Stmt) -> (r: Vec<Diagnostic>)
    requires
        stmt.wf(),
    ensures
        renders(r@, spec_check_macro(*stmt)),
{
    match stmt {
        Stmt::MacroCall { segments } => {
            let mut r: Vec<Diagnostic> = Vec::new();
            match process_macro(segments) {
                Some(d) => {
                    r.push(d);
                    proof {
                        assert(r@ =~= seq![d]);
                        assert(seq![d][0] == d);
                    }
                },
                None => (),
            }
            r
        },
        _ => Vec::new(),
    }
}

/// The local-binding check: one `Static` diagnostic when the declared
/// type carries the `static` lifetime, then the classification of the
/// initializer expression; any other statement yields nothing here.
pub fn check_local(stmt: &Stmt) -> (r: Vec<Diagnostic>)
    requires
        stmt.wf(),
    ensures
        renders(r@, spec_check_local(*stmt)),
    decreases *stmt, 2int,
{
    match stmt {
        Stmt::Local { lifetime, init } => {
            let mut r: Vec<Diagnostic> = Vec::new();
            match lifetime {
                Some(lt) => {
                    if ident_is(&lt.name, "static") {
                        let d = render(Lints::Static(lt.span));
                        r.push(d);
                        proof {
                            lemma_renders_singleton(d, Lints::Static(lt.span));
                            assert(r@ =~= seq![d]);
                        }
                    }
                },
                None => (),
            }
            proof {
                assert(renders(r@, spec_static_part(*lifetime)));
            }
            match init {
                Some(e) => {
                    let mut rest = process_expr(e);
                    let ghost prefix = r@;
                    let ghost rest_part = rest@;
                    r.append(&mut rest);
                    proof {
                        lemma_renders_concat(
                            prefix,
                            rest_part,
                            spec_static_part(*lifetime),
                            spec_process_expr(*e),
                        );
                    }
                },
                None => {
                    proof {
                        assert(spec_static_part(*lifetime) + Seq::<Lints>::empty()
                            =~= spec_static_part(*lifetime));
                    }
                },
            }
            r
        },
        _ => Vec::new(),
    }
}

/// Walks one statement: the three checks apply independently and
/// cumulatively, their diagnostics concatenated in the fixed order.
pub fn check_stmt(stmt: &Stmt) -> (r: Vec<Diagnostic>)
    requires
        stmt.wf(),
    ensures
        renders(r@, spec_check_stmt(*stmt)),
    decreases *stmt, 3int,
{
    let mut r = check_expresion(stmt);
    let mut second = check_macro(stmt);
    let mut third = check_local(stmt);
    let ghost first_part = r@;
    let ghost second_part = second@;
    let ghost third_part = third@;
    r.append(&mut second);
    proof {
        lemma_renders_concat(
            first_part,
            second_part,
            spec_check_expresion(*stmt),
            spec_check_macro(*stmt),
        );
    }
    r.append(&mut third);
    proof {
        lemma_renders_concat(
            first_part + second_part,
            third_part,
            spec_check_expresion(*stmt) + spec_check_macro(*stmt),
            spec_check_local(*stmt),
        );
    }
    r
}

/// Walks a statement list: the concatenation, in statement order, of
/// each statement's diagnostics.
pub fn check_block(stmts: &Vec<Stmt>) -> (r: Vec<Diagnostic>)
    requires
        block_wf(stmts@),
    ensures
        renders(r@, spec_check_block(stmts@)),
    decreases stmts@, 0int,
{
    let mut r: Vec<Diagnostic> = Vec::new();
    let n = stmts.len();
    let mut i: usize = 0;
    while i < n
        invariant
            0 <= i <= n,
            n == stmts@.len(),
            block_wf(stmts@),
            renders(r@, spec_check_block(stmts@.take(i as int))),
        decreases n - i,
    {
        let mut part = check_stmt(&stmts[i]);
        let ghost prefix = r@;
        let ghost stmt_part = part@;
        r.append(&mut part);
        proof {
            lemma_renders_concat(
                prefix,
                stmt_part,
                spec_check_block(stmts@.take(i as int)),
                spec_check_stmt(stmts@[i as int]),
            );
            lemma_check_block_snoc(stmts@.take(i as int), stmts@[i as int]);
            assert(stmts@.take(i as int).push(stmts@[i as int]) =~= stmts@.take(i as int + 1));
        }
        i += 1;
    }
    proof {
        assert(stmts@.take(n as int) =~= stmts@);
    }
    r
}

/// Walks a whole parsed file: every top-level function item's body is
/// walked; other items are passed over.
pub fn check_file(file: &SourceFile) -> (r: Vec<Diagnostic>)
    requires
        file.wf(),
    ensures
        renders(r@, spec_check_file(file.items@)),
{
    let mut r: Vec<Diagnostic> = Vec::new();
    let n = file.items.len();
    let mut i: usize = 0;
    while i < n
        invariant
            0 <= i <= n,
            n == file.items@.len(),
            file.wf(),
            renders(r@, spec_check_file(file.items@.take(i as int))),
        decreases n - i,
    {
        let ghost items = file.items@;
        let mut part: Vec<Diagnostic> = match &file.items[i] {
            Item::Fn { body } => check_block(body),
            Item::Other => Vec::new(),
        };
        let ghost prefix = r@;
        let ghost item_part = part@;
        r.append(&mut part);
        proof {
            lemma_renders_concat(
                prefix,
                item_part,
                spec_check_file(items.take(i as int)),
                spec_item_findings(items[i as int]),
            );
            lemma_check_file_snoc(items.take(i as int), items[i as int]);
            assert(items.take(i as int).push(items[i as int]) =~= items.take(i as int + 1));
        }
        i += 1;
    }
    proof {
        assert(file.items@.take(n as int) =~= file.items@);
    }
    r
}

} // verus!
