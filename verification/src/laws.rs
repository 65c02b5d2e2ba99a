use vstd::prelude::*;

use crate::ast::Expr;
use crate::ast::Item;
use crate::ast::Lifetime;
use crate::ast::PathSegment;
use crate::ast::Stmt;
use crate::lints::Lints;
use crate::lints::Severity;
use crate::lints::spec_render;
use crate::span::Span;
use crate::span::spec_span_range;
use crate::walker::lemma_find_panic_prefix;
use crate::walker::spec_check_block;
use crate::walker::spec_check_expresion;
use crate::walker::spec_check_local;
use crate::walker::spec_check_macro;
use crate::walker::spec_check_stmt;
use crate::walker::spec_find_panic;
use crate::walker::spec_item_findings;
use crate::walker::spec_process_expr;
use crate::walker::spec_process_macro;
use crate::walker::spec_static_part;

verus! {

broadcast use
    vstd::seq::group_seq_axioms,
    vstd::seq_lib::group_seq_lib_default,
    vstd::std_specs::vec::group_vec_axioms;


/// A statement that is a bare call to the `unwrap` method yields exactly
/// one finding, anchored at the method-name token; its diagnostic
/// carries WARNING severity and the token's editor range.
pub proof fn lemma_unwrap_statement(name: String, span: Span)
    requires
        name@ == "unwrap"@,
    ensures
        spec_check_stmt(Stmt::Expr((Expr::MethodCall { name, span }))) =~= seq![
            Lints::Unwrap(span),
        ],
        spec_render(Lints::Unwrap(span)).severity == Severity::Warning,
        spec_render(Lints::Unwrap(span)).range == spec_span_range(span),
{
}

/// A macro-invocation statement whose path holds a segment named `panic`
/// yields exactly one finding, anchored at the first such segment's
/// token; its diagnostic carries ERROR severity and the token's editor
/// range.
pub proof fn lemma_panic_statement(segments: Vec<PathSegment>, i: int)
    requires
        0 <= i < segments@.len(),
        segments@[i].name@ == "panic"@,
        forall|j: int| 0 <= j < i ==> !((#[trigger] segments@[j]).name@ == "panic"@),
    ensures
        spec_check_stmt((Stmt::MacroCall { segments })) =~= seq![
            Lints::Panic(segments@[i].span),
        ],
        spec_render(Lints::Panic(segments@[i].span)).severity == Severity::Error,
        spec_render(Lints::Panic(segments@[i].span)).range == spec_span_range(segments@[i].span),
{
    lemma_find_panic_prefix(segments@, i);
    assert(segments@.skip(i)[0] == segments@[i]);
}

/// A macro-invocation statement with no path segment named `panic`
/// yields no finding.
pub proof fn lemma_macro_without_panic(segments: Vec<PathSegment>)
    requires
        forall|j: int| 0 <= j < segments@.len() ==> !((#[trigger] segments@[j]).name@ == "panic"@),
    ensures
        spec_check_stmt((Stmt::MacroCall { segments })) =~= Seq::<Lints>::empty(),
{
    lemma_find_panic_prefix(segments@, segments@.len() as int);
    assert(segments@.skip(segments@.len() as int) =~= Seq::<PathSegment>::empty());
}

/// An `unsafe`-block statement yields one finding for the block itself,
/// anchored at the `unsafe` keyword and rendered at INFORMATION
/// severity, followed by the findings of the statements nested directly
/// inside the block, walked by the same rules — so the walk reapplies to
/// each further `unsafe` block nested inside.
pub proof fn lemma_unsafe_statement(span: Span, body: Vec<Stmt>)
    ensures
        spec_check_stmt(Stmt::Expr((Expr::Unsafe { span, body }))) =~= seq![Lints::Unsafe(span)]
            + spec_check_block(body@),
        spec_render(Lints::Unsafe(span)).severity == Severity::Information,
        spec_render(Lints::Unsafe(span)).range == spec_span_range(span),
{
}

/// A `let` binding whose declared type is a reference carrying the
/// `static` lifetime yields exactly one finding for the lifetime,
/// anchored at the lifetime token and rendered at INFORMATION severity,
/// whether or not the binding has an initializer; the initializer's own
/// classification follows it unchanged.
pub proof fn lemma_static_local(lt: Lifetime, init: Option<Expr>)
    requires
        lt.name@ == "static"@,
    ensures
        spec_check_stmt((Stmt::Local { lifetime: Some(lt), init })) =~= seq![
            Lints::Static(lt.span),
        ] + match init {
            Some(e) => spec_process_expr(e),
            None => Seq::<Lints>::empty(),
        },
        spec_render(Lints::Static(lt.span)).severity == Severity::Information,
        spec_render(Lints::Static(lt.span)).range == spec_span_range(lt.span),
{
}

/// The `Unwrap` findings among a finding list, in order.
pub open spec fn unwrap_findings_of(ls: Seq<Lints>) -> Seq<Lints> {
    ls.filter(|l: Lints| l is Unwrap)
}

/// The `Panic` findings among a finding list, in order.
pub open spec fn panic_findings_of(ls: Seq<Lints>) -> Seq<Lints> {
    ls.filter(|l: Lints| l is Panic)
}

/// One `Unwrap` finding per statement-level or initializer `unwrap`
/// call of a statement list, in traversal order — the expected trace of
/// the unwrap check alone.
pub open spec fn spec_unwrap_occurrences(stmts: Seq<Stmt>) -> Seq<Lints>
    decreases stmts, 0int,
{
    if stmts.len() == 0 {
        seq![]
    } else {
        spec_unwrap_occurrences_stmt(stmts[0]) + spec_unwrap_occurrences(stmts.drop_first())
    }
}

/// The `unwrap` occurrences of one statement.
pub open spec fn spec_unwrap_occurrences_stmt(s: Stmt) -> Seq<Lints>
    decreases s, 2int,
{
    match s {
        Stmt::Expr(e) => spec_unwrap_occurrences_expr(e),
        Stmt::Local { lifetime: _, init } => match init {
            Some(e) => spec_unwrap_occurrences_expr(e),
            None => seq![],
        },
        _ => seq![],
    }
}

/// The `unwrap` occurrences of one classified expression.
pub open spec fn spec_unwrap_occurrences_expr(e: Expr) -> Seq<Lints>
    decreases e, 1int,
{
    match e {
        Expr::MethodCall { name, span } => if name@ == "unwrap"@ {
            seq![Lints::Unwrap(span)]
        } else {
            seq![]
        },
        Expr::Unsafe { span: _, body } => spec_unwrap_occurrences(body@),
        _ => seq![],
    }
}

/// One `Panic` finding per `panic`-macro statement of a statement list,
/// in traversal order — the expected trace of the macro check alone.
pub open spec fn spec_panic_occurrences(stmts: Seq<Stmt>) -> Seq<Lints>
    decreases stmts, 0int,
{
    if stmts.len() == 0 {
        seq![]
    } else {
        spec_panic_occurrences_stmt(stmts[0]) + spec_panic_occurrences(stmts.drop_first())
    }
}

/// The `panic`-macro occurrences of one statement.
pub open spec fn spec_panic_occurrences_stmt(s: Stmt) -> Seq<Lints>
    decreases s, 2int,
{
    match s {
        Stmt::MacroCall { segments } => spec_process_macro(segments@),
        Stmt::Expr(e) => spec_panic_occurrences_expr(e),
        Stmt::Local { lifetime: _, init } => match init {
            Some(e) => spec_panic_occurrences_expr(e),
            None => seq![],
        },
        _ => seq![],
    }
}

/// The `panic`-macro occurrences of one classified expression.
pub open spec fn spec_panic_occurrences_expr(e: Expr) -> Seq<Lints>
    decreases e, 1int,
{
    match e {
        Expr::Unsafe { span: _, body } => spec_panic_occurrences(body@),
        _ => seq![],
    }
}

/// Filtering the empty finding list yields the empty list.
proof fn lemma_filter_empty_lints(pred: spec_fn(Lints) -> bool)
    ensures
        Seq::<Lints>::empty().filter(pred) == Seq::<Lints>::empty(),
{
}

/// Filtering a single finding keeps or drops it as the predicate says.
proof fn lemma_filter_one_lints(l: Lints, pred: spec_fn(Lints) -> bool)
    ensures
        seq![l].filter(pred) == (if pred(l) {
            seq![l]
        } else {
            Seq::<Lints>::empty()
        }),
{
    reveal_with_fuel(Seq::filter, 2);
    assert(seq![l].drop_last() =~= Seq::<Lints>::empty());
    lemma_filter_empty_lints(pred);
    assert(seq![l].last() == l);
    if pred(l) {
        assert(Seq::<Lints>::empty().push(l) =~= seq![l]);
    }
}

/// Exactly one `Unwrap` finding is produced per statement-level or
/// initializer `unwrap` call: the `Unwrap` findings of a walk are, in
/// traversal order, precisely the occurrence trace.
pub proof fn lemma_unwrap_per_occurrence(stmts: Seq<Stmt>)
    ensures
        unwrap_findings_of(spec_check_block(stmts)) == spec_unwrap_occurrences(stmts),
    decreases stmts, 0int,
{
    if stmts.len() == 0 {
        lemma_filter_empty_lints(|l: Lints| l is Unwrap);
    } else {
        lemma_unwrap_per_occurrence_stmt(stmts[0]);
        lemma_unwrap_per_occurrence(stmts.drop_first());
    }
}

/// The statement case of `lemma_unwrap_per_occurrence`.
pub proof fn lemma_unwrap_per_occurrence_stmt(s: Stmt)
    ensures
        unwrap_findings_of(spec_check_stmt(s)) == spec_unwrap_occurrences_stmt(s),
    decreases s, 4int,
{
    let pred = |l: Lints| l is Unwrap;
    lemma_filter_empty_lints(pred);
    match s {
        Stmt::Expr(e) => {
            lemma_unwrap_per_occurrence_expr(e);
            assert(spec_unwrap_occurrences_expr(e) + Seq::<Lints>::empty() + Seq::<Lints>::empty()
                =~= spec_unwrap_occurrences_expr(e));
        },
        Stmt::MacroCall { segments } => {
            match spec_find_panic(segments@) {
                Some(span) => lemma_filter_one_lints(Lints::Panic(span), pred),
                None => (),
            }
            assert(Seq::<Lints>::empty() + unwrap_findings_of(spec_check_macro(s))
                + Seq::<Lints>::empty() =~= Seq::<Lints>::empty());
        },
        Stmt::Local { lifetime, init } => {
            match lifetime {
                Some(lt) => if lt.name@ == "static"@ {
                    lemma_filter_one_lints(Lints::Static(lt.span), pred);
                },
                None => (),
            }
            match init {
                Some(e) => {
                    lemma_unwrap_per_occurrence_expr(e);
                    assert(Seq::<Lints>::empty() + Seq::<Lints>::empty() + (Seq::<Lints>::empty()
                        + spec_unwrap_occurrences_expr(e)) =~= spec_unwrap_occurrences_expr(e));
                },
                None => {
                    assert(spec_static_part(lifetime) + Seq::<Lints>::empty() =~= spec_static_part(
                        lifetime,
                    ));
                    assert(Seq::<Lints>::empty() + Seq::<Lints>::empty() + Seq::<Lints>::empty()
                        =~= Seq::<Lints>::empty());
                },
            }
        },
        Stmt::Other => {
            assert(Seq::<Lints>::empty() + Seq::<Lints>::empty() + Seq::<Lints>::empty()
                =~= Seq::<Lints>::empty());
        },
    }
}

/// The expression case of `lemma_unwrap_per_occurrence`.
pub proof fn lemma_unwrap_per_occurrence_expr(e: Expr)
    ensures
        unwrap_findings_of(spec_process_expr(e)) == spec_unwrap_occurrences_expr(e),
    decreases e, 1int,
{
    let pred = |l: Lints| l is Unwrap;
    match e {
        Expr::MethodCall { name, span } => {
            if name@ == "unwrap"@ {
                lemma_filter_one_lints(Lints::Unwrap(span), pred);
            } else {
                lemma_filter_empty_lints(pred);
            }
        },
        Expr::Try { span } => {
            lemma_filter_one_lints(Lints::TryExpr(span), pred);
        },
        Expr::Unsafe { span, body } => {
            lemma_filter_one_lints(Lints::Unsafe(span), pred);
            lemma_unwrap_per_occurrence(body@);
            assert(Seq::<Lints>::empty() + spec_unwrap_occurrences(body@)
                =~= spec_unwrap_occurrences(body@));
        },
        Expr::Other => {
            lemma_filter_empty_lints(pred);
        },
    }
}

/// Exactly one `Panic` finding is produced per `panic`-macro statement:
/// the `Panic` findings of a walk are, in traversal order, precisely
/// the occurrence trace.
pub proof fn lemma_panic_per_occurrence(stmts: Seq<Stmt>)
    ensures
        panic_findings_of(spec_check_block(stmts)) == spec_panic_occurrences(stmts),
    decreases stmts, 0int,
{
    if stmts.len() == 0 {
        lemma_filter_empty_lints(|l: Lints| l is Panic);
    } else {
        lemma_panic_per_occurrence_stmt(stmts[0]);
        lemma_panic_per_occurrence(stmts.drop_first());
    }
}

/// The statement case of `lemma_panic_per_occurrence`.
pub proof fn lemma_panic_per_occurrence_stmt(s: Stmt)
    ensures
        panic_findings_of(spec_check_stmt(s)) == spec_panic_occurrences_stmt(s),
    decreases s, 4int,
{
    let pred = |l: Lints| l is Panic;
    lemma_filter_empty_lints(pred);
    match s {
        Stmt::Expr(e) => {
            lemma_panic_per_occurrence_expr(e);
            assert(spec_panic_occurrences_expr(e) + Seq::<Lints>::empty() + Seq::<Lints>::empty()
                =~= spec_panic_occurrences_expr(e));
        },
        Stmt::MacroCall { segments } => {
            match spec_find_panic(segments@) {
                Some(span) => lemma_filter_one_lints(Lints::Panic(span), pred),
                None => (),
            }
            assert(Seq::<Lints>::empty() + spec_process_macro(segments@) + Seq::<Lints>::empty()
                =~= spec_process_macro(segments@));
        },
        Stmt::Local { lifetime, init } => {
            match lifetime {
                Some(lt) => if lt.name@ == "static"@ {
                    lemma_filter_one_lints(Lints::Static(lt.span), pred);
                },
                None => (),
            }
            match init {
                Some(e) => {
                    lemma_panic_per_occurrence_expr(e);
                    assert(Seq::<Lints>::empty() + Seq::<Lints>::empty() + (Seq::<Lints>::empty()
                        + spec_panic_occurrences_expr(e)) =~= spec_panic_occurrences_expr(e));
                },
                None => {
                    assert(spec_static_part(lifetime) + Seq::<Lints>::empty() =~= spec_static_part(
                        lifetime,
                    ));
                    assert(Seq::<Lints>::empty() + Seq::<Lints>::empty() + Seq::<Lints>::empty()
                        =~= Seq::<Lints>::empty());
                },
            }
        },
        Stmt::Other => {
            assert(Seq::<Lints>::empty() + Seq::<Lints>::empty() + Seq::<Lints>::empty()
                =~= Seq::<Lints>::empty());
        },
    }
}

/// The expression case of `lemma_panic_per_occurrence`.
pub proof fn lemma_panic_per_occurrence_expr(e: Expr)
    ensures
        panic_findings_of(spec_process_expr(e)) == spec_panic_occurrences_expr(e),
    decreases e, 1int,
{
    let pred = |l: Lints| l is Panic;
    match e {
        Expr::MethodCall { name, span } => {
            if name@ == "unwrap"@ {
                lemma_filter_one_lints(Lints::Unwrap(span), pred);
            } else {
                lemma_filter_empty_lints(pred);
            }
        },
        Expr::Try { span } => {
            lemma_filter_one_lints(Lints::TryExpr(span), pred);
        },
        Expr::Unsafe { span, body } => {
            lemma_filter_one_lints(Lints::Unsafe(span), pred);
            lemma_panic_per_occurrence(body@);
            assert(Seq::<Lints>::empty() + spec_panic_occurrences(body@)
                =~= spec_panic_occurrences(body@));
        },
        Expr::Other => {
            lemma_filter_empty_lints(pred);
        },
    }
}

/// The walker does not descend into shapes it does not classify: an
/// expression that is none of the three classified shapes — an `if`, a
/// `match`, a loop, a closure, an ordinary call — yields no findings,
/// as does an unclassified statement or a non-function top-level item.
pub proof fn lemma_unclassified_ignored()
    ensures
        spec_process_expr(Expr::Other) =~= Seq::<Lints>::empty(),
        spec_check_stmt(Stmt::Other) =~= Seq::<Lints>::empty(),
        spec_item_findings(Item::Other) =~= Seq::<Lints>::empty(),
{
}

} // verus!
