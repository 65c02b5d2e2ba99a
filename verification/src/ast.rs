use vstd::prelude::*;

use crate::span::Span;

verus! {

broadcast use vstd::seq::group_seq_axioms, vstd::std_specs::vec::group_vec_axioms;

/// One segment of a macro invocation's path: the segment's identifier and
/// that identifier's span.
#[derive(Debug)]
pub struct PathSegment {
    pub name: String,
    pub span: Span,
}

/// An explicit lifetime written in a reference type: its identifier
/// (without the apostrophe) and that identifier's span.
#[derive(Debug)]
pub struct Lifetime {
    pub name: String,
    pub span: Span,
}

/// The part of an expression the analyzer reads. Every shape it does not
/// look into — `if`, `match`, loops, closures, plain calls — is `Other`.
#[derive(Debug)]
pub enum Expr {
    /// A method call `receiver.name(..)`: the method's identifier and
    /// that identifier's span.
    MethodCall { name: String, span: Span },
    /// A postfix `?` expression: the span of the question-mark token.
    Try { span: Span },
    /// An `unsafe { .. }` block expression: the span of the `unsafe`
    /// keyword and the statements of the block.
    Unsafe { span: Span, body: Vec<Stmt> },
    /// Any other expression; never descended into.
    Other,
}

/// The part of a statement the analyzer reads.
#[derive(Debug)]
pub enum Stmt {
    /// An expression statement, with or without a trailing semicolon.
    Expr(Expr),
    /// A macro invocation in statement position: the segments of the
    /// invoked path, in order.
    MacroCall { segments: Vec<PathSegment> },
    /// A `let` binding. `lifetime` is the explicit lifetime when the
    /// declared type is a reference carrying one; `init` is the
    /// initializer expression when the binding has one.
    Local { lifetime: Option<Lifetime>, init: Option<Expr> },
    /// Any other statement (for instance a nested item); never descended
    /// into.
    Other,
}

/// A top-level item of a parsed source file.
#[derive(Debug)]
pub enum Item {
    /// A function item: the statements of its body block.
    Fn { body: Vec<Stmt> },
    /// Any other item; never descended into.
    Other,
}

/// A whole parsed source file: its top-level items in order.
#[derive(Debug)]
pub struct SourceFile {
    pub items: Vec<Item>,
}

/// All spans of all statements of a block are well-formed.
pub open spec fn block_wf(stmts: Seq<Stmt>) -> bool
    decreases stmts, 0int,
{
    forall|i: int| 0 <= i < stmts.len() ==> (#[trigger] stmts[i]).wf()
}

impl Expr {
    /// All spans in the expression are well-formed.
    pub open spec fn wf(self) -> bool
        decreases self, 1int,
    {
        match self {
            Expr::MethodCall { name: _, span } => span.wf(),
            Expr::Try { span } => span.wf(),
            Expr::Unsafe { span, body } => span.wf() && block_wf(body@),
            Expr::Other => true,
        }
    }
}

impl Stmt {
    /// All spans in the statement are well-formed.
    pub open spec fn wf(self) -> bool
        decreases self, 2int,
    {
        match self {
            Stmt::Expr(e) => e.wf(),
            Stmt::MacroCall { segments } => forall|i: int|
                0 <= i < segments@.len() ==> (#[trigger] segments@[i]).span.wf(),
            Stmt::Local { lifetime, init } => {
                &&& match lifetime {
                    Some(lt) => lt.span.wf(),
                    None => true,
                }
                &&& match init {
                    Some(e) => e.wf(),
                    None => true,
                }
            },
            Stmt::Other => true,
        }
    }
}

impl Item {
    /// All spans in the item are well-formed.
    pub open spec fn wf(self) -> bool {
        match self {
            Item::Fn { body } => block_wf(body@),
            Item::Other => true,
        }
    }
}

impl SourceFile {
    /// All spans in the file are well-formed; the parser guarantees this
    /// of every tree it produces.
    pub open spec fn wf(self) -> bool {
        forall|i: int| 0 <= i < self.items@.len() ==> (#[trigger] self.items@[i]).wf()
    }
}

} // verus!
