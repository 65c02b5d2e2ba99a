use vstd::prelude::*;

use crate::span::Range;
use crate::span::Span;
use crate::span::span_to_range;
use crate::span::spec_span_range;

verus! {

/// The five syntactic shapes the analyzer flags. Each variant carries the
/// parser span of the token the finding is anchored at.
#[derive(Clone, Copy, Debug, PartialEq, Eq, Structural)]
#[non_exhaustive]
pub enum Lints {
    Unwrap(Span),
    Unsafe(Span),
    Panic(Span),
    TryExpr(Span),
    Static(Span),
}

/// Severity of a published diagnostic.
#[derive(Clone, Copy, Debug, PartialEq, Eq, Structural)]
pub enum Severity {
    Warning,
    Information,
    Error,
}

/// A positioned diagnostic, the externally visible unit: a range in editor
/// coordinates, a severity, a fixed message, and the tool's source tag.
#[derive(Clone, Debug, PartialEq, Eq)]
pub struct Diagnostic {
    pub range: Range,
    pub severity: Severity,
    pub message: String,
    pub source: String,
}

/// Mathematical image of a `Diagnostic`: the same data with the string
/// fields as character sequences.
pub struct DiagView {
    pub range: Range,
    pub severity: Severity,
    pub message: Seq<char>,
    pub source: Seq<char>,
}

impl View for Diagnostic {
    type V = DiagView;

    open spec fn view(&self) -> DiagView {
        DiagView {
            range: self.range,
            severity: self.severity,
            message: self.message@,
            source: self.source@,
        }
    }
}

impl Lints {
    /// The span the finding is anchored at.
    pub open spec fn span(self) -> Span {
        match self {
            Lints::Unwrap(span) => span,
            Lints::Unsafe(span) => span,
            Lints::Panic(span) => span,
            Lints::TryExpr(span) => span,
            Lints::Static(span) => span,
        }
    }

    pub open spec fn wf(self) -> bool {
        self.span().wf()
    }
}

/// The source tag every published diagnostic carries.
pub open spec fn source_name() -> Seq<char> {
    "mygo_lint"@
}

/// Severity of each finding kind: `unwrap` calls warn, `panic!` is an
/// error, everything else is informational.
pub open spec fn spec_severity(l: Lints) -> Severity {
    match l {
        Lints::Unwrap(_) => Severity::Warning,
        Lints::Unsafe(_) => Severity::Information,
        Lints::Panic(_) => Severity::Error,
        Lints::TryExpr(_) => Severity::Information,
        Lints::Static(_) => Severity::Information,
    }
}

/// The fixed message of each finding kind.
pub open spec fn spec_message(l: Lints) -> Seq<char> {
    match l {
        Lints::Unwrap(_) => "「那傢伙竟敢無視燈？」\n立希不希望各位使用 `unwrap` method 來無視錯誤，請嘗試改用 `expect` method"@,
        Lints::Unsafe(_) => "「妳是抱著多大的覺悟說出這種話的？」\n祥子提醒你再次思考一下使用 `unsafe` 的必要性"@,
        Lints::Panic(_) => "「為什麼要演奏春日影！」\n超級不爽世不允許任何人使用 `panic!` macro"@,
        Lints::TryExpr(_) => "「蛤？」\n愛音發現此處使用了 try expression"@,
        Lints::Static(_) => "「一輩子跟我一起組樂團嗎」\n燈指出這個 reference 被指定了 `static` lifetime"@,
    }
}

/// The diagnostic a finding renders to: its span mapped to editor
/// coordinates, the severity and message fixed by its kind, and the
/// tool's source tag.
pub open spec fn spec_render(l: Lints) -> DiagView {
    DiagView {
        range: spec_span_range(l.span()),
        severity: spec_severity(l),
        message: spec_message(l),
        source: source_name(),
    }
}

/// Renders a finding into the one diagnostic it denotes.
pub fn render(lint: Lints) -> (d: Diagnostic)
    requires
        lint.wf(),
    ensures
        d@ == spec_render(lint),
{
    match lint {
        Lints::Unwrap(span) => Diagnostic {
            range: span_to_range(span),
            severity: Severity::Warning,
            message: "「那傢伙竟敢無視燈？」\n立希不希望各位使用 `unwrap` method 來無視錯誤，請嘗試改用 `expect` method".to_owned(),
            source: "mygo_lint".to_owned(),
        },
        Lints::Unsafe(span) => Diagnostic {
            range: span_to_range(span),
            severity: Severity::Information,
            message: "「妳是抱著多大的覺悟說出這種話的？」\n祥子提醒你再次思考一下使用 `unsafe` 的必要性".to_owned(),
            source: "mygo_lint".to_owned(),
        },
        Lints::Panic(span) => Diagnostic {
            range: span_to_range(span),
            severity: Severity::Error,
            message: "「為什麼要演奏春日影！」\n超級不爽世不允許任何人使用 `panic!` macro".to_owned(),
            source: "mygo_lint".to_owned(),
        },
        Lints::TryExpr(span) => Diagnostic {
            range: span_to_range(span),
            severity: Severity::Information,
            message: "「蛤？」\n愛音發現此處使用了 try expression".to_owned(),
            source: "mygo_lint".to_owned(),
        },
        Lints::Static(span) => Diagnostic {
            range: span_to_range(span),
            severity: Severity::Information,
            message: "「一輩子跟我一起組樂團嗎」\n燈指出這個 reference 被指定了 `static` lifetime".to_owned(),
            source: "mygo_lint".to_owned(),
        },
    }
}

} // verus!
