use vstd::prelude::*;

use crate::ast::SourceFile;
use crate::lints::Diagnostic;
use crate::walker::check_file;
use crate::walker::renders;
use crate::walker::spec_check_file;

verus! {

/// One analysis run's computation: a parsed file is walked in full; a
/// document the parser rejected yields the empty list — parse failure is
/// a silent no-op, never a surfaced error.
pub fn analyze(parsed: Option<SourceFile>) -> (r: Vec<Diagnostic>)
    requires
        parsed matches Some(file) ==> file.wf(),
    ensures
        parsed is None ==> r@ == Seq::<Diagnostic>::empty(),
        parsed matches Some(file) ==> renders(r@, spec_check_file(file.items@)),
{
    match parsed {
        Some(file) => check_file(&file),
        None => Vec::new(),
    }
}

/// What the awaiting side publishes: the delivered list as it arrived,
/// or the empty list when the completion signal was dropped before a
/// value was sent.
pub fn publish_list(received: Option<Vec<Diagnostic>>) -> (r: Vec<Diagnostic>)
    ensures
        received matches Some(ds) ==> r == ds,
        received is None ==> r@ == Seq::<Diagnostic>::empty(),
{
    match received {
        Some(ds) => ds,
        None => Vec::new(),
    }
}

} // verus!
