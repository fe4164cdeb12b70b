//! The tags of the trace and the operations they stand for.

use vstd::prelude::*;
use crate::text::same_text;

verus! {

/// The operations of a handler, one for each kind of event.
#[derive(Clone, Copy, Debug, PartialEq, Eq, Structural)]
pub enum Operation {
    VersionInfo,
    MkQuant,
    MkVar,
    MkProofApp,
    AttachMeaning,
    AttachVars,
    AttachEnode,
    EqExpl,
    NewMatch,
    InstDiscovered,
    Instance,
    EndOfInstance,
    DecideAndOr,
    Decide,
    Assign,
    Push,
    Pop,
    BeginCheck,
    QueryDone,
    ResolveProcess,
    ResolveLit,
    Conflict,
}

/// What the first field of a line asks for.
#[derive(Clone, Copy, Debug, PartialEq, Eq, Structural)]
pub enum LineCase {
    /// A known tag: the operation to invoke.
    Call(Operation),
    /// The tag that ends the trace.
    Eof,
    /// Any other text. Such a line is passed over, so that traces of later
    /// solvers with new tags can still be read.
    Unknown,
}

impl Operation {
    /// Whether the operation is also told the number of the line.
    pub open spec fn wants_line_no(self) -> bool {
        self == Operation::NewMatch || self == Operation::InstDiscovered || self
            == Operation::Instance
    }

    /// Whether the operation is also given the whole line, unsplit.
    pub open spec fn wants_raw(self) -> bool {
        self == Operation::AttachVars || self == Operation::InstDiscovered
    }

    /// Whether the operation is one of those on the solver's search, which
    /// a handler may leave as they are: accepted, with no effect.
    pub open spec fn is_auxiliary(self) -> bool {
        self == Operation::DecideAndOr || self == Operation::Decide || self == Operation::Assign
            || self == Operation::Push || self == Operation::Pop || self == Operation::BeginCheck
            || self == Operation::QueryDone || self == Operation::ResolveProcess || self
            == Operation::ResolveLit || self == Operation::Conflict
    }
}

/// The table of tags. Tags are matched letter by letter, brackets included.
pub open spec fn line_case(tag: Seq<char>) -> LineCase {
    if tag == "[tool-version]"@ {
        LineCase::Call(Operation::VersionInfo)
    } else if tag == "[mk-quant]"@ || tag == "[mk-lambda]"@ {
        LineCase::Call(Operation::MkQuant)
    } else if tag == "[mk-var]"@ {
        LineCase::Call(Operation::MkVar)
    } else if tag == "[mk-proof]"@ || tag == "[mk-app]"@ {
        LineCase::Call(Operation::MkProofApp)
    } else if tag == "[attach-meaning]"@ {
        LineCase::Call(Operation::AttachMeaning)
    } else if tag == "[attach-var-names]"@ {
        LineCase::Call(Operation::AttachVars)
    } else if tag == "[attach-enode]"@ {
        LineCase::Call(Operation::AttachEnode)
    } else if tag == "[eq-expl]"@ {
        LineCase::Call(Operation::EqExpl)
    } else if tag == "[new-match]"@ {
        LineCase::Call(Operation::NewMatch)
    } else if tag == "[inst-discovered]"@ {
        LineCase::Call(Operation::InstDiscovered)
    } else if tag == "[instance]"@ {
        LineCase::Call(Operation::Instance)
    } else if tag == "[end-of-instance]"@ {
        LineCase::Call(Operation::EndOfInstance)
    } else if tag == "[decide-and-or]"@ {
        LineCase::Call(Operation::DecideAndOr)
    } else if tag == "[decide]"@ {
        LineCase::Call(Operation::Decide)
    } else if tag == "[assign]"@ {
        LineCase::Call(Operation::Assign)
    } else if tag == "[push]"@ {
        LineCase::Call(Operation::Push)
    } else if tag == "[pop]"@ {
        LineCase::Call(Operation::Pop)
    } else if tag == "[begin-check]"@ {
        LineCase::Call(Operation::BeginCheck)
    } else if tag == "[query-done]"@ {
        LineCase::Call(Operation::QueryDone)
    } else if tag == "[eof]"@ {
        LineCase::Eof
    } else if tag == "[resolve-process]"@ {
        LineCase::Call(Operation::ResolveProcess)
    } else if tag == "[resolve-lit]"@ {
        LineCase::Call(Operation::ResolveLit)
    } else if tag == "[conflict]"@ {
        LineCase::Call(Operation::Conflict)
    } else {
        LineCase::Unknown
    }
}

/// Looks a tag up in the table.
pub fn classify(tag: &str) -> (case: LineCase)
    ensures
        case == line_case(tag@),
{
    if same_text(tag, "[tool-version]") {
        LineCase::Call(Operation::VersionInfo)
    } else if same_text(tag, "[mk-quant]") || same_text(tag, "[mk-lambda]") {
        LineCase::Call(Operation::MkQuant)
    } else if same_text(tag, "[mk-var]") {
        LineCase::Call(Operation::MkVar)
    } else if same_text(tag, "[mk-proof]") || same_text(tag, "[mk-app]") {
        LineCase::Call(Operation::MkProofApp)
    } else if same_text(tag, "[attach-meaning]") {
        LineCase::Call(Operation::AttachMeaning)
    } else if same_text(tag, "[attach-var-names]") {
        LineCase::Call(Operation::AttachVars)
    } else if same_text(tag, "[attach-enode]") {
        LineCase::Call(Operation::AttachEnode)
    } else if same_text(tag, "[eq-expl]") {
        LineCase::Call(Operation::EqExpl)
    } else if same_text(tag, "[new-match]") {
        LineCase::Call(Operation::NewMatch)
    } else if same_text(tag, "[inst-discovered]") {
        LineCase::Call(Operation::InstDiscovered)
    } else if same_text(tag, "[instance]") {
        LineCase::Call(Operation::Instance)
    } else if same_text(tag, "[end-of-instance]") {
        LineCase::Call(Operation::EndOfInstance)
    } else if same_text(tag, "[decide-and-or]") {
        LineCase::Call(Operation::DecideAndOr)
    } else if same_text(tag, "[decide]") {
        LineCase::Call(Operation::Decide)
    } else if same_text(tag, "[assign]") {
        LineCase::Call(Operation::Assign)
    } else if same_text(tag, "[push]") {
        LineCase::Call(Operation::Push)
    } else if same_text(tag, "[pop]") {
        LineCase::Call(Operation::Pop)
    } else if same_text(tag, "[begin-check]") {
        LineCase::Call(Operation::BeginCheck)
    } else if same_text(tag, "[query-done]") {
        LineCase::Call(Operation::QueryDone)
    } else if same_text(tag, "[eof]") {
        LineCase::Eof
    } else if same_text(tag, "[resolve-process]") {
        LineCase::Call(Operation::ResolveProcess)
    } else if same_text(tag, "[resolve-lit]") {
        LineCase::Call(Operation::ResolveLit)
    } else if same_text(tag, "[conflict]") {
        LineCase::Call(Operation::Conflict)
    } else {
        LineCase::Unknown
    }
}

} // verus!
