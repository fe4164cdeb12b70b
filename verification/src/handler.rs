//! The operations that a reader of the trace offers to the dispatcher.

use vstd::prelude::*;
use crate::opcode::Operation;
use crate::tokens::TokenStream;

verus! {

/// One invocation of an operation, with all that is handed to it.
pub struct Call {
    /// The operation that is invoked.
    pub op: Operation,
    /// The fields of the line that follow the tag.
    pub args: Seq<Seq<char>>,
    /// The number of the line, for the operations that are told it.
    pub line_no: Option<usize>,
    /// The whole line, for the operations that are given it.
    pub raw: Option<Seq<char>>,
}

/// A reader of the solver's trace: one operation for each kind of event.
///
/// An operation is given the fields that follow the tag and answers
/// `Some(())` if it accepted the line, `None` if the line was not of the
/// form it expects. The operations on the solver's search have a default
/// that accepts the line and changes nothing.
pub trait Z3LogParser: Sized {
    /// What the reader says of its operations: whether `call`, made in the
    /// state `pre`, may leave the state `post` and be accepted (`ok`) or not.
    /// A reader that states nothing lets this hold always.
    open spec fn handled(pre: Self, call: Call, post: Self, ok: bool) -> bool {
        true
    }

    /// The line that announces the solver and its version.
    fn version_info(&mut self, l: TokenStream<'_>) -> (r: Option<()>)
        ensures
            Self::handled(
                *old(self),
                (Call { op: Operation::VersionInfo, args: l@, line_no: None, raw: None }),
                *final(self),
                r is Some,
            ),
    ;

    /// A quantifier or a lambda is made.
    fn mk_quant(&mut self, l: TokenStream<'_>) -> (r: Option<()>)
        ensures
            Self::handled(
                *old(self),
                (Call { op: Operation::MkQuant, args: l@, line_no: None, raw: None }),
                *final(self),
                r is Some,
            ),
    ;

    /// A bound variable is made.
    fn mk_var(&mut self, l: TokenStream<'_>) -> (r: Option<()>)
        ensures
            Self::handled(
                *old(self),
                (Call { op: Operation::MkVar, args: l@, line_no: None, raw: None }),
                *final(self),
                r is Some,
            ),
    ;

    /// A proof step or an application is made.
    fn mk_proof_app(&mut self, l: TokenStream<'_>) -> (r: Option<()>)
        ensures
            Self::handled(
                *old(self),
                (Call { op: Operation::MkProofApp, args: l@, line_no: None, raw: None }),
                *final(self),
                r is Some,
            ),
    ;

    /// A meaning is attached to a term.
    fn attach_meaning(&mut self, l: TokenStream<'_>) -> (r: Option<()>)
        ensures
            Self::handled(
                *old(self),
                (Call { op: Operation::AttachMeaning, args: l@, line_no: None, raw: None }),
                *final(self),
                r is Some,
            ),
    ;

    /// Names are attached to the variables of a quantifier. The names may
    /// hold spaces, so the whole line `l0` comes with the fields.
    fn attach_vars(&mut self, l: TokenStream<'_>, l0: &str) -> (r: Option<()>)
        ensures
            Self::handled(
                *old(self),
                (Call { op: Operation::AttachVars, args: l@, line_no: None, raw: Some(l0@) }),
                *final(self),
                r is Some,
            ),
    ;

    /// An e-node is attached to a term.
    fn attach_enode(&mut self, l: TokenStream<'_>) -> (r: Option<()>)
        ensures
            Self::handled(
                *old(self),
                (Call { op: Operation::AttachEnode, args: l@, line_no: None, raw: None }),
                *final(self),
                r is Some,
            ),
    ;

    /// An equality is explained.
    fn eq_expl(&mut self, l: TokenStream<'_>) -> (r: Option<()>)
        ensures
            Self::handled(
                *old(self),
                (Call { op: Operation::EqExpl, args: l@, line_no: None, raw: None }),
                *final(self),
                r is Some,
            ),
    ;

    /// A new match of a pattern is found, at line `line_no`.
    fn new_match(&mut self, l: TokenStream<'_>, line_no: usize) -> (r: Option<()>)
        ensures
            Self::handled(
                *old(self),
                (Call { op: Operation::NewMatch, args: l@, line_no: Some(line_no), raw: None }),
                *final(self),
                r is Some,
            ),
    ;

    /// An instantiation is discovered, at line `line_no`; `l0` is the whole
    /// line.
    fn inst_discovered(&mut self, l: TokenStream<'_>, line_no: usize, l0: &str) -> (r: Option<()>)
        ensures
            Self::handled(
                *old(self),
                (Call {
                    op: Operation::InstDiscovered,
                    args: l@,
                    line_no: Some(line_no),
                    raw: Some(l0@),
                }),
                *final(self),
                r is Some,
            ),
    ;

    /// An instantiation begins, at line `line_no`.
    fn instance(&mut self, l: TokenStream<'_>, line_no: usize) -> (r: Option<()>)
        ensures
            Self::handled(
                *old(self),
                (Call { op: Operation::Instance, args: l@, line_no: Some(line_no), raw: None }),
                *final(self),
                r is Some,
            ),
    ;

    /// The instantiation that was begun ends. This operation cannot fail and
    /// is given nothing.
    fn end_of_instance(&mut self)
        ensures
            Self::handled(
                *old(self),
                (Call {
                    op: Operation::EndOfInstance,
                    args: Seq::empty(),
                    line_no: None,
                    raw: None,
                }),
                *final(self),
                true,
            ),
    ;

    /// A choice between the branches of a conjunction or disjunction. By default the line is accepted and nothing changes.
    fn decide_and_or(&mut self, l: TokenStream<'_>) -> (r: Option<()>)
        ensures
            Self::handled(
                *old(self),
                (Call { op: Operation::DecideAndOr, args: l@, line_no: None, raw: None }),
                *final(self),
                r is Some,
            ) || (r is Some && *final(self) == *old(self)),
        default_ensures
            r is Some,
            *final(self) == *old(self),
    {
        Some(())
    }

    /// A decision on a literal. By default the line is accepted and nothing changes.
    fn decide(&mut self, l: TokenStream<'_>) -> (r: Option<()>)
        ensures
            Self::handled(
                *old(self),
                (Call { op: Operation::Decide, args: l@, line_no: None, raw: None }),
                *final(self),
                r is Some,
            ) || (r is Some && *final(self) == *old(self)),
        default_ensures
            r is Some,
            *final(self) == *old(self),
    {
        Some(())
    }

    /// A literal is assigned. By default the line is accepted and nothing changes.
    fn assign(&mut self, l: TokenStream<'_>) -> (r: Option<()>)
        ensures
            Self::handled(
                *old(self),
                (Call { op: Operation::Assign, args: l@, line_no: None, raw: None }),
                *final(self),
                r is Some,
            ) || (r is Some && *final(self) == *old(self)),
        default_ensures
            r is Some,
            *final(self) == *old(self),
    {
        Some(())
    }

    /// A scope is opened. By default the line is accepted and nothing changes.
    fn push(&mut self, l: TokenStream<'_>) -> (r: Option<()>)
        ensures
            Self::handled(
                *old(self),
                (Call { op: Operation::Push, args: l@, line_no: None, raw: None }),
                *final(self),
                r is Some,
            ) || (r is Some && *final(self) == *old(self)),
        default_ensures
            r is Some,
            *final(self) == *old(self),
    {
        Some(())
    }

    /// Scopes are closed. By default the line is accepted and nothing changes.
    fn pop(&mut self, l: TokenStream<'_>) -> (r: Option<()>)
        ensures
            Self::handled(
                *old(self),
                (Call { op: Operation::Pop, args: l@, line_no: None, raw: None }),
                *final(self),
                r is Some,
            ) || (r is Some && *final(self) == *old(self)),
        default_ensures
            r is Some,
            *final(self) == *old(self),
    {
        Some(())
    }

    /// A check begins. By default the line is accepted and nothing changes.
    fn begin_check(&mut self, l: TokenStream<'_>) -> (r: Option<()>)
        ensures
            Self::handled(
                *old(self),
                (Call { op: Operation::BeginCheck, args: l@, line_no: None, raw: None }),
                *final(self),
                r is Some,
            ) || (r is Some && *final(self) == *old(self)),
        default_ensures
            r is Some,
            *final(self) == *old(self),
    {
        Some(())
    }

    /// A query is done. By default the line is accepted and nothing changes.
    fn query_done(&mut self, l: TokenStream<'_>) -> (r: Option<()>)
        ensures
            Self::handled(
                *old(self),
                (Call { op: Operation::QueryDone, args: l@, line_no: None, raw: None }),
                *final(self),
                r is Some,
            ) || (r is Some && *final(self) == *old(self)),
        default_ensures
            r is Some,
            *final(self) == *old(self),
    {
        Some(())
    }

    /// Conflict resolution takes up a literal. By default the line is accepted and nothing changes.
    fn resolve_process(&mut self, l: TokenStream<'_>) -> (r: Option<()>)
        ensures
            Self::handled(
                *old(self),
                (Call { op: Operation::ResolveProcess, args: l@, line_no: None, raw: None }),
                *final(self),
                r is Some,
            ) || (r is Some && *final(self) == *old(self)),
        default_ensures
            r is Some,
            *final(self) == *old(self),
    {
        Some(())
    }

    /// Conflict resolution resolves a literal. By default the line is accepted and nothing changes.
    fn resolve_lit(&mut self, l: TokenStream<'_>) -> (r: Option<()>)
        ensures
            Self::handled(
                *old(self),
                (Call { op: Operation::ResolveLit, args: l@, line_no: None, raw: None }),
                *final(self),
                r is Some,
            ) || (r is Some && *final(self) == *old(self)),
        default_ensures
            r is Some,
            *final(self) == *old(self),
    {
        Some(())
    }

    /// A conflict is found. By default the line is accepted and nothing changes.
    fn conflict(&mut self, l: TokenStream<'_>) -> (r: Option<()>)
        ensures
            Self::handled(
                *old(self),
                (Call { op: Operation::Conflict, args: l@, line_no: None, raw: None }),
                *final(self),
                r is Some,
            ) || (r is Some && *final(self) == *old(self)),
        default_ensures
            r is Some,
            *final(self) == *old(self),
    {
        Some(())
    }
}

/// What may come of a call: an answer that the reader's own `handled`
/// allows or, on the operations that have a default, the default's: the line
/// accepted and nothing changed.
pub open spec fn answers<T: Z3LogParser>(pre: T, call: Call, post: T, ok: bool) -> bool {
    T::handled(pre, call, post, ok) || (call.op.is_auxiliary() && ok && post == pre)
}

} // verus!
