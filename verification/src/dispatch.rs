//! The dispatcher: from a line to the one operation that its tag names.

use vstd::prelude::*;
use vstd::string::StringExecFns;
use crate::handler::{answers, Call, Z3LogParser};
use crate::opcode::{classify, line_case, LineCase, Operation};
use crate::tokens::{fields, lemma_head_len_is, TokenStream};

verus! {

/// The call that is made for a line whose tag names `op`: each operation is
/// handed the fields after the tag, and beyond them only what it asks for.
pub open spec fn call_of(
    op: Operation,
    args: Seq<Seq<char>>,
    line_no: usize,
    line: Seq<char>,
) -> Call {
    Call {
        op,
        args: if op == Operation::EndOfInstance {
            Seq::empty()
        } else {
            args
        },
        line_no: if op.wants_line_no() {
            Some(line_no)
        } else {
            None
        },
        raw: if op.wants_raw() {
            Some(line)
        } else {
            None
        },
    }
}

/// The call that a line asks for, if it asks for one: none for the tag that
/// ends the trace, and none for a tag that is not in the table.
pub open spec fn request(line: Seq<char>, line_no: usize) -> Option<Call> {
    match line_case(fields(line)[0]) {
        LineCase::Call(op) => Some(call_of(op, fields(line).drop_first(), line_no, line)),
        _ => None,
    }
}

/// Whether more lines are to be read after this one: after every line but
/// the one that ends the trace.
pub open spec fn continues(line: Seq<char>) -> bool {
    line_case(fields(line)[0]) != LineCase::Eof
}

/// The advisory on a line that its operation did not accept.
pub open spec fn advisory(line: Seq<char>) -> Seq<char> {
    "Error parsing line: "@ + line
}

/// The advisories after a call on `line` was answered: one more if the line
/// was not accepted.
pub open spec fn reported(before: Seq<Seq<char>>, line: Seq<char>, ok: bool) -> Seq<Seq<char>> {
    if ok {
        before
    } else {
        before.push(advisory(line))
    }
}

/// What reading one line comes to. `pre` and `before` are the reader and
/// the advisories when the line comes, `post` and `after` what is left of
/// them, and `proceed` says whether more lines are to be read.
///
/// Reading goes on after every line but the one that ends the trace. A line
/// that asks for a call has that call answered by the reader, and gets an
/// advisory if it was not accepted; the end of an instantiation is always
/// accepted. A line that asks for none leaves all as it was.
pub open spec fn outcome<T: Z3LogParser>(
    pre: T,
    line: Seq<char>,
    line_no: usize,
    before: Seq<Seq<char>>,
    post: T,
    after: Seq<Seq<char>>,
    proceed: bool,
) -> bool {
    &&& proceed == continues(line)
    &&& match request(line, line_no) {
        Some(call) => exists|ok: bool|
            {
                &&& #[trigger] answers(pre, call, post, ok)
                &&& after == reported(before, line, ok)
                &&& call.op == Operation::EndOfInstance ==> ok
            },
        None => post == pre && after == before,
    }
}

/// Invokes the operation `op` of `handler` with what `call_of` names.
pub fn invoke<T: Z3LogParser>(
    handler: &mut T,
    op: Operation,
    args: TokenStream<'_>,
    line_no: usize,
    line: &str,
) -> (answer: Option<()>)
    ensures
        answers(
            *old(handler),
            call_of(op, args@, line_no, line@),
            *final(handler),
            answer is Some,
        ),
        op == Operation::EndOfInstance ==> answer is Some,
{
    match op {
        Operation::VersionInfo => handler.version_info(args),
        Operation::MkQuant => handler.mk_quant(args),
        Operation::MkVar => handler.mk_var(args),
        Operation::MkProofApp => handler.mk_proof_app(args),
        Operation::AttachMeaning => handler.attach_meaning(args),
        Operation::AttachVars => handler.attach_vars(args, line),
        Operation::AttachEnode => handler.attach_enode(args),
        Operation::EqExpl => handler.eq_expl(args),
        Operation::NewMatch => handler.new_match(args, line_no),
        Operation::InstDiscovered => handler.inst_discovered(args, line_no, line),
        Operation::Instance => handler.instance(args, line_no),
        Operation::EndOfInstance => {
            handler.end_of_instance();
            Some(())
        },
        Operation::DecideAndOr => handler.decide_and_or(args),
        Operation::Decide => handler.decide(args),
        Operation::Assign => handler.assign(args),
        Operation::Push => handler.push(args),
        Operation::Pop => handler.pop(args),
        Operation::BeginCheck => handler.begin_check(args),
        Operation::QueryDone => handler.query_done(args),
        Operation::ResolveProcess => handler.resolve_process(args),
        Operation::ResolveLit => handler.resolve_lit(args),
        Operation::Conflict => handler.conflict(args),
    }
}

/// Takes note of an operation's answer: a line that was not accepted gets
/// an advisory, and reading goes on either way.
pub fn conclude(answer: Option<()>, line: &str, diagnostics: &mut Vec<String>) -> (proceed: bool)
    ensures
        proceed,
        final(diagnostics).deep_view() == reported(
            old(diagnostics).deep_view(),
            line@,
            answer is Some,
        ),
{
    if answer.is_none() {
        let message = String::from_str("Error parsing line: ").concat(line);
        diagnostics.push(message);
        assert(diagnostics.deep_view() =~= old(diagnostics).deep_view().push(advisory(line@)));
    }
    true
}

/// Reads one line of the trace: invokes the operation that its tag names,
/// if it names one, and says whether more lines are to be read.
///
/// The answer is `false` for the line that ends the trace and `true` for
/// every other. A line whose operation did not accept it adds one advisory
/// to `diagnostics`; a line that asks for no call changes nothing.
pub fn process_line<T: Z3LogParser>(
    handler: &mut T,
    line: &str,
    line_no: usize,
    diagnostics: &mut Vec<String>,
) -> (proceed: bool)
    ensures
        outcome(
            *old(handler),
            line@,
            line_no,
            old(diagnostics).deep_view(),
            *final(handler),
            final(diagnostics).deep_view(),
            proceed,
        ),
{
    let mut split = TokenStream::new(line);
    let tag = split.next().unwrap();
    match classify(tag) {
        LineCase::Call(op) => {
            let answer = invoke(handler, op, split, line_no, line);
            conclude(answer, line, diagnostics)
        },
        LineCase::Eof => false,
        LineCase::Unknown => true,
    }
}

/// The fields that follow a tag, where `rest` is what stands behind the
/// tag: none if the line ends there, else the fields of what comes after
/// the space.
pub open spec fn fields_after(rest: Seq<char>) -> Seq<Seq<char>> {
    if rest.len() == 0 {
        Seq::empty()
    } else {
        fields(rest.subrange(1, rest.len() as int))
    }
}

/// Where a tag without a space is followed by nothing, or by a space and
/// more, the tag is the first field, and the fields after it are those of
/// what follows that space.
pub proof fn lemma_fields_after_tag(tag: Seq<char>, rest: Seq<char>)
    requires
        forall|j: int| 0 <= j < tag.len() ==> tag[j] != ' ',
        rest.len() == 0 || rest[0] == ' ',
    ensures
        fields(tag + rest)[0] == tag,
        fields(tag + rest).drop_first() == fields_after(rest),
{
    let s = tag + rest;
    let k = tag.len() as int;
    lemma_head_len_is(s, k);
    if rest.len() == 0 {
        assert(s =~= tag);
        assert(fields(s).drop_first() =~= Seq::<Seq<char>>::empty());
    } else {
        assert(s.subrange(0, k) =~= tag);
        assert(s.subrange(k + 1, s.len() as int) =~= rest.subrange(1, rest.len() as int));
        assert(fields(s).drop_first() =~= fields(rest.subrange(1, rest.len() as int)));
    }
}

/// The two tags for a quantifier and for a lambda ask for the same call on
/// the same fields, and so do the two tags for a proof step and for an
/// application: whatever follows the tag, the calls are equal.
pub proof fn lemma_aliases_share_operation(rest: Seq<char>, line_no: usize)
    requires
        rest.len() == 0 || rest[0] == ' ',
    ensures
        request("[mk-quant]"@ + rest, line_no) == request("[mk-lambda]"@ + rest, line_no),
        request("[mk-quant]"@ + rest, line_no) == Some(
            call_of(Operation::MkQuant, fields_after(rest), line_no, "[mk-quant]"@ + rest),
        ),
        request("[mk-proof]"@ + rest, line_no) == request("[mk-app]"@ + rest, line_no),
        request("[mk-proof]"@ + rest, line_no) == Some(
            call_of(Operation::MkProofApp, fields_after(rest), line_no, "[mk-proof]"@ + rest),
        ),
{
    reveal_strlit("[tool-version]");
    reveal_strlit("[mk-quant]");
    reveal_strlit("[mk-lambda]");
    reveal_strlit("[mk-var]");
    reveal_strlit("[mk-proof]");
    reveal_strlit("[mk-app]");
    assert("[mk-proof]"@[4] != "[mk-quant]"@[4]);
    assert("[mk-app]"@[4] != "[mk-var]"@[4]);
    lemma_fields_after_tag("[mk-quant]"@, rest);
    lemma_fields_after_tag("[mk-lambda]"@, rest);
    lemma_fields_after_tag("[mk-proof]"@, rest);
    lemma_fields_after_tag("[mk-app]"@, rest);
}

/// Reading stops at the tag that ends the trace and at no other first
/// field, and a line with that tag asks for no call.
pub proof fn lemma_only_eof_stops(line: Seq<char>, line_no: usize)
    ensures
        continues(line) <==> fields(line)[0] != "[eof]"@,
        !continues(line) ==> request(line, line_no) is None,
{
    reveal_strlit("[tool-version]");
    reveal_strlit("[mk-quant]");
    reveal_strlit("[mk-lambda]");
    reveal_strlit("[mk-var]");
    reveal_strlit("[mk-proof]");
    reveal_strlit("[mk-app]");
    reveal_strlit("[attach-meaning]");
    reveal_strlit("[attach-var-names]");
    reveal_strlit("[attach-enode]");
    reveal_strlit("[eq-expl]");
    reveal_strlit("[new-match]");
    reveal_strlit("[inst-discovered]");
    reveal_strlit("[instance]");
    reveal_strlit("[end-of-instance]");
    reveal_strlit("[decide-and-or]");
    reveal_strlit("[decide]");
    reveal_strlit("[assign]");
    reveal_strlit("[push]");
    reveal_strlit("[pop]");
    reveal_strlit("[begin-check]");
    reveal_strlit("[query-done]");
    reveal_strlit("[eof]");
    let e = "[eof]"@;
    assert(e[1] != "[pop]"@[1]);
    assert({
        &&& e.len() != "[tool-version]"@.len()
        &&& e.len() != "[mk-quant]"@.len()
        &&& e.len() != "[mk-lambda]"@.len()
        &&& e.len() != "[mk-var]"@.len()
        &&& e.len() != "[mk-proof]"@.len()
        &&& e.len() != "[mk-app]"@.len()
        &&& e.len() != "[attach-meaning]"@.len()
        &&& e.len() != "[attach-var-names]"@.len()
        &&& e.len() != "[attach-enode]"@.len()
        &&& e.len() != "[eq-expl]"@.len()
        &&& e.len() != "[new-match]"@.len()
        &&& e.len() != "[inst-discovered]"@.len()
        &&& e.len() != "[instance]"@.len()
        &&& e.len() != "[end-of-instance]"@.len()
        &&& e.len() != "[decide-and-or]"@.len()
        &&& e.len() != "[decide]"@.len()
        &&& e.len() != "[assign]"@.len()
        &&& e.len() != "[push]"@.len()
        &&& e.len() != "[begin-check]"@.len()
        &&& e.len() != "[query-done]"@.len()
    });
}

/// A line that starts with the tag that ends the trace stops the reading,
/// whatever follows the tag: the answer is to read no more, no operation
/// is invoked, and the reader and the advisories stay as they were.
pub proof fn lemma_eof_ends_the_trace<T: Z3LogParser>(
    pre: T,
    rest: Seq<char>,
    line_no: usize,
    before: Seq<Seq<char>>,
    post: T,
    after: Seq<Seq<char>>,
    proceed: bool,
)
    requires
        rest.len() == 0 || rest[0] == ' ',
        outcome(pre, "[eof]"@ + rest, line_no, before, post, after, proceed),
    ensures
        !proceed,
        request("[eof]"@ + rest, line_no) is None,
        post == pre,
        after == before,
{
    reveal_strlit("[eof]");
    lemma_fields_after_tag("[eof]"@, rest);
    lemma_only_eof_stops("[eof]"@ + rest, line_no);
}

/// A line whose first field is not in the table is passed over: reading
/// goes on, no operation is invoked, and the reader and the advisories stay
/// as they were.
pub proof fn lemma_unknown_tag_is_passed_over<T: Z3LogParser>(
    pre: T,
    line: Seq<char>,
    line_no: usize,
    before: Seq<Seq<char>>,
    post: T,
    after: Seq<Seq<char>>,
    proceed: bool,
)
    requires
        line_case(fields(line)[0]) == LineCase::Unknown,
        outcome(pre, line, line_no, before, post, after, proceed),
    ensures
        proceed,
        request(line, line_no) is None,
        post == pre,
        after == before,
{
}

/// After a line with any first field but the tag that ends the trace,
/// reading goes on, whether or not the line's operation accepted it.
pub proof fn lemma_reading_goes_on<T: Z3LogParser>(
    pre: T,
    line: Seq<char>,
    line_no: usize,
    before: Seq<Seq<char>>,
    post: T,
    after: Seq<Seq<char>>,
    proceed: bool,
)
    requires
        fields(line)[0] != "[eof]"@,
        outcome(pre, line, line_no, before, post, after, proceed),
    ensures
        proceed,
{
    lemma_only_eof_stops(line, line_no);
}

/// What a line asks for depends on the line and its number alone: the same
/// line with the same number asks for the same call, with the same
/// arguments, and gives the same answer on whether to read on.
pub proof fn lemma_dispatch_is_determined(
    line_a: Seq<char>,
    line_no_a: usize,
    line_b: Seq<char>,
    line_no_b: usize,
)
    requires
        line_a == line_b,
        line_no_a == line_no_b,
    ensures
        request(line_a, line_no_a) == request(line_b, line_no_b),
        continues(line_a) == continues(line_b),
{
}

/// With a reader whose operations have one answer each, reading a line has
/// one outcome: from the same state, the same line with the same number
/// leaves the same state and the same advisories, and gives the same
/// answer on whether to read on.
pub proof fn lemma_outcome_is_determined<T: Z3LogParser>(
    pre: T,
    line: Seq<char>,
    line_no: usize,
    before: Seq<Seq<char>>,
    post_a: T,
    after_a: Seq<Seq<char>>,
    proceed_a: bool,
    post_b: T,
    after_b: Seq<Seq<char>>,
    proceed_b: bool,
)
    requires
        outcome(pre, line, line_no, before, post_a, after_a, proceed_a),
        outcome(pre, line, line_no, before, post_b, after_b, proceed_b),
        forall|call: Call, a: T, ok_a: bool, b: T, ok_b: bool|
            #[trigger] answers(pre, call, a, ok_a) && #[trigger] answers(pre, call, b, ok_b)
                ==> a == b && ok_a == ok_b,
    ensures
        post_a == post_b,
        after_a == after_b,
        proceed_a == proceed_b,
{
}

} // verus!
