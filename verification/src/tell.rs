//! The text-injection protocol: deliver a file's lines into a running
//! agent as if typed, line feed after each line, one submission
//! keystroke at the very end.

use vstd::prelude::*;
use vstd::string::StringExecFns;

use crate::calls::{build_send_line, build_submit, send_line_call, submit_call};
use crate::text::{lemma_deep_view_push, spec_lines, split_lines};

verus! {

/// The injection calls for a text: one typed line per line of the
/// text, in order, then exactly one submission keystroke.
pub open spec fn spec_tell_plan(target: Seq<char>, contents: Seq<char>) -> Seq<Seq<Seq<char>>> {
    Seq::new(spec_lines(contents).len(), |i: int| send_line_call(target, spec_lines(contents)[i]))
        .push(submit_call(target))
}

/// Builds the injection calls for a text.
pub fn tell_plan(target: &str, contents: &str) -> (r: Vec<Vec<String>>)
    ensures
        r.deep_view() == spec_tell_plan(target@, contents@),
{
    let ghost front = Seq::new(
        spec_lines(contents@).len(),
        |i: int| send_line_call(target@, spec_lines(contents@)[i]),
    );
    let lines = split_lines(contents);
    let mut r: Vec<Vec<String>> = Vec::new();
    let mut i: usize = 0;
    while i < lines.len()
        invariant
            i <= lines@.len(),
            lines.deep_view() == spec_lines(contents@),
            front == Seq::new(
                spec_lines(contents@).len(),
                |i: int| send_line_call(target@, spec_lines(contents@)[i]),
            ),
            r.deep_view() == front.take(i as int),
        decreases lines@.len() - i,
    {
        let ghost pre = r;
        r.push(build_send_line(target, lines[i].as_str()));
        proof {
            lemma_deep_view_push(pre, r, r@.last());
            assert(lines@[i as int].deep_view() == spec_lines(contents@)[i as int]);
            assert(r.deep_view() =~= front.take(i + 1));
        }
        i = i + 1;
    }
    let ghost pre = r;
    r.push(build_submit(target));
    proof {
        lemma_deep_view_push(pre, r, r@.last());
        assert(front.take(lines@.len() as int) =~= front);
        assert(r.deep_view() =~= spec_tell_plan(target@, contents@));
    }
    r
}

/// Law: injecting a text of n lines issues exactly n + 1 calls — the n
/// lines in order, each a typed line followed by a line feed, and then
/// exactly one submission keystroke.
pub proof fn lemma_tell_plan_shape(target: Seq<char>, contents: Seq<char>)
    ensures
        spec_tell_plan(target, contents).len() == spec_lines(contents).len() + 1,
        forall|i: int|
            0 <= i < spec_lines(contents).len() ==> #[trigger] spec_tell_plan(target, contents)[i]
                == send_line_call(target, spec_lines(contents)[i]),
        spec_tell_plan(target, contents)[spec_lines(contents).len() as int] == submit_call(target),
{
}

/// The success summary of an injection.
pub open spec fn spec_tell_summary(file: Seq<char>, ns: Seq<char>, agent: Seq<char>) -> Seq<char> {
    "Sent '"@ + file + "' to '"@ + ns + "':'"@ + agent + "'"@
}

/// Builds the success summary printed after an injection.
pub fn tell_summary(file: &str, ns: &str, agent: &str) -> (r: String)
    ensures
        r@ == spec_tell_summary(file@, ns@, agent@),
{
    let mut r = "Sent '".to_owned();
    r.append(file);
    r.append("' to '");
    r.append(ns);
    r.append("':'");
    r.append(agent);
    r.append("'");
    r
}

} // verus!
