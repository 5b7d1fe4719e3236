//! The namespace spawn protocol: one detached session created with the
//! first agent, the ownership marker set immediately after, then one
//! window per further agent, strictly in that order.

use vstd::prelude::*;
use vstd::string::StringExecFns;

use crate::calls::{
    build_new_session, build_new_window, build_set_marker, new_session_call, new_window_call,
    set_marker_call,
};
use crate::shell::{join_words, shell_joined, spec_wrapped, wrapped_command};
use crate::text::{decimal, lemma_deep_view_push, usize_to_string};
use crate::JarvisError;

verus! {

/// The window name of the agent at an index.
pub open spec fn window_name(i: nat) -> Seq<char> {
    "agent"@ + decimal(i)
}

/// Builds the window name of the agent at an index.
pub fn agent_window(i: usize) -> (r: String)
    ensures
        r@ == window_name(i as nat),
{
    let mut r = "agent".to_owned();
    let d = usize_to_string(i);
    r.append(d.as_str());
    r
}

/// The full, ordered call sequence of a spawn: the namespace created in
/// a detached state together with agent 0, the ownership marker set as
/// the very next call, then one window per further agent, in index
/// order, every agent running the same wrapped command.
pub open spec fn spec_spawn_plan(ns: Seq<char>, agents: nat, wrapped: Seq<char>) -> Seq<
    Seq<Seq<char>>,
>
    recommends
        agents >= 1,
{
    seq![new_session_call(ns, window_name(0), wrapped), set_marker_call(ns)] + Seq::new(
        (agents - 1) as nat,
        |i: int| new_window_call(ns, window_name((i + 1) as nat), wrapped),
    )
}

/// Builds the spawn call sequence. A spawn with nothing to run is
/// rejected before any call is issued.
pub fn spawn_plan(
    ns: &str,
    agents: usize,
    working_dir: &Option<String>,
    cmd: &Vec<String>,
) -> (r: Result<Vec<Vec<String>>, JarvisError>)
    requires
        agents >= 1,
    ensures
        r is Err <==> cmd@.len() == 0,
        r matches Err(e) ==> e is EmptyCommand,
        r matches Ok(plan) ==> plan.deep_view() == spec_spawn_plan(
            ns@,
            agents as nat,
            spec_wrapped(working_dir.deep_view(), shell_joined(cmd.deep_view())),
        ),
{
    if cmd.len() == 0 {
        return Err(JarvisError::EmptyCommand);
    }
    let joined = join_words(cmd);
    let full = wrapped_command(working_dir, joined.as_str());
    let ghost wrapped = spec_wrapped(working_dir.deep_view(), shell_joined(cmd.deep_view()));
    let mut plan: Vec<Vec<String>> = Vec::new();

    let ghost p0 = plan;
    let w0 = agent_window(0);
    plan.push(build_new_session(ns, w0.as_str(), full.as_str()));
    proof {
        lemma_deep_view_push(p0, plan, plan@.last());
    }
    let ghost p1 = plan;
    plan.push(build_set_marker(ns));
    proof {
        lemma_deep_view_push(p1, plan, plan@.last());
        assert(plan.deep_view() =~= seq![
            new_session_call(ns@, window_name(0), wrapped),
            set_marker_call(ns@),
        ] + Seq::new(0, |i: int| new_window_call(ns@, window_name((i + 1) as nat), wrapped)));
    }

    let mut i: usize = 1;
    while i < agents
        invariant
            1 <= i <= agents,
            full@ == wrapped,
            plan.deep_view() == seq![
                new_session_call(ns@, window_name(0), wrapped),
                set_marker_call(ns@),
            ] + Seq::new(
                (i - 1) as nat,
                |j: int| new_window_call(ns@, window_name((j + 1) as nat), wrapped),
            ),
        decreases agents - i,
    {
        let ghost pre = plan;
        let w = agent_window(i);
        plan.push(build_new_window(ns, w.as_str(), full.as_str()));
        proof {
            lemma_deep_view_push(pre, plan, plan@.last());
            assert(plan.deep_view() =~= seq![
                new_session_call(ns@, window_name(0), wrapped),
                set_marker_call(ns@),
            ] + Seq::new(
                i as nat,
                |j: int| new_window_call(ns@, window_name((j + 1) as nat), wrapped),
            ));
        }
        i = i + 1;
    }
    Ok(plan)
}

/// The success summary, with the attach instruction for the namespace.
pub open spec fn spec_spawn_summary(agents: nat, ns: Seq<char>) -> Seq<char> {
    "Started "@ + decimal(agents) + " agent(s) in '"@ + ns
        + "'. Attach: jarvisctl attach --namespace "@ + ns
}

/// Builds the success summary printed after a spawn.
pub fn spawn_summary(agents: usize, ns: &str) -> (r: String)
    ensures
        r@ == spec_spawn_summary(agents as nat, ns@),
{
    let mut r = "Started ".to_owned();
    let d = usize_to_string(agents);
    r.append(d.as_str());
    r.append(" agent(s) in '");
    r.append(ns);
    r.append("'. Attach: jarvisctl attach --namespace ");
    r.append(ns);
    r
}

/// True of the call that creates a namespace.
pub open spec fn is_new_session(c: Seq<Seq<char>>) -> bool {
    c.len() > 0 && c[0] == "new-session"@
}

/// True of the call that sets the ownership marker.
pub open spec fn is_set_marker(c: Seq<Seq<char>>) -> bool {
    c.len() > 0 && c[0] == "set-option"@
}

/// True of the call that adds a window to an existing namespace.
pub open spec fn is_new_window(c: Seq<Seq<char>>) -> bool {
    c.len() > 0 && c[0] == "new-window"@
}

/// Law: a spawn of N agents issues N + 1 calls; the namespace creation
/// is exactly the first, the marker set exactly the second, and every
/// later call adds a window. In particular one creation, one marker
/// set, and N - 1 window additions, in that order.
pub proof fn lemma_spawn_plan_order(ns: Seq<char>, agents: nat, wrapped: Seq<char>)
    requires
        agents >= 1,
    ensures
        spec_spawn_plan(ns, agents, wrapped).len() == agents + 1,
        forall|i: int|
            0 <= i < agents + 1 ==> (is_new_session(
                #[trigger] spec_spawn_plan(ns, agents, wrapped)[i],
            ) <==> i == 0),
        forall|i: int|
            0 <= i < agents + 1 ==> (is_set_marker(
                #[trigger] spec_spawn_plan(ns, agents, wrapped)[i],
            ) <==> i == 1),
        forall|i: int|
            0 <= i < agents + 1 ==> (is_new_window(
                #[trigger] spec_spawn_plan(ns, agents, wrapped)[i],
            ) <==> 2 <= i),
{
    reveal_strlit("new-session");
    reveal_strlit("set-option");
    reveal_strlit("new-window");
    assert("new-session"@.len() == 11);
    assert("set-option"@.len() == 10);
    assert("new-window"@.len() == 10);
    assert("set-option"@[0] == 's');
    assert("new-window"@[0] == 'n');
    let p = spec_spawn_plan(ns, agents, wrapped);
    assert forall|i: int| 0 <= i < agents + 1 implies {
        &&& (is_new_session(#[trigger] p[i]) <==> i == 0)
        &&& (is_set_marker(p[i]) <==> i == 1)
        &&& (is_new_window(p[i]) <==> 2 <= i)
    } by {
        if i == 0 {
            assert(p[i] == new_session_call(ns, window_name(0), wrapped));
        } else if i == 1 {
            assert(p[i] == set_marker_call(ns));
        } else {
            assert(p[i] == new_window_call(ns, window_name((i - 1) as nat), wrapped));
        }
    }
}

} // verus!
