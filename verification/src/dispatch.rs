//! The command dispatcher: maps each CLI command to the exact work the
//! application must perform, rejecting bad requests before any call.

use vstd::prelude::*;

use crate::calls::{attach_call, build_attach, build_kill, build_select_window, kill_call,
    select_window_call, spec_target, target_of};
use crate::shell::{shell_joined, spec_wrapped};
use crate::spawn::{spawn_plan, spawn_summary, spec_spawn_plan, spec_spawn_summary};
use crate::tell::{spec_tell_summary, tell_summary};
use crate::text::{decimal, lemma_deep_view_push, usize_to_string};
use crate::JarvisError;

verus! {

/// A parsed CLI command.
pub enum Command {
    /// Inspect running processes by name or identifier.
    Inspect { name: Option<String>, pid: Option<u32>, exec_shell: bool },
    /// Spawn a namespace with agents running a command.
    Run {
        namespace: String,
        agents: usize,
        working_directory: Option<String>,
        command: Vec<String>,
    },
    /// Attach to a running namespace.
    Attach { namespace: String },
    /// Destroy a namespace and everything inside it.
    Delete { namespace: String },
    /// List owned namespaces, or one namespace's agents.
    List { namespace: Option<String> },
    /// Attach to one agent of a namespace.
    Exec { namespace: String, agent: String },
    /// Inject a file's text into a running agent.
    Tell { namespace: String, agent: String, file: String },
}

/// What the application must do for one command.
pub enum Directive {
    /// Run the calls in order, abort on the first failure, and print
    /// the text when the whole sequence succeeded.
    Execute { plan: Vec<Vec<String>>, success: Option<String> },
    /// Scoped discovery: list one namespace's agents.
    ListScoped { namespace: String },
    /// Unscoped discovery over the owned namespaces.
    ListAll,
    /// Inspect processes, optionally entering one's namespaces.
    Inspect { name: Option<String>, pid: Option<u32>, exec_shell: bool },
    /// Read the file, inject it into the target window, then print the
    /// summary.
    Tell { target: String, file: String, summary: String },
    /// Rejected before any call was issued.
    Reject { error: JarvisError },
}

/// The calls that attach to one agent of a namespace: select its
/// window, then attach to the namespace.
pub fn exec_agent(namespace: &str, agent: &str) -> (r: Vec<Vec<String>>)
    ensures
        r.deep_view() == seq![
            select_window_call(spec_target(namespace@, agent@)),
            attach_call(namespace@),
        ],
{
    let target = target_of(namespace, agent);
    let mut r: Vec<Vec<String>> = Vec::new();
    let ghost p0 = r;
    r.push(build_select_window(target.as_str()));
    proof {
        lemma_deep_view_push(p0, r, r@.last());
    }
    let ghost p1 = r;
    r.push(build_attach(namespace));
    proof {
        lemma_deep_view_push(p1, r, r@.last());
        assert(r.deep_view() =~= seq![
            select_window_call(spec_target(namespace@, agent@)),
            attach_call(namespace@),
        ]);
    }
    r
}

/// Decides the work of one command. A spawn with an empty command list
/// is rejected here, before any external call is made.
pub fn dispatch(cmd: Command) -> (r: Directive)
    requires
        cmd matches Command::Run { agents, .. } ==> agents >= 1,
    ensures
        match cmd {
            Command::Inspect { name, pid, exec_shell } => r matches Directive::Inspect {
                name: n2,
                pid: p2,
                exec_shell: e2,
            } && n2 == name && p2 == pid && e2 == exec_shell,
            Command::Run { namespace, agents, working_directory, command } => {
                if command@.len() == 0 {
                    r matches Directive::Reject { error: JarvisError::EmptyCommand }
                } else {
                    r matches Directive::Execute { plan, success } && plan.deep_view()
                        == spec_spawn_plan(
                        namespace@,
                        agents as nat,
                        spec_wrapped(working_directory.deep_view(), shell_joined(command.deep_view())),
                    ) && (success matches Some(s) && s@ == spec_spawn_summary(
                        agents as nat,
                        namespace@,
                    ))
                }
            },
            Command::Attach { namespace } => r matches Directive::Execute { plan, success }
                && plan.deep_view() == seq![attach_call(namespace@)] && success is None,
            Command::Delete { namespace } => r matches Directive::Execute { plan, success }
                && plan.deep_view() == seq![kill_call(namespace@)] && success is None,
            Command::List { namespace } => match namespace {
                Some(ns) => r matches Directive::ListScoped { namespace: n2 } && n2@ == ns@,
                None => r is ListAll,
            },
            Command::Exec { namespace, agent } => r matches Directive::Execute { plan, success }
                && plan.deep_view() == seq![
                select_window_call(spec_target(namespace@, agent@)),
                attach_call(namespace@),
            ] && success is None,
            Command::Tell { namespace, agent, file } => r matches Directive::Tell {
                target,
                file: f2,
                summary,
            } && target@ == spec_target(namespace@, agent@) && f2@ == file@ && summary@
                == spec_tell_summary(file@, namespace@, agent@),
        },
{
    match cmd {
        Command::Inspect { name, pid, exec_shell } => Directive::Inspect {
            name,
            pid,
            exec_shell,
        },
        Command::Run { namespace, agents, working_directory, command } => {
            match spawn_plan(namespace.as_str(), agents, &working_directory, &command) {
                Ok(plan) => {
                    let summary = spawn_summary(agents, namespace.as_str());
                    Directive::Execute { plan, success: Some(summary) }
                },
                Err(error) => Directive::Reject { error },
            }
        },
        Command::Attach { namespace } => {
            let mut plan: Vec<Vec<String>> = Vec::new();
            let ghost p0 = plan;
            plan.push(build_attach(namespace.as_str()));
            proof {
                lemma_deep_view_push(p0, plan, plan@.last());
                assert(plan.deep_view() =~= seq![attach_call(namespace@)]);
            }
            Directive::Execute { plan, success: None }
        },
        Command::Delete { namespace } => {
            let mut plan: Vec<Vec<String>> = Vec::new();
            let ghost p0 = plan;
            plan.push(build_kill(namespace.as_str()));
            proof {
                lemma_deep_view_push(p0, plan, plan@.last());
                assert(plan.deep_view() =~= seq![kill_call(namespace@)]);
            }
            Directive::Execute { plan, success: None }
        },
        Command::List { namespace } => match namespace {
            Some(ns) => Directive::ListScoped { namespace: ns },
            None => Directive::ListAll,
        },
        Command::Exec { namespace, agent } => {
            let plan = exec_agent(namespace.as_str(), agent.as_str());
            Directive::Execute { plan, success: None }
        },
        Command::Tell { namespace, agent, file } => {
            let target = target_of(namespace.as_str(), agent.as_str());
            let summary = tell_summary(file.as_str(), namespace.as_str(), agent.as_str());
            Directive::Tell { target, file, summary }
        },
    }
}

/// Which processes an inspection reads: a name filter wins over an
/// identifier; with neither, nothing is read and a hint is printed.
pub enum InspectChoice {
    ByName(String),
    ByPid(u32),
    NoSelector,
}

/// Decides the inspection's selector, as the CLI rules order them.
pub fn inspect_choice(name: Option<String>, pid: Option<u32>) -> (r: InspectChoice)
    ensures
        match name {
            Some(n) => r matches InspectChoice::ByName(n2) && n2@ == n@,
            None => match pid {
                Some(p) => r matches InspectChoice::ByPid(p2) && p2 == p,
                None => r is NoSelector,
            },
        },
{
    match name {
        Some(n) => InspectChoice::ByName(n),
        None => match pid {
            Some(p) => InspectChoice::ByPid(p),
            None => InspectChoice::NoSelector,
        },
    }
}

/// Decides whether a process lookup found anything: a count of zero is
/// the not-found error carrying the requested identifier.
pub fn ensure_found(count: usize, pid: u32) -> (r: Result<(), JarvisError>)
    ensures
        match r {
            Ok(u) => count > 0,
            Err(e) => count == 0 && (e matches JarvisError::ProcessNotFound(p) && p == pid),
        },
{
    if count == 0 {
        Err(JarvisError::ProcessNotFound(pid))
    } else {
        Ok(())
    }
}

/// The privileged namespace-entry invocation for a process: the
/// arguments handed to the elevation utility.
pub open spec fn spec_nsenter_args(pid: nat, shell: Seq<char>) -> Seq<Seq<char>> {
    seq!["nsenter"@, "-t"@, decimal(pid), "-a"@, shell]
}

/// Builds the namespace-entry arguments for a process identifier.
pub fn nsenter_args(pid: u32, shell: &str) -> (r: Vec<String>)
    ensures
        r.deep_view() == spec_nsenter_args(pid as nat, shell@),
{
    let mut r: Vec<String> = Vec::new();
    let pid_str = usize_to_string(pid as usize);
    r.push("nsenter".to_owned());
    r.push("-t".to_owned());
    r.push(pid_str);
    r.push("-a".to_owned());
    r.push(shell.to_owned());
    proof {
        assert(r.deep_view() =~= spec_nsenter_args(pid as nat, shell@));
    }
    r
}

} // verus!
