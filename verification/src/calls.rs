//! The argument lists of every control-plane call the protocols issue.
//!
//! Each call shape has a spec function giving the exact argument
//! sequence and an executable builder proved against it. Nothing here
//! runs the control-plane binary; the surrounding application does.

use vstd::prelude::*;
use vstd::string::StringExecFns;

verus! {

/// The key whose value marks a namespace as managed by this tool.
pub open spec fn marker_key() -> Seq<char> {
    "@jarvisctl"@
}

/// The value the marker is set to.
pub open spec fn marker_value() -> Seq<char> {
    "1"@
}

pub open spec fn new_session_call(ns: Seq<char>, window: Seq<char>, cmd: Seq<char>) -> Seq<
    Seq<char>,
> {
    seq!["new-session"@, "-d"@, "-s"@, ns, "-n"@, window, cmd]
}

pub open spec fn new_window_call(ns: Seq<char>, window: Seq<char>, cmd: Seq<char>) -> Seq<
    Seq<char>,
> {
    seq!["new-window"@, "-t"@, ns, "-n"@, window, cmd]
}

pub open spec fn set_marker_call(ns: Seq<char>) -> Seq<Seq<char>> {
    seq!["set-option"@, "-t"@, ns, marker_key(), marker_value()]
}

pub open spec fn show_marker_call(ns: Seq<char>) -> Seq<Seq<char>> {
    seq!["show-option"@, "-qv"@, "-t"@, ns, marker_key()]
}

pub open spec fn list_sessions_call() -> Seq<Seq<char>> {
    seq!["list-sessions"@, "-F"@, "#{session_name}"@]
}

pub open spec fn list_windows_call(ns: Seq<char>) -> Seq<Seq<char>> {
    seq!["list-windows"@, "-t"@, ns]
}

/// The one-line namespace summary: name, window count, creation time.
pub open spec fn describe_call(ns: Seq<char>) -> Seq<Seq<char>> {
    seq![
        "display-message"@,
        "-p"@,
        "-t"@,
        ns,
        "#{session_name}: #{session_windows} windows (created #{session_created})"@,
    ]
}

pub open spec fn attach_call(ns: Seq<char>) -> Seq<Seq<char>> {
    seq!["attach"@, "-t"@, ns]
}

pub open spec fn kill_call(ns: Seq<char>) -> Seq<Seq<char>> {
    seq!["kill-session"@, "-t"@, ns]
}

pub open spec fn select_window_call(target: Seq<char>) -> Seq<Seq<char>> {
    seq!["select-window"@, "-t"@, target]
}

/// One line typed into the target: the literal text, then a line feed
/// keystroke that does not submit.
pub open spec fn send_line_call(target: Seq<char>, line: Seq<char>) -> Seq<Seq<char>> {
    seq!["send-keys"@, "-t"@, target, line, "C-j"@]
}

/// The final keystroke that makes the target act on its input.
pub open spec fn submit_call(target: Seq<char>) -> Seq<Seq<char>> {
    seq!["send-keys"@, "-t"@, target, "Enter"@]
}

fn call3(a: &str, b: &str, c: &str) -> (r: Vec<String>)
    ensures
        r.deep_view() == seq![a@, b@, c@],
{
    let mut r: Vec<String> = Vec::new();
    r.push(a.to_owned());
    r.push(b.to_owned());
    r.push(c.to_owned());
    proof {
        assert(r.deep_view() =~= seq![a@, b@, c@]);
    }
    r
}

fn call4(a: &str, b: &str, c: &str, d: &str) -> (r: Vec<String>)
    ensures
        r.deep_view() == seq![a@, b@, c@, d@],
{
    let mut r: Vec<String> = Vec::new();
    r.push(a.to_owned());
    r.push(b.to_owned());
    r.push(c.to_owned());
    r.push(d.to_owned());
    proof {
        assert(r.deep_view() =~= seq![a@, b@, c@, d@]);
    }
    r
}

fn call5(a: &str, b: &str, c: &str, d: &str, e: &str) -> (r: Vec<String>)
    ensures
        r.deep_view() == seq![a@, b@, c@, d@, e@],
{
    let mut r: Vec<String> = Vec::new();
    r.push(a.to_owned());
    r.push(b.to_owned());
    r.push(c.to_owned());
    r.push(d.to_owned());
    r.push(e.to_owned());
    proof {
        assert(r.deep_view() =~= seq![a@, b@, c@, d@, e@]);
    }
    r
}

fn call6(a: &str, b: &str, c: &str, d: &str, e: &str, f: &str) -> (r: Vec<String>)
    ensures
        r.deep_view() == seq![a@, b@, c@, d@, e@, f@],
{
    let mut r: Vec<String> = Vec::new();
    r.push(a.to_owned());
    r.push(b.to_owned());
    r.push(c.to_owned());
    r.push(d.to_owned());
    r.push(e.to_owned());
    r.push(f.to_owned());
    proof {
        assert(r.deep_view() =~= seq![a@, b@, c@, d@, e@, f@]);
    }
    r
}

fn call7(a: &str, b: &str, c: &str, d: &str, e: &str, f: &str, g: &str) -> (r: Vec<String>)
    ensures
        r.deep_view() == seq![a@, b@, c@, d@, e@, f@, g@],
{
    let mut r: Vec<String> = Vec::new();
    r.push(a.to_owned());
    r.push(b.to_owned());
    r.push(c.to_owned());
    r.push(d.to_owned());
    r.push(e.to_owned());
    r.push(f.to_owned());
    r.push(g.to_owned());
    proof {
        assert(r.deep_view() =~= seq![a@, b@, c@, d@, e@, f@, g@]);
    }
    r
}

pub fn build_new_session(ns: &str, window: &str, cmd: &str) -> (r: Vec<String>)
    ensures
        r.deep_view() == new_session_call(ns@, window@, cmd@),
{
    call7("new-session", "-d", "-s", ns, "-n", window, cmd)
}

pub fn build_new_window(ns: &str, window: &str, cmd: &str) -> (r: Vec<String>)
    ensures
        r.deep_view() == new_window_call(ns@, window@, cmd@),
{
    call6("new-window", "-t", ns, "-n", window, cmd)
}

pub fn build_set_marker(ns: &str) -> (r: Vec<String>)
    ensures
        r.deep_view() == set_marker_call(ns@),
{
    call5("set-option", "-t", ns, "@jarvisctl", "1")
}

pub fn build_show_marker(ns: &str) -> (r: Vec<String>)
    ensures
        r.deep_view() == show_marker_call(ns@),
{
    call5("show-option", "-qv", "-t", ns, "@jarvisctl")
}

pub fn build_list_sessions() -> (r: Vec<String>)
    ensures
        r.deep_view() == list_sessions_call(),
{
    call3("list-sessions", "-F", "#{session_name}")
}

pub fn build_list_windows(ns: &str) -> (r: Vec<String>)
    ensures
        r.deep_view() == list_windows_call(ns@),
{
    call3("list-windows", "-t", ns)
}

pub fn build_describe(ns: &str) -> (r: Vec<String>)
    ensures
        r.deep_view() == describe_call(ns@),
{
    call5(
        "display-message",
        "-p",
        "-t",
        ns,
        "#{session_name}: #{session_windows} windows (created #{session_created})",
    )
}

pub fn build_attach(ns: &str) -> (r: Vec<String>)
    ensures
        r.deep_view() == attach_call(ns@),
{
    call3("attach", "-t", ns)
}

pub fn build_kill(ns: &str) -> (r: Vec<String>)
    ensures
        r.deep_view() == kill_call(ns@),
{
    call3("kill-session", "-t", ns)
}

pub fn build_select_window(target: &str) -> (r: Vec<String>)
    ensures
        r.deep_view() == select_window_call(target@),
{
    call3("select-window", "-t", target)
}

pub fn build_send_line(target: &str, line: &str) -> (r: Vec<String>)
    ensures
        r.deep_view() == send_line_call(target@, line@),
{
    call5("send-keys", "-t", target, line, "C-j")
}

pub fn build_submit(target: &str) -> (r: Vec<String>)
    ensures
        r.deep_view() == submit_call(target@),
{
    call4("send-keys", "-t", target, "Enter")
}

/// The window target `namespace:agent`.
pub open spec fn spec_target(ns: Seq<char>, agent: Seq<char>) -> Seq<char> {
    ns + ":"@ + agent
}

/// Builds the window target addressed by namespace and agent name.
pub fn target_of(ns: &str, agent: &str) -> (r: String)
    ensures
        r@ == spec_target(ns@, agent@),
{
    let mut r = ns.to_owned();
    r.append(":");
    r.append(agent);
    r
}

} // verus!
