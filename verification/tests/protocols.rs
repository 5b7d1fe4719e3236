use jarvisctl::calls::{
    build_attach, build_kill, build_list_sessions, build_list_windows, build_select_window,
    build_set_marker, build_show_marker, target_of,
};
use jarvisctl::discovery::{
    filter_owned, followup_plan, parse_session_names, probe_plan, render_report, render_scoped,
};
use jarvisctl::dispatch::{dispatch, exec_agent, Command, Directive};
use jarvisctl::marker::is_owned;
use jarvisctl::runner::Runner;
use jarvisctl::spawn::{agent_window, spawn_plan, spawn_summary};
use jarvisctl::tell::{tell_plan, tell_summary};
use jarvisctl::text::{split_lines, trim_str, usize_to_string};
use jarvisctl::JarvisError;

fn strs(v: &[&str]) -> Vec<String> {
    v.iter().map(|s| s.to_string()).collect()
}

#[test]
fn spawn_plan_single_agent() {
    let plan = spawn_plan("ns", 1, &None, &strs(&["echo", "hi"])).unwrap();
    assert_eq!(plan.len(), 2);
    assert_eq!(
        plan[0],
        strs(&["new-session", "-d", "-s", "ns", "-n", "agent0", "bash -lc 'echo hi'"])
    );
    assert_eq!(plan[1], strs(&["set-option", "-t", "ns", "@jarvisctl", "1"]));
}

#[test]
fn spawn_plan_three_agents_marker_is_second_call() {
    let plan = spawn_plan("grid", 3, &None, &strs(&["worker"])).unwrap();
    assert_eq!(plan.len(), 4);
    assert_eq!(plan[0][0], "new-session");
    assert_eq!(plan[1], strs(&["set-option", "-t", "grid", "@jarvisctl", "1"]));
    assert_eq!(
        plan[2],
        strs(&["new-window", "-t", "grid", "-n", "agent1", "bash -lc 'worker'"])
    );
    assert_eq!(
        plan[3],
        strs(&["new-window", "-t", "grid", "-n", "agent2", "bash -lc 'worker'"])
    );
    let creates = plan.iter().filter(|c| c[0] == "new-session").count();
    let markers = plan.iter().filter(|c| c[0] == "set-option").count();
    let windows = plan.iter().filter(|c| c[0] == "new-window").count();
    assert_eq!((creates, markers, windows), (1, 1, 2));
}

#[test]
fn spawn_plan_with_working_directory() {
    let plan = spawn_plan("ns", 1, &Some("/tmp".to_string()), &strs(&["ls"])).unwrap();
    assert_eq!(plan[0][6], "bash -lc 'cd /tmp && ls'");
}

#[test]
fn spawn_plan_rejects_empty_command() {
    let r = spawn_plan("ns", 1, &None, &strs(&[]));
    assert!(matches!(r, Err(JarvisError::EmptyCommand)));
}

#[test]
fn dispatch_run_rejects_empty_command_before_any_call() {
    let d = dispatch(Command::Run {
        namespace: "ns".to_string(),
        agents: 2,
        working_directory: None,
        command: vec![],
    });
    assert!(matches!(d, Directive::Reject { error: JarvisError::EmptyCommand }));
}

#[test]
fn dispatch_run_builds_plan_and_summary() {
    let d = dispatch(Command::Run {
        namespace: "ns".to_string(),
        agents: 2,
        working_directory: None,
        command: strs(&["sleep", "1"]),
    });
    match d {
        Directive::Execute { plan, success } => {
            assert_eq!(plan.len(), 3);
            assert_eq!(
                success.unwrap(),
                "Started 2 agent(s) in 'ns'. Attach: jarvisctl attach --namespace ns"
            );
        }
        _ => panic!("expected an execute directive"),
    }
}

#[test]
fn join_round_trip_keeps_embedded_space() {
    let plan = spawn_plan("ns", 1, &None, &strs(&["echo", "a b"])).unwrap();
    let full = plan[0][6].clone();
    assert_eq!(full, "bash -lc 'echo 'a b''");
    let inner = full
        .strip_prefix("bash -lc '")
        .unwrap()
        .strip_suffix('\'')
        .unwrap();
    let words = shell_words::split(inner).unwrap();
    assert_eq!(words, strs(&["echo", "a b"]));
}

#[test]
fn is_owned_reads_marker_value() {
    assert!(!is_owned(""));
    assert!(!is_owned("0"));
    assert!(!is_owned("11"));
    assert!(is_owned("1"));
    assert!(is_owned(" 1 \n"));
    // a read changes nothing: asking again answers the same
    assert!(is_owned(" 1 \n"));
}

#[test]
fn filter_owned_keeps_host_order() {
    let names = strs(&["A", "B", "C"]);
    let owned = vec![true, false, true];
    assert_eq!(filter_owned(&names, &owned), strs(&["A", "C"]));
    assert_eq!(probe_plan(&names).len(), 3);
    assert_eq!(probe_plan(&names)[1], strs(&["show-option", "-qv", "-t", "B", "@jarvisctl"]));
    let follow = followup_plan(&strs(&["A", "C"]));
    assert_eq!(follow.len(), 4);
    assert_eq!(follow[0][0], "display-message");
    assert_eq!(follow[0][3], "A");
    assert_eq!(follow[1][3], "C");
    assert_eq!(follow[2], strs(&["list-windows", "-t", "A"]));
    assert_eq!(follow[3], strs(&["list-windows", "-t", "C"]));
}

#[test]
fn unscoped_discovery_with_nothing_owned_reports_none() {
    assert_eq!(followup_plan(&strs(&[])).len(), 0);
    assert_eq!(
        render_report(&strs(&[]), &strs(&[])),
        "NAMESPACES:\n(none)\nAGENTS:\n(none)\n"
    );
}

#[test]
fn unscoped_report_lists_summaries_then_agents() {
    let sums = strs(&["A: 2 windows (created 5)\n", "C: 1 windows (created 9)\n"]);
    let lists = strs(&["0: w0\n1: w1\n", "0: w0\n"]);
    assert_eq!(
        render_report(&sums, &lists),
        "NAMESPACES:\nA: 2 windows (created 5)\nC: 1 windows (created 9)\n\nAGENTS:\n0: w0\n1: w1\n0: w0\n"
    );
}

#[test]
fn scoped_report_passes_listing_through() {
    assert_eq!(render_scoped("ns", "0: a\n1: b\n"), "Windows in 'ns':\n0: a\n1: b\n");
}

#[test]
fn parse_session_names_trims_each_line() {
    assert_eq!(parse_session_names(" A \nB\nC\n"), strs(&["A", "B", "C"]));
    assert_eq!(parse_session_names(""), strs(&[]));
}

#[test]
fn tell_plan_three_lines_makes_four_calls() {
    let plan = tell_plan("ns:agent0", "one\ntwo\nthree\n");
    assert_eq!(plan.len(), 4);
    assert_eq!(plan[0], strs(&["send-keys", "-t", "ns:agent0", "one", "C-j"]));
    assert_eq!(plan[1], strs(&["send-keys", "-t", "ns:agent0", "two", "C-j"]));
    assert_eq!(plan[2], strs(&["send-keys", "-t", "ns:agent0", "three", "C-j"]));
    assert_eq!(plan[3], strs(&["send-keys", "-t", "ns:agent0", "Enter"]));
}

#[test]
fn tell_plan_empty_text_only_submits() {
    let plan = tell_plan("n:0", "");
    assert_eq!(plan.len(), 1);
    assert_eq!(plan[0], strs(&["send-keys", "-t", "n:0", "Enter"]));
}

#[test]
fn runner_aborts_on_first_failure() {
    let plan = vec![
        build_attach("a"),
        build_kill("b"),
        build_list_windows("c"),
    ];
    let mut runner = Runner::new(plan);
    let first = runner.current().cloned().unwrap();
    assert_eq!(first, strs(&["attach", "-t", "a"]));
    runner.report(0);
    let second = runner.current().cloned().unwrap();
    assert_eq!(second, strs(&["kill-session", "-t", "b"]));
    runner.report(2);
    // the failure at call 2 is final: exactly 2 calls were issued
    assert!(runner.current().is_none());
    assert!(matches!(runner.outcome(), Err(JarvisError::NonZero(2))));
}

#[test]
fn runner_completes_when_every_call_succeeds() {
    let mut runner = Runner::new(vec![build_attach("a"), build_kill("a")]);
    let mut issued = 0;
    while runner.current().is_some() {
        runner.report(0);
        issued += 1;
    }
    assert_eq!(issued, 2);
    assert!(matches!(runner.outcome(), Ok(())));
}

#[test]
fn dispatch_attach_delete_list_exec_tell() {
    match dispatch(Command::Attach { namespace: "n".to_string() }) {
        Directive::Execute { plan, success } => {
            assert_eq!(plan, vec![strs(&["attach", "-t", "n"])]);
            assert!(success.is_none());
        }
        _ => panic!("expected an execute directive"),
    }
    match dispatch(Command::Delete { namespace: "n".to_string() }) {
        Directive::Execute { plan, .. } => {
            assert_eq!(plan, vec![strs(&["kill-session", "-t", "n"])]);
        }
        _ => panic!("expected an execute directive"),
    }
    match dispatch(Command::List { namespace: Some("n".to_string()) }) {
        Directive::ListScoped { namespace } => assert_eq!(namespace, "n"),
        _ => panic!("expected a scoped listing"),
    }
    assert!(matches!(dispatch(Command::List { namespace: None }), Directive::ListAll));
    match dispatch(Command::Exec { namespace: "n".to_string(), agent: "agent1".to_string() }) {
        Directive::Execute { plan, .. } => {
            assert_eq!(plan[0], strs(&["select-window", "-t", "n:agent1"]));
            assert_eq!(plan[1], strs(&["attach", "-t", "n"]));
        }
        _ => panic!("expected an execute directive"),
    }
    match dispatch(Command::Tell {
        namespace: "n".to_string(),
        agent: "agent0".to_string(),
        file: "notes.txt".to_string(),
    }) {
        Directive::Tell { target, file, summary } => {
            assert_eq!(target, "n:agent0");
            assert_eq!(file, "notes.txt");
            assert_eq!(summary, "Sent 'notes.txt' to 'n':'agent0'");
        }
        _ => panic!("expected a tell directive"),
    }
}

#[test]
fn exec_agent_selects_then_attaches() {
    let plan = exec_agent("ns", "agent2");
    assert_eq!(plan.len(), 2);
    assert_eq!(plan[0], strs(&["select-window", "-t", "ns:agent2"]));
    assert_eq!(plan[1], strs(&["attach", "-t", "ns"]));
}

#[test]
fn call_builders_match_control_plane_shapes() {
    assert_eq!(build_list_sessions(), strs(&["list-sessions", "-F", "#{session_name}"]));
    assert_eq!(build_set_marker("s"), strs(&["set-option", "-t", "s", "@jarvisctl", "1"]));
    assert_eq!(build_show_marker("s"), strs(&["show-option", "-qv", "-t", "s", "@jarvisctl"]));
    assert_eq!(build_select_window("s:0"), strs(&["select-window", "-t", "s:0"]));
    assert_eq!(target_of("ns", "agent3"), "ns:agent3");
}

#[test]
fn decimal_rendering_is_exact() {
    assert_eq!(usize_to_string(0), "0");
    assert_eq!(usize_to_string(7), "7");
    assert_eq!(usize_to_string(10), "10");
    assert_eq!(usize_to_string(12345), "12345");
    assert_eq!(agent_window(0), "agent0");
    assert_eq!(agent_window(42), "agent42");
    assert_eq!(spawn_summary(1, "n"), "Started 1 agent(s) in 'n'. Attach: jarvisctl attach --namespace n");
    assert_eq!(tell_summary("f", "n", "a"), "Sent 'f' to 'n':'a'");
}

#[test]
fn trim_handles_edges() {
    assert_eq!(trim_str(""), "");
    assert_eq!(trim_str("   \t\n"), "");
    assert_eq!(trim_str(" a b "), "a b");
    assert_eq!(trim_str("\t\nx\r\n"), "x");
    assert_eq!(trim_str("x"), "x");
}

#[test]
fn split_lines_normalizes_endings() {
    let v = |s: &[&str]| strs(s);
    assert_eq!(split_lines("a\nb"), v(&["a", "b"]));
    assert_eq!(split_lines("a\nb\n"), v(&["a", "b"]));
    assert_eq!(split_lines("a\r\nb\r\n"), v(&["a", "b"]));
    assert_eq!(split_lines(""), v(&[]));
    assert_eq!(split_lines("\n"), v(&[""]));
    assert_eq!(split_lines("a\r"), v(&["a\r"]));
    assert_eq!(split_lines("\n\n"), v(&["", ""]));
}
