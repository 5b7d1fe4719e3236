use jarvisctl::dispatch::{dispatch, ensure_found, inspect_choice, nsenter_args, Command,
    Directive, InspectChoice};
use jarvisctl::JarvisError;

#[test]
fn inspect_selector_prefers_name() {
    match inspect_choice(Some("nginx".to_string()), Some(42)) {
        InspectChoice::ByName(n) => assert_eq!(n, "nginx"),
        _ => panic!("expected a name selector"),
    }
    match inspect_choice(None, Some(42)) {
        InspectChoice::ByPid(p) => assert_eq!(p, 42),
        _ => panic!("expected an identifier selector"),
    }
    assert!(matches!(inspect_choice(None, None), InspectChoice::NoSelector));
}

#[test]
fn lookup_with_no_match_is_not_found() {
    assert!(matches!(ensure_found(0, 7), Err(JarvisError::ProcessNotFound(7))));
    assert!(matches!(ensure_found(3, 7), Ok(())));
}

#[test]
fn namespace_entry_arguments_are_exact() {
    let args = nsenter_args(4321, "/bin/bash");
    let expect: Vec<String> = ["nsenter", "-t", "4321", "-a", "/bin/bash"]
        .iter()
        .map(|s| s.to_string())
        .collect();
    assert_eq!(args, expect);
}

#[test]
fn dispatch_inspect_passes_selectors_through() {
    match dispatch(Command::Inspect { name: None, pid: Some(9), exec_shell: true }) {
        Directive::Inspect { name, pid, exec_shell } => {
            assert!(name.is_none());
            assert_eq!(pid, Some(9));
            assert!(exec_shell);
        }
        _ => panic!("expected an inspect directive"),
    }
}
