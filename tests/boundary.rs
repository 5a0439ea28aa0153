use nixpacks_python::env::{check_env_entry, validate_env};
use nixpacks_python::generator::describe_providers;
use nixpacks_python::options::PlanError;

fn strs(v: &[&str]) -> Vec<String> {
    v.iter().map(|s| s.to_string()).collect()
}

#[test]
fn env_entries_well_formed() {
    assert!(check_env_entry("NODE_ENV=production"));
    assert!(check_env_entry("A-B_9="));
    assert!(check_env_entry("X=a=b c"));
}

#[test]
fn env_entries_malformed() {
    assert!(!check_env_entry(""));
    assert!(!check_env_entry("=value"));
    assert!(!check_env_entry("MY VAR=1"));
    assert!(!check_env_entry("é=1"));
    assert!(!check_env_entry("PATH"));
    assert!(!check_env_entry("NOEQUALS"));
}

#[test]
fn validate_env_reports_first_bad_entry() {
    assert!(validate_env(&vec![]).is_ok());
    assert!(validate_env(&strs(&["A=1", "B="])).is_ok());
    match validate_env(&strs(&["A=1", "NOEQUALS"])) {
        Err(PlanError::InvalidEnvironment(e)) => assert_eq!(e, "NOEQUALS"),
        _ => panic!("expected an environment error"),
    }
    match validate_env(&strs(&["A=1", "bad name", "=x"])) {
        Err(PlanError::InvalidEnvironment(e)) => assert_eq!(e, "bad name"),
        _ => panic!("expected an environment error"),
    }
}

#[test]
fn providers_joined_with_comma() {
    assert_eq!(describe_providers(&vec![]), "");
    assert_eq!(describe_providers(&strs(&["node"])), "node");
    assert_eq!(describe_providers(&strs(&["node", "python", "go"])), "node, python, go");
}
