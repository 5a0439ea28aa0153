use nixpacks_python::options::PlanError;
use nixpacks_python::phase::Phase;
use nixpacks_python::plan::{BuildPlan, StartPhase};

fn strs(v: &[&str]) -> Vec<String> {
    v.iter().map(|s| s.to_string()).collect()
}

fn sample() -> BuildPlan {
    let mut p = BuildPlan::new();
    let mut setup = Phase::setup(Some(strs(&["nodejs_18", "yarn"])));
    setup.apt_pkgs = Some(vec![]);
    p.add_phase(setup);
    p.add_phase(Phase::install(Some(strs(&["yarn install --frozen-lockfile"]))));
    let mut odd = Phase::new("we\\ird\nname".to_string());
    odd.cmds = None;
    odd.nix_libs = Some(strs(&["a;b", "line1\nline2", "\\"]));
    p.add_phase(odd);
    p.set_start_phase(StartPhase::new("yarn start".to_string()));
    p
}

#[test]
fn text_form_of_small_plan() {
    let mut p = BuildPlan::new();
    let mut a = Phase::new("a".to_string());
    a.add_cmd("x".to_string());
    p.add_phase(a);
    p.set_start_phase(StartPhase::new("go".to_string()));
    assert_eq!(p.to_text(), "pa\nClix\n.l.nnn.sgo\n");
}

#[test]
fn text_form_escapes_specials() {
    let mut p = BuildPlan::new();
    p.add_phase(Phase::new("a\\b\nc".to_string()));
    assert_eq!(p.to_text(), "pa\\\\b\\\nc\nCl.l.nnn.n");
}

#[test]
fn text_round_trip() {
    let p = sample();
    let text = p.to_text();
    let q = BuildPlan::from_text(&text).unwrap();
    assert_eq!(q.to_text(), text);
    assert_eq!(q.phases().len(), 3);
    assert_eq!(q.start_cmd(), Some(&"yarn start".to_string()));
    let odd = q.get_phase(&"we\\ird\nname".to_string()).unwrap();
    assert_eq!(odd.cmds, None);
    assert_eq!(odd.nix_libs, Some(strs(&["a;b", "line1\nline2", "\\"])));
    let setup = q.get_phase(&"setup".to_string()).unwrap();
    assert_eq!(setup.apt_pkgs, Some(vec![]));
    assert_eq!(setup.nix_pkgs, Some(strs(&["nodejs_18", "yarn"])));
}

#[test]
fn empty_plan_text_round_trip() {
    let p = BuildPlan::new();
    assert_eq!(p.to_text(), ".n");
    let q = BuildPlan::from_text(&".n".to_string()).unwrap();
    assert!(q.phases().is_empty());
    assert!(q.start_cmd().is_none());
}

#[test]
fn malformed_text_is_rejected() {
    for bad in ["", "x", ".", ".s", ".sabc", ".nextra", "pa\nX", "pa\nCl", "pa\\"] {
        assert!(matches!(
            BuildPlan::from_text(&bad.to_string()),
            Err(PlanError::PlanParse(_))
        ));
    }
    match BuildPlan::from_text(&".nextra".to_string()) {
        Err(PlanError::PlanParse(cause)) => assert_eq!(cause, "text follows the start command"),
        _ => panic!("expected a parse error"),
    }
}

#[test]
fn repeated_names_in_text_are_combined() {
    let text = "pa\nCli1\n.l.nnnpa\nCli2\n.l.nnn.n".to_string();
    let q = BuildPlan::from_text(&text).unwrap();
    assert_eq!(q.phases().len(), 1);
    assert_eq!(
        q.get_phase(&"a".to_string()).unwrap().cmds,
        Some(strs(&["1", "2"]))
    );
}
