use nixpacks_python::generator::{finalize_plan, override_plan, PlanOverrides};
use nixpacks_python::options::{check_start, BuildOptions, PlanError};
use nixpacks_python::phase::{Phase, PhaseKind};
use nixpacks_python::plan::{BuildPlan, StartPhase};

fn strs(v: &[&str]) -> Vec<String> {
    v.iter().map(|s| s.to_string()).collect()
}

fn cmds_of(plan: &BuildPlan, name: &str) -> Option<Vec<String>> {
    plan.get_phase(&name.to_string()).and_then(|p| p.cmds.clone())
}

fn names(plan: &BuildPlan) -> Vec<String> {
    plan.phases().iter().map(|p| p.name.clone()).collect()
}

fn plan_with(name: &str, cmds: &[&str], start: Option<&str>) -> BuildPlan {
    let mut p = BuildPlan::new();
    let mut ph = Phase::new(name.to_string());
    ph.cmds = Some(strs(cmds));
    p.add_phase(ph);
    if let Some(s) = start {
        p.set_start_phase(StartPhase::new(s.to_string()));
    }
    p
}

fn same(a: &BuildPlan, b: &BuildPlan) -> bool {
    if names(a) != names(b) || a.start_cmd() != b.start_cmd() {
        return false;
    }
    a.phases().iter().zip(b.phases().iter()).all(|(x, y)| {
        x.cmds == y.cmds
            && x.depends_on == y.depends_on
            && x.nix_pkgs == y.nix_pkgs
            && x.apt_pkgs == y.apt_pkgs
            && x.nix_libs == y.nix_libs
            && x.kind == y.kind
    })
}

#[test]
fn merge_concatenates_commands_in_input_order() {
    let a = plan_with("install", &["x"], None);
    let b = plan_with("install", &["y"], None);
    let m = BuildPlan::merge_plans(&vec![a, b]);
    assert_eq!(cmds_of(&m, "install"), Some(strs(&["x", "y"])));
    assert_eq!(m.phases().len(), 1);
}

#[test]
fn merge_last_start_wins() {
    let a = plan_with("build", &[], Some("foo"));
    let b = plan_with("build", &[], Some("bar"));
    let ab = BuildPlan::merge_plans(&vec![a.clone(), b.clone()]);
    let ba = BuildPlan::merge_plans(&vec![b, a]);
    assert_eq!(ab.start_cmd(), Some(&"bar".to_string()));
    assert_eq!(ba.start_cmd(), Some(&"foo".to_string()));
}

#[test]
fn merge_keeps_earlier_start_when_later_has_none() {
    let a = plan_with("build", &[], Some("foo"));
    let b = plan_with("build", &[], None);
    let ab = BuildPlan::merge_plans(&vec![a, b]);
    assert_eq!(ab.start_cmd(), Some(&"foo".to_string()));
}

#[test]
fn merge_with_empty_plan_is_identity() {
    let a = plan_with("install", &["npm ci"], Some("node index.js"));
    let left = BuildPlan::merge_plans(&vec![a.clone(), BuildPlan::new()]);
    let right = BuildPlan::merge_plans(&vec![BuildPlan::new(), a.clone()]);
    assert!(same(&left, &a));
    assert!(same(&right, &a));
}

#[test]
fn merge_is_associative_on_example() {
    let a = plan_with("install", &["a1"], Some("s1"));
    let mut b = plan_with("build", &["b1"], None);
    b.add_phase(Phase::install(Some(strs(&["a2"]))));
    let c = plan_with("install", &["a3"], Some("s3"));
    let ab = BuildPlan::merge_plans(&vec![a.clone(), b.clone()]);
    let nested = BuildPlan::merge_plans(&vec![ab, c.clone()]);
    let flat = BuildPlan::merge_plans(&vec![a, b, c]);
    assert!(same(&nested, &flat));
    assert_eq!(cmds_of(&flat, "install"), Some(strs(&["a1", "a2", "a3"])));
    assert_eq!(names(&flat), strs(&["install", "build"]));
    assert_eq!(flat.start_cmd(), Some(&"s3".to_string()));
}

#[test]
fn merge_unions_packages() {
    let mut a = BuildPlan::new();
    a.add_phase(Phase::setup(Some(strs(&["nodejs", "git"]))));
    let mut b = BuildPlan::new();
    b.add_phase(Phase::setup(Some(strs(&["git", "python3"]))));
    let m = BuildPlan::merge_plans(&vec![a, b]);
    let setup = m.get_phase(&"setup".to_string()).unwrap();
    assert_eq!(setup.nix_pkgs, Some(strs(&["nodejs", "git", "python3"])));
}

#[test]
fn merge_absent_and_present_lists() {
    let mut a = BuildPlan::new();
    let mut p = Phase::new("x".to_string());
    p.cmds = None;
    a.add_phase(p);
    let m = BuildPlan::merge_plans(&vec![a.clone(), a.clone()]);
    assert_eq!(cmds_of(&m, "x"), None);
    let b = plan_with("x", &[], None);
    let m2 = BuildPlan::merge_plans(&vec![a, b]);
    assert_eq!(cmds_of(&m2, "x"), Some(vec![]));
}

#[test]
fn merge_does_not_duplicate_names() {
    let mut a = BuildPlan::new();
    a.add_phase(Phase::build(Some(strs(&["make"]))));
    a.add_phase(Phase::build(Some(strs(&["make install"]))));
    assert_eq!(a.phases().len(), 1);
    assert_eq!(cmds_of(&a, "build"), Some(strs(&["make", "make install"])));
}

#[test]
fn merge_of_nothing_is_empty() {
    let m = BuildPlan::merge_plans(&vec![]);
    assert!(m.phases().is_empty());
    assert!(m.start_cmd().is_none());
}

#[test]
fn phase_kinds_seed_dependencies() {
    let i = Phase::install(None);
    assert_eq!(i.kind, PhaseKind::Install);
    assert_eq!(i.cmds, Some(vec![]));
    assert_eq!(i.depends_on, Some(strs(&["setup"])));
    let b = Phase::build(None);
    assert_eq!(b.depends_on, Some(strs(&["install"])));
    let s = Phase::setup(None);
    assert_eq!(s.depends_on, Some(vec![]));
    assert_eq!(s.nix_pkgs, None);
    let mut c = Phase::new("lint".to_string());
    c.add_cmd("cargo clippy".to_string());
    assert_eq!(c.kind, PhaseKind::Custom);
    assert_eq!(c.cmds, Some(strs(&["cargo clippy"])));
}

#[test]
fn phase_kind_from_name() {
    assert_eq!(PhaseKind::of_name(&"setup".to_string()), PhaseKind::Setup);
    assert_eq!(PhaseKind::of_name(&"install".to_string()), PhaseKind::Install);
    assert_eq!(PhaseKind::of_name(&"build".to_string()), PhaseKind::Build);
    assert_eq!(PhaseKind::of_name(&"lint".to_string()), PhaseKind::Custom);
    assert_eq!(PhaseKind::of_name(&"Build".to_string()), PhaseKind::Custom);
}

#[test]
fn override_install_and_build_only() {
    let mut o = PlanOverrides::none();
    o.install_cmds = Some(strs(&["a"]));
    o.build_cmds = Some(strs(&["b"]));
    let p = finalize_plan(BuildPlan::new(), None, override_plan(o));
    assert_eq!(names(&p), strs(&["install", "build"]));
    assert_eq!(cmds_of(&p, "install"), Some(strs(&["a"])));
    assert_eq!(cmds_of(&p, "build"), Some(strs(&["b"])));
    assert!(p.get_phase(&"setup".to_string()).is_none());
    assert!(p.start_cmd().is_none());
}

#[test]
fn override_packages_make_setup_phase() {
    let mut o = PlanOverrides::none();
    o.apt_pkgs = Some(strs(&["curl"]));
    o.nix_libs = Some(strs(&["zlib"]));
    o.start_cmd = Some("./run".to_string());
    let p = override_plan(o);
    assert_eq!(names(&p), strs(&["setup"]));
    let s = p.get_phase(&"setup".to_string()).unwrap();
    assert_eq!(s.apt_pkgs, Some(strs(&["curl"])));
    assert_eq!(s.nix_libs, Some(strs(&["zlib"])));
    assert_eq!(s.nix_pkgs, None);
    assert_eq!(p.start_cmd(), Some(&"./run".to_string()));
}

#[test]
fn overrides_take_priority_over_supplied_plan() {
    let supplied = plan_with("install", &["npm ci"], Some("npm start"));
    let mut o = PlanOverrides::none();
    o.install_cmds = Some(strs(&["npm run postinstall"]));
    o.start_cmd = Some("node server.js".to_string());
    let p = finalize_plan(BuildPlan::new(), Some(supplied), override_plan(o));
    assert_eq!(cmds_of(&p, "install"), Some(strs(&["npm ci", "npm run postinstall"])));
    assert_eq!(p.start_cmd(), Some(&"node server.js".to_string()));
}

#[test]
fn final_plan_layers_detected_supplied_and_overrides() {
    let mut detected = plan_with("install", &["pip install -r requirements.txt"], Some("python app.py"));
    detected.add_phase(Phase::setup(Some(strs(&["python311"]))));
    let supplied = plan_with("install", &["pip install gunicorn"], None);
    let mut o = PlanOverrides::none();
    o.build_cmds = Some(strs(&["make"]));
    o.start_cmd = Some("gunicorn app:app".to_string());
    let p = finalize_plan(detected, Some(supplied), override_plan(o));
    assert_eq!(names(&p), strs(&["install", "setup", "build"]));
    assert_eq!(
        cmds_of(&p, "install"),
        Some(strs(&["pip install -r requirements.txt", "pip install gunicorn"]))
    );
    assert_eq!(cmds_of(&p, "build"), Some(strs(&["make"])));
    assert_eq!(p.start_cmd(), Some(&"gunicorn app:app".to_string()));
}

#[test]
fn final_plan_without_supplied_plan() {
    let detected = plan_with("build", &["cargo build"], Some("./target/release/app"));
    let p = finalize_plan(detected, None, override_plan(PlanOverrides::none()));
    assert_eq!(names(&p), strs(&["build"]));
    assert_eq!(cmds_of(&p, "build"), Some(strs(&["cargo build"])));
    assert_eq!(p.start_cmd(), Some(&"./target/release/app".to_string()));
}

#[test]
fn quiet_defaults_to_not_verbose() {
    let mut o = BuildOptions::named("app".to_string());
    o.verbose = Some(true);
    assert!(!o.resolve().quiet);
    let mut o = BuildOptions::named("app".to_string());
    o.verbose = Some(false);
    assert!(o.resolve().quiet);
    let mut o = BuildOptions::named("app".to_string());
    o.verbose = Some(true);
    o.quiet = Some(true);
    let s = o.resolve();
    assert!(s.verbose);
    assert!(!s.quiet);
    let mut o = BuildOptions::named("app".to_string());
    o.quiet = Some(false);
    assert!(!o.resolve().quiet);
    let mut o = BuildOptions::named("app".to_string());
    o.quiet = Some(true);
    o.verbose = Some(false);
    assert!(o.resolve().quiet);
}

#[test]
fn build_option_defaults() {
    let s = BuildOptions::named("app".to_string()).resolve();
    assert_eq!(s.name, "app");
    assert!(!s.print_dockerfile);
    assert!(s.tags.is_empty() && s.labels.is_empty() && s.platform.is_empty());
    assert!(s.quiet);
    assert!(!s.verbose);
    assert!(!s.no_cache);
    assert!(s.inline_cache);
    assert!(s.current_dir);
    assert!(!s.no_error_without_start);
}

#[test]
fn no_cache_forwards_other_cache_options() {
    let mut o = BuildOptions::named("app".to_string());
    o.no_cache = Some(true);
    o.inline_cache = Some(true);
    o.cache_from = Some("prev:latest".to_string());
    o.cache_key = Some("k".to_string());
    let s = o.resolve();
    assert!(s.no_cache);
    assert!(s.inline_cache);
    assert_eq!(s.cache_from, Some("prev:latest".to_string()));
    assert_eq!(s.cache_key, Some("k".to_string()));
}

#[test]
fn empty_plan_needs_start_unless_tolerated() {
    let empty = BuildPlan::new();
    let strict = BuildOptions::named("app".to_string()).resolve();
    assert!(matches!(check_start(&empty, &strict), Err(PlanError::NoStartCommand)));
    let mut o = BuildOptions::named("app".to_string());
    o.no_error_without_start = Some(true);
    let lenient = o.resolve();
    assert!(check_start(&empty, &lenient).is_ok());
    let started = plan_with("build", &[], Some("./app"));
    assert!(check_start(&started, &strict).is_ok());
}
