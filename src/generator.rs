use vstd::prelude::*;

use crate::phase::{opt_list_view, Phase, PhaseKind, PhaseView};
use crate::plan::{lemma_add_new_name, merge_all, BuildPlan, PlanView, StartPhase};

verus! {

/// Explicit per-phase overrides given by a caller. An absent field adds nothing.
pub struct PlanOverrides {
    pub install_cmds: Option<Vec<String>>,
    pub build_cmds: Option<Vec<String>>,
    pub start_cmd: Option<String>,
    pub apt_pkgs: Option<Vec<String>>,
    pub nix_pkgs: Option<Vec<String>>,
    pub nix_libs: Option<Vec<String>>,
}

impl PlanOverrides {
    /// Overrides that add nothing.
    pub fn none() -> (r: PlanOverrides)
        ensures
            r.install_cmds.is_none(),
            r.build_cmds.is_none(),
            r.start_cmd.is_none(),
            r.apt_pkgs.is_none(),
            r.nix_pkgs.is_none(),
            r.nix_libs.is_none(),
    {
        PlanOverrides {
            install_cmds: None,
            build_cmds: None,
            start_cmd: None,
            apt_pkgs: None,
            nix_pkgs: None,
            nix_libs: None,
        }
    }
}

pub open spec fn setup_override(o: PlanOverrides) -> PhaseView {
    PhaseView {
        name: "setup"@,
        kind: PhaseKind::Setup,
        cmds: Some(Seq::empty()),
        depends_on: Some(Seq::empty()),
        nix_pkgs: opt_list_view(o.nix_pkgs),
        apt_pkgs: opt_list_view(o.apt_pkgs),
        nix_libs: opt_list_view(o.nix_libs),
    }
}

pub open spec fn cmds_override(name: Seq<char>, kind: PhaseKind, dep: Seq<char>, cmds: Option<Vec<String>>) -> PhaseView {
    PhaseView {
        name,
        kind,
        cmds: opt_list_view(cmds),
        depends_on: Some(seq![dep]),
        nix_pkgs: None,
        apt_pkgs: None,
        nix_libs: None,
    }
}

/// The plan that the overrides describe: a setup phase when any package list
/// is given, an install phase when install commands are given, a build phase
/// when build commands are given (in that order), and the start command.
pub open spec fn override_plan_spec(o: PlanOverrides) -> PlanView {
    PlanView {
        phases: (if o.apt_pkgs.is_some() || o.nix_pkgs.is_some() || o.nix_libs.is_some() {
            seq![setup_override(o)]
        } else {
            Seq::empty()
        }) + (if o.install_cmds.is_some() {
            seq![cmds_override("install"@, PhaseKind::Install, "setup"@, o.install_cmds)]
        } else {
            Seq::empty()
        }) + (if o.build_cmds.is_some() {
            seq![cmds_override("build"@, PhaseKind::Build, "install"@, o.build_cmds)]
        } else {
            Seq::empty()
        }),
        start: match o.start_cmd {
            Some(s) => Some(s@),
            None => None,
        },
    }
}

/// Builds the plan that the overrides describe.
pub fn override_plan(o: PlanOverrides) -> (r: BuildPlan)
    ensures
        r@ == override_plan_spec(o),
        r.wf(),
{
    let ghost og = o;
    proof {
        reveal_strlit("setup");
        reveal_strlit("install");
        reveal_strlit("build");
        assert("setup"@[0] != "install"@[0]);
        assert("setup"@[0] != "build"@[0]);
        assert("install"@[0] != "build"@[0]);
    }
    let mut plan = BuildPlan::new();
    if o.apt_pkgs.is_some() || o.nix_pkgs.is_some() || o.nix_libs.is_some() {
        let mut setup = Phase::setup(o.nix_pkgs);
        setup.apt_pkgs = o.apt_pkgs;
        setup.nix_libs = o.nix_libs;
        assert(setup@ == setup_override(og));
        proof {
            lemma_add_new_name(plan@.phases, setup@);
        }
        plan.add_phase(setup);
    }
    assert(plan@.phases.len() <= 1);
    assert(plan@.phases.len() == 1 ==> plan@.phases[0].name == "setup"@);
    if o.install_cmds.is_some() {
        let install = Phase::install(o.install_cmds);
        assert(install@ == cmds_override("install"@, PhaseKind::Install, "setup"@, og.install_cmds));
        proof {
            lemma_add_new_name(plan@.phases, install@);
        }
        plan.add_phase(install);
    }
    assert(plan@.phases.len() <= 2);
    assert(forall|j: int| 0 <= j < plan@.phases.len() ==> plan@.phases[j].name != "build"@);
    if o.build_cmds.is_some() {
        let build = Phase::build(o.build_cmds);
        assert(build@ == cmds_override("build"@, PhaseKind::Build, "install"@, og.build_cmds));
        proof {
            lemma_add_new_name(plan@.phases, build@);
        }
        plan.add_phase(build);
    }
    match o.start_cmd {
        Some(cmd) => plan.set_start_phase(StartPhase::new(cmd)),
        None => {},
    }
    assert(plan@.phases =~= override_plan_spec(og).phases);
    plan
}

/// The final plan: the detected plan, then the caller-supplied plan if any,
/// then the explicit overrides, merged in one pass so that each later layer
/// takes priority.
pub fn finalize_plan(detected: BuildPlan, supplied: Option<BuildPlan>, overrides: BuildPlan) -> (r: BuildPlan)
    ensures
        r@ == match supplied {
            Some(p) => merge_all(seq![detected@, p@, overrides@]),
            None => merge_all(seq![detected@, overrides@]),
        },
        r.wf(),
{
    let ghost d = detected@;
    let ghost o = overrides@;
    match supplied {
        Some(p) => {
            let ghost pv = p@;
            let plans = vec![detected, p, overrides];
            assert(plans@.map_values(|q: BuildPlan| q@) =~= seq![d, pv, o]);
            BuildPlan::merge_plans(&plans)
        },
        None => {
            let plans = vec![detected, overrides];
            assert(plans@.map_values(|q: BuildPlan| q@) =~= seq![d, o]);
            BuildPlan::merge_plans(&plans)
        },
    }
}

/// Provider names joined by `", "`.
pub open spec fn join_names(xs: Seq<Seq<char>>) -> Seq<char>
    decreases xs.len(),
{
    if xs.len() == 0 {
        Seq::empty()
    } else if xs.len() == 1 {
        xs[0]
    } else {
        join_names(xs.drop_last()) + seq![',', ' '] + xs.last()
    }
}

/// A human-readable list of the detected providers.
pub fn describe_providers(names: &Vec<String>) -> (r: String)
    ensures
        r@ == join_names(names.deep_view()),
{
    let ghost xs = names.deep_view();
    let mut out = String::new();
    let mut i: usize = 0;
    assert(xs.take(0) =~= Seq::<Seq<char>>::empty());
    while i < names.len()
        invariant
            xs == names.deep_view(),
            i <= names@.len(),
            out@ == join_names(xs.take(i as int)),
        decreases names@.len() - i,
    {
        if i > 0 {
            out.append(", ");
        }
        out.append(names[i].as_str());
        proof {
            reveal_strlit(", ");
            let u = xs.take(i as int + 1);
            assert(u.drop_last() =~= xs.take(i as int));
            assert(u.last() == names@[i as int]@);
            assert(out@ =~= join_names(u));
        }
        i = i + 1;
    }
    assert(xs.take(names@.len() as int) =~= xs);
    out
}

} // verus!
