use vstd::prelude::*;

verus! {

/// The role of a phase, which seeds its default dependencies.
#[derive(Clone, Copy, Debug, PartialEq, Eq, Structural)]
pub enum PhaseKind {
    Setup,
    Install,
    Build,
    Custom,
}

/// The kind that a standard phase name implies; any other name is custom.
pub open spec fn kind_of_name(name: Seq<char>) -> PhaseKind {
    if name == "setup"@ {
        PhaseKind::Setup
    } else if name == "install"@ {
        PhaseKind::Install
    } else if name == "build"@ {
        PhaseKind::Build
    } else {
        PhaseKind::Custom
    }
}

impl PhaseKind {
    /// The kind of a phase called `name`.
    pub fn of_name(name: &String) -> (r: PhaseKind)
        ensures
            r == kind_of_name(name@),
    {
        if *name == "setup".to_string() {
            PhaseKind::Setup
        } else if *name == "install".to_string() {
            PhaseKind::Install
        } else if *name == "build".to_string() {
            PhaseKind::Build
        } else {
            PhaseKind::Custom
        }
    }
}

/// An optional list of strings, viewed as an optional sequence of character sequences.
pub type OptList = Option<Seq<Seq<char>>>;

pub open spec fn opt_list_view(o: Option<Vec<String>>) -> OptList {
    match o {
        Some(v) => Some(v.deep_view()),
        None => None,
    }
}

/// The mathematical value of a phase.
pub struct PhaseView {
    pub name: Seq<char>,
    pub kind: PhaseKind,
    pub cmds: OptList,
    pub depends_on: OptList,
    pub nix_pkgs: OptList,
    pub apt_pkgs: OptList,
    pub nix_libs: OptList,
}

/// A named unit of build work: ordered commands plus optional dependency lists.
/// An absent list (`None`) is kept distinct from an empty one.
#[derive(Clone, Debug)]
pub struct Phase {
    pub name: String,
    pub kind: PhaseKind,
    pub cmds: Option<Vec<String>>,
    pub depends_on: Option<Vec<String>>,
    pub nix_pkgs: Option<Vec<String>>,
    pub apt_pkgs: Option<Vec<String>>,
    pub nix_libs: Option<Vec<String>>,
}

impl View for Phase {
    type V = PhaseView;

    open spec fn view(&self) -> PhaseView {
        PhaseView {
            name: self.name@,
            kind: self.kind,
            cmds: opt_list_view(self.cmds),
            depends_on: opt_list_view(self.depends_on),
            nix_pkgs: opt_list_view(self.nix_pkgs),
            apt_pkgs: opt_list_view(self.apt_pkgs),
            nix_libs: opt_list_view(self.nix_libs),
        }
    }
}

/// Commands of two layers of the same phase: the earlier ones run first.
pub open spec fn concat_lists(a: OptList, b: OptList) -> OptList {
    match (a, b) {
        (Some(x), Some(y)) => Some(x + y),
        (Some(x), None) => Some(x),
        (None, y) => y,
    }
}

/// `a` followed by each item of `b` that is not already present, in `b`'s order.
pub open spec fn union_seq(a: Seq<Seq<char>>, b: Seq<Seq<char>>) -> Seq<Seq<char>>
    decreases b.len(),
{
    if b.len() == 0 {
        a
    } else {
        let r = union_seq(a, b.drop_last());
        if r.contains(b.last()) {
            r
        } else {
            r.push(b.last())
        }
    }
}

pub open spec fn union_lists(a: OptList, b: OptList) -> OptList {
    match (a, b) {
        (Some(x), Some(y)) => Some(union_seq(x, y)),
        (Some(x), None) => Some(x),
        (None, y) => y,
    }
}

/// Field-by-field combination of an existing phase with an incoming one of the
/// same name: commands are concatenated, dependency lists are unioned, and the
/// name and kind of the existing phase are kept.
pub open spec fn combine_phase(p: PhaseView, q: PhaseView) -> PhaseView {
    PhaseView {
        name: p.name,
        kind: p.kind,
        cmds: concat_lists(p.cmds, q.cmds),
        depends_on: union_lists(p.depends_on, q.depends_on),
        nix_pkgs: union_lists(p.nix_pkgs, q.nix_pkgs),
        apt_pkgs: union_lists(p.apt_pkgs, q.apt_pkgs),
        nix_libs: union_lists(p.nix_libs, q.nix_libs),
    }
}

pub open spec fn default_depends_on(kind: PhaseKind) -> Seq<Seq<char>> {
    match kind {
        PhaseKind::Install => seq!["setup"@],
        PhaseKind::Build => seq!["install"@],
        _ => Seq::empty(),
    }
}

fn clone_list(v: &Vec<String>) -> (r: Vec<String>)
    ensures
        r.deep_view() == v.deep_view(),
{
    let mut r: Vec<String> = Vec::new();
    let mut i: usize = 0;
    while i < v.len()
        invariant
            i <= v.len(),
            r@.len() == i,
            forall|j: int| 0 <= j < i ==> r@[j]@ == v@[j]@,
        decreases v.len() - i,
    {
        let s = v[i].clone();
        r.push(s);
        i = i + 1;
    }
    assert(r.deep_view() =~= v.deep_view());
    r
}

fn clone_opt_list(o: &Option<Vec<String>>) -> (r: Option<Vec<String>>)
    ensures
        opt_list_view(r) == opt_list_view(*o),
{
    match o {
        Some(v) => Some(clone_list(v)),
        None => None,
    }
}

fn contains_str(v: &Vec<String>, s: &String) -> (r: bool)
    ensures
        r == v.deep_view().contains(s@),
{
    let mut i: usize = 0;
    while i < v.len()
        invariant
            i <= v.len(),
            forall|j: int| 0 <= j < i ==> v.deep_view()[j] != s@,
        decreases v.len() - i,
    {
        if v[i] == *s {
            assert(v.deep_view()[i as int] == s@);
            return true;
        }
        i = i + 1;
    }
    false
}

fn union_vec(a: &Vec<String>, b: &Vec<String>) -> (r: Vec<String>)
    ensures
        r.deep_view() == union_seq(a.deep_view(), b.deep_view()),
{
    let mut r = clone_list(a);
    let mut i: usize = 0;
    assert(b.deep_view().take(0) =~= Seq::<Seq<char>>::empty());
    while i < b.len()
        invariant
            i <= b.len(),
            r.deep_view() == union_seq(a.deep_view(), b.deep_view().take(i as int)),
        decreases b.len() - i,
    {
        let ghost pre = b.deep_view().take(i as int + 1);
        assert(pre.drop_last() =~= b.deep_view().take(i as int));
        if !contains_str(&r, &b[i]) {
            let s = b[i].clone();
            r.push(s);
            assert(r.deep_view() =~= union_seq(a.deep_view(), pre));
        }
        i = i + 1;
    }
    assert(b.deep_view().take(b.len() as int) =~= b.deep_view());
    r
}

fn concat_vec(a: &Vec<String>, b: &Vec<String>) -> (r: Vec<String>)
    ensures
        r.deep_view() == a.deep_view() + b.deep_view(),
{
    let mut r = clone_list(a);
    let mut extra = clone_list(b);
    r.append(&mut extra);
    assert(r.deep_view() =~= a.deep_view() + b.deep_view());
    r
}

fn concat_opt(a: &Option<Vec<String>>, b: &Option<Vec<String>>) -> (r: Option<Vec<String>>)
    ensures
        opt_list_view(r) == concat_lists(opt_list_view(*a), opt_list_view(*b)),
{
    match (a, b) {
        (Some(x), Some(y)) => Some(concat_vec(x, y)),
        (Some(x), None) => Some(clone_list(x)),
        (None, y) => clone_opt_list(y),
    }
}

fn union_opt(a: &Option<Vec<String>>, b: &Option<Vec<String>>) -> (r: Option<Vec<String>>)
    ensures
        opt_list_view(r) == union_lists(opt_list_view(*a), opt_list_view(*b)),
{
    match (a, b) {
        (Some(x), Some(y)) => Some(union_vec(x, y)),
        (Some(x), None) => Some(clone_list(x)),
        (None, y) => clone_opt_list(y),
    }
}

impl Phase {
    /// A phase of the given name and kind, with no commands yet and the
    /// dependencies that its kind implies.
    pub fn of_kind(name: String, kind: PhaseKind) -> (r: Phase)
        ensures
            r@.name == name@,
            r@.kind == kind,
            r@.cmds == Some(Seq::<Seq<char>>::empty()),
            r@.depends_on == Some(default_depends_on(kind)),
            r@.nix_pkgs.is_none(),
            r@.apt_pkgs.is_none(),
            r@.nix_libs.is_none(),
    {
        let mut deps: Vec<String> = Vec::new();
        match kind {
            PhaseKind::Install => deps.push("setup".to_string()),
            PhaseKind::Build => deps.push("install".to_string()),
            _ => {},
        }
        proof {
            reveal_strlit("setup");
            reveal_strlit("install");
        }
        assert(deps.deep_view() =~= default_depends_on(kind));
        Phase {
            name,
            kind,
            cmds: Some(Vec::new()),
            depends_on: Some(deps),
            nix_pkgs: None,
            apt_pkgs: None,
            nix_libs: None,
        }
    }

    /// A custom phase named `name`.
    pub fn new(name: String) -> (r: Phase)
        ensures
            r@.name == name@,
            r@.kind == PhaseKind::Custom,
            r@.cmds == Some(Seq::<Seq<char>>::empty()),
            r@.depends_on == Some(Seq::<Seq<char>>::empty()),
            r@.nix_pkgs.is_none(),
            r@.apt_pkgs.is_none(),
            r@.nix_libs.is_none(),
    {
        Phase::of_kind(name, PhaseKind::Custom)
    }

    /// The `setup` phase, which installs the given Nix packages.
    pub fn setup(nix_pkgs: Option<Vec<String>>) -> (r: Phase)
        ensures
            r@.name == "setup"@,
            r@.kind == PhaseKind::Setup,
            r@.cmds == Some(Seq::<Seq<char>>::empty()),
            r@.depends_on == Some(Seq::<Seq<char>>::empty()),
            r@.nix_pkgs == opt_list_view(nix_pkgs),
            r@.apt_pkgs.is_none(),
            r@.nix_libs.is_none(),
    {
        let mut p = Phase::of_kind("setup".to_string(), PhaseKind::Setup);
        p.nix_pkgs = nix_pkgs;
        p
    }

    /// The `install` phase, running `cmds`; it depends on `setup`.
    pub fn install(cmds: Option<Vec<String>>) -> (r: Phase)
        ensures
            r@.name == "install"@,
            r@.kind == PhaseKind::Install,
            r@.cmds == (if cmds.is_some() { opt_list_view(cmds) } else { Some(Seq::<Seq<char>>::empty()) }),
            r@.depends_on == Some(seq!["setup"@]),
            r@.nix_pkgs.is_none(),
            r@.apt_pkgs.is_none(),
            r@.nix_libs.is_none(),
    {
        let mut p = Phase::of_kind("install".to_string(), PhaseKind::Install);
        if cmds.is_some() {
            p.cmds = cmds;
        }
        p
    }

    /// The `build` phase, running `cmds`; it depends on `install`.
    pub fn build(cmds: Option<Vec<String>>) -> (r: Phase)
        ensures
            r@.name == "build"@,
            r@.kind == PhaseKind::Build,
            r@.cmds == (if cmds.is_some() { opt_list_view(cmds) } else { Some(Seq::<Seq<char>>::empty()) }),
            r@.depends_on == Some(seq!["install"@]),
            r@.nix_pkgs.is_none(),
            r@.apt_pkgs.is_none(),
            r@.nix_libs.is_none(),
    {
        let mut p = Phase::of_kind("build".to_string(), PhaseKind::Build);
        if cmds.is_some() {
            p.cmds = cmds;
        }
        p
    }

    /// Appends one command to this phase.
    pub fn add_cmd(&mut self, cmd: String)
        ensures
            final(self)@ == (PhaseView {
                cmds: Some(match old(self)@.cmds {
                    Some(c) => c.push(cmd@),
                    None => seq![cmd@],
                }),
                ..old(self)@
            }),
    {
        let ghost c = cmd@;
        match &mut self.cmds {
            Some(v) => {
                v.push(cmd);
            },
            None => {
                let mut v: Vec<String> = Vec::new();
                v.push(cmd);
                self.cmds = Some(v);
            },
        }
        assert(opt_list_view(self.cmds)->0 =~= (match old(self)@.cmds {
            Some(c0) => c0.push(c),
            None => seq![c],
        }));
    }

    /// A copy of this phase with the same value.
    pub fn clone_phase(&self) -> (r: Phase)
        ensures
            r@ == self@,
    {
        let empty = Phase {
            name: self.name.clone(),
            kind: self.kind,
            cmds: None,
            depends_on: None,
            nix_pkgs: None,
            apt_pkgs: None,
            nix_libs: None,
        };
        empty.combine(self)
    }

    /// The combination of this phase with a later one of the same name.
    pub fn combine(&self, later: &Phase) -> (r: Phase)
        ensures
            r@ == combine_phase(self@, later@),
    {
        Phase {
            name: self.name.clone(),
            kind: self.kind,
            cmds: concat_opt(&self.cmds, &later.cmds),
            depends_on: union_opt(&self.depends_on, &later.depends_on),
            nix_pkgs: union_opt(&self.nix_pkgs, &later.nix_pkgs),
            apt_pkgs: union_opt(&self.apt_pkgs, &later.apt_pkgs),
            nix_libs: union_opt(&self.nix_libs, &later.nix_libs),
        }
    }
}

} // verus!
