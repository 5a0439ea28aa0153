use vstd::prelude::*;

use crate::phase::{combine_phase, Phase, PhaseView};

verus! {

/// The command that launches the built artifact.
#[derive(Clone, Debug)]
pub struct StartPhase {
    pub cmd: String,
}

impl StartPhase {
    pub fn new(cmd: String) -> (r: StartPhase)
        ensures
            r.cmd@ == cmd@,
    {
        StartPhase { cmd }
    }
}

/// The mathematical value of a plan: its phases in first-seen order and the
/// start command, if any.
pub struct PlanView {
    pub phases: Seq<PhaseView>,
    pub start: Option<Seq<char>>,
}

pub open spec fn empty_plan() -> PlanView {
    PlanView { phases: Seq::empty(), start: None }
}

/// No two phases share a name.
pub open spec fn names_unique(phases: Seq<PhaseView>) -> bool {
    forall|i: int, j: int|
        0 <= i < phases.len() && 0 <= j < phases.len() && i != j ==> phases[i].name != phases[j].name
}

/// The index of the first phase named `name`, or -1 when there is none.
pub open spec fn phase_index(phases: Seq<PhaseView>, name: Seq<char>) -> int
    decreases phases.len(),
{
    if phases.len() == 0 {
        -1
    } else {
        let k = phase_index(phases.drop_last(), name);
        if k >= 0 {
            k
        } else if phases.last().name == name {
            phases.len() - 1
        } else {
            -1
        }
    }
}

pub open spec fn has_phase(phases: Seq<PhaseView>, name: Seq<char>) -> bool {
    phase_index(phases, name) >= 0
}

/// The phase named `name`, if any (the first one, should names repeat).
pub open spec fn lookup(phases: Seq<PhaseView>, name: Seq<char>) -> Option<PhaseView> {
    if has_phase(phases, name) {
        Some(phases[phase_index(phases, name)])
    } else {
        None
    }
}

/// Adds `p` to an ordered phase list: a new name is appended, a known one is
/// combined in place with the phase already there.
pub open spec fn add_phase_spec(phases: Seq<PhaseView>, p: PhaseView) -> Seq<PhaseView> {
    if has_phase(phases, p.name) {
        let i = phase_index(phases, p.name);
        phases.update(i, combine_phase(phases[i], p))
    } else {
        phases.push(p)
    }
}

/// Adds each phase of `ps`, in order.
pub open spec fn add_phases(acc: Seq<PhaseView>, ps: Seq<PhaseView>) -> Seq<PhaseView>
    decreases ps.len(),
{
    if ps.len() == 0 {
        acc
    } else {
        add_phase_spec(add_phases(acc, ps.drop_last()), ps.last())
    }
}

/// Layers `p` over `acc`: its phases are added, and its start command, when
/// present, replaces the earlier one.
pub open spec fn merge_two(acc: PlanView, p: PlanView) -> PlanView {
    PlanView {
        phases: add_phases(acc.phases, p.phases),
        start: if p.start.is_some() { p.start } else { acc.start },
    }
}

/// The merge of a sequence of plans, later plans taking priority.
pub open spec fn merge_all(plans: Seq<PlanView>) -> PlanView
    decreases plans.len(),
{
    if plans.len() == 0 {
        empty_plan()
    } else {
        merge_two(merge_all(plans.drop_last()), plans.last())
    }
}

/// An ordered collection of uniquely named phases and an optional start command.
#[derive(Clone, Debug)]
pub struct BuildPlan {
    phases: Vec<Phase>,
    start_phase: Option<StartPhase>,
}

pub open spec fn phases_view(v: Seq<Phase>) -> Seq<PhaseView> {
    v.map_values(|p: Phase| p@)
}

impl View for BuildPlan {
    type V = PlanView;

    closed spec fn view(&self) -> PlanView {
        PlanView {
            phases: phases_view(self.phases@),
            start: match self.start_phase {
                Some(s) => Some(s.cmd@),
                None => None,
            },
        }
    }
}

impl BuildPlan {
    /// Phase names are unique.
    pub open spec fn wf(&self) -> bool {
        names_unique(self@.phases)
    }

    /// The plan with no phases and no start command.
    pub fn new() -> (r: BuildPlan)
        ensures
            r@ == empty_plan(),
            r.wf(),
    {
        let r = BuildPlan { phases: Vec::new(), start_phase: None };
        assert(r@.phases =~= Seq::<PhaseView>::empty());
        r
    }

    /// The phases, in first-seen order.
    pub fn phases(&self) -> (r: &Vec<Phase>)
        ensures
            phases_view(r@) == self@.phases,
    {
        &self.phases
    }

    /// The start command, if any.
    pub fn start_cmd(&self) -> (r: Option<&String>)
        ensures
            match r {
                Some(s) => self@.start == Some(s@),
                None => self@.start.is_none(),
            },
    {
        match &self.start_phase {
            Some(s) => Some(&s.cmd),
            None => None,
        }
    }

    /// Index of the first phase named `name`, if any.
    fn find(&self, name: &String) -> (r: Option<usize>)
        ensures
            match r {
                Some(i) => i < self.phases@.len() && self@.phases[i as int].name == name@
                    && forall|j: int| 0 <= j < i ==> self@.phases[j].name != name@,
                None => !has_phase(self@.phases, name@),
            },
    {
        let mut i: usize = 0;
        while i < self.phases.len()
            invariant
                i <= self.phases@.len(),
                forall|j: int| 0 <= j < i ==> self@.phases[j].name != name@,
            decreases self.phases@.len() - i,
        {
            if self.phases[i].name == *name {
                return Some(i);
            }
            i = i + 1;
        }
        proof {
            lemma_index_props(self@.phases, name@);
        }
        None
    }

    /// The phase named `name`, if any.
    pub fn get_phase(&self, name: &String) -> (r: Option<&Phase>)
        ensures
            match r {
                Some(p) => lookup(self@.phases, name@) == Some(p@),
                None => lookup(self@.phases, name@).is_none(),
            },
    {
        match self.find(name) {
            Some(i) => {
                proof {
                    lemma_phase_index_is(self@.phases, name@, i as int);
                }
                Some(&self.phases[i])
            },
            None => None,
        }
    }

    /// Adds a phase: a new name is appended, a known one is combined with the
    /// phase already there (commands concatenated, package lists unioned).
    pub fn add_phase(&mut self, phase: Phase)
        ensures
            final(self)@.phases == add_phase_spec(old(self)@.phases, phase@),
            final(self)@.start == old(self)@.start,
            old(self).wf() ==> final(self).wf(),
    {
        proof {
            lemma_add_phase_unique(self@.phases, phase@);
        }
        let ghost before = self@.phases;
        match self.find(&phase.name) {
            Some(i) => {
                proof {
                    lemma_phase_index_is(before, phase@.name, i as int);
                }
                let merged = self.phases[i].combine(&phase);
                self.phases.set(i, merged);
                assert(self@.phases =~= add_phase_spec(before, phase@));
            },
            None => {
                self.phases.push(phase);
                assert(self@.phases =~= add_phase_spec(before, phase@));
            },
        }
    }

    /// Sets the start command, replacing any earlier one.
    pub fn set_start_phase(&mut self, start: StartPhase)
        ensures
            final(self)@.phases == old(self)@.phases,
            final(self)@.start == Some(start.cmd@),
    {
        self.start_phase = Some(start);
    }

    /// Layers `other` over this plan.
    fn merge_in(&mut self, other: &BuildPlan)
        ensures
            final(self)@ == merge_two(old(self)@, other@),
            old(self).wf() ==> final(self).wf(),
    {
        let ghost acc = self@;
        let mut i: usize = 0;
        while i < other.phases.len()
            invariant
                i <= other.phases@.len(),
                self@.phases == add_phases(acc.phases, other@.phases.take(i as int)),
                self@.start == acc.start,
                names_unique(acc.phases) ==> names_unique(self@.phases),
            decreases other.phases@.len() - i,
        {
            assert(other@.phases.take(i as int + 1).drop_last() =~= other@.phases.take(i as int));
            self.add_phase(other.phases[i].clone_phase());
            i = i + 1;
        }
        assert(other@.phases.take(other.phases@.len() as int) =~= other@.phases);
        match &other.start_phase {
            Some(s) => {
                self.start_phase = Some(StartPhase { cmd: s.cmd.clone() });
            },
            None => {},
        }
    }

    /// Merges `plans` in increasing priority: phases of the same name are
    /// combined in input order, and the last start command present wins.
    /// The inputs are left unchanged.
    pub fn merge_plans(plans: &Vec<BuildPlan>) -> (r: BuildPlan)
        ensures
            r@ == merge_all(plans@.map_values(|p: BuildPlan| p@)),
            r.wf(),
    {
        let ghost views = plans@.map_values(|p: BuildPlan| p@);
        let mut acc = BuildPlan::new();
        let mut i: usize = 0;
        while i < plans.len()
            invariant
                i <= plans@.len(),
                views == plans@.map_values(|p: BuildPlan| p@),
                acc@ == merge_all(views.take(i as int)),
                acc.wf(),
            decreases plans@.len() - i,
        {
            assert(views.take(i as int + 1).drop_last() =~= views.take(i as int));
            acc.merge_in(&plans[i]);
            i = i + 1;
        }
        assert(views.take(plans@.len() as int) =~= views);
        acc
    }
}

pub(crate) proof fn lemma_index_props(phases: Seq<PhaseView>, name: Seq<char>)
    ensures
        -1 <= phase_index(phases, name) < phases.len(),
        phase_index(phases, name) == -1 ==> forall|j: int|
            0 <= j < phases.len() ==> phases[j].name != name,
        phase_index(phases, name) >= 0 ==> phases[phase_index(phases, name)].name == name,
        forall|j: int| 0 <= j < phase_index(phases, name) ==> phases[j].name != name,
    decreases phases.len(),
{
    if phases.len() > 0 {
        let d = phases.drop_last();
        lemma_index_props(d, name);
        assert(forall|j: int| 0 <= j < d.len() ==> d[j] == phases[j]);
    }
}

pub(crate) proof fn lemma_add_new_name(phases: Seq<PhaseView>, p: PhaseView)
    requires
        forall|j: int| 0 <= j < phases.len() ==> phases[j].name != p.name,
    ensures
        add_phase_spec(phases, p) == phases.push(p),
{
    lemma_index_props(phases, p.name);
}

proof fn lemma_phase_index_is(phases: Seq<PhaseView>, name: Seq<char>, i: int)
    requires
        0 <= i < phases.len(),
        phases[i].name == name,
        forall|j: int| 0 <= j < i ==> phases[j].name != name,
    ensures
        has_phase(phases, name),
        phase_index(phases, name) == i,
{
    lemma_index_props(phases, name);
    let k = phase_index(phases, name);
    if k < i && k >= 0 {
        assert(phases[k].name != name);
    } else if k > i {
        assert(phases[i].name != name);
    }
}

pub(crate) proof fn lemma_add_phase_unique(phases: Seq<PhaseView>, p: PhaseView)
    ensures
        names_unique(phases) ==> names_unique(add_phase_spec(phases, p)),
{
    lemma_index_props(phases, p.name);
}

} // verus!
