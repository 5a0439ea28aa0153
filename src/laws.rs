use vstd::prelude::*;

use crate::phase::{combine_phase, PhaseView};
use crate::plan::{
    add_phase_spec, add_phases, empty_plan, lemma_add_phase_unique, lemma_index_props, lookup,
    merge_all, merge_two, names_unique, phase_index, BuildPlan, PlanView,
};

verus! {

/// What a merge holds under one name, given what each side holds under it.
pub open spec fn combine_opt(a: Option<PhaseView>, b: Option<PhaseView>) -> Option<PhaseView> {
    match (a, b) {
        (Some(x), Some(y)) => Some(combine_phase(x, y)),
        (x, None) => x,
        (None, y) => y,
    }
}

/// The index of a name depends on the names alone.
proof fn lemma_index_by_names(a: Seq<PhaseView>, b: Seq<PhaseView>, name: Seq<char>)
    requires
        a.len() == b.len(),
        forall|j: int| 0 <= j < a.len() ==> a[j].name == b[j].name,
    ensures
        phase_index(a, name) == phase_index(b, name),
    decreases a.len(),
{
    if a.len() > 0 {
        lemma_index_by_names(a.drop_last(), b.drop_last(), name);
    }
}

proof fn lemma_add_phases_unique(acc: Seq<PhaseView>, ps: Seq<PhaseView>)
    requires
        names_unique(acc),
    ensures
        names_unique(add_phases(acc, ps)),
    decreases ps.len(),
{
    if ps.len() > 0 {
        lemma_add_phases_unique(acc, ps.drop_last());
        lemma_add_phase_unique(add_phases(acc, ps.drop_last()), ps.last());
    }
}

proof fn lemma_merge_all_unique(plans: Seq<PlanView>)
    ensures
        names_unique(merge_all(plans).phases),
    decreases plans.len(),
{
    if plans.len() > 0 {
        lemma_merge_all_unique(plans.drop_last());
        lemma_add_phases_unique(merge_all(plans.drop_last()).phases, plans.last().phases);
    }
}

/// Adding uniquely named phases to nothing gives them back unchanged.
pub(crate) proof fn lemma_add_phases_to_empty(ps: Seq<PhaseView>)
    requires
        names_unique(ps),
    ensures
        add_phases(Seq::empty(), ps) == ps,
    decreases ps.len(),
{
    if ps.len() > 0 {
        let d = ps.drop_last();
        assert(names_unique(d));
        lemma_add_phases_to_empty(d);
        lemma_index_props(d, ps.last().name);
        if phase_index(d, ps.last().name) >= 0 {
            assert(ps[phase_index(d, ps.last().name)].name == ps[ps.len() - 1].name);
        }
        assert(d.push(ps.last()) =~= ps);
    }
}

proof fn lemma_merge_empty_left(p: PlanView)
    requires
        names_unique(p.phases),
    ensures
        merge_two(empty_plan(), p) == p,
{
    lemma_add_phases_to_empty(p.phases);
}

proof fn lemma_merge_single(p: PlanView)
    ensures
        merge_all(seq![p]) == merge_two(empty_plan(), p),
{
    assert(seq![p].drop_last() =~= Seq::<PlanView>::empty());
    assert(merge_all(Seq::<PlanView>::empty()) == empty_plan());
}

proof fn lemma_merge_pair(p: PlanView, q: PlanView)
    ensures
        merge_all(seq![p, q]) == merge_two(merge_two(empty_plan(), p), q),
{
    assert(seq![p, q].drop_last() =~= seq![p]);
    lemma_merge_single(p);
}

proof fn lemma_merge_one(p: PlanView)
    requires
        names_unique(p.phases),
    ensures
        merge_all(seq![p]) == p,
{
    lemma_merge_single(p);
    lemma_merge_empty_left(p);
}

proof fn lemma_lookup_add_phase(acc: Seq<PhaseView>, p: PhaseView, n: Seq<char>)
    requires
        names_unique(acc),
    ensures
        lookup(add_phase_spec(acc, p), n) == combine_opt(
            lookup(acc, n),
            if p.name == n { Some(p) } else { None },
        ),
{
    let new = add_phase_spec(acc, p);
    lemma_index_props(acc, p.name);
    lemma_index_props(acc, n);
    lemma_index_props(new, n);
    let i = phase_index(acc, p.name);
    if i >= 0 {
        assert(forall|j: int| 0 <= j < acc.len() ==> new[j].name == acc[j].name);
        lemma_index_by_names(new, acc, n);
        if p.name == n {
            assert(phase_index(acc, n) == i);
        }
    } else {
        assert(new.drop_last() =~= acc);
        assert(forall|j: int| 0 <= j < acc.len() ==> new[j] == acc[j]);
    }
}

proof fn lemma_lookup_push(d: Seq<PhaseView>, l: PhaseView, n: Seq<char>)
    ensures
        lookup(d.push(l), n) == combine_opt(
            lookup(d, n),
            if l.name == n && lookup(d, n).is_none() { Some(l) } else { None },
        ),
{
    let ps = d.push(l);
    assert(ps.drop_last() =~= d);
    lemma_index_props(d, n);
    assert(forall|j: int| 0 <= j < d.len() ==> ps[j] == d[j]);
}

proof fn lemma_lookup_add_phases(acc: Seq<PhaseView>, ps: Seq<PhaseView>, n: Seq<char>)
    requires
        names_unique(acc),
        names_unique(ps),
    ensures
        lookup(add_phases(acc, ps), n) == combine_opt(lookup(acc, n), lookup(ps, n)),
    decreases ps.len(),
{
    if ps.len() == 0 {
        lemma_index_props(ps, n);
    } else {
        let d = ps.drop_last();
        let l = ps.last();
        assert(names_unique(d));
        assert(d.push(l) =~= ps);
        lemma_lookup_add_phases(acc, d, n);
        lemma_add_phases_unique(acc, d);
        lemma_lookup_add_phase(add_phases(acc, d), l, n);
        lemma_lookup_push(d, l, n);
        if l.name == n {
            lemma_index_props(d, n);
            if phase_index(d, n) >= 0 {
                assert(ps[phase_index(d, n)].name == ps[ps.len() - 1].name);
            }
        }
    }
}

/// Merging the merge of two plans with a third equals merging all three at once.
pub proof fn lemma_merge_associative(a: BuildPlan, b: BuildPlan, c: BuildPlan)
    ensures
        merge_all(seq![merge_all(seq![a@, b@]), c@]) == merge_all(seq![a@, b@, c@]),
{
    let m = merge_all(seq![a@, b@]);
    lemma_merge_all_unique(seq![a@, b@]);
    assert(seq![m, c@].drop_last() =~= seq![m]);
    assert(seq![a@, b@, c@].drop_last() =~= seq![a@, b@]);
    lemma_merge_one(m);
}

/// The empty plan is an identity of merging, on either side.
pub proof fn lemma_merge_identity(a: BuildPlan)
    requires
        a.wf(),
    ensures
        merge_all(seq![a@, empty_plan()]) == a@,
        merge_all(seq![empty_plan(), a@]) == a@,
{
    assert(seq![a@, empty_plan()].drop_last() =~= seq![a@]);
    assert(seq![empty_plan(), a@].drop_last() =~= seq![empty_plan()]);
    lemma_merge_one(a@);
    assert(names_unique(empty_plan().phases));
    lemma_merge_one(empty_plan());
    lemma_merge_empty_left(a@);
    assert(merge_two(a@, empty_plan()) =~= a@);
}

/// Under each name, the merge of two plans holds the earlier plan's phase
/// combined with the later one's: commands of the earlier first, then those
/// of the later, and package lists unioned.
pub proof fn lemma_merge_combines_by_name(a: BuildPlan, b: BuildPlan, name: Seq<char>)
    requires
        a.wf(),
        b.wf(),
    ensures
        lookup(merge_all(seq![a@, b@]).phases, name) == combine_opt(
            lookup(a@.phases, name),
            lookup(b@.phases, name),
        ),
{
    assert(seq![a@, b@].drop_last() =~= seq![a@]);
    lemma_merge_one(a@);
    lemma_lookup_add_phases(a@.phases, b@.phases, name);
}

/// The start command of a merge is the later plan's when it has one, and the
/// earlier plan's otherwise.
pub proof fn lemma_merge_start_override(a: BuildPlan, b: BuildPlan)
    ensures
        merge_all(seq![a@, b@]).start == (if b@.start.is_some() { b@.start } else { a@.start }),
        merge_all(seq![b@, a@]).start == (if a@.start.is_some() { a@.start } else { b@.start }),
{
    lemma_merge_pair(a@, b@);
    lemma_merge_pair(b@, a@);
}

} // verus!
