use vstd::prelude::*;

use crate::laws::lemma_add_phases_to_empty;
use crate::options::PlanError;
use crate::phase::{opt_list_view, OptList, Phase, PhaseKind, PhaseView};
use crate::plan::{add_phases, names_unique, phases_view, BuildPlan, PlanView};

verus! {

// A plan's text form. A string is written with `\` before each `\` and each
// newline it holds, and ends with a newline. A list is `n` when absent, else `l`
// then `i` and a string per item, then `.`. Phases follow one another, each as
// `p`, its name, a kind letter and its five lists; `.` ends them. The start
// command comes last: `n`, or `s` and a string.

pub open spec fn esc_char(c: char) -> Seq<char> {
    if c == '\\' || c == '\n' {
        seq!['\\', c]
    } else {
        seq![c]
    }
}

pub open spec fn esc(s: Seq<char>) -> Seq<char>
    decreases s.len(),
{
    if s.len() == 0 {
        Seq::empty()
    } else {
        esc(s.drop_last()) + esc_char(s.last())
    }
}

pub open spec fn enc_str(s: Seq<char>) -> Seq<char> {
    esc(s).push('\n')
}

pub open spec fn dec_str(t: Seq<char>) -> Option<(Seq<char>, Seq<char>)>
    decreases t.len(),
{
    if t.len() == 0 {
        None
    } else if t[0] == '\n' {
        Some((Seq::empty(), t.skip(1)))
    } else if t[0] == '\\' {
        if t.len() < 2 {
            None
        } else {
            match dec_str(t.skip(2)) {
                Some((s, r)) => Some((seq![t[1]] + s, r)),
                None => None,
            }
        }
    } else {
        match dec_str(t.skip(1)) {
            Some((s, r)) => Some((seq![t[0]] + s, r)),
            None => None,
        }
    }
}

pub open spec fn enc_items(xs: Seq<Seq<char>>) -> Seq<char>
    decreases xs.len(),
{
    if xs.len() == 0 {
        seq!['.']
    } else {
        seq!['i'] + enc_str(xs[0]) + enc_items(xs.drop_first())
    }
}

pub open spec fn dec_items(t: Seq<char>) -> Option<(Seq<Seq<char>>, Seq<char>)>
    decreases t.len(),
{
    if t.len() == 0 {
        None
    } else if t[0] == '.' {
        Some((Seq::empty(), t.skip(1)))
    } else if t[0] == 'i' {
        match dec_str(t.skip(1)) {
            Some((s, r)) => if r.len() < t.len() {
                match dec_items(r) {
                    Some((xs, r2)) => Some((seq![s] + xs, r2)),
                    None => None,
                }
            } else {
                None
            },
            None => None,
        }
    } else {
        None
    }
}

pub open spec fn enc_list(o: OptList) -> Seq<char> {
    match o {
        Some(xs) => seq!['l'] + enc_items(xs),
        None => seq!['n'],
    }
}

#[verifier::opaque]
pub open spec fn dec_list(t: Seq<char>) -> Option<(OptList, Seq<char>)> {
    if t.len() == 0 {
        None
    } else if t[0] == 'n' {
        Some((None, t.skip(1)))
    } else if t[0] == 'l' {
        match dec_items(t.skip(1)) {
            Some((xs, r)) => Some((Some(xs), r)),
            None => None,
        }
    } else {
        None
    }
}

pub open spec fn kind_char(k: PhaseKind) -> char {
    match k {
        PhaseKind::Setup => 'S',
        PhaseKind::Install => 'I',
        PhaseKind::Build => 'B',
        PhaseKind::Custom => 'C',
    }
}

pub open spec fn char_kind(c: char) -> Option<PhaseKind> {
    if c == 'S' {
        Some(PhaseKind::Setup)
    } else if c == 'I' {
        Some(PhaseKind::Install)
    } else if c == 'B' {
        Some(PhaseKind::Build)
    } else if c == 'C' {
        Some(PhaseKind::Custom)
    } else {
        None
    }
}

pub open spec fn enc_phase(p: PhaseView) -> Seq<char> {
    enc_str(p.name) + seq![kind_char(p.kind)] + enc_list(p.cmds) + enc_list(p.depends_on)
        + enc_list(p.nix_pkgs) + enc_list(p.apt_pkgs) + enc_list(p.nix_libs)
}

/// The five lists of a phase, read one after another.
#[verifier::opaque]
pub open spec fn dec_lists(t: Seq<char>) -> Option<(Seq<OptList>, Seq<char>)> {
    match dec_list(t) {
        None => None,
        Some((a, r1)) => match dec_list(r1) {
            None => None,
            Some((b, r2)) => match dec_list(r2) {
                None => None,
                Some((c, r3)) => match dec_list(r3) {
                    None => None,
                    Some((d, r4)) => match dec_list(r4) {
                        None => None,
                        Some((e, r5)) => Some((seq![a, b, c, d, e], r5)),
                    },
                },
            },
        },
    }
}

pub open spec fn dec_phase(t: Seq<char>) -> Option<(PhaseView, Seq<char>)> {
    match dec_str(t) {
        None => None,
        Some((name, r1)) => if r1.len() == 0 {
            None
        } else {
            match char_kind(r1[0]) {
                None => None,
                Some(kind) => match dec_lists(r1.skip(1)) {
                    None => None,
                    Some((ls, r)) => Some(
                        (
                            PhaseView {
                                name,
                                kind,
                                cmds: ls[0],
                                depends_on: ls[1],
                                nix_pkgs: ls[2],
                                apt_pkgs: ls[3],
                                nix_libs: ls[4],
                            },
                            r,
                        ),
                    ),
                },
            }
        },
    }
}

pub open spec fn enc_phases(ps: Seq<PhaseView>) -> Seq<char>
    decreases ps.len(),
{
    if ps.len() == 0 {
        seq!['.']
    } else {
        seq!['p'] + enc_phase(ps[0]) + enc_phases(ps.drop_first())
    }
}

pub open spec fn dec_phases(t: Seq<char>) -> Option<(Seq<PhaseView>, Seq<char>)>
    decreases t.len(),
{
    if t.len() == 0 {
        None
    } else if t[0] == '.' {
        Some((Seq::empty(), t.skip(1)))
    } else if t[0] == 'p' {
        match dec_phase(t.skip(1)) {
            Some((p, r)) => if r.len() < t.len() {
                match dec_phases(r) {
                    Some((ps, r2)) => Some((seq![p] + ps, r2)),
                    None => None,
                }
            } else {
                None
            },
            None => None,
        }
    } else {
        None
    }
}

pub open spec fn enc_start(s: Option<Seq<char>>) -> Seq<char> {
    match s {
        Some(c) => seq!['s'] + enc_str(c),
        None => seq!['n'],
    }
}

pub open spec fn dec_start(t: Seq<char>) -> Option<(Option<Seq<char>>, Seq<char>)> {
    if t.len() == 0 {
        None
    } else if t[0] == 'n' {
        Some((None, t.skip(1)))
    } else if t[0] == 's' {
        match dec_str(t.skip(1)) {
            Some((c, r)) => Some((Some(c), r)),
            None => None,
        }
    } else {
        None
    }
}

/// The text form of a plan.
pub open spec fn plan_text(p: PlanView) -> Seq<char> {
    enc_phases(p.phases) + enc_start(p.start)
}

/// The plan that a text describes, if it is well formed.
pub open spec fn parse_plan_text(t: Seq<char>) -> Option<PlanView> {
    match dec_phases(t) {
        None => None,
        Some((ps, r)) => match dec_start(r) {
            None => None,
            Some((st, r2)) => if r2.len() == 0 {
                Some(PlanView { phases: ps, start: st })
            } else {
                None
            },
        },
    }
}

proof fn lemma_esc_front(c: char, s: Seq<char>)
    ensures
        esc(seq![c] + s) == esc_char(c) + esc(s),
    decreases s.len(),
{
    let u = seq![c] + s;
    if s.len() == 0 {
        assert(u.drop_last() =~= Seq::<char>::empty());
        assert(u.last() == c);
        assert(esc(u.drop_last()) == Seq::<char>::empty());
        assert(esc_char(c) + Seq::<char>::empty() =~= esc_char(c));
        assert(Seq::<char>::empty() + esc_char(c) =~= esc_char(c));
    } else {
        assert(u.drop_last() =~= seq![c] + s.drop_last());
        assert(u.last() == s.last());
        lemma_esc_front(c, s.drop_last());
        assert(esc(u) =~= esc_char(c) + esc(s));
    }
}

proof fn lemma_str_round_trip(s: Seq<char>, r: Seq<char>)
    ensures
        dec_str(enc_str(s) + r) == Some((s, r)),
    decreases s.len(),
{
    let t = enc_str(s) + r;
    if s.len() == 0 {
        assert(t.skip(1) =~= r);
    } else {
        let c = s[0];
        let s2 = s.drop_first();
        assert(s =~= seq![c] + s2);
        lemma_esc_front(c, s2);
        lemma_str_round_trip(s2, r);
        let x = enc_str(s2) + r;
        assert(t =~= esc_char(c) + x);
        if c == '\\' || c == '\n' {
            assert(t.skip(2) =~= x);
        } else {
            assert(t.skip(1) =~= x);
        }
        assert(seq![c] + s2 =~= s);
    }
}

proof fn lemma_items_round_trip(xs: Seq<Seq<char>>, r: Seq<char>)
    ensures
        dec_items(enc_items(xs) + r) == Some((xs, r)),
    decreases xs.len(),
{
    let t = enc_items(xs) + r;
    if xs.len() == 0 {
        assert(t.skip(1) =~= r);
    } else {
        let rest = enc_items(xs.drop_first()) + r;
        assert(t.skip(1) =~= enc_str(xs[0]) + rest);
        lemma_str_round_trip(xs[0], rest);
        lemma_items_round_trip(xs.drop_first(), r);
        assert(seq![xs[0]] + xs.drop_first() =~= xs);
    }
}

proof fn lemma_list_round_trip(o: OptList, r: Seq<char>)
    ensures
        dec_list(enc_list(o) + r) == Some((o, r)),
{
    reveal(dec_list);
    let t = enc_list(o) + r;
    match o {
        Some(xs) => {
            assert(t.skip(1) =~= enc_items(xs) + r);
            lemma_items_round_trip(xs, r);
        },
        None => {
            assert(t.skip(1) =~= r);
        },
    }
}

pub open spec fn enc_lists(p: PhaseView) -> Seq<char> {
    enc_list(p.cmds) + enc_list(p.depends_on) + enc_list(p.nix_pkgs) + enc_list(p.apt_pkgs)
        + enc_list(p.nix_libs)
}

#[verifier::rlimit(50)]
proof fn lemma_lists_round_trip(p: PhaseView, r: Seq<char>)
    ensures
        dec_lists(enc_lists(p) + r) == Some((seq![p.cmds, p.depends_on, p.nix_pkgs, p.apt_pkgs, p.nix_libs], r)),
{
    let r5 = enc_list(p.nix_libs) + r;
    let r4 = enc_list(p.apt_pkgs) + r5;
    let r3 = enc_list(p.nix_pkgs) + r4;
    let r2 = enc_list(p.depends_on) + r3;
    reveal(dec_lists);
    let t = enc_lists(p) + r;
    assert(t =~= enc_list(p.cmds) + r2);
    lemma_list_round_trip(p.cmds, r2);
    lemma_list_round_trip(p.depends_on, r3);
    lemma_list_round_trip(p.nix_pkgs, r4);
    lemma_list_round_trip(p.apt_pkgs, r5);
    lemma_list_round_trip(p.nix_libs, r);
    assert(dec_list(t) == Some((p.cmds, r2)));
    assert(dec_list(r2) == Some((p.depends_on, r3)));
    assert(dec_list(r3) == Some((p.nix_pkgs, r4)));
    assert(dec_list(r4) == Some((p.apt_pkgs, r5)));
    assert(dec_list(r5) == Some((p.nix_libs, r)));
}

proof fn lemma_phase_round_trip(p: PhaseView, r: Seq<char>)
    ensures
        dec_phase(enc_phase(p) + r) == Some((p, r)),
{
    let r1 = enc_lists(p) + r;
    let r0 = seq![kind_char(p.kind)] + r1;
    let t = enc_phase(p) + r;
    assert(t =~= enc_str(p.name) + r0);
    lemma_str_round_trip(p.name, r0);
    assert(dec_str(t) == Some((p.name, r0)));
    assert(r0.skip(1) =~= r1);
    assert(r0[0] == kind_char(p.kind));
    assert(char_kind(kind_char(p.kind)) == Some(p.kind));
    lemma_lists_round_trip(p, r);
    let ls = seq![p.cmds, p.depends_on, p.nix_pkgs, p.apt_pkgs, p.nix_libs];
    assert(ls[0] == p.cmds && ls[1] == p.depends_on && ls[2] == p.nix_pkgs && ls[3] == p.apt_pkgs
        && ls[4] == p.nix_libs);
}

proof fn lemma_phases_round_trip(ps: Seq<PhaseView>, r: Seq<char>)
    ensures
        dec_phases(enc_phases(ps) + r) == Some((ps, r)),
    decreases ps.len(),
{
    let t = enc_phases(ps) + r;
    if ps.len() == 0 {
        assert(t.skip(1) =~= r);
    } else {
        let rest = enc_phases(ps.drop_first()) + r;
        assert(t.skip(1) =~= enc_phase(ps[0]) + rest);
        lemma_phase_round_trip(ps[0], rest);
        lemma_phases_round_trip(ps.drop_first(), r);
        assert(seq![ps[0]] + ps.drop_first() =~= ps);
    }
}

/// Reading back a plan's text gives the plan.
pub proof fn lemma_plan_text_round_trip(p: PlanView)
    ensures
        parse_plan_text(plan_text(p)) == Some(p),
{
    let tail = enc_start(p.start);
    lemma_phases_round_trip(p.phases, tail);
    let e = Seq::<char>::empty();
    match p.start {
        Some(c) => {
            assert(tail.skip(1) =~= enc_str(c) + e);
            lemma_str_round_trip(c, e);
        },
        None => {
            assert(tail.skip(1) =~= e);
        },
    }
}

/// Appends the text form of `s`.
fn write_str(out: &mut String, s: &str)
    ensures
        final(out)@ == old(out)@ + enc_str(s@),
{
    proof {
        reveal_strlit("\\");
        reveal_strlit("\n");
    }
    let n = s.unicode_len();
    let mut i: usize = 0;
    assert(s@.take(0) =~= Seq::<char>::empty());
    assert(out@ =~= old(out)@ + esc(s@.take(0)));
    while i < n
        invariant
            n == s@.len(),
            i <= n,
            out@ == old(out)@ + esc(s@.take(i as int)),
        decreases n - i,
    {
        let c = s.get_char(i);
        let ghost before = out@;
        if c == '\\' || c == '\n' {
            out.append("\\");
        }
        out.append(s.substring_char(i, i + 1));
        proof {
            let u = s@.take(i as int + 1);
            assert(u.drop_last() =~= s@.take(i as int));
            assert(u.last() == c);
            assert(s@.subrange(i as int, i as int + 1) =~= seq![c]);
            reveal_strlit("\\");
            assert("\\"@ =~= seq!['\\']);
            assert(out@ =~= before + esc_char(c));
            assert(esc(u) == esc(s@.take(i as int)) + esc_char(c));
            assert(out@ =~= old(out)@ + esc(u));
        }
        i = i + 1;
    }
    assert(s@.take(n as int) =~= s@);
    out.append("\n");
    assert(out@ =~= old(out)@ + enc_str(s@));
}

fn write_items(out: &mut String, v: &Vec<String>)
    ensures
        final(out)@ == old(out)@ + enc_items(v.deep_view()),
{
    proof {
        reveal_strlit("i");
        reveal_strlit(".");
    }
    let ghost xs = v.deep_view();
    let mut i: usize = 0;
    assert(xs.skip(0) =~= xs);
    assert(out@ + enc_items(xs.skip(0)) =~= old(out)@ + enc_items(xs));
    while i < v.len()
        invariant
            xs == v.deep_view(),
            i <= v@.len(),
            out@ + enc_items(xs.skip(i as int)) == old(out)@ + enc_items(xs),
        decreases v@.len() - i,
    {
        let ghost before = out@;
        out.append("i");
        write_str(out, v[i].as_str());
        proof {
            let rest = xs.skip(i as int);
            assert(rest.drop_first() =~= xs.skip(i as int + 1));
            assert(rest[0] == v@[i as int]@);
            reveal_strlit("i");
            assert("i"@ =~= seq!['i']);
            assert(enc_items(rest) == seq!['i'] + enc_str(rest[0]) + enc_items(rest.drop_first()));
            assert(out@ + enc_items(xs.skip(i as int + 1)) =~= before + enc_items(rest));
        }
        i = i + 1;
    }
    out.append(".");
    assert(xs.skip(v@.len() as int) =~= Seq::<Seq<char>>::empty());
    assert(out@ =~= old(out)@ + enc_items(xs));
}

fn write_list(out: &mut String, o: &Option<Vec<String>>)
    ensures
        final(out)@ == old(out)@ + enc_list(opt_list_view(*o)),
{
    proof {
        reveal_strlit("l");
        reveal_strlit("n");
    }
    match o {
        Some(v) => {
            out.append("l");
            write_items(out, v);
            assert(out@ =~= old(out)@ + enc_list(opt_list_view(*o)));
        },
        None => {
            out.append("n");
        },
    }
}

fn write_kind(out: &mut String, k: PhaseKind)
    ensures
        final(out)@ == old(out)@.push(kind_char(k)),
{
    proof {
        reveal_strlit("S");
        reveal_strlit("I");
        reveal_strlit("B");
        reveal_strlit("C");
    }
    match k {
        PhaseKind::Setup => out.append("S"),
        PhaseKind::Install => out.append("I"),
        PhaseKind::Build => out.append("B"),
        PhaseKind::Custom => out.append("C"),
    }
    assert(out@ =~= old(out)@.push(kind_char(k)));
}

#[verifier::rlimit(50)]
fn write_phase(out: &mut String, p: &Phase)
    ensures
        final(out)@ == old(out)@ + enc_phase(p@),
{
    write_str(out, p.name.as_str());
    write_kind(out, p.kind);
    let ghost head = out@;
    write_list(out, &p.cmds);
    write_list(out, &p.depends_on);
    write_list(out, &p.nix_pkgs);
    write_list(out, &p.apt_pkgs);
    write_list(out, &p.nix_libs);
    assert(out@ =~= head + enc_lists(p@));
    assert(enc_phase(p@) =~= enc_str(p@.name) + seq![kind_char(p@.kind)] + enc_lists(p@));
    assert(out@ =~= old(out)@ + enc_phase(p@));
}

impl BuildPlan {
    /// The plan's text form.
    pub fn to_text(&self) -> (r: String)
        ensures
            r@ == plan_text(self@),
    {
        proof {
            reveal_strlit("p");
            reveal_strlit(".");
            reveal_strlit("n");
            reveal_strlit("s");
        }
        let mut out = String::new();
        let phases = self.phases();
        let ghost ps = self@.phases;
        let mut i: usize = 0;
        assert(ps.skip(0) =~= ps);
        assert(out@ + enc_phases(ps.skip(0)) =~= enc_phases(ps));
        while i < phases.len()
            invariant
                ps == phases_view(phases@),
                i <= phases@.len(),
                out@ + enc_phases(ps.skip(i as int)) == enc_phases(ps),
            decreases phases@.len() - i,
        {
            let ghost before = out@;
            out.append("p");
            write_phase(&mut out, &phases[i]);
            proof {
                let rest = ps.skip(i as int);
                assert(rest.drop_first() =~= ps.skip(i as int + 1));
                assert(rest[0] == phases@[i as int]@);
                reveal_strlit("p");
                assert("p"@ =~= seq!['p']);
                assert(enc_phases(rest) == seq!['p'] + enc_phase(rest[0]) + enc_phases(rest.drop_first()));
                assert(out@ + enc_phases(ps.skip(i as int + 1)) =~= before + enc_phases(rest));
            }
            i = i + 1;
        }
        out.append(".");
        assert(ps.skip(phases@.len() as int) =~= Seq::<PhaseView>::empty());
        let ghost mid = out@;
        assert(mid =~= enc_phases(ps));
        match self.start_cmd() {
            Some(c) => {
                out.append("s");
                write_str(&mut out, c.as_str());
            },
            None => {
                out.append("n");
            },
        }
        assert(out@ =~= plan_text(self@));
        out
    }
}

pub open spec fn prepend(a: Seq<char>, o: Option<(Seq<char>, Seq<char>)>) -> Option<(Seq<char>, Seq<char>)> {
    match o {
        Some((s, r)) => Some((a + s, r)),
        None => None,
    }
}

/// Reads a string that starts at `pos`; gives it and the position after it.
fn read_str(t: &str, n: usize, pos: usize) -> (r: Option<(String, usize)>)
    requires
        n == t@.len(),
        pos <= n,
    ensures
        match r {
            Some((s, p)) => pos < p <= n && dec_str(t@.skip(pos as int)) == Some((s@, t@.skip(p as int))),
            None => dec_str(t@.skip(pos as int)).is_none(),
        },
{
    let mut acc = String::new();
    let mut i: usize = pos;
    assert(dec_str(t@.skip(pos as int)) =~= prepend(acc@, dec_str(t@.skip(i as int)))) by {
        assert(acc@ == Seq::<char>::empty());
        match dec_str(t@.skip(pos as int)) {
            Some((s0, r0)) => {
                assert(Seq::<char>::empty() + s0 =~= s0);
            },
            None => {},
        }
    }
    while i < n
        invariant
            n == t@.len(),
            pos <= i <= n,
            dec_str(t@.skip(pos as int)) == prepend(acc@, dec_str(t@.skip(i as int))),
        decreases n - i,
    {
        let c = t.get_char(i);
        let ghost u = t@.skip(i as int);
        assert(u[0] == c);
        let ghost a0 = acc@;
        if c == '\n' {
            assert(u.skip(1) =~= t@.skip(i as int + 1));
            assert(a0 + Seq::<char>::empty() =~= a0);
            return Some((acc, i + 1));
        } else if c == '\\' {
            if i + 1 >= n {
                return None;
            }
            let d = t.get_char(i + 1);
            acc.append(t.substring_char(i + 1, i + 2));
            proof {
                assert(u[1] == d);
                assert(t@.subrange(i as int + 1, i as int + 2) =~= seq![d]);
                assert(u.skip(2) =~= t@.skip(i as int + 2));
                match dec_str(u.skip(2)) {
                    Some((s2, r2)) => {
                        assert(a0 + (seq![d] + s2) =~= acc@ + s2);
                    },
                    None => {},
                }
            }
            i = i + 2;
        } else {
            acc.append(t.substring_char(i, i + 1));
            proof {
                assert(t@.subrange(i as int, i as int + 1) =~= seq![c]);
                assert(u.skip(1) =~= t@.skip(i as int + 1));
                match dec_str(u.skip(1)) {
                    Some((s2, r2)) => {
                        assert(a0 + (seq![c] + s2) =~= acc@ + s2);
                    },
                    None => {},
                }
            }
            i = i + 1;
        }
    }
    assert(t@.skip(i as int).len() == 0);
    None
}

fn read_items(t: &str, n: usize, pos: usize) -> (r: Option<(Vec<String>, usize)>)
    requires
        n == t@.len(),
        pos <= n,
    ensures
        match r {
            Some((v, p)) => pos < p <= n && dec_items(t@.skip(pos as int)) == Some((v.deep_view(), t@.skip(p as int))),
            None => dec_items(t@.skip(pos as int)).is_none(),
        },
    decreases n - pos,
{
    let ghost u = t@.skip(pos as int);
    if pos >= n {
        return None;
    }
    let c = t.get_char(pos);
    assert(u[0] == c);
    assert(u.skip(1) =~= t@.skip(pos as int + 1));
    if c == '.' {
        let v: Vec<String> = Vec::new();
        assert(v.deep_view() =~= Seq::<Seq<char>>::empty());
        return Some((v, pos + 1));
    }
    if c != 'i' {
        return None;
    }
    match read_str(t, n, pos + 1) {
        None => None,
        Some((s, p)) => match read_items(t, n, p) {
            None => None,
            Some((xs, p2)) => {
                let ghost sv = s@;
                let mut out: Vec<String> = Vec::new();
                out.push(s);
                let mut j: usize = 0;
                while j < xs.len()
                    invariant
                        j <= xs@.len(),
                        out@.len() == j + 1,
                        out@[0]@ == sv,
                        forall|k: int| 0 <= k < j ==> out@[k + 1]@ == xs@[k]@,
                    decreases xs@.len() - j,
                {
                    out.push(xs[j].clone());
                    j = j + 1;
                }
                assert(out.deep_view() =~= seq![sv] + xs.deep_view());
                Some((out, p2))
            },
        },
    }
}

fn read_list(t: &str, n: usize, pos: usize) -> (r: Option<(Option<Vec<String>>, usize)>)
    requires
        n == t@.len(),
        pos <= n,
    ensures
        match r {
            Some((o, p)) => pos < p <= n && dec_list(t@.skip(pos as int)) == Some((opt_list_view(o), t@.skip(p as int))),
            None => dec_list(t@.skip(pos as int)).is_none(),
        },
{
    reveal(dec_list);
    let ghost u = t@.skip(pos as int);
    if pos >= n {
        return None;
    }
    let c = t.get_char(pos);
    assert(u[0] == c);
    assert(u.skip(1) =~= t@.skip(pos as int + 1));
    if c == 'n' {
        return Some((None, pos + 1));
    }
    if c != 'l' {
        return None;
    }
    match read_items(t, n, pos + 1) {
        None => None,
        Some((v, p)) => Some((Some(v), p)),
    }
}

fn read_kind(c: char) -> (r: Option<PhaseKind>)
    ensures
        r == char_kind(c),
{
    if c == 'S' {
        Some(PhaseKind::Setup)
    } else if c == 'I' {
        Some(PhaseKind::Install)
    } else if c == 'B' {
        Some(PhaseKind::Build)
    } else if c == 'C' {
        Some(PhaseKind::Custom)
    } else {
        None
    }
}

#[verifier::rlimit(50)]
fn read_phase(t: &str, n: usize, pos: usize) -> (r: Option<(Phase, usize)>)
    requires
        n == t@.len(),
        pos <= n,
    ensures
        match r {
            Some((ph, p)) => pos < p <= n && dec_phase(t@.skip(pos as int)) == Some((ph@, t@.skip(p as int))),
            None => dec_phase(t@.skip(pos as int)).is_none(),
        },
{
    reveal(dec_lists);
    let (name, p1) = match read_str(t, n, pos) {
        None => return None,
        Some(x) => x,
    };
    if p1 >= n {
        return None;
    }
    let ghost r1 = t@.skip(p1 as int);
    let c = t.get_char(p1);
    assert(r1[0] == c);
    assert(r1.skip(1) =~= t@.skip(p1 as int + 1));
    let kind = match read_kind(c) {
        None => return None,
        Some(k) => k,
    };
    let (cmds, p2) = match read_list(t, n, p1 + 1) {
        None => return None,
        Some(x) => x,
    };
    let (depends_on, p3) = match read_list(t, n, p2) {
        None => return None,
        Some(x) => x,
    };
    let (nix_pkgs, p4) = match read_list(t, n, p3) {
        None => return None,
        Some(x) => x,
    };
    let (apt_pkgs, p5) = match read_list(t, n, p4) {
        None => return None,
        Some(x) => x,
    };
    let (nix_libs, p6) = match read_list(t, n, p5) {
        None => return None,
        Some(x) => x,
    };
    let ph = Phase { name, kind, cmds, depends_on, nix_pkgs, apt_pkgs, nix_libs };
    Some((ph, p6))
}

fn read_phases(t: &str, n: usize, pos: usize) -> (r: Option<(Vec<Phase>, usize)>)
    requires
        n == t@.len(),
        pos <= n,
    ensures
        match r {
            Some((v, p)) => pos < p <= n && dec_phases(t@.skip(pos as int)) == Some((phases_view(v@), t@.skip(p as int))),
            None => dec_phases(t@.skip(pos as int)).is_none(),
        },
    decreases n - pos,
{
    let ghost u = t@.skip(pos as int);
    if pos >= n {
        return None;
    }
    let c = t.get_char(pos);
    assert(u[0] == c);
    assert(u.skip(1) =~= t@.skip(pos as int + 1));
    if c == '.' {
        let v: Vec<Phase> = Vec::new();
        assert(phases_view(v@) =~= Seq::<PhaseView>::empty());
        return Some((v, pos + 1));
    }
    if c != 'p' {
        return None;
    }
    match read_phase(t, n, pos + 1) {
        None => None,
        Some((ph, p)) => match read_phases(t, n, p) {
            None => None,
            Some((xs, p2)) => {
                let ghost pv = ph@;
                let mut out: Vec<Phase> = Vec::new();
                out.push(ph);
                let mut j: usize = 0;
                while j < xs.len()
                    invariant
                        j <= xs@.len(),
                        out@.len() == j + 1,
                        out@[0]@ == pv,
                        forall|k: int| 0 <= k < j ==> out@[k + 1]@ == xs@[k]@,
                    decreases xs@.len() - j,
                {
                    out.push(xs[j].clone_phase());
                    j = j + 1;
                }
                assert(phases_view(out@) =~= seq![pv] + phases_view(xs@));
                Some((out, p2))
            },
        },
    }
}

/// The plan that a text holds, with repeated phase names combined as
/// `add_phase` combines them.
pub open spec fn plan_of_text(t: Seq<char>) -> Option<PlanView> {
    match parse_plan_text(t) {
        Some(v) => Some(PlanView { phases: add_phases(Seq::empty(), v.phases), start: v.start }),
        None => None,
    }
}

impl BuildPlan {
    /// Reads a plan from its text form.
    pub fn from_text(text: &String) -> (r: Result<BuildPlan, PlanError>)
        ensures
            match plan_of_text(text@) {
                Some(v) => r matches Ok(q) && q@ == v && q.wf(),
                None => r matches Err(PlanError::PlanParse(_)),
            },
    {
        let t = text.as_str();
        let n = t.unicode_len();
        assert(t@.skip(0) =~= t@);
        let (phases, p) = match read_phases(t, n, 0) {
            None => return Err(PlanError::PlanParse("the phase list is not well formed".to_string())),
            Some(x) => x,
        };
        let ghost rest = t@.skip(p as int);
        let mut start: Option<String> = None;
        let mut end: usize = p;
        if p >= n {
            return Err(PlanError::PlanParse("the start command is missing".to_string()));
        }
        let c = t.get_char(p);
        assert(rest[0] == c);
        assert(rest.skip(1) =~= t@.skip(p as int + 1));
        if c == 's' {
            match read_str(t, n, p + 1) {
                None => return Err(PlanError::PlanParse("the start command is not well formed".to_string())),
                Some((s, e)) => {
                    start = Some(s);
                    end = e;
                },
            }
        } else if c == 'n' {
            end = p + 1;
        } else {
            return Err(PlanError::PlanParse("the start marker is neither `n` nor `s`".to_string()));
        }
        if end != n {
            return Err(PlanError::PlanParse("text follows the start command".to_string()));
        }
        assert(t@.skip(n as int).len() == 0);
        let ghost ps = phases_view(phases@);
        let mut plan = BuildPlan::new();
        let mut i: usize = 0;
        assert(ps.take(0) =~= Seq::<PhaseView>::empty());
        while i < phases.len()
            invariant
                ps == phases_view(phases@),
                i <= phases@.len(),
                plan@.phases == add_phases(Seq::empty(), ps.take(i as int)),
                plan@.start.is_none(),
                plan.wf(),
            decreases phases@.len() - i,
        {
            assert(ps.take(i as int + 1).drop_last() =~= ps.take(i as int));
            plan.add_phase(phases[i].clone_phase());
            i = i + 1;
        }
        assert(ps.take(phases@.len() as int) =~= ps);
        match start {
            Some(s) => plan.set_start_phase(crate::plan::StartPhase::new(s)),
            None => {},
        }
        Ok(plan)
    }
}

/// Writing a plan as text and reading the text back gives the same plan.
pub proof fn lemma_text_round_trip(p: BuildPlan)
    requires
        p.wf(),
    ensures
        plan_of_text(plan_text(p@)) == Some(p@),
{
    lemma_plan_text_round_trip(p@);
    lemma_add_phases_to_empty(p@.phases);
}

} // verus!
