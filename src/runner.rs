//! The scenario runner's bookkeeping: which probes to ask each guest about,
//! the results it holds per guest, when a phase counts as passed, and the
//! persisted record of a run.
use vstd::prelude::*;
use crate::probe_codec::{decode_ok, decodes_to};
use crate::probes::{ProbeResult, ProbeSpec};
use crate::scenario::{ProbeDefinition, ProbePhase, Scenario, VmDefinition};
use crate::state::ScenarioState;
use crate::text::{push_str, str_eq};

verus! {

/// One guest of a run as recorded in `state.json`.
#[derive(Debug, Clone, PartialEq, Eq)]
pub struct VmInfo {
    pub name: String,
    pub ssh_port: u16,
    pub image: String,
}

/// What `state.json` records of a run.
#[derive(Debug, Clone, PartialEq, Eq)]
pub struct RunState {
    pub scenario_name: String,
    pub vms: Vec<VmInfo>,
}

/// The definition named `name`, if any (the first one).
pub open spec fn def_named(defs: Seq<ProbeDefinition>, name: Seq<char>) -> Option<ProbeDefinition>
    decreases defs.len(),
{
    if defs.len() == 0 {
        None
    } else if defs[0].name@ == name {
        Some(defs[0])
    } else {
        def_named(defs.drop_first(), name)
    }
}

/// Whether a guest's probe reference `name` is asked about in `phase`.
pub open spec fn requested_in(defs: Seq<ProbeDefinition>, name: Seq<char>, phase: ProbePhase) -> bool {
    def_named(defs, name) matches Some(d) && d.phase == phase && decode_ok(d.probe_type@, d.config@)
}

/// Whether a guest's probe reference fails before anything is asked: it is
/// undefined, or defined for `phase` with an invalid config.
pub open spec fn fails_locally(defs: Seq<ProbeDefinition>, name: Seq<char>, phase: ProbePhase) -> bool {
    match def_named(defs, name) {
        None => true,
        Some(d) => d.phase == phase && !decode_ok(d.probe_type@, d.config@),
    }
}

pub open spec fn filter_names(
    names: Seq<String>,
    pred: spec_fn(Seq<char>) -> bool,
) -> Seq<Seq<char>>
    decreases names.len(),
{
    if names.len() == 0 {
        Seq::empty()
    } else {
        let rest = filter_names(names.drop_last(), pred);
        if pred(names.last()@) {
            rest.push(names.last()@)
        } else {
            rest
        }
    }
}

/// The probes to ask one guest about in a phase, and the references that
/// already failed.
#[derive(Debug)]
pub struct ProbePlan {
    pub requests: Vec<(String, ProbeSpec)>,
    pub failures: Vec<ProbeResult>,
}

fn find_def(defs: &Vec<ProbeDefinition>, name: &str) -> (r: Option<usize>)
    ensures
        match r {
            Some(i) => i < defs@.len() && def_named(defs@, name@) == Some(defs@[i as int]),
            None => def_named(defs@, name@) is None,
        },
{
    let mut i: usize = 0;
    assert(defs@.subrange(0, defs@.len() as int) =~= defs@);
    while i < defs.len()
        invariant
            i <= defs@.len(),
            def_named(defs@, name@) == def_named(defs@.subrange(i as int, defs@.len() as int), name@),
        decreases defs@.len() - i,
    {
        let ghost rest = defs@.subrange(i as int, defs@.len() as int);
        assert(rest[0] == defs@[i as int]);
        if str_eq(defs[i].name.as_str(), name) {
            return Some(i);
        }
        assert(rest.drop_first() =~= defs@.subrange(i + 1, defs@.len() as int));
        i += 1;
    }
    None
}

/// The plan for the guest whose probe references are `names`: in reference
/// order, each defined probe of `phase` whose config decodes becomes a
/// request under its name; each undefined reference, and each probe of
/// `phase` whose config does not decode, becomes a failed result.
pub fn plan_probe_checks(defs: &Vec<ProbeDefinition>, names: &Vec<String>, phase: ProbePhase) -> (r:
    ProbePlan)
    ensures
        r.requests@.map_values(|q: (String, ProbeSpec)| q.0@) == filter_names(
            names@,
            |n: Seq<char>| requested_in(defs@, n, phase),
        ),
        forall|k: int|
            0 <= k < r.requests@.len() ==> (def_named(defs@, (#[trigger] r.requests@[k]).0@) matches Some(d)
                && decodes_to(d.probe_type@, d.config@, r.requests@[k].1)),
        r.failures@.map_values(|f: ProbeResult| f.id@) == filter_names(
            names@,
            |n: Seq<char>| fails_locally(defs@, n, phase),
        ),
        forall|k: int| 0 <= k < r.failures@.len() ==> !(#[trigger] r.failures@[k]).passed && (
            match def_named(defs@, r.failures@[k].id@) {
                None => r.failures@[k].message@ == "Probe '"@ + r.failures@[k].id@ + "' not defined in scenario"@,
                Some(_) => exists|e: Seq<char>| r.failures@[k].message@ == "Invalid probe config: "@ + e,
            }),
{
    let ghost req = |n: Seq<char>| requested_in(defs@, n, phase);
    let ghost fail = |n: Seq<char>| fails_locally(defs@, n, phase);
    let mut requests: Vec<(String, ProbeSpec)> = Vec::new();
    let mut failures: Vec<ProbeResult> = Vec::new();
    let mut i: usize = 0;
    while i < names.len()
        invariant
            i <= names@.len(),
            req == (|n: Seq<char>| requested_in(defs@, n, phase)),
            fail == (|n: Seq<char>| fails_locally(defs@, n, phase)),
            requests@.map_values(|q: (String, ProbeSpec)| q.0@) == filter_names(
                names@.subrange(0, i as int),
                req,
            ),
            forall|k: int|
                0 <= k < requests@.len() ==> (def_named(defs@, (#[trigger] requests@[k]).0@) matches Some(d)
                    && decodes_to(d.probe_type@, d.config@, requests@[k].1)),
            failures@.map_values(|f: ProbeResult| f.id@) == filter_names(
                names@.subrange(0, i as int),
                fail,
            ),
            forall|k: int| 0 <= k < failures@.len() ==> !(#[trigger] failures@[k]).passed && (
            match def_named(defs@, failures@[k].id@) {
                None => failures@[k].message@ == "Probe '"@ + failures@[k].id@ + "' not defined in scenario"@,
                Some(_) => exists|e: Seq<char>| failures@[k].message@ == "Invalid probe config: "@ + e,
            }),
        decreases names@.len() - i,
    {
        let ghost rq = requests@;
        let ghost fl = failures@;
        proof {
            let pre = names@.subrange(0, i as int + 1);
            assert(pre.drop_last() =~= names@.subrange(0, i as int));
            assert(pre.last() == names@[i as int]);
        }
        let name = names[i].as_str();
        match find_def(defs, name) {
            None => {
                let mut m = String::from_str("Probe '");
                push_str(&mut m, name);
                push_str(&mut m, "' not defined in scenario");
                assert(m@ =~= "Probe '"@ + names@[i as int]@ + "' not defined in scenario"@);
                failures.push(ProbeResult::fail(names[i].clone(), m));
                assert(failures@.map_values(|f: ProbeResult| f.id@) =~= fl.map_values(
                    |f: ProbeResult| f.id@,
                ).push(names@[i as int]@));
            },
            Some(d) => {
                let def = &defs[d];
                if def.phase == phase {
                    match ProbeSpec::from_definition(def.probe_type.as_str(), &def.config) {
                        Ok(spec) => {
                            requests.push((names[i].clone(), spec));
                            assert(requests@.map_values(|q: (String, ProbeSpec)| q.0@)
                                =~= rq.map_values(|q: (String, ProbeSpec)| q.0@).push(
                                names@[i as int]@,
                            ));
                        },
                        Err(e) => {
                            let mut m = String::from_str("Invalid probe config: ");
                            push_str(&mut m, e.as_str());
                            failures.push(ProbeResult::fail(names[i].clone(), m));
                            assert(failures@.map_values(|f: ProbeResult| f.id@) =~= fl.map_values(
                                |f: ProbeResult| f.id@,
                            ).push(names@[i as int]@));
                        },
                    }
                }
            },
        }
        i += 1;
    }
    assert(names@.subrange(0, names@.len() as int) =~= names@);
    ProbePlan { requests, failures }
}

} // verus!

verus! {

/// The results held for one guest.
#[derive(Debug, Clone)]
pub struct VmProbeResults {
    pub vm: String,
    pub results: Vec<ProbeResult>,
}

/// The result recorded under `id`, if any.
pub open spec fn result_of(rs: Seq<ProbeResult>, id: Seq<char>) -> Option<ProbeResult>
    decreases rs.len(),
{
    if rs.len() == 0 {
        None
    } else if rs[0].id@ == id {
        Some(rs[0])
    } else {
        result_of(rs.drop_first(), id)
    }
}

/// Ids are unique among a guest's results.
pub open spec fn ids_unique(rs: Seq<ProbeResult>) -> bool {
    forall|a: int, b: int| 0 <= a < b < rs.len() ==> (#[trigger] rs[a]).id@ != (#[trigger] rs[b]).id@
}

/// Whether `r` is a passing result of a probe defined for `phase`.
pub open spec fn passes_in(defs: Seq<ProbeDefinition>, r: ProbeResult, phase: ProbePhase) -> bool {
    r.passed && (def_named(defs, r.id@) matches Some(d) && d.phase == phase)
}

pub open spec fn passing_count(rs: Seq<ProbeResult>, defs: Seq<ProbeDefinition>, phase: ProbePhase) -> nat
    decreases rs.len(),
{
    if rs.len() == 0 {
        0
    } else {
        passing_count(rs.drop_last(), defs, phase) + if passes_in(defs, rs.last(), phase) {
            1nat
        } else {
            0nat
        }
    }
}

/// How many of a guest's probe references name a probe of `phase`.
pub open spec fn expected_count(names: Seq<String>, defs: Seq<ProbeDefinition>, phase: ProbePhase) -> nat
    decreases names.len(),
{
    if names.len() == 0 {
        0
    } else {
        expected_count(names.drop_last(), defs, phase) + if (def_named(defs, names.last()@) matches Some(d)
            && d.phase == phase) {
            1nat
        } else {
            0nat
        }
    }
}

proof fn lemma_result_of_unique(rs: Seq<ProbeResult>, k: int)
    requires
        ids_unique(rs),
        0 <= k < rs.len(),
    ensures
        result_of(rs, rs[k].id@) == Some(rs[k]),
    decreases k,
{
    if k > 0 {
        assert(rs[0].id@ != rs[k].id@);
        let t = rs.drop_first();
        assert(ids_unique(t)) by {
            assert forall|a: int, b: int| 0 <= a < b < t.len() implies t[a].id@ != t[b].id@ by {
                assert(t[a] == rs[a + 1] && t[b] == rs[b + 1]);
            }
        }
        lemma_result_of_unique(t, k - 1);
    }
}

proof fn lemma_result_of_absent(rs: Seq<ProbeResult>, id: Seq<char>)
    requires
        forall|j: int| 0 <= j < rs.len() ==> (#[trigger] rs[j]).id@ != id,
    ensures
        result_of(rs, id) is None,
    decreases rs.len(),
{
    if rs.len() > 0 {
        let t = rs.drop_first();
        assert forall|j: int| 0 <= j < t.len() implies (#[trigger] t[j]).id@ != id by {
            assert(t[j] == rs[j + 1]);
        }
        lemma_result_of_absent(t, id);
    }
}

proof fn lemma_result_of_found(rs: Seq<ProbeResult>, id: Seq<char>)
    requires
        result_of(rs, id) matches Some(r),
    ensures
        exists|j: int| 0 <= j < rs.len() && rs[j].id@ == id && result_of(rs, id) == Some(rs[j]),
    decreases rs.len(),
{
    if rs[0].id@ != id {
        let t = rs.drop_first();
        lemma_result_of_found(t, id);
        let j = choose|j: int| 0 <= j < t.len() && t[j].id@ == id && result_of(t, id) == Some(t[j]);
        assert(rs[j + 1] == t[j]);
    }
}

/// Replace the result with `r`'s id in `rs`, or add `r` at the end.
fn upsert(rs: &mut Vec<ProbeResult>, r: ProbeResult)
    requires
        ids_unique(old(rs)@),
    ensures
        ids_unique(final(rs)@),
        result_of(final(rs)@, r.id@) == Some(r),
        forall|id: Seq<char>| id != r.id@ ==> result_of(final(rs)@, id) == result_of(old(rs)@, id),
{
    let mut i: usize = 0;
    while i < rs.len()
        invariant
            i <= rs@.len(),
            rs@ == old(rs)@,
            ids_unique(old(rs)@),
            forall|j: int| 0 <= j < i ==> (#[trigger] rs@[j]).id@ != r.id@,
        decreases rs@.len() - i,
    {
        if str_eq(rs[i].id.as_str(), r.id.as_str()) {
            let ghost id0 = r.id@;
            rs.set(i, r);
            proof {
                let o = old(rs)@;
                let n = rs@;
                assert(ids_unique(n)) by {
                    assert forall|a: int, b: int| 0 <= a < b < n.len() implies n[a].id@ != n[b].id@ by {
                        if a != i && b != i {
                            assert(n[a] == o[a] && n[b] == o[b]);
                        } else if a == i {
                            assert(n[b] == o[b]);
                            assert(o[a].id@ == id0);
                        } else {
                            assert(n[a] == o[a]);
                            assert(o[b].id@ == id0);
                        }
                    }
                }
                lemma_result_of_unique(n, i as int);
                assert forall|id: Seq<char>| id != id0 implies result_of(n, id) == result_of(o, id) by {
                    if result_of(o, id) is Some {
                        lemma_result_of_found(o, id);
                        let j = choose|j: int| 0 <= j < o.len() && o[j].id@ == id && result_of(o, id) == Some(o[j]);
                        lemma_result_of_unique(o, j);
                        assert(n[j] == o[j]);
                        lemma_result_of_unique(n, j);
                    } else {
                        assert forall|j: int| 0 <= j < n.len() implies (#[trigger] n[j]).id@ != id by {
                            if j != i {
                                assert(n[j] == o[j]);
                                if o[j].id@ == id {
                                    lemma_result_of_unique(o, j);
                                }
                            }
                        }
                        lemma_result_of_absent(n, id);
                    }
                }
            }
            return;
        }
        i += 1;
    }
    let ghost id0 = r.id@;
    rs.push(r);
    proof {
        let o = old(rs)@;
        let n = rs@;
        assert(ids_unique(n)) by {
            assert forall|a: int, b: int| 0 <= a < b < n.len() implies n[a].id@ != n[b].id@ by {
                assert(n[a] == o[a]);
                if b < o.len() {
                    assert(n[b] == o[b]);
                }
            }
        }
        lemma_result_of_unique(n, o.len() as int);
        assert forall|id: Seq<char>| id != id0 implies result_of(n, id) == result_of(o, id) by {
            if result_of(o, id) is Some {
                lemma_result_of_found(o, id);
                let j = choose|j: int| 0 <= j < o.len() && o[j].id@ == id && result_of(o, id) == Some(o[j]);
                lemma_result_of_unique(o, j);
                assert(n[j] == o[j]);
                lemma_result_of_unique(n, j);
            } else {
                assert forall|j: int| 0 <= j < n.len() implies (#[trigger] n[j]).id@ != id by {
                    if j < o.len() {
                        assert(n[j] == o[j]);
                        if o[j].id@ == id {
                            lemma_result_of_unique(o, j);
                        }
                    }
                }
                lemma_result_of_absent(n, id);
            }
        }
    }
}

/// The probe results of every guest of a run, in guest order.
#[derive(Debug, Clone)]
pub struct ProbeBook {
    pub entries: Vec<VmProbeResults>,
}

impl ProbeBook {
    pub open spec fn wf(&self) -> bool {
        forall|i: int| 0 <= i < self.entries@.len() ==> ids_unique((#[trigger] self.entries@[i]).results@)
    }

    /// An empty result set for each of `vm_names`.
    pub fn new(vm_names: &Vec<String>) -> (r: Self)
        ensures
            r.wf(),
            r.entries@.len() == vm_names@.len(),
            forall|i: int|
                0 <= i < vm_names@.len() ==> (#[trigger] r.entries@[i]).vm@ == vm_names@[i]@
                    && r.entries@[i].results@.len() == 0,
    {
        let mut entries: Vec<VmProbeResults> = Vec::new();
        let mut i: usize = 0;
        while i < vm_names.len()
            invariant
                i <= vm_names@.len(),
                entries@.len() == i,
                forall|k: int|
                    0 <= k < i ==> (#[trigger] entries@[k]).vm@ == vm_names@[k]@
                        && entries@[k].results@.len() == 0,
            decreases vm_names@.len() - i,
        {
            entries.push(VmProbeResults { vm: vm_names[i].clone(), results: Vec::new() });
            i += 1;
        }
        ProbeBook { entries }
    }

    /// Forget every result, keeping the guests.
    pub fn clear(&mut self)
        requires
            old(self).wf(),
        ensures
            final(self).wf(),
            final(self).entries@.len() == old(self).entries@.len(),
            forall|i: int|
                0 <= i < final(self).entries@.len() ==> (#[trigger] final(self).entries@[i]).vm
                    == old(self).entries@[i].vm && final(self).entries@[i].results@.len() == 0,
    {
        let mut i: usize = 0;
        while i < self.entries.len()
            invariant
                i <= self.entries@.len(),
                self.entries@.len() == old(self).entries@.len(),
                forall|k: int|
                    0 <= k < self.entries@.len() ==> (#[trigger] self.entries@[k]).vm
                        == old(self).entries@[k].vm,
                forall|k: int| 0 <= k < i ==> (#[trigger] self.entries@[k]).results@.len() == 0,
                forall|k: int| 0 <= k < self.entries@.len() ==> ids_unique((#[trigger] self.entries@[k]).results@),
            decreases self.entries@.len() - i,
        {
            let vm = self.entries[i].vm.clone();
            self.entries.set(i, VmProbeResults { vm, results: Vec::new() });
            i += 1;
        }
    }

    /// Record `r` for the guest at `vm`, replacing an earlier result of the
    /// same probe.
    pub fn record(&mut self, vm: usize, r: ProbeResult)
        requires
            old(self).wf(),
            vm < old(self).entries@.len(),
        ensures
            final(self).wf(),
            final(self).entries@.len() == old(self).entries@.len(),
            forall|i: int| 0 <= i < final(self).entries@.len() && i != vm ==> #[trigger] final(self).entries@[i] == old(self).entries@[i],
            final(self).entries@[vm as int].vm == old(self).entries@[vm as int].vm,
            result_of(final(self).entries@[vm as int].results@, r.id@) == Some(r),
            forall|id: Seq<char>| id != r.id@ ==> result_of(final(self).entries@[vm as int].results@, id)
                == result_of(old(self).entries@[vm as int].results@, id),
    {
        let mut entry = VmProbeResults { vm: String::new(), results: Vec::new() };
        self.entries.set_and_swap(vm, &mut entry);
        upsert(&mut entry.results, r);
        self.entries.set_and_swap(vm, &mut entry);
    }
}

} // verus!

verus! {

/// The guest named `name`, if any (the first one).
pub open spec fn vm_named(vms: Seq<VmDefinition>, name: Seq<char>) -> Option<VmDefinition>
    decreases vms.len(),
{
    if vms.len() == 0 {
        None
    } else if vms[0].name@ == name {
        Some(vms[0])
    } else {
        vm_named(vms.drop_first(), name)
    }
}

/// How many passing results a guest must hold for `phase` to pass.
pub open spec fn expected_for(s: Scenario, vm: Seq<char>, phase: ProbePhase) -> nat {
    match vm_named(s.vms@, vm) {
        Some(v) => expected_count(v.probes@, s.probes@, phase),
        None => 0,
    }
}

/// Every guest holds as many passing results of `phase` as it references
/// probes of `phase`.
pub open spec fn phase_passing(book: Seq<VmProbeResults>, s: Scenario, phase: ProbePhase) -> bool {
    forall|i: int|
        0 <= i < book.len() ==> passing_count((#[trigger] book[i]).results@, s.probes@, phase)
            == expected_for(s, book[i].vm@, phase)
}

fn probe_has_phase(defs: &Vec<ProbeDefinition>, name: &str, phase: ProbePhase) -> (r: bool)
    ensures
        r == (def_named(defs@, name@) matches Some(d) && d.phase == phase),
{
    match find_def(defs, name) {
        Some(i) => defs[i].phase == phase,
        None => false,
    }
}

/// How many results of `rs` pass and belong to a probe of `phase`.
pub fn count_passing(rs: &Vec<ProbeResult>, defs: &Vec<ProbeDefinition>, phase: ProbePhase) -> (r:
    usize)
    ensures
        r == passing_count(rs@, defs@, phase),
{
    let mut n: usize = 0;
    let mut i: usize = 0;
    while i < rs.len()
        invariant
            i <= rs@.len(),
            n == passing_count(rs@.subrange(0, i as int), defs@, phase),
            n <= i,
        decreases rs@.len() - i,
    {
        proof {
            let pre = rs@.subrange(0, i as int + 1);
            assert(pre.drop_last() =~= rs@.subrange(0, i as int));
            assert(pre.last() == rs@[i as int]);
        }
        if rs[i].passed && probe_has_phase(defs, rs[i].id.as_str(), phase) {
            n = n + 1;
        }
        i += 1;
    }
    assert(rs@.subrange(0, rs@.len() as int) =~= rs@);
    n
}

/// How many of `names` reference a probe of `phase`.
pub fn count_expected(names: &Vec<String>, defs: &Vec<ProbeDefinition>, phase: ProbePhase) -> (r:
    usize)
    ensures
        r == expected_count(names@, defs@, phase),
{
    let mut n: usize = 0;
    let mut i: usize = 0;
    while i < names.len()
        invariant
            i <= names@.len(),
            n == expected_count(names@.subrange(0, i as int), defs@, phase),
            n <= i,
        decreases names@.len() - i,
    {
        proof {
            let pre = names@.subrange(0, i as int + 1);
            assert(pre.drop_last() =~= names@.subrange(0, i as int));
            assert(pre.last() == names@[i as int]);
        }
        if probe_has_phase(defs, names[i].as_str(), phase) {
            n = n + 1;
        }
        i += 1;
    }
    assert(names@.subrange(0, names@.len() as int) =~= names@);
    n
}

fn find_vm(vms: &Vec<VmDefinition>, name: &str) -> (r: Option<usize>)
    ensures
        match r {
            Some(i) => i < vms@.len() && vm_named(vms@, name@) == Some(vms@[i as int]),
            None => vm_named(vms@, name@) is None,
        },
{
    let mut i: usize = 0;
    assert(vms@.subrange(0, vms@.len() as int) =~= vms@);
    while i < vms.len()
        invariant
            i <= vms@.len(),
            vm_named(vms@, name@) == vm_named(vms@.subrange(i as int, vms@.len() as int), name@),
        decreases vms@.len() - i,
    {
        let ghost rest = vms@.subrange(i as int, vms@.len() as int);
        assert(rest[0] == vms@[i as int]);
        if str_eq(vms[i].name.as_str(), name) {
            return Some(i);
        }
        assert(rest.drop_first() =~= vms@.subrange(i + 1, vms@.len() as int));
        i += 1;
    }
    None
}

/// What came back from asking a guest's agent to check a plan's probes.
#[derive(Debug)]
pub enum CheckOutcome {
    Results(Vec<ProbeResult>),
    /// Connecting or the exchange failed; the text says why.
    Failed(String),
}

impl ProbeBook {
    /// Whether every guest passes `phase`.
    pub fn all_passing(&self, scenario: &Scenario, phase: ProbePhase) -> (r: bool)
        ensures
            r == phase_passing(self.entries@, *scenario, phase),
    {
        let mut i: usize = 0;
        while i < self.entries.len()
            invariant
                i <= self.entries@.len(),
                forall|k: int|
                    0 <= k < i ==> passing_count((#[trigger] self.entries@[k]).results@, scenario.probes@, phase)
                        == expected_for(*scenario, self.entries@[k].vm@, phase),
            decreases self.entries@.len() - i,
        {
            let entry = &self.entries[i];
            let expected = match find_vm(&scenario.vms, entry.vm.as_str()) {
                Some(v) => count_expected(&scenario.vms[v].probes, &scenario.probes, phase),
                None => 0,
            };
            if count_passing(&entry.results, &scenario.probes, phase) != expected {
                return false;
            }
            i += 1;
        }
        true
    }

    /// Record a result unless the guest at `vm` already holds one for the
    /// same probe.
    pub fn record_if_absent(&mut self, vm: usize, r: ProbeResult)
        requires
            old(self).wf(),
            vm < old(self).entries@.len(),
        ensures
            final(self).wf(),
            final(self).entries@.len() == old(self).entries@.len(),
            forall|i: int|
                0 <= i < final(self).entries@.len() && i != vm ==> #[trigger] final(self).entries@[i]
                    == old(self).entries@[i],
            final(self).entries@[vm as int].vm == old(self).entries@[vm as int].vm,
            result_of(old(self).entries@[vm as int].results@, r.id@) is Some ==> final(self).entries@[vm as int].results@
                == old(self).entries@[vm as int].results@,
            result_of(old(self).entries@[vm as int].results@, r.id@) is None ==> result_of(
                final(self).entries@[vm as int].results@,
                r.id@,
            ) == Some(r),
            forall|id: Seq<char>| id != r.id@ ==> result_of(final(self).entries@[vm as int].results@, id)
                == result_of(old(self).entries@[vm as int].results@, id),
    {
        let rs = &self.entries[vm].results;
        let mut i: usize = 0;
        assert(ids_unique(rs@));
        while i < rs.len()
            invariant
                i <= rs@.len(),
                ids_unique(rs@),
                old(self).wf(),
                vm < old(self).entries@.len(),
                rs@ == old(self).entries@[vm as int].results@,
                forall|j: int| 0 <= j < i ==> (#[trigger] rs@[j]).id@ != r.id@,
            decreases rs@.len() - i,
        {
            if str_eq(rs[i].id.as_str(), r.id.as_str()) {
                proof {
                    lemma_result_of_unique(rs@, i as int);
                }
                return;
            }
            i += 1;
        }
        proof {
            lemma_result_of_absent(rs@, r.id@);
        }
        self.record(vm, r);
    }

    /// Record what checking the plan of the guest at `vm` gave: the plan's
    /// local failures, then either the agent's results or, for each requested
    /// probe without a result yet, a failure that carries the reason.
    pub fn record_check(&mut self, vm: usize, plan: ProbePlan, outcome: CheckOutcome)
        requires
            old(self).wf(),
            vm < old(self).entries@.len(),
        ensures
            final(self).wf(),
            final(self).entries@.len() == old(self).entries@.len(),
            forall|i: int|
                0 <= i < final(self).entries@.len() && i != vm ==> #[trigger] final(self).entries@[i]
                    == old(self).entries@[i],
            final(self).entries@[vm as int].vm == old(self).entries@[vm as int].vm,
            forall|id: Seq<char>|
                checked_result(
                    #[trigger] result_of(final(self).entries@[vm as int].results@, id),
                    old(self).entries@[vm as int].results@,
                    plan.requests@,
                    plan.failures@,
                    outcome,
                    id,
                ),
    {
        let ghost old_rs = self.entries@[vm as int].results@;
        let mut i: usize = 0;
        while i < plan.failures.len()
            invariant
                self.wf(),
                vm < self.entries@.len(),
                self.entries@.len() == old(self).entries@.len(),
                forall|j: int|
                    0 <= j < self.entries@.len() && j != vm ==> #[trigger] self.entries@[j]
                        == old(self).entries@[j],
                self.entries@[vm as int].vm == old(self).entries@[vm as int].vm,
                old_rs == old(self).entries@[vm as int].results@,
                i <= plan.failures@.len(),
                forall|id: Seq<char>|
                    #[trigger] result_of(self.entries@[vm as int].results@, id) == after_updates(
                        old_rs,
                        plan.failures@.subrange(0, i as int),
                        id,
                    ),
            decreases plan.failures@.len() - i,
        {
            let f = ProbeResult {
                id: plan.failures[i].id.clone(),
                passed: plan.failures[i].passed,
                message: plan.failures[i].message.clone(),
            };
            assert(f == plan.failures@[i as int]);
            self.record(vm, f);
            proof {
                let pre = plan.failures@.subrange(0, i as int + 1);
                assert(pre.drop_last() =~= plan.failures@.subrange(0, i as int));
                assert(pre.last() == plan.failures@[i as int]);
            }
            i += 1;
        }
        assert(plan.failures@.subrange(0, plan.failures@.len() as int) =~= plan.failures@);
        match outcome {
            CheckOutcome::Results(results) => {
                let mut k: usize = 0;
                while k < results.len()
                    invariant
                        self.wf(),
                        vm < self.entries@.len(),
                        self.entries@.len() == old(self).entries@.len(),
                        forall|j: int|
                            0 <= j < self.entries@.len() && j != vm ==> #[trigger] self.entries@[j]
                                == old(self).entries@[j],
                        self.entries@[vm as int].vm == old(self).entries@[vm as int].vm,
                        k <= results@.len(),
                        forall|id: Seq<char>|
                            #[trigger] result_of(self.entries@[vm as int].results@, id) == match last_with_id(
                                results@.subrange(0, k as int),
                                id,
                            ) {
                                Some(r) => Some(r),
                                None => after_updates(old_rs, plan.failures@, id),
                            },
                    decreases results@.len() - k,
                {
                    let r = ProbeResult {
                        id: results[k].id.clone(),
                        passed: results[k].passed,
                        message: results[k].message.clone(),
                    };
                    assert(r == results@[k as int]);
                    self.record(vm, r);
                    proof {
                        let pre = results@.subrange(0, k as int + 1);
                        assert(pre.drop_last() =~= results@.subrange(0, k as int));
                        assert(pre.last() == results@[k as int]);
                    }
                    k += 1;
                }
                assert(results@.subrange(0, results@.len() as int) =~= results@);
            },
            CheckOutcome::Failed(reason) => {
                let mut k: usize = 0;
                while k < plan.requests.len()
                    invariant
                        self.wf(),
                        vm < self.entries@.len(),
                        self.entries@.len() == old(self).entries@.len(),
                        forall|j: int|
                            0 <= j < self.entries@.len() && j != vm ==> #[trigger] self.entries@[j]
                                == old(self).entries@[j],
                        self.entries@[vm as int].vm == old(self).entries@[vm as int].vm,
                        k <= plan.requests@.len(),
                        forall|id: Seq<char>|
                            failed_exchange_result(
                                #[trigger] result_of(self.entries@[vm as int].results@, id),
                                after_updates(old_rs, plan.failures@, id),
                                plan.requests@.subrange(0, k as int),
                                reason@,
                                id,
                            ),
                    decreases plan.requests@.len() - k,
                {
                    let mut m = String::from_str("Failed to check probes via agent: ");
                    push_str(&mut m, reason.as_str());
                    let id = plan.requests[k].0.clone();
                    let ghost before = self.entries@[vm as int].results@;
                    self.record_if_absent(vm, ProbeResult::fail(id, m));
                    proof {
                        let pre = plan.requests@.subrange(0, k as int + 1);
                        assert(pre.drop_last() =~= plan.requests@.subrange(0, k as int));
                        assert(pre.last() == plan.requests@[k as int]);
                        assert forall|q: Seq<char>| failed_exchange_result(
                            #[trigger] result_of(self.entries@[vm as int].results@, q),
                            after_updates(old_rs, plan.failures@, q),
                            pre,
                            reason@,
                            q,
                        ) by {
                            if q == plan.requests@[k as int].0@ {
                                assert(exists|j: int| 0 <= j < pre.len() && (#[trigger] pre[j]).0@ == q) by {
                                    assert(pre[k as int].0@ == q);
                                }
                                let sub = plan.requests@.subrange(0, k as int);
                                if exists|j: int| 0 <= j < sub.len() && (#[trigger] sub[j]).0@ == q {
                                    let j = choose|j: int| 0 <= j < sub.len() && (#[trigger] sub[j]).0@ == q;
                                    assert(pre[j] == sub[j]);
                                }
                            } else {
                                let sub = plan.requests@.subrange(0, k as int);
                                if exists|j: int| 0 <= j < pre.len() && (#[trigger] pre[j]).0@ == q {
                                    let j = choose|j: int| 0 <= j < pre.len() && (#[trigger] pre[j]).0@ == q;
                                    assert(j < k);
                                    assert(sub[j] == pre[j]);
                                }
                                if exists|j: int| 0 <= j < sub.len() && (#[trigger] sub[j]).0@ == q {
                                    let j = choose|j: int| 0 <= j < sub.len() && (#[trigger] sub[j]).0@ == q;
                                    assert(pre[j] == sub[j]);
                                }
                            }
                        }
                    }
                    k += 1;
                }
                assert(plan.requests@.subrange(0, plan.requests@.len() as int) =~= plan.requests@);
            },
        }
    }
}

/// The last update for `id` among `ups`, if any.
pub open spec fn last_with_id(ups: Seq<ProbeResult>, id: Seq<char>) -> Option<ProbeResult>
    decreases ups.len(),
{
    if ups.len() == 0 {
        None
    } else if ups.last().id@ == id {
        Some(ups.last())
    } else {
        last_with_id(ups.drop_last(), id)
    }
}

/// The result for `id` after recording `ups`, in order, over `rs`.
pub open spec fn after_updates(rs: Seq<ProbeResult>, ups: Seq<ProbeResult>, id: Seq<char>) -> Option<
    ProbeResult,
> {
    match last_with_id(ups, id) {
        Some(r) => Some(r),
        None => result_of(rs, id),
    }
}

/// After a failed exchange: an id that already had a result keeps it; a
/// requested id without one gets a failure naming the reason.
pub open spec fn failed_exchange_result(
    actual: Option<ProbeResult>,
    before: Option<ProbeResult>,
    requests: Seq<(String, ProbeSpec)>,
    reason: Seq<char>,
    id: Seq<char>,
) -> bool {
    if before is Some {
        actual == before
    } else if exists|j: int| 0 <= j < requests.len() && (#[trigger] requests[j]).0@ == id {
        actual matches Some(r) && r.id@ == id && !r.passed && r.message@
            == "Failed to check probes via agent: "@ + reason
    } else {
        actual is None
    }
}

/// Whether `actual` is the result held for `id` once a check of a plan is
/// recorded over `rs`: the plan's failures, then the agent's results, each
/// replacing an earlier result of the same probe.
pub open spec fn checked_result(
    actual: Option<ProbeResult>,
    rs: Seq<ProbeResult>,
    requests: Seq<(String, ProbeSpec)>,
    failures: Seq<ProbeResult>,
    outcome: CheckOutcome,
    id: Seq<char>,
) -> bool {
    match outcome {
        CheckOutcome::Results(results) => actual == match last_with_id(results@, id) {
            Some(r) => Some(r),
            None => after_updates(rs, failures, id),
        },
        CheckOutcome::Failed(reason) => failed_exchange_result(
            actual,
            after_updates(rs, failures, id),
            requests,
            reason@,
            id,
        ),
    }
}

/// The scenario's state after a round of checks of `phase`: a scenario round
/// in which every guest passes completes it; otherwise the state stays.
pub fn state_after_checks(current: ScenarioState, phase: ProbePhase, all_passing: bool) -> (r:
    ScenarioState)
    ensures
        r == if phase == ProbePhase::Scenario && all_passing {
            ScenarioState::Completed
        } else {
            current
        },
{
    if phase == ProbePhase::Scenario && all_passing {
        ScenarioState::Completed
    } else {
        current
    }
}

} // verus!

verus! {

/// What a run owns: the guests created so far, in order, their overlays,
/// seed media and processes, and whether the LAN switch runs.
#[derive(Debug, Clone)]
pub struct RunLedger {
    /// The switch's hub port, reserved when the scenario has two guests or more.
    pub hub_port: Option<u16>,
    pub vm_order: Vec<String>,
    pub overlays: usize,
    pub seed_isos: usize,
    pub processes: usize,
    pub switch_running: bool,
}

impl RunLedger {
    pub open spec fn wf(&self) -> bool {
        &&& self.overlays == self.vm_order@.len()
        &&& self.seed_isos == self.vm_order@.len()
        &&& self.processes == 0 || self.processes == self.vm_order@.len()
        &&& self.switch_running ==> self.hub_port is Some && self.processes >= 2
    }

    /// A run of a scenario with `vm_count` guests; the hub port is reserved
    /// only when there are two or more.
    pub fn new(vm_count: usize, hub_port: u16) -> (r: Self)
        ensures
            r.wf(),
            r.vm_order@.len() == 0 && r.processes == 0 && !r.switch_running,
            r.hub_port is Some <==> vm_count >= 2,
    {
        RunLedger {
            hub_port: if vm_count >= 2 {
                Some(hub_port)
            } else {
                None
            },
            vm_order: Vec::new(),
            overlays: 0,
            seed_isos: 0,
            processes: 0,
            switch_running: false,
        }
    }

    /// A guest was prepared: its overlay and seed ISO exist.
    pub fn vm_created(&mut self, name: String)
        requires
            old(self).wf(),
            old(self).processes == 0,
            old(self).vm_order@.len() < usize::MAX,
        ensures
            final(self).wf(),
            final(self).vm_order@ == old(self).vm_order@.push(name),
            final(self).processes == 0,
            final(self).hub_port == old(self).hub_port,
            final(self).switch_running == old(self).switch_running,
    {
        self.vm_order.push(name);
        self.overlays = self.overlays + 1;
        self.seed_isos = self.seed_isos + 1;
    }

    /// Start every prepared guest, and the switch when its port was reserved
    /// and there are two guests or more. Returns whether the switch starts.
    pub fn start(&mut self) -> (r: bool)
        requires
            old(self).wf(),
        ensures
            final(self).wf(),
            final(self).vm_order@ == old(self).vm_order@,
            final(self).processes == final(self).vm_order@.len(),
            r == (old(self).hub_port is Some && old(self).vm_order@.len() >= 2),
            final(self).switch_running == (r || old(self).switch_running),
    {
        self.processes = self.vm_order.len();
        let starts = self.hub_port.is_some() && self.vm_order.len() >= 2;
        if starts {
            self.switch_running = true;
        }
        starts
    }

    /// Stop everything: no guest, process or switch is left.
    pub fn stop(&mut self)
        ensures
            final(self).wf(),
            final(self).vm_order@.len() == 0,
            final(self).overlays == 0 && final(self).seed_isos == 0 && final(self).processes == 0,
            !final(self).switch_running,
    {
        self.vm_order = Vec::new();
        self.overlays = 0;
        self.seed_isos = 0;
        self.processes = 0;
        self.switch_running = false;
    }
}

/// A run of `n` guests, each prepared once and then started, owns exactly `n`
/// overlays, seed ISOs and processes, and a switch exactly when `n >= 2`;
/// stopping it leaves nothing.
pub proof fn run_owns_one_of_each_per_vm(l0: RunLedger, l1: RunLedger, l2: RunLedger, n: nat, started_switch: bool)
    requires
        l0.wf(),
        l0.vm_order@.len() == 0 && l0.processes == 0 && !l0.switch_running,
        l0.hub_port is Some <==> n >= 2,
        l1.wf(),
        l1.vm_order@.len() == n,
        l1.hub_port == l0.hub_port,
        !l1.switch_running,
        l2.wf(),
        l2.vm_order@ == l1.vm_order@,
        l2.processes == l2.vm_order@.len(),
        started_switch == (l1.hub_port is Some && l1.vm_order@.len() >= 2),
        l2.switch_running == (started_switch || l1.switch_running),
    ensures
        l2.overlays == n && l2.seed_isos == n && l2.processes == n,
        l2.switch_running <==> n >= 2,
{
}

} // verus!
