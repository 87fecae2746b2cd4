use vstd::prelude::*;

use crate::definitions::{
    level_api_version, level_of, level_version, Conclusion, Diagnosis, TestResults,
    contains_version, VersionedTrialResults, LEVEL_COUNT,
};

verus! {

/// A property of the four outcomes of one trial.
pub enum TrialCheck {
    AllSucceeded,
    AllFailed,
    SucceededAt(usize),
    FailedAt(usize),
}

impl TrialCheck {
    pub open spec fn wf(&self) -> bool {
        match self {
            TrialCheck::SucceededAt(level) => *level < 4,
            TrialCheck::FailedAt(level) => *level < 4,
            _ => true,
        }
    }

    pub open spec fn holds(&self, t: VersionedTrialResults) -> bool {
        match self {
            TrialCheck::AllSucceeded => t.all_ok(),
            TrialCheck::AllFailed => t.all_bad(),
            TrialCheck::SucceededAt(level) => t.ok(*level as int),
            TrialCheck::FailedAt(level) => !t.ok(*level as int),
        }
    }

    fn check(&self, t: &VersionedTrialResults) -> (r: bool)
        requires
            self.wf(),
        ensures
            r == self.holds(*t),
    {
        match self {
            TrialCheck::AllSucceeded => t.all_succeeded(),
            TrialCheck::AllFailed => t.all_failed(),
            TrialCheck::SucceededAt(level) => t.succeeded(level_api_version(*level)),
            TrialCheck::FailedAt(level) => !t.succeeded(level_api_version(*level)),
        }
    }
}

/// Whether `c` holds of the trial of every entry of `entries`.
pub open spec fn holds_for_entries(
    entries: Seq<(String, VersionedTrialResults)>,
    c: TrialCheck,
) -> bool {
    forall|i: int| 0 <= i < entries.len() ==> c.holds(#[trigger] entries[i].1)
}

/// Whether `c` holds of every trial of the matrix: the clean and default
/// trials, and every isolation and exclusion trial.
pub open spec fn every_trial(r: TestResults, c: TrialCheck) -> bool {
    &&& c.holds(r.clean_result)
    &&& c.holds(r.default_result)
    &&& holds_for_entries(r.isolation_results@, c)
    &&& holds_for_entries(r.exclude_results@, c)
}

/// Whether level `level` passes in every trial or fails in every trial.
pub open spec fn level_decided(r: TestResults, level: usize) -> bool {
    every_trial(r, TrialCheck::SucceededAt(level)) || every_trial(r, TrialCheck::FailedAt(level))
}

pub open spec fn every_level_decided(r: TestResults) -> bool {
    level_decided(r, 0) && level_decided(r, 1) && level_decided(r, 2) && level_decided(r, 3)
}

/// In level order, the API versions of the first `n` levels that pass in every
/// trial (`pass`) or fail in every trial (`!pass`).
pub open spec fn versions_where(r: TestResults, pass: bool, n: nat) -> Seq<u32>
    decreases n,
{
    if n == 0 {
        Seq::empty()
    } else {
        let level = (n - 1) as usize;
        let c = if pass {
            TrialCheck::SucceededAt(level)
        } else {
            TrialCheck::FailedAt(level)
        };
        versions_where(r, pass, (n - 1) as nat) + if every_trial(r, c) {
            seq![level_version(level as int)]
        } else {
            Seq::empty()
        }
    }
}

/// The API versions at which every trial succeeds.
pub open spec fn supported_versions(r: TestResults) -> Seq<u32> {
    versions_where(r, true, 4)
}

/// The API versions at which every trial fails.
pub open spec fn unsupported_versions(r: TestResults) -> Seq<u32> {
    versions_where(r, false, 4)
}

/// The index of the first entry at or after `k` whose trial succeeds, apart
/// from the `ignored` versions, exactly when `healthy` holds; -1 if there is none.
pub open spec fn first_entry(
    s: Seq<(String, VersionedTrialResults)>,
    ignored: Seq<u32>,
    healthy: bool,
    k: int,
) -> int
    decreases s.len() - k,
{
    if k < 0 || k >= s.len() {
        -1
    } else if s[k].1.ok_ignoring(ignored) == healthy {
        k
    } else {
        first_entry(s, ignored, healthy, k + 1)
    }
}

/// In order, the names of the first `n` entries whose trial succeeds apart
/// from the `ignored` versions.
pub open spec fn healthy_names(
    s: Seq<(String, VersionedTrialResults)>,
    ignored: Seq<u32>,
    n: nat,
) -> Seq<Seq<char>>
    decreases n,
{
    if n == 0 {
        Seq::empty()
    } else {
        healthy_names(s, ignored, (n - 1) as nat) + if s[n - 1].1.ok_ignoring(ignored) {
            seq![s[n - 1].0@]
        } else {
            Seq::empty()
        }
    }
}

/// In level order, the API versions of the first `n` levels that are not
/// `ignored` and at which `t` fails.
pub open spec fn broken_versions(t: VersionedTrialResults, ignored: Seq<u32>, n: nat) -> Seq<u32>
    decreases n,
{
    if n == 0 {
        Seq::empty()
    } else {
        let level = n - 1;
        broken_versions(t, ignored, (n - 1) as nat) + if !ignored.contains(level_version(level))
            && !t.ok(level) {
            seq![level_version(level)]
        } else {
            Seq::empty()
        }
    }
}

/// The diagnosis the matrix supports, by the ordered decision procedure:
/// the first step that matches decides.
pub open spec fn classify(r: TestResults) -> Diagnosis {
    let ignored = unsupported_versions(r);
    if every_trial(r, TrialCheck::AllSucceeded) {
        Diagnosis::Healthy
    } else if every_trial(r, TrialCheck::AllFailed) {
        Diagnosis::Hopeless
    } else if every_level_decided(r) {
        Diagnosis::Partial { supported_versions: supported_versions(r) }
    } else if r.default_result.ok_ignoring(ignored) {
        Diagnosis::WeirdHealthy
    } else if !r.clean_result.ok_ignoring(ignored) {
        let e = first_entry(r.exclude_results@, ignored, true, 0);
        let i = first_entry(r.isolation_results@, ignored, true, 0);
        if e >= 0 {
            Diagnosis::WeirdBroken { important_layer: r.exclude_results@[e].0@, exclude: true }
        } else {
            Diagnosis::WeirdBroken { important_layer: r.isolation_results@[i].0@, exclude: false }
        }
    } else {
        let i = first_entry(r.isolation_results@, ignored, false, 0);
        if i >= 0 {
            let entry = r.isolation_results@[i];
            if entry.1.all_bad() {
                Diagnosis::BrokenLayer { layer: entry.0@ }
            } else {
                Diagnosis::PartiallyBrokenLayer {
                    layer: entry.0@,
                    broken_versions: broken_versions(entry.1, ignored, 4),
                }
            }
        } else {
            let names = healthy_names(r.exclude_results@, ignored, r.exclude_results@.len());
            if names.len() == 0 {
                Diagnosis::ComplexConflict
            } else if names.len() == 1 {
                Diagnosis::AsymmetricConflict { main_offender: names[0] }
            } else {
                Diagnosis::SymmetricConflict { layers: names }
            }
        }
    }
}

/// Whether the matrix defeats the decision procedure: neither the default nor
/// the clean trial is healthy, yet no exclusion or isolation trial is healthy
/// either, although the outcome at some level depends on the active layers.
pub open spec fn inconclusive(r: TestResults) -> bool {
    let ignored = unsupported_versions(r);
    &&& !every_trial(r, TrialCheck::AllSucceeded)
    &&& !every_trial(r, TrialCheck::AllFailed)
    &&& !every_level_decided(r)
    &&& !r.default_result.ok_ignoring(ignored)
    &&& !r.clean_result.ok_ignoring(ignored)
    &&& first_entry(r.exclude_results@, ignored, true, 0) < 0
    &&& first_entry(r.isolation_results@, ignored, true, 0) < 0
}

fn entries_satisfy(entries: &Vec<(String, VersionedTrialResults)>, c: &TrialCheck) -> (r: bool)
    requires
        c.wf(),
    ensures
        r == holds_for_entries(entries@, *c),
{
    let mut i: usize = 0;
    while i < entries.len()
        invariant
            c.wf(),
            i <= entries.len(),
            forall|j: int| 0 <= j < i ==> c.holds(#[trigger] entries@[j].1),
        decreases entries.len() - i,
    {
        if !c.check(&entries[i].1) {
            return false;
        }
        i += 1;
    }
    true
}

fn every_trial_satisfies(results: &TestResults, c: &TrialCheck) -> (r: bool)
    requires
        c.wf(),
    ensures
        r == every_trial(*results, *c),
{
    c.check(&results.clean_result) && c.check(&results.default_result) && entries_satisfy(
        &results.isolation_results,
        c,
    ) && entries_satisfy(&results.exclude_results, c)
}

fn find_entry(
    entries: &Vec<(String, VersionedTrialResults)>,
    ignored: &Vec<u32>,
    healthy: bool,
) -> (r: Option<usize>)
    ensures
        match r {
            Some(i) => i < entries.len() && i as int == first_entry(entries@, ignored@, healthy, 0),
            None => first_entry(entries@, ignored@, healthy, 0) == -1,
        },
{
    let mut i: usize = 0;
    while i < entries.len()
        invariant
            i <= entries.len(),
            first_entry(entries@, ignored@, healthy, 0) == first_entry(
                entries@,
                ignored@,
                healthy,
                i as int,
            ),
        decreases entries.len() - i,
    {
        if entries[i].1.succeeded_except(ignored.as_slice()) == healthy {
            return Some(i);
        }
        i += 1;
    }
    None
}

fn collect_healthy_names(entries: &Vec<(String, VersionedTrialResults)>, ignored: &Vec<u32>) -> (r:
    Vec<String>)
    ensures
        r@.map_values(|l: String| l@) == healthy_names(entries@, ignored@, entries@.len()),
{
    let mut names: Vec<String> = Vec::new();
    let mut i: usize = 0;
    while i < entries.len()
        invariant
            i <= entries.len(),
            names@.map_values(|l: String| l@) == healthy_names(entries@, ignored@, i as nat),
        decreases entries.len() - i,
    {
        let ghost before = names@;
        if entries[i].1.succeeded_except(ignored.as_slice()) {
            names.push(entries[i].0.clone());
            assert(names@.map_values(|l: String| l@) =~= before.map_values(|l: String| l@).push(
                entries@[i as int].0@,
            ));
        }
        i += 1;
    }
    names
}

fn collect_broken_versions(t: &VersionedTrialResults, ignored: &Vec<u32>) -> (r: Vec<u32>)
    ensures
        r@ == broken_versions(*t, ignored@, 4),
{
    let mut versions: Vec<u32> = Vec::new();
    let mut level: usize = 0;
    while level < LEVEL_COUNT
        invariant
            level <= LEVEL_COUNT,
            versions@ == broken_versions(*t, ignored@, level as nat),
        decreases LEVEL_COUNT - level,
    {
        let version = level_api_version(level);
        if !contains_version(ignored.as_slice(), version) && !t.succeeded(version) {
            versions.push(version);
        }
        level += 1;
    }
    versions
}

/// Classifies a trial matrix, or returns `None` where the matrix is
/// inconclusive and no single conclusion is supported by the evidence.
pub fn try_draw_conclusion(results: &TestResults) -> (r: Option<Conclusion>)
    ensures
        r is None <==> inconclusive(*results),
        r matches Some(c) ==> c@ == classify(*results),
{
    if every_trial_satisfies(results, &TrialCheck::AllSucceeded) {
        return Some(Conclusion::Healthy);
    }
    if every_trial_satisfies(results, &TrialCheck::AllFailed) {
        return Some(Conclusion::Hopeless);
    }
    let mut supported: Vec<u32> = Vec::new();
    let mut unsupported: Vec<u32> = Vec::new();
    let mut decided = true;
    let mut level: usize = 0;
    while level < LEVEL_COUNT
        invariant
            level <= LEVEL_COUNT,
            supported@ == versions_where(*results, true, level as nat),
            unsupported@ == versions_where(*results, false, level as nat),
            decided == (forall|l: usize| l < level ==> #[trigger] level_decided(*results, l)),
        decreases LEVEL_COUNT - level,
    {
        let passes = every_trial_satisfies(results, &TrialCheck::SucceededAt(level));
        let fails = every_trial_satisfies(results, &TrialCheck::FailedAt(level));
        if passes {
            supported.push(level_api_version(level));
        }
        if fails {
            unsupported.push(level_api_version(level));
        }
        assert(level_decided(*results, level) == (passes || fails));
        decided = decided && (passes || fails);
        level += 1;
    }
    assert(decided == every_level_decided(*results));
    if decided {
        return Some(Conclusion::Partial { supported_versions: supported });
    }
    if results.default_result.succeeded_except(unsupported.as_slice()) {
        return Some(Conclusion::WeirdHealthy);
    }
    if !results.clean_result.succeeded_except(unsupported.as_slice()) {
        if let Some(i) = find_entry(&results.exclude_results, &unsupported, true) {
            return Some(
                Conclusion::WeirdBroken {
                    important_layer: results.exclude_results[i].0.clone(),
                    exclude: true,
                },
            );
        }
        if let Some(i) = find_entry(&results.isolation_results, &unsupported, true) {
            return Some(
                Conclusion::WeirdBroken {
                    important_layer: results.isolation_results[i].0.clone(),
                    exclude: false,
                },
            );
        }
        return None;
    }
    if let Some(i) = find_entry(&results.isolation_results, &unsupported, false) {
        let entry = &results.isolation_results[i];
        if entry.1.all_failed() {
            return Some(Conclusion::BrokenLayer { layer: entry.0.clone() });
        }
        return Some(
            Conclusion::PartiallyBrokenLayer {
                layer: entry.0.clone(),
                broken_versions: collect_broken_versions(&entry.1, &unsupported),
            },
        );
    }
    let names = collect_healthy_names(&results.exclude_results, &unsupported);
    if names.len() == 0 {
        Some(Conclusion::ComplexConflict)
    } else if names.len() == 1 {
        Some(Conclusion::AsymmetricConflict { main_offender: names[0].clone() })
    } else {
        Some(Conclusion::SymmetricConflict { layers: names })
    }
}

/// Classifies a trial matrix into exactly one conclusion.
pub fn draw_conclusion(results: &TestResults) -> (r: Conclusion)
    requires
        !inconclusive(*results),
    ensures
        r@ == classify(*results),
{
    match try_draw_conclusion(results) {
        Some(c) => c,
        None => {
            assert(false);
            Conclusion::ComplexConflict
        },
    }
}

/// A matrix in which every trial succeeds at all four levels is healthy.
pub proof fn lemma_all_pass_is_healthy(r: TestResults)
    requires
        every_trial(r, TrialCheck::AllSucceeded),
    ensures
        classify(r) == Diagnosis::Healthy,
{
}

/// A matrix in which every trial fails at all four levels is hopeless.
pub proof fn lemma_all_fail_is_hopeless(r: TestResults)
    requires
        every_trial(r, TrialCheck::AllFailed),
    ensures
        classify(r) == Diagnosis::Hopeless,
{
}

/// A matrix in which one level fails in every trial and the other three
/// succeed in every trial shows a partial driver: the other three levels are
/// the supported ones, in level order.
pub proof fn lemma_one_level_missing_is_partial(r: TestResults, missing: usize)
    requires
        missing < 4,
        every_trial(r, TrialCheck::FailedAt(missing)),
        forall|level: usize|
            level < 4 && level != missing ==> #[trigger] every_trial(r, TrialCheck::SucceededAt(level)),
    ensures
        classify(r) == (Diagnosis::Partial {
            supported_versions: seq![
                level_version(0),
                level_version(1),
                level_version(2),
                level_version(3),
            ].remove(missing as int),
        }),
{
    let others = seq![0usize, 1, 2, 3].remove(missing as int);
    assert(every_trial(r, TrialCheck::SucceededAt(others[0])));
    assert(every_trial(r, TrialCheck::SucceededAt(others[1])));
    assert(every_trial(r, TrialCheck::SucceededAt(others[2])));
    assert(!every_trial(r, TrialCheck::SucceededAt(missing)));
    reveal_with_fuel(versions_where, 5);
    assert(supported_versions(r) =~= seq![
        level_version(0),
        level_version(1),
        level_version(2),
        level_version(3),
    ].remove(missing as int));
}

} // verus!
