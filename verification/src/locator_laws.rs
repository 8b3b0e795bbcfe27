//! What holds of every search.
use crate::chips::{known_in, lookup_in, table, IdentifierPair};
use crate::locator::{
    known_among, next, start, wf, Action, CriteriaModel, Event, LocatorModel, Phase, SearchResult,
};
use vstd::prelude::*;

verus! {

/// What a caller saw of a search: the action it ended on, and how often
/// it was asked to probe and to wait.
pub struct RunSummary {
    pub last: Action,
    pub probes: nat,
    pub waits: nat,
}

/// The search from state `m`, which has just asked for `action`, when
/// every probe fails: followed for at most `steps` probes and waits, or
/// until the machine asks for anything else.
pub open spec fn unmatched_run(m: LocatorModel, action: Action, steps: nat) -> RunSummary
    decreases steps,
{
    if steps == 0 {
        RunSummary { last: action, probes: 0, waits: 0 }
    } else {
        match action {
            Action::Open(_) => {
                let moved = next(m, Event::NotOpened);
                let rest = unmatched_run(moved.0, moved.1, (steps - 1) as nat);
                RunSummary { probes: rest.probes + 1, ..rest }
            },
            Action::Wait(_) => {
                let moved = next(m, Event::Waited);
                let rest = unmatched_run(moved.0, moved.1, (steps - 1) as nat);
                RunSummary { waits: rest.waits + 1, ..rest }
            },
            _ => RunSummary { last: action, probes: 0, waits: 0 },
        }
    }
}

proof fn lemma_explicit_run(m: LocatorModel, pair: IdentifierPair, steps: nat)
    requires
        wf(m),
        m.criteria == CriteriaModel::Explicit(pair),
        m.phase == Phase::Opening,
        m.pending == seq![pair],
        steps >= 2 * (m.max_attempts - m.attempts) + 2,
    ensures
        unmatched_run(m, Action::Open(pair), steps) == (RunSummary {
            last: Action::Finish(SearchResult::Absent),
            probes: (m.max_attempts - m.attempts + 1) as nat,
            waits: (m.max_attempts - m.attempts) as nat,
        }),
    decreases m.max_attempts - m.attempts,
{
    reveal_with_fuel(unmatched_run, 3);
    assert(seq![pair].skip(1).len() == 0);
    let failed = next(m, Event::NotOpened);
    if m.attempts < m.max_attempts {
        let again = next(failed.0, Event::Waited);
        assert(again.1 == Action::Open(pair));
        lemma_explicit_run(again.0, pair, (steps - 2) as nat);
    }
}

/// A search for an explicit pair that is never there ends in absence
/// after exactly as many probes as attempts are allowed, with a wait
/// between any two of them and none after the last.
pub proof fn law_explicit_pair_never_matching(
    pair: IdentifierPair,
    delay_ms: u64,
    max_attempts: nat,
    steps: nat,
)
    requires
        max_attempts >= 1,
        steps >= 2 * max_attempts,
    ensures
        unmatched_run(
            start(CriteriaModel::Explicit(pair), delay_ms, max_attempts).0,
            start(CriteriaModel::Explicit(pair), delay_ms, max_attempts).1,
            steps,
        ) == (RunSummary {
            last: Action::Finish(SearchResult::Absent),
            probes: max_attempts,
            waits: (max_attempts - 1) as nat,
        }),
{
    let begun = start(CriteriaModel::Explicit(pair), delay_ms, max_attempts);
    assert(begun.1 == Action::Open(pair));
    lemma_explicit_run(begun.0, pair, steps);
}

proof fn lemma_unknown_chip_run(m: LocatorModel, name: Seq<char>, steps: nat)
    requires
        lookup_in(table(), name) is None,
        wf(m),
        m.criteria == CriteriaModel::Chip(name),
        m.phase == Phase::Waiting,
        steps >= m.max_attempts - m.attempts + 1,
    ensures
        unmatched_run(m, Action::Wait(m.delay_ms), steps) == (RunSummary {
            last: Action::Finish(SearchResult::Absent),
            probes: 0,
            waits: (m.max_attempts - m.attempts) as nat,
        }),
    decreases m.max_attempts - m.attempts,
{
    reveal_with_fuel(unmatched_run, 3);
    let moved = next(m, Event::Waited);
    if m.attempts + 1 < m.max_attempts {
        lemma_unknown_chip_run(moved.0, name, (steps - 1) as nat);
    }
}

/// A search for a chip family that the table does not list goes as one
/// in which nothing ever matches: it ends in absence once the attempts
/// are spent, having waited between them, and it never probes and never
/// fails.
pub proof fn law_unknown_chip_never_matching(
    name: Seq<char>,
    delay_ms: u64,
    max_attempts: nat,
    steps: nat,
)
    requires
        lookup_in(table(), name) is None,
        max_attempts >= 1,
        steps >= 2 * max_attempts,
    ensures
        unmatched_run(
            start(CriteriaModel::Chip(name), delay_ms, max_attempts).0,
            start(CriteriaModel::Chip(name), delay_ms, max_attempts).1,
            steps,
        ) == (RunSummary {
            last: Action::Finish(SearchResult::Absent),
            probes: 0,
            waits: (max_attempts - 1) as nat,
        }),
{
    reveal_with_fuel(unmatched_run, 2);
    let begun = start(CriteriaModel::Chip(name), delay_ms, max_attempts);
    if max_attempts > 1 {
        lemma_unknown_chip_run(begun.0, name, steps);
    }
}

/// Where no connected device is known, none is a candidate.
pub proof fn lemma_none_known(devices: Seq<IdentifierPair>)
    requires
        forall|i: int| 0 <= i < devices.len() ==> !known_in(table(), #[trigger] devices[i]),
    ensures
        known_among(devices).len() == 0,
    decreases devices.len(),
{
    reveal(Seq::filter);
    if devices.len() > 0 {
        lemma_none_known(devices.drop_last());
    }
}

/// The first candidate among the connected devices is the first of them
/// that is known.
pub proof fn lemma_first_known(devices: Seq<IdentifierPair>, k: int)
    requires
        0 <= k < devices.len(),
        known_in(table(), devices[k]),
        forall|i: int| 0 <= i < k ==> !known_in(table(), #[trigger] devices[i]),
    ensures
        known_among(devices).len() > 0,
        known_among(devices)[0] == devices[k],
{
    let pred = |p: IdentifierPair| known_in(table(), p);
    let before = devices.take(k);
    let one = seq![devices[k]];
    let after = devices.skip(k + 1);
    assert(devices =~= before + one + after);
    lemma_none_known(before);
    assert(one.filter(pred) =~= one) by {
        reveal_with_fuel(Seq::filter, 2);
        assert(one.drop_last().len() == 0);
    }
    Seq::filter_distributes_over_add(before + one, after, pred);
    Seq::filter_distributes_over_add(before, one, pred);
    assert(before.filter(pred) =~= Seq::<IdentifierPair>::empty());
    assert(devices.filter(pred) =~= one + after.filter(pred));
}

/// A search for any known pair, with a connected device that a chip
/// family lists, finds the first such device in its first attempt,
/// without a wait, once that device opens.
pub proof fn law_any_known_first_attempt(
    delay_ms: u64,
    max_attempts: nat,
    devices: Vec<IdentifierPair>,
    k: int,
)
    requires
        max_attempts >= 1,
        0 <= k < devices@.len(),
        known_in(table(), devices@[k]),
        forall|i: int| 0 <= i < k ==> !known_in(table(), #[trigger] devices@[i]),
    ensures
        ({
            let begun = start(CriteriaModel::AnyKnown, delay_ms, max_attempts);
            let listed = next(begun.0, Event::Connected(devices));
            let opened = next(listed.0, Event::Opened);
            &&& begun.1 == Action::Enumerate
            &&& listed.1 == Action::Open(devices@[k])
            &&& opened.1 == Action::Finish(SearchResult::Found(devices@[k]))
            &&& opened.0.attempts == 1
            &&& opened.0.waits == 0
        }),
{
    lemma_first_known(devices@, k);
}

} // verus!
