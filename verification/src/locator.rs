//! The bounded search for a device, as a machine that decides and leaves
//! the USB bus and the clock to its caller.
//!
//! The caller performs each [`Action`] the machine asks for and hands back
//! the [`Event`] that answers it, until the machine asks to finish.
use crate::chips::{is_known, known_in, lookup, lookup_in, table, IdentifierPair};
use vstd::prelude::*;

verus! {

/// What to search for.
#[derive(Debug)]
pub enum SearchCriteria {
    /// A device with exactly these identifiers.
    Explicit(IdentifierPair),
    /// A device of the named chip family.
    Chip(String),
    /// A device with identifiers of any known chip family.
    AnyKnown,
}

/// Mathematical model of a [`SearchCriteria`].
pub enum CriteriaModel {
    Explicit(IdentifierPair),
    Chip(Seq<char>),
    AnyKnown,
}

impl View for SearchCriteria {
    type V = CriteriaModel;

    open spec fn view(&self) -> CriteriaModel {
        match *self {
            SearchCriteria::Explicit(pair) => CriteriaModel::Explicit(pair),
            SearchCriteria::Chip(name) => CriteriaModel::Chip(name@),
            SearchCriteria::AnyKnown => CriteriaModel::AnyKnown,
        }
    }
}

/// How a search ended.
#[derive(Clone, Copy, Debug, PartialEq, Eq, Structural)]
pub enum SearchResult {
    /// A device with these identifiers was opened.
    Found(IdentifierPair),
    /// No attempt opened a device.
    Absent,
    /// The bus could not be enumerated: the search is abandoned.
    TransportFailure,
}

/// What the machine asks of its caller.
#[derive(Clone, Copy, Debug, PartialEq, Eq, Structural)]
pub enum Action {
    /// Try to open a device with these identifiers.
    Open(IdentifierPair),
    /// List the identifiers of the connected devices.
    Enumerate,
    /// Wait for this many milliseconds before the next attempt.
    Wait(u64),
    /// Stop: the search has ended.
    Finish(SearchResult),
}

/// What the caller reports back.
#[derive(Debug)]
pub enum Event {
    /// The device asked for was opened.
    Opened,
    /// No device with the identifiers asked for could be opened.
    NotOpened,
    /// The connected devices, in enumeration order.
    Connected(Vec<IdentifierPair>),
    /// The bus could not be enumerated.
    EnumerationFailed,
    /// The delay has passed.
    Waited,
}

/// What the machine is waiting for.
#[derive(Clone, Copy, Debug, PartialEq, Eq, Structural)]
pub enum Phase {
    /// An answer to `Open` of the first pending candidate.
    Opening,
    /// An answer to `Enumerate`.
    Listing,
    /// The end of a `Wait`.
    Waiting,
    /// Nothing: the search has ended.
    Finished(SearchResult),
}

/// The state of a search.
#[derive(Debug)]
pub struct Locator {
    /// What is searched for.
    pub criteria: SearchCriteria,
    /// How many milliseconds to wait between two attempts.
    pub delay_ms: u64,
    /// How many attempts the search may make.
    pub max_attempts: usize,
    /// How many attempts have begun.
    pub attempts: usize,
    /// How many waits have been asked for.
    pub waits: usize,
    /// The candidates of the current attempt that are not ruled out yet.
    pub pending: Vec<IdentifierPair>,
    /// What the machine is waiting for.
    pub phase: Phase,
}

/// Mathematical model of a [`Locator`].
pub struct LocatorModel {
    pub criteria: CriteriaModel,
    pub delay_ms: u64,
    pub max_attempts: nat,
    pub attempts: nat,
    pub waits: nat,
    pub pending: Seq<IdentifierPair>,
    pub phase: Phase,
}

impl View for Locator {
    type V = LocatorModel;

    open spec fn view(&self) -> LocatorModel {
        LocatorModel {
            criteria: self.criteria@,
            delay_ms: self.delay_ms,
            max_attempts: self.max_attempts as nat,
            attempts: self.attempts as nat,
            waits: self.waits as nat,
            pending: self.pending@,
            phase: self.phase,
        }
    }
}

/// The criteria that the configured options select: both identifiers
/// give an explicit pair, else a chip name gives that family, else any
/// known pair will do.
pub open spec fn criteria_of(
    vendor_id: Option<u16>,
    product_id: Option<u16>,
    chip: Option<String>,
) -> CriteriaModel {
    match (vendor_id, product_id, chip) {
        (Some(v), Some(p), _) => CriteriaModel::Explicit(
            IdentifierPair { vendor_id: v, product_id: p },
        ),
        (_, _, Some(name)) => CriteriaModel::Chip(name@),
        _ => CriteriaModel::AnyKnown,
    }
}

/// Chooses the search criteria from the configured options.
pub fn criteria_from(vendor_id: Option<u16>, product_id: Option<u16>, chip: Option<String>) -> (r:
    SearchCriteria)
    ensures
        r@ == criteria_of(vendor_id, product_id, chip),
{
    match (vendor_id, product_id, chip) {
        (Some(v), Some(p), _) => SearchCriteria::Explicit(
            IdentifierPair { vendor_id: v, product_id: p },
        ),
        (_, _, Some(name)) => SearchCriteria::Chip(name),
        _ => SearchCriteria::AnyKnown,
    }
}

/// The connected devices whose identifiers some chip family lists, in
/// enumeration order.
pub open spec fn known_among(devices: Seq<IdentifierPair>) -> Seq<IdentifierPair> {
    devices.filter(|p: IdentifierPair| known_in(table(), p))
}

/// The candidates a chip family name stands for: none if it is unknown.
pub open spec fn candidates_of(name: Seq<char>) -> Seq<IdentifierPair> {
    match lookup_in(table(), name) {
        Some(pairs) => pairs,
        None => Seq::empty(),
    }
}

/// An attempt has run out of candidates: wait if another attempt is
/// allowed, else finish with nothing found.
pub open spec fn end_attempt(m: LocatorModel) -> (LocatorModel, Action) {
    if m.attempts < m.max_attempts {
        (LocatorModel { waits: m.waits + 1, phase: Phase::Waiting, ..m }, Action::Wait(m.delay_ms))
    } else {
        (
            LocatorModel { phase: Phase::Finished(SearchResult::Absent), ..m },
            Action::Finish(SearchResult::Absent),
        )
    }
}

/// Go on with the current attempt: open the first pending candidate, or
/// end the attempt if none is left.
pub open spec fn try_pending(m: LocatorModel) -> (LocatorModel, Action) {
    if m.pending.len() > 0 {
        (LocatorModel { phase: Phase::Opening, ..m }, Action::Open(m.pending[0]))
    } else {
        end_attempt(m)
    }
}

/// Begin one more attempt.
pub open spec fn begin_attempt(m: LocatorModel) -> (LocatorModel, Action) {
    let m = LocatorModel { attempts: m.attempts + 1, ..m };
    match m.criteria {
        CriteriaModel::Explicit(pair) => try_pending(LocatorModel { pending: seq![pair], ..m }),
        CriteriaModel::Chip(name) => try_pending(
            LocatorModel { pending: candidates_of(name), ..m },
        ),
        CriteriaModel::AnyKnown => (
            LocatorModel { pending: Seq::empty(), phase: Phase::Listing, ..m },
            Action::Enumerate,
        ),
    }
}

/// The machine at the start of a search, and the first thing it asks for.
pub open spec fn start(criteria: CriteriaModel, delay_ms: u64, max_attempts: nat) -> (
    LocatorModel,
    Action,
) {
    let m = LocatorModel {
        criteria,
        delay_ms,
        max_attempts,
        attempts: 0,
        waits: 0,
        pending: Seq::empty(),
        phase: Phase::Waiting,
    };
    if max_attempts == 0 {
        end_attempt(m)
    } else {
        begin_attempt(m)
    }
}

/// What the machine is waiting for an answer to. Only a state that is not
/// well formed can be opening with nothing pending; it counts as waiting.
pub open spec fn asked(m: LocatorModel) -> Action {
    match m.phase {
        Phase::Opening => if m.pending.len() > 0 {
            Action::Open(m.pending[0])
        } else {
            Action::Wait(m.delay_ms)
        },
        Phase::Listing => Action::Enumerate,
        Phase::Waiting => Action::Wait(m.delay_ms),
        Phase::Finished(result) => Action::Finish(result),
    }
}

/// The machine's move on an event. An event that does not answer what was
/// asked changes nothing, and the machine asks again.
pub open spec fn next(m: LocatorModel, event: Event) -> (LocatorModel, Action) {
    match (m.phase, event) {
        (Phase::Opening, Event::Opened) if m.pending.len() > 0 => (
            LocatorModel { phase: Phase::Finished(SearchResult::Found(m.pending[0])), ..m },
            Action::Finish(SearchResult::Found(m.pending[0])),
        ),
        (Phase::Opening, Event::NotOpened) if m.pending.len() > 0 => try_pending(
            LocatorModel { pending: m.pending.skip(1), ..m },
        ),
        (Phase::Listing, Event::Connected(devices)) => try_pending(
            LocatorModel { pending: known_among(devices@), ..m },
        ),
        (Phase::Listing, Event::EnumerationFailed) => (
            LocatorModel { phase: Phase::Finished(SearchResult::TransportFailure), ..m },
            Action::Finish(SearchResult::TransportFailure),
        ),
        (Phase::Waiting, Event::Waited) if m.attempts < m.max_attempts => begin_attempt(m),
        _ => (m, asked(m)),
    }
}

/// What holds of every state a search passes through: the attempts stay
/// within their limit, a wait stands between any two attempts and
/// nowhere else, and the search gives up only when the attempts are
/// spent.
pub open spec fn wf(m: LocatorModel) -> bool {
    &&& m.attempts <= m.max_attempts
    &&& match m.phase {
        Phase::Opening => m.attempts >= 1 && m.waits + 1 == m.attempts && m.pending.len() > 0,
        Phase::Listing => m.attempts >= 1 && m.waits + 1 == m.attempts,
        Phase::Waiting => m.attempts >= 1 && m.waits == m.attempts && m.attempts < m.max_attempts,
        Phase::Finished(SearchResult::Absent) => m.attempts == m.max_attempts && (m.waits + 1
            == m.attempts || (m.max_attempts == 0 && m.waits == 0)),
        Phase::Finished(_) => m.attempts >= 1 && m.waits + 1 == m.attempts,
    }
}

/// Selecting the known devices among one more connected device keeps what
/// was selected and adds the new device exactly when it is known.
pub proof fn lemma_known_among_step(devices: Seq<IdentifierPair>, i: int)
    requires
        0 <= i < devices.len(),
    ensures
        known_among(devices.take(i + 1)) == if known_in(table(), devices[i]) {
            known_among(devices.take(i)).push(devices[i])
        } else {
            known_among(devices.take(i))
        },
{
    reveal(Seq::filter);
    assert(devices.take(i + 1).drop_last() =~= devices.take(i));
}

/// The connected devices that some chip family lists, in enumeration
/// order.
pub fn known_devices(devices: &Vec<IdentifierPair>) -> (r: Vec<IdentifierPair>)
    ensures
        r@ == known_among(devices@),
{
    let mut kept: Vec<IdentifierPair> = Vec::new();
    let mut i: usize = 0;
    proof {
        reveal(Seq::filter);
        assert(devices@.take(0).len() == 0);
    }
    while i < devices.len()
        invariant
            0 <= i <= devices.len(),
            kept@ == known_among(devices@.take(i as int)),
        decreases devices.len() - i,
    {
        proof {
            lemma_known_among_step(devices@, i as int);
        }
        if is_known(devices[i]) {
            kept.push(devices[i]);
        }
        i += 1;
    }
    proof {
        assert(devices@.take(devices.len() as int) =~= devices@);
    }
    kept
}

impl Locator {
    /// Starts a search of at most `max_attempts` attempts, `delay_ms`
    /// milliseconds apart, and says what to do first.
    pub fn begin(criteria: SearchCriteria, delay_ms: u64, max_attempts: usize) -> (r: (
        Locator,
        Action,
    ))
        ensures
            (r.0@, r.1) == start(criteria@, delay_ms, max_attempts as nat),
            wf(r.0@),
    {
        let mut machine = Locator {
            criteria,
            delay_ms,
            max_attempts,
            attempts: 0,
            waits: 0,
            pending: Vec::new(),
            phase: Phase::Waiting,
        };
        let action = if max_attempts == 0 {
            machine.end_attempt()
        } else {
            machine.begin_attempt()
        };
        (machine, action)
    }

    fn end_attempt(&mut self) -> (action: Action)
        requires
            old(self).waits <= old(self).attempts <= old(self).max_attempts,
        ensures
            (final(self)@, action) == end_attempt(old(self)@),
    {
        if self.attempts < self.max_attempts {
            self.waits = self.waits + 1;
            self.phase = Phase::Waiting;
            Action::Wait(self.delay_ms)
        } else {
            self.phase = Phase::Finished(SearchResult::Absent);
            Action::Finish(SearchResult::Absent)
        }
    }

    fn try_pending(&mut self) -> (action: Action)
        requires
            old(self).waits <= old(self).attempts <= old(self).max_attempts,
        ensures
            (final(self)@, action) == try_pending(old(self)@),
    {
        if self.pending.len() > 0 {
            self.phase = Phase::Opening;
            Action::Open(self.pending[0])
        } else {
            self.end_attempt()
        }
    }

    fn begin_attempt(&mut self) -> (action: Action)
        requires
            old(self).waits <= old(self).attempts < old(self).max_attempts,
        ensures
            (final(self)@, action) == begin_attempt(old(self)@),
    {
        self.attempts = self.attempts + 1;
        let mut candidates: Vec<IdentifierPair> = Vec::new();
        match &self.criteria {
            SearchCriteria::Explicit(pair) => {
                candidates.push(*pair);
                assert(candidates@ =~= seq![*pair]);
            },
            SearchCriteria::Chip(name) => {
                match lookup(name) {
                    Some(pairs) => {
                        candidates = pairs;
                    },
                    None => {},
                }
            },
            SearchCriteria::AnyKnown => {
                self.pending = candidates;
                self.phase = Phase::Listing;
                return Action::Enumerate;
            },
        }
        self.pending = candidates;
        self.try_pending()
    }

    /// Whether the state is one that a search can be in. `begin` and `step`
    /// give only such states.
    pub fn is_well_formed(&self) -> (r: bool)
        ensures
            r == wf(self@),
    {
        self.attempts <= self.max_attempts && match self.phase {
            Phase::Opening => self.attempts >= 1 && self.waits == self.attempts - 1
                && self.pending.len() > 0,
            Phase::Listing => self.attempts >= 1 && self.waits == self.attempts - 1,
            Phase::Waiting => self.attempts >= 1 && self.waits == self.attempts && self.attempts
                < self.max_attempts,
            Phase::Finished(SearchResult::Absent) => self.attempts == self.max_attempts && (
            self.max_attempts == 0 && self.waits == 0 || self.attempts >= 1 && self.waits
                == self.attempts - 1),
            Phase::Finished(_) => self.attempts >= 1 && self.waits == self.attempts - 1,
        }
    }

    /// Takes the answer to the last action and says what to do next.
    pub fn step(&mut self, event: Event) -> (action: Action)
        requires
            wf(old(self)@),
        ensures
            (final(self)@, action) == next(old(self)@, event),
            wf(final(self)@),
    {
        proof {
            law_next_keeps_wf(self@, event);
        }
        match self.phase {
            Phase::Opening => match event {
                Event::Opened => {
                    let found = SearchResult::Found(self.pending[0]);
                    self.phase = Phase::Finished(found);
                    Action::Finish(found)
                },
                Event::NotOpened => {
                    let ghost before = self.pending@;
                    self.pending.remove(0);
                    assert(self.pending@ =~= before.skip(1));
                    self.try_pending()
                },
                _ => Action::Open(self.pending[0]),
            },
            Phase::Listing => match event {
                Event::Connected(devices) => {
                    self.pending = known_devices(&devices);
                    self.try_pending()
                },
                Event::EnumerationFailed => {
                    self.phase = Phase::Finished(SearchResult::TransportFailure);
                    Action::Finish(SearchResult::TransportFailure)
                },
                _ => Action::Enumerate,
            },
            Phase::Waiting => match event {
                Event::Waited => self.begin_attempt(),
                _ => Action::Wait(self.delay_ms),
            },
            Phase::Finished(result) => Action::Finish(result),
        }
    }
}

/// A search starts in a state that is well formed, and waits for an
/// answer to the action it gave out.
pub proof fn law_start_wf(criteria: CriteriaModel, delay_ms: u64, max_attempts: nat)
    ensures
        wf(start(criteria, delay_ms, max_attempts).0),
        asked(start(criteria, delay_ms, max_attempts).0) == start(
            criteria,
            delay_ms,
            max_attempts,
        ).1,
{
}

/// Every move keeps the state well formed, changes neither the criteria
/// nor the delay nor the limit, and leaves the machine waiting for an
/// answer to the action it gave out.
pub proof fn law_next_keeps_wf(m: LocatorModel, event: Event)
    requires
        wf(m),
    ensures
        wf(next(m, event).0),
        asked(next(m, event).0) == next(m, event).1,
        next(m, event).0.criteria == m.criteria,
        next(m, event).0.delay_ms == m.delay_ms,
        next(m, event).0.max_attempts == m.max_attempts,
{
}

/// A search that may make at least one attempt gives up only after it
/// has made all of them, with one wait between any two: one wait fewer
/// than attempts, and none after the last.
pub proof fn law_absent_after_all_attempts(m: LocatorModel)
    requires
        wf(m),
        m.max_attempts >= 1,
        m.phase == Phase::Finished(SearchResult::Absent),
    ensures
        m.attempts == m.max_attempts,
        m.waits == m.max_attempts - 1,
{
}

} // verus!
