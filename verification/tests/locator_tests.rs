use cargo_dfu::chips::IdentifierPair;
use cargo_dfu::locator::{
    criteria_from, known_devices, Action, Event, Locator, Phase, SearchCriteria, SearchResult,
};

fn pair(vendor_id: u16, product_id: u16) -> IdentifierPair {
    IdentifierPair { vendor_id, product_id }
}

const STM32: IdentifierPair = IdentifierPair { vendor_id: 0x0483, product_id: 0xdf11 };
const GD32: IdentifierPair = IdentifierPair { vendor_id: 0x28e9, product_id: 0x0189 };

/// Runs a search in which no device is ever opened and no device is
/// connected; returns the result, the probes and the waits.
fn run_unmatched(criteria: SearchCriteria, max_attempts: usize) -> (SearchResult, usize, usize) {
    let (mut machine, mut action) = Locator::begin(criteria, 10, max_attempts);
    let mut probes = 0;
    let mut waits = 0;
    for _ in 0..1000 {
        action = match action {
            Action::Open(_) => {
                probes += 1;
                machine.step(Event::NotOpened)
            }
            Action::Enumerate => machine.step(Event::Connected(vec![])),
            Action::Wait(ms) => {
                assert_eq!(ms, 10);
                waits += 1;
                machine.step(Event::Waited)
            }
            Action::Finish(result) => return (result, probes, waits),
        };
    }
    panic!("the search did not end");
}

#[test]
fn explicit_pair_that_never_matches() {
    let (result, probes, waits) = run_unmatched(SearchCriteria::Explicit(pair(1, 2)), 3);
    assert_eq!(result, SearchResult::Absent);
    assert_eq!(probes, 3);
    assert_eq!(waits, 2);
}

#[test]
fn single_attempt_never_waits() {
    let (result, probes, waits) = run_unmatched(SearchCriteria::Explicit(pair(1, 2)), 1);
    assert_eq!((result, probes, waits), (SearchResult::Absent, 1, 0));
}

#[test]
fn no_attempts_allowed() {
    let (machine, action) = Locator::begin(SearchCriteria::AnyKnown, 10, 0);
    assert_eq!(action, Action::Finish(SearchResult::Absent));
    assert_eq!(machine.attempts, 0);
    assert_eq!(machine.waits, 0);
}

#[test]
fn unknown_chip_behaves_as_never_matching() {
    let (result, probes, waits) = run_unmatched(SearchCriteria::Chip("nosuchchip".to_string()), 3);
    assert_eq!(result, SearchResult::Absent);
    assert_eq!(probes, 0);
    assert_eq!(waits, 2);
    let (mut machine, action) = Locator::begin(SearchCriteria::Chip("nosuchchip".to_string()), 10, 3);
    assert_eq!(action, Action::Wait(10));
    assert_eq!(machine.step(Event::Waited), Action::Wait(10));
    assert_eq!(machine.step(Event::Waited), Action::Finish(SearchResult::Absent));
    assert_eq!(machine.attempts, 3);
}

#[test]
fn known_chip_probes_its_candidates() {
    let (mut machine, action) = Locator::begin(SearchCriteria::Chip("gd32vf103".to_string()), 10, 2);
    assert_eq!(action, Action::Open(GD32));
    assert_eq!(machine.step(Event::NotOpened), Action::Wait(10));
    assert_eq!(machine.step(Event::Waited), Action::Open(GD32));
    assert_eq!(machine.step(Event::Opened), Action::Finish(SearchResult::Found(GD32)));
    assert_eq!(machine.attempts, 2);
    assert_eq!(machine.waits, 1);
}

#[test]
fn any_known_pair_on_first_attempt() {
    let (mut machine, action) = Locator::begin(SearchCriteria::AnyKnown, 10, 60);
    assert_eq!(action, Action::Enumerate);
    let connected = vec![pair(0x1d6b, 0x0002), STM32, pair(0x8087, 0x0024)];
    assert_eq!(machine.step(Event::Connected(connected)), Action::Open(STM32));
    assert_eq!(machine.step(Event::Opened), Action::Finish(SearchResult::Found(STM32)));
    assert_eq!(machine.attempts, 1);
    assert_eq!(machine.waits, 0);
    assert_eq!(machine.phase, Phase::Finished(SearchResult::Found(STM32)));
}

#[test]
fn any_known_pair_tries_matches_in_enumeration_order() {
    let (mut machine, _) = Locator::begin(SearchCriteria::AnyKnown, 10, 2);
    let connected = vec![pair(1, 1), GD32, pair(2, 2), STM32];
    assert_eq!(machine.step(Event::Connected(connected)), Action::Open(GD32));
    assert_eq!(machine.step(Event::NotOpened), Action::Open(STM32));
    assert_eq!(machine.step(Event::NotOpened), Action::Wait(10));
    assert_eq!(machine.step(Event::Waited), Action::Enumerate);
    assert_eq!(machine.step(Event::Connected(vec![pair(1, 1)])), Action::Finish(SearchResult::Absent));
}

#[test]
fn enumeration_failure_is_fatal() {
    let (mut machine, action) = Locator::begin(SearchCriteria::AnyKnown, 10, 5);
    assert_eq!(action, Action::Enumerate);
    assert_eq!(
        machine.step(Event::EnumerationFailed),
        Action::Finish(SearchResult::TransportFailure)
    );
    assert_eq!(machine.attempts, 1);
    assert_eq!(machine.step(Event::Waited), Action::Finish(SearchResult::TransportFailure));
}

#[test]
fn unexpected_events_change_nothing() {
    let (mut machine, action) = Locator::begin(SearchCriteria::Explicit(STM32), 10, 2);
    assert_eq!(action, Action::Open(STM32));
    assert_eq!(machine.step(Event::Waited), Action::Open(STM32));
    assert_eq!(machine.step(Event::Connected(vec![GD32])), Action::Open(STM32));
    assert_eq!(machine.attempts, 1);
    assert_eq!(machine.step(Event::NotOpened), Action::Wait(10));
    assert_eq!(machine.step(Event::Opened), Action::Wait(10));
    assert_eq!(machine.step(Event::NotOpened), Action::Wait(10));
    assert_eq!(machine.waits, 1);
    assert_eq!(machine.step(Event::Waited), Action::Open(STM32));
    assert_eq!(machine.step(Event::Opened), Action::Finish(SearchResult::Found(STM32)));
    assert_eq!(machine.step(Event::NotOpened), Action::Finish(SearchResult::Found(STM32)));
}

#[test]
fn known_devices_keeps_enumeration_order() {
    assert_eq!(known_devices(&vec![pair(1, 1), GD32, STM32, pair(2, 2), GD32]), vec![GD32, STM32, GD32]);
    assert_eq!(known_devices(&vec![pair(0x0483, 0x0189)]), vec![]);
    assert_eq!(known_devices(&vec![]), vec![]);
}

#[test]
fn criteria_follow_the_options() {
    assert!(matches!(
        criteria_from(Some(0x0483), Some(0xdf11), None),
        SearchCriteria::Explicit(p) if p == STM32
    ));
    assert!(matches!(
        criteria_from(Some(1), Some(2), Some("stm32".to_string())),
        SearchCriteria::Explicit(p) if p == pair(1, 2)
    ));
    assert!(matches!(
        criteria_from(Some(1), None, Some("stm32".to_string())),
        SearchCriteria::Chip(name) if name == "stm32"
    ));
    assert!(matches!(criteria_from(None, Some(2), None), SearchCriteria::AnyKnown));
    assert!(matches!(criteria_from(None, None, None), SearchCriteria::AnyKnown));
}

#[test]
fn every_state_of_a_search_is_well_formed() {
    let (mut machine, mut action) = Locator::begin(SearchCriteria::AnyKnown, 10, 3);
    assert!(machine.is_well_formed());
    let events = vec![
        Event::Connected(vec![pair(1, 1), STM32]),
        Event::NotOpened,
        Event::Waited,
        Event::Connected(vec![]),
        Event::Opened,
        Event::Waited,
        Event::Connected(vec![GD32, STM32]),
        Event::NotOpened,
        Event::NotOpened,
    ];
    let expected = vec![
        Action::Open(STM32),
        Action::Wait(10),
        Action::Enumerate,
        Action::Wait(10),
        Action::Wait(10),
        Action::Enumerate,
        Action::Open(GD32),
        Action::Open(STM32),
        Action::Finish(SearchResult::Absent),
    ];
    assert_eq!(action, Action::Enumerate);
    for (event, want) in events.into_iter().zip(expected) {
        action = machine.step(event);
        assert_eq!(action, want);
        assert!(machine.is_well_formed());
    }
    assert_eq!(machine.attempts, 3);
    assert_eq!(machine.waits, 2);
}

#[test]
fn made_up_states_are_not_well_formed() {
    let (mut machine, _) = Locator::begin(SearchCriteria::Explicit(STM32), 10, 2);
    machine.waits = 5;
    assert!(!machine.is_well_formed());
    let (mut machine, _) = Locator::begin(SearchCriteria::Explicit(STM32), 10, 2);
    machine.pending.clear();
    assert!(!machine.is_well_formed());
    let (mut machine, _) = Locator::begin(SearchCriteria::Explicit(STM32), 10, 2);
    machine.attempts = 3;
    assert!(!machine.is_well_formed());
    let (mut machine, _) = Locator::begin(SearchCriteria::Explicit(STM32), 10, 2);
    machine.phase = Phase::Finished(SearchResult::Absent);
    assert!(!machine.is_well_formed());
}
