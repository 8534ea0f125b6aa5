use ble_watcher::filter::ScanFilter;
use ble_watcher::watcher::{Action, BLEWatcher, PlatformCall, ScanError, Stage};

const UUID_A: u128 = 0x0000180d_0000_1000_8000_00805f9b34fb;
const UUID_B: u128 = 0x0000180f_0000_1000_8000_00805f9b34fb;

fn finished_with(a: &Action) -> Option<Result<(), ScanError>> {
    match a {
        Action::Finish(r) => Some(*r),
        Action::Perform(_) => None,
    }
}

fn started(services: Vec<u128>) -> BLEWatcher {
    let mut w = BLEWatcher::new();
    assert!(matches!(w.start(ScanFilter { services }), Action::Perform(PlatformCall::Configure)));
    assert!(matches!(w.platform_result(true), Action::Perform(PlatformCall::Subscribe(_))));
    assert!(matches!(w.platform_result(true), Action::Perform(PlatformCall::Start)));
    assert_eq!(finished_with(&w.platform_result(true)), Some(Ok(())));
    w
}

#[test]
fn full_start_sequence_reaches_scanning() {
    let mut w = BLEWatcher::new();
    assert_eq!(w.stage(), Stage::Stopped);
    assert!(matches!(w.start(ScanFilter { services: vec![UUID_A] }), Action::Perform(PlatformCall::Configure)));
    assert_eq!(w.stage(), Stage::Configuring);
    match w.platform_result(true) {
        Action::Perform(PlatformCall::Subscribe(f)) => assert_eq!(f.services, vec![UUID_A]),
        _ => panic!("expected the subscribe call"),
    }
    assert_eq!(w.stage(), Stage::Subscribing);
    assert!(matches!(w.platform_result(true), Action::Perform(PlatformCall::Start)));
    assert_eq!(w.stage(), Stage::Starting);
    assert_eq!(finished_with(&w.platform_result(true)), Some(Ok(())));
    assert!(w.is_scanning());
}

#[test]
fn second_start_is_refused_and_keeps_the_session() {
    let mut w = started(vec![UUID_A]);
    let again = w.start(ScanFilter { services: vec![UUID_B] });
    assert_eq!(finished_with(&again), Some(Err(ScanError::AlreadyScanning)));
    assert!(w.is_scanning());
    assert!(matches!(w.stop(), Action::Perform(PlatformCall::Stop)));
    assert_eq!(finished_with(&w.platform_result(true)), Some(Ok(())));
    assert_eq!(w.stage(), Stage::Stopped);
}

#[test]
fn start_during_pending_start_is_refused() {
    let mut w = BLEWatcher::new();
    w.start(ScanFilter { services: vec![] });
    let again = w.start(ScanFilter { services: vec![UUID_B] });
    assert_eq!(finished_with(&again), Some(Err(ScanError::AlreadyScanning)));
    assert_eq!(w.stage(), Stage::Configuring);
}

#[test]
fn stop_when_stopped_is_harmless() {
    let mut w = BLEWatcher::new();
    assert_eq!(finished_with(&w.stop()), Some(Ok(())));
    assert_eq!(finished_with(&w.stop()), Some(Ok(())));
    assert_eq!(w.stage(), Stage::Stopped);
}

#[test]
fn refused_configuration_ends_the_start() {
    let mut w = BLEWatcher::new();
    w.start(ScanFilter { services: vec![UUID_A] });
    assert_eq!(finished_with(&w.platform_result(false)), Some(Err(ScanError::PlatformConfig)));
    assert_eq!(w.stage(), Stage::Stopped);
}

#[test]
fn refused_subscription_ends_the_start() {
    let mut w = BLEWatcher::new();
    w.start(ScanFilter { services: vec![UUID_A] });
    w.platform_result(true);
    assert_eq!(finished_with(&w.platform_result(false)), Some(Err(ScanError::PlatformSubscribe)));
    assert_eq!(w.stage(), Stage::Stopped);
}

#[test]
fn refused_start_ends_the_start_and_allows_a_new_one() {
    let mut w = BLEWatcher::new();
    w.start(ScanFilter { services: vec![UUID_A] });
    w.platform_result(true);
    w.platform_result(true);
    assert_eq!(finished_with(&w.platform_result(false)), Some(Err(ScanError::PlatformStart)));
    assert_eq!(w.stage(), Stage::Stopped);
    assert!(matches!(w.start(ScanFilter { services: vec![UUID_B] }), Action::Perform(PlatformCall::Configure)));
}

#[test]
fn refused_stop_keeps_scanning() {
    let mut w = started(vec![UUID_A]);
    w.stop();
    assert_eq!(finished_with(&w.platform_result(false)), Some(Err(ScanError::PlatformStop)));
    assert!(w.is_scanning());
}

#[test]
fn calls_out_of_turn_are_refused() {
    let mut w = BLEWatcher::new();
    assert_eq!(finished_with(&w.platform_result(true)), Some(Err(ScanError::OutOfTurn)));
    w.start(ScanFilter { services: vec![UUID_A] });
    assert_eq!(finished_with(&w.stop()), Some(Err(ScanError::OutOfTurn)));
    assert_eq!(w.stage(), Stage::Configuring);
    let mut s = started(vec![UUID_A]);
    assert_eq!(finished_with(&s.platform_result(true)), Some(Err(ScanError::OutOfTurn)));
    assert!(s.is_scanning());
}
