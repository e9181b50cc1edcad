use doorsign::bt::{
    DeviceWatcher, DisplayRequest, WatcherAction, WatcherEvent, WatcherState, COOLDOWN_MS,
    COOLDOWN_SEC, TARGET_DEVICE,
};
use doorsign::calendar::{CalendarInfo, Status};
use doorsign::cell::SharedStatusCell;
use doorsign::writer::WriteError;

fn standup() -> CalendarInfo {
    CalendarInfo { status: Status::Busy, start_time: [9, 0], duration: 6, label: "Standup".to_string() }
}

fn advert(name: &str) -> WatcherEvent {
    WatcherEvent::Advertisement(Some(name.to_string()))
}

fn write_of(info: CalendarInfo) -> WatcherAction {
    WatcherAction::Write(DisplayRequest::new(info))
}

fn scanning(last_write: Option<u64>) -> DeviceWatcher {
    DeviceWatcher { state: WatcherState::Scanning, last_write }
}

/// Follows one advertisement through and says whether it ended in a write.
fn wake(watcher: &mut DeviceWatcher, name: &str, now: u64, cell: &SharedStatusCell) -> bool {
    if watcher.step(advert(name)) != WatcherAction::ReadClock {
        return false;
    }
    if watcher.step(WatcherEvent::Clock(now)) != WatcherAction::ReadStatus {
        return false;
    }
    matches!(watcher.step(WatcherEvent::Snapshot(cell.snapshot())), WatcherAction::Write(_))
}

#[test]
fn constants_of_the_watcher() {
    assert_eq!(TARGET_DEVICE, "DoorSign");
    assert_eq!(COOLDOWN_SEC, 30);
    assert_eq!(COOLDOWN_MS, COOLDOWN_SEC * 1000);
}

#[test]
fn new_watcher_scans_without_cooldown() {
    assert_eq!(DeviceWatcher::new(), scanning(None));
}

#[test]
fn first_wake_is_written_to() {
    let mut watcher = DeviceWatcher::new();
    assert_eq!(watcher.step(advert("DoorSign-1")), WatcherAction::ReadClock);
    assert_eq!(watcher.state, WatcherState::CandidateSeen);
    assert_eq!(watcher.step(WatcherEvent::Clock(0)), WatcherAction::ReadStatus);
    assert_eq!(watcher.state, WatcherState::CooldownCheck);
    assert_eq!(watcher.step(WatcherEvent::Snapshot(Some(standup()))), write_of(standup()));
    assert_eq!(watcher.state, WatcherState::Writing);
    assert_eq!(watcher.step(WatcherEvent::WriteFinished(Ok(()), 1_200)), WatcherAction::Observe);
    assert_eq!(watcher, scanning(Some(1_200)));
}

#[test]
fn other_peripherals_are_ignored() {
    let mut watcher = DeviceWatcher::new();
    for name in ["", "Thermostat", "doorsign", "Door Sign", "DoorSig"] {
        assert_eq!(watcher.step(advert(name)), WatcherAction::Observe);
        assert_eq!(watcher, scanning(None));
    }
    assert_eq!(watcher.step(WatcherEvent::Advertisement(None)), WatcherAction::Observe);
    assert_eq!(watcher, scanning(None));
}

#[test]
fn name_need_only_contain_the_target() {
    for name in ["DoorSign", "Office DoorSign", "DoorSign (2)", "xxDoorSignxx"] {
        let mut watcher = DeviceWatcher::new();
        assert_eq!(watcher.step(advert(name)), WatcherAction::ReadClock);
    }
}

#[test]
fn wake_without_a_status_returns_to_scanning() {
    let mut watcher = scanning(Some(5));
    assert_eq!(watcher.step(advert("DoorSign")), WatcherAction::ReadClock);
    assert_eq!(watcher.step(WatcherEvent::Clock(100_000)), WatcherAction::ReadStatus);
    assert_eq!(watcher.step(WatcherEvent::Snapshot(None)), WatcherAction::Observe);
    assert_eq!(watcher, scanning(Some(5)));
}

#[test]
fn wake_during_cooldown_is_dropped() {
    let mut watcher = scanning(Some(10_000));
    assert_eq!(watcher.step(advert("DoorSign")), WatcherAction::ReadClock);
    assert_eq!(watcher.step(WatcherEvent::Clock(39_999)), WatcherAction::Observe);
    assert_eq!(watcher, scanning(Some(10_000)));
}

#[test]
fn cooldown_ends_after_thirty_seconds() {
    let mut watcher = scanning(Some(10_000));
    watcher.step(advert("DoorSign"));
    assert_eq!(watcher.step(WatcherEvent::Clock(40_000)), WatcherAction::ReadStatus);
    assert_eq!(watcher.state, WatcherState::CooldownCheck);
    assert_eq!(watcher.last_write, Some(10_000));
}

#[test]
fn clock_behind_the_last_write_counts_as_cooldown() {
    let mut watcher = scanning(Some(10_000));
    watcher.step(advert("DoorSign"));
    assert_eq!(watcher.step(WatcherEvent::Clock(9_000)), WatcherAction::Observe);
    assert_eq!(watcher, scanning(Some(10_000)));
}

#[test]
fn two_wakes_after_a_successful_write_cause_no_second_write() {
    let mut cell = SharedStatusCell::new();
    cell.publish(standup());
    let mut watcher = DeviceWatcher::new();
    let mut writes = 0;
    if wake(&mut watcher, "DoorSign", 1_000, &cell) {
        writes += 1;
        watcher.step(WatcherEvent::WriteFinished(Ok(()), 2_000));
    }
    for now in [2_000, 5_000, 31_999] {
        if wake(&mut watcher, "DoorSign", now, &cell) {
            writes += 1;
            watcher.step(WatcherEvent::WriteFinished(Ok(()), now + 500));
        }
    }
    assert_eq!(writes, 1);
    assert_eq!(watcher, scanning(Some(2_000)));
    assert!(wake(&mut watcher, "DoorSign", 32_000, &cell));
}

#[test]
fn failed_write_does_not_start_the_cooldown() {
    let mut cell = SharedStatusCell::new();
    cell.publish(standup());
    let mut watcher = DeviceWatcher::new();
    assert!(wake(&mut watcher, "DoorSign", 1_000, &cell));
    let action = watcher.step(WatcherEvent::WriteFinished(Err(WriteError::WriteFailed), 2_000));
    assert_eq!(action, WatcherAction::Observe);
    assert_eq!(watcher, scanning(None));
}

#[test]
fn failed_write_does_not_extend_the_cooldown() {
    let mut cell = SharedStatusCell::new();
    cell.publish(standup());
    let mut watcher = scanning(Some(1_000));
    assert!(wake(&mut watcher, "DoorSign", 31_000, &cell));
    watcher.step(WatcherEvent::WriteFinished(Err(WriteError::DiscoveryFailed), 33_000));
    assert_eq!(watcher, scanning(Some(1_000)));
    assert!(wake(&mut watcher, "DoorSign", 33_001, &cell));
}

#[test]
fn connect_timeout_is_retried_on_the_next_advertisement() {
    let mut cell = SharedStatusCell::new();
    cell.publish(standup());
    let mut watcher = scanning(Some(0));
    assert!(wake(&mut watcher, "DoorSign", 60_000, &cell));
    assert_eq!(watcher.state, WatcherState::Writing);
    let action = watcher.step(WatcherEvent::WriteFinished(Err(WriteError::ConnectTimeout), 65_000));
    assert_eq!(action, WatcherAction::Observe);
    assert_eq!(watcher, scanning(Some(0)));
    assert_eq!(watcher.step(advert("DoorSign")), WatcherAction::ReadClock);
    assert_eq!(watcher.step(WatcherEvent::Clock(65_100)), WatcherAction::ReadStatus);
    assert_eq!(watcher.step(WatcherEvent::Snapshot(cell.snapshot())), write_of(standup()));
    assert_eq!(watcher.state, WatcherState::Writing);
}

#[test]
fn every_failure_leaves_the_cooldown_alone() {
    let errors = [
        WriteError::ConnectTimeout,
        WriteError::ConnectFailed,
        WriteError::DiscoveryFailed,
        WriteError::CharacteristicNotFound,
        WriteError::WriteFailed,
    ];
    for error in errors {
        for last_write in [None, Some(7)] {
            let mut watcher = DeviceWatcher { state: WatcherState::Writing, last_write };
            assert_eq!(
                watcher.step(WatcherEvent::WriteFinished(Err(error), 99_000)),
                WatcherAction::Observe
            );
            assert_eq!(watcher, scanning(last_write));
        }
    }
}

#[test]
fn latest_status_is_the_one_written() {
    let mut cell = SharedStatusCell::new();
    cell.publish(standup());
    let later = CalendarInfo {
        status: Status::Focus,
        start_time: [10, 0],
        duration: 12,
        label: "Deep work".to_string(),
    };
    cell.publish(later.clone());
    let mut watcher = DeviceWatcher::new();
    watcher.step(advert("DoorSign"));
    watcher.step(WatcherEvent::Clock(0));
    let action = watcher.step(WatcherEvent::Snapshot(cell.snapshot()));
    assert_eq!(action, write_of(later.clone()));
    if let WatcherAction::Write(request) = action {
        assert_eq!(request.payload(), later.to_json().into_bytes());
        assert_eq!(
            String::from_utf8(request.payload()).unwrap(),
            "{\"status\":\"Focus\",\"start_time\":[10,0],\"duration\":12,\"label\":\"Deep work\"}"
        );
    }
}

#[test]
fn events_out_of_turn_change_nothing() {
    let stray = || {
        vec![
            advert("DoorSign"),
            WatcherEvent::Clock(1_000_000),
            WatcherEvent::Snapshot(Some(standup())),
            WatcherEvent::Snapshot(None),
            WatcherEvent::WriteFinished(Ok(()), 1_000_000),
            WatcherEvent::WriteFinished(Err(WriteError::WriteFailed), 1_000_000),
        ]
    };
    let cases = [
        (WatcherState::Scanning, WatcherAction::Observe, 0),
        (WatcherState::CandidateSeen, WatcherAction::ReadClock, 1),
        (WatcherState::CooldownCheck, WatcherAction::ReadStatus, 2),
        (WatcherState::Writing, WatcherAction::AwaitWrite, 4),
    ];
    for (state, pending, awaited) in cases {
        for (i, event) in stray().into_iter().enumerate() {
            let expected = match state {
                WatcherState::Scanning => i == 0,
                WatcherState::CandidateSeen => i == 1,
                WatcherState::CooldownCheck => i == 2 || i == 3,
                WatcherState::Writing => i == 4 || i == 5,
            };
            if expected {
                continue;
            }
            let mut watcher = DeviceWatcher { state, last_write: Some(3) };
            assert_eq!(watcher.step(event), pending, "state {:?}, event {}", state, i);
            assert_eq!(watcher, DeviceWatcher { state, last_write: Some(3) });
        }
        assert!(awaited < 6);
    }
}
