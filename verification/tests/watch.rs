use xilem_bar::shared::{
    clock_step, ClockAction, ClockEvent, MonitorInfo, SharedMessage, SharedWatcher, WatchAction, WatchEvent, WorkerEvent,
};

fn message(timestamp: u128) -> SharedMessage {
    SharedMessage {
        timestamp,
        monitor_info: MonitorInfo { monitor_num: 4, ltsymbol: "[M]".to_string(), tag_status_vec: vec![] },
    }
}

#[test]
fn a_watch_without_a_buffer_ends_at_once() {
    let mut watcher = SharedWatcher::new();
    match watcher.step(WatchEvent::Started { connected: false }) {
        WatchAction::PostAndStop(WorkerEvent::SharedError(error)) => assert_eq!(error, "Empty shared buffer"),
        other => panic!("{other:?}"),
    }
}

#[test]
fn a_watch_waits_reads_and_reports() {
    let mut watcher = SharedWatcher::new();
    assert!(matches!(watcher.step(WatchEvent::Started { connected: true }), WatchAction::Wait { timeout_secs: 2 }));
    assert!(matches!(watcher.step(WatchEvent::Waited(Ok(false))), WatchAction::Wait { timeout_secs: 2 }));
    assert!(matches!(watcher.step(WatchEvent::Waited(Ok(true))), WatchAction::Read));
    match watcher.step(WatchEvent::Read(Some(message(7)))) {
        WatchAction::Post(WorkerEvent::Shared(report)) => {
            assert_eq!(report.timestamp, 7);
            assert_eq!(report.monitor_info.monitor_num, 4);
            assert_eq!(report.monitor_info.ltsymbol, "[M]");
        }
        other => panic!("{other:?}"),
    }
    assert!(matches!(watcher.step(WatchEvent::Posted { delivered: true }), WatchAction::Wait { timeout_secs: 2 }));
    assert!(matches!(watcher.step(WatchEvent::Read(None)), WatchAction::Wait { timeout_secs: 2 }));
    assert!(matches!(watcher.step(WatchEvent::Posted { delivered: false }), WatchAction::Stop));
}

#[test]
fn an_error_is_the_last_report() {
    let mut watcher = SharedWatcher::new();
    match watcher.step(WatchEvent::Waited(Err("futex".to_string()))) {
        WatchAction::PostAndStop(WorkerEvent::SharedError(error)) => assert_eq!(error, "futex"),
        other => panic!("{other:?}"),
    }
}

#[test]
fn a_message_is_reported_once() {
    let mut watcher = SharedWatcher::new();
    let mut reported = vec![];
    for timestamp in [0_u128, 5, 5, 5, 8, 5, 5, 0] {
        if let WatchAction::Post(WorkerEvent::Shared(report)) =
            watcher.step(WatchEvent::Read(Some(message(timestamp))))
        {
            reported.push(report.timestamp);
        }
    }
    assert_eq!(reported, vec![5, 8, 5, 0]);
    assert_eq!(watcher.prev_ts, 0);
}

#[test]
fn what_is_not_a_message_does_not_count() {
    let mut watcher = SharedWatcher::new();
    let events = vec![
        WatchEvent::Started { connected: true },
        WatchEvent::Waited(Ok(false)),
        WatchEvent::Read(Some(message(3))),
        WatchEvent::Posted { delivered: true },
        WatchEvent::Waited(Ok(true)),
        WatchEvent::Read(None),
        WatchEvent::Read(Some(message(3))),
        WatchEvent::Waited(Ok(false)),
        WatchEvent::Read(Some(message(4))),
        WatchEvent::Posted { delivered: true },
    ];
    let mut reported = vec![];
    for event in events {
        if let WatchAction::Post(WorkerEvent::Shared(report)) = watcher.step(event) {
            reported.push(report.timestamp);
        }
    }
    assert_eq!(reported, vec![3, 4]);
    assert_eq!(watcher.prev_ts, 4);
}

#[test]
fn the_clock_ticks_until_the_bar_is_gone() {
    assert!(matches!(clock_step(ClockEvent::Started), ClockAction::Await { period_secs: 1 }));
    assert!(matches!(clock_step(ClockEvent::Elapsed), ClockAction::Post(WorkerEvent::Tick)));
    let delivered = clock_step(ClockEvent::Posted { delivered: true });
    assert!(matches!(delivered, ClockAction::Await { period_secs: 1 }));
    assert!(matches!(clock_step(ClockEvent::Posted { delivered: false }), ClockAction::Stop));
}
