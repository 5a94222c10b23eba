use home_client::commands::Request;
use home_client::error::ProtocolError;
use home_client::scheduler::{Scheduler, Worker, WorkerAction, WorkerEvent};
use home_client::store::{Locale, LocaleTable};

fn two_rooms() -> LocaleTable {
    LocaleTable {
        locale_list: vec![
            Locale { locate: "kitchen".to_string(), status: "on".to_string() },
            Locale { locate: "den".to_string(), status: "off".to_string() },
        ],
    }
}

fn statuses(table: &LocaleTable) -> Vec<&str> {
    table.locale_list.iter().map(|row| row.status.as_str()).collect()
}

#[test]
fn scheduler_starts_idle() {
    let scheduler = Scheduler::new();
    assert!(!scheduler.polling());
    assert!(scheduler.workers.is_empty());
}

#[test]
fn first_configuration_starts_polling() {
    let mut scheduler = Scheduler::new();
    let worker = scheduler.configure(10, "192.168.0.7:11000");
    assert!(scheduler.polling());
    assert_eq!(worker.interval, 10);
    assert_eq!(worker.destination, "192.168.0.7:11000");
    assert_eq!(scheduler.workers.len(), 1);
}

#[test]
fn every_configuration_adds_a_worker() {
    let mut scheduler = Scheduler::new();
    scheduler.configure(10, "a:1");
    scheduler.configure(0, "b:2");
    let third = scheduler.configure(3600, "c:3");
    assert!(scheduler.polling());
    assert_eq!(third.interval, 3600);
    let started: Vec<(u64, &str)> =
        scheduler.workers.iter().map(|w| (w.interval, w.destination.as_str())).collect();
    assert_eq!(started, vec![(10, "a:1"), (0, "b:2"), (3600, "c:3")]);
}

#[test]
fn worker_sleeps_first_and_after_publishing() {
    let worker = Worker { interval: 7, destination: "a:1".to_string() };
    let mut table = two_rooms();
    assert!(matches!(worker.step(WorkerEvent::Started, &mut table), WorkerAction::Sleep(7)));
    assert!(matches!(worker.step(WorkerEvent::Published, &mut table), WorkerAction::Sleep(7)));
    assert_eq!(statuses(&table), vec!["on", "off"]);
}

#[test]
fn worker_asks_for_everything_after_sleeping() {
    let worker = Worker { interval: 7, destination: "10.0.0.2:11000".to_string() };
    let mut table = two_rooms();
    match worker.step(WorkerEvent::Slept, &mut table) {
        WorkerAction::Ask(Request::GetAll, destination) => assert_eq!(destination, "10.0.0.2:11000"),
        other => panic!("expected a poll, got {:?}", other),
    }
    assert_eq!(statuses(&table), vec!["on", "off"]);
}

#[test]
fn worker_merges_and_publishes_the_answer() {
    let worker = Worker { interval: 7, destination: "a:1".to_string() };
    let mut table = two_rooms();
    let answer = r#"{"locale_list":[{"locate":"den","status":"ON"},{"locate":"attic","status":"on"}]}"#;
    match worker.step(WorkerEvent::Answered(answer.to_string()), &mut table) {
        WorkerAction::Publish(published) => assert_eq!(statuses(&published), vec!["on", "on"]),
        other => panic!("expected a table, got {:?}", other),
    }
    assert_eq!(statuses(&table), vec!["on", "on"]);
}

#[test]
fn worker_stops_on_an_unreadable_answer() {
    let worker = Worker { interval: 7, destination: "a:1".to_string() };
    let mut table = two_rooms();
    let action = worker.step(WorkerEvent::Answered("???".to_string()), &mut table);
    assert!(matches!(action, WorkerAction::Stop(ProtocolError::Json)));
    let action = worker.step(WorkerEvent::Answered("{}".to_string()), &mut table);
    assert!(matches!(action, WorkerAction::Stop(ProtocolError::Shape)));
    assert_eq!(statuses(&table), vec!["on", "off"]);
}
