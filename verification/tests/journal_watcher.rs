use elite_presence::journal::{JournalWatcher, OpenOutcome, WatchStep};
use elite_presence::journal_event::{JournalEntry, JournalEvent};
use elite_presence::message::Message;

fn entry(timestamp: i64, event: JournalEvent) -> JournalEntry {
    JournalEntry { timestamp, event }
}

fn path(p: &str) -> String {
    p.to_string()
}

#[test]
fn new_watcher_opens_the_latest() {
    let watcher = JournalWatcher::new();
    assert_eq!(watcher.current_path, None);
    assert_eq!(watcher.last_path, None);
    assert_eq!(watcher.step(&path("Journal.01.log")), WatchStep::Open);
}

#[test]
fn journal_without_header_is_not_ready() {
    let mut watcher = JournalWatcher::new();
    let outcome = watcher.opened(path("Journal.01.log"), &vec![entry(1, JournalEvent::Other)]);
    assert_eq!(outcome, OpenOutcome::NotReady);
    assert_eq!(watcher.current_path, None);
    let outcome = watcher.opened(path("Journal.01.log"), &vec![]);
    assert_eq!(outcome, OpenOutcome::NotReady);
    assert_eq!(watcher.step(&path("Journal.01.log")), WatchStep::Open);
}

#[test]
fn finished_journal_is_not_reopened() {
    let mut watcher = JournalWatcher::new();
    let entries = vec![entry(1, JournalEvent::Fileheader), entry(2, JournalEvent::Shutdown)];
    assert_eq!(watcher.opened(path("Journal.01.log"), &entries), OpenOutcome::Finished);
    assert_eq!(watcher.last_path, Some(path("Journal.01.log")));
    assert_eq!(watcher.current_path, None);
    assert_eq!(watcher.step(&path("Journal.01.log")), WatchStep::Wait);
    assert_eq!(watcher.step(&path("Journal.02.log")), WatchStep::Open);
}

#[test]
fn started_journal_is_read() {
    let mut watcher = JournalWatcher::new();
    let entries = vec![entry(100, JournalEvent::Fileheader), entry(101, JournalEvent::Undocked)];
    assert_eq!(
        watcher.opened(path("Journal.01.log"), &entries),
        OpenOutcome::Started(Message::SessionStart { timestamp: 100 })
    );
    assert_eq!(watcher.current_path, Some(path("Journal.01.log")));
    assert_eq!(watcher.step(&path("Journal.01.log")), WatchStep::Read);
    assert_eq!(watcher.step(&path("Journal.02.log")), WatchStep::Open);
}

#[test]
fn events_are_passed_on_until_shutdown() {
    let mut watcher = JournalWatcher::new();
    watcher.opened(path("Journal.01.log"), &vec![entry(1, JournalEvent::Fileheader)]);
    let messages = watcher.read(vec![JournalEvent::Touchdown, JournalEvent::Liftoff]);
    assert_eq!(
        messages,
        vec![
            Message::JournalEvent(JournalEvent::Touchdown),
            Message::JournalEvent(JournalEvent::Liftoff)
        ]
    );
    assert_eq!(watcher.current_path, Some(path("Journal.01.log")));
    let messages = watcher.read(vec![
        JournalEvent::Undocked,
        JournalEvent::Shutdown,
        JournalEvent::Touchdown,
        JournalEvent::Shutdown,
    ]);
    assert_eq!(
        messages,
        vec![Message::JournalEvent(JournalEvent::Undocked), Message::SessionEnd]
    );
    assert_eq!(watcher.current_path, None);
    assert_eq!(watcher.last_path, Some(path("Journal.01.log")));
    assert_eq!(watcher.step(&path("Journal.01.log")), WatchStep::Wait);
}

#[test]
fn no_new_events_no_messages() {
    let mut watcher = JournalWatcher::new();
    watcher.opened(path("Journal.01.log"), &vec![entry(1, JournalEvent::Fileheader)]);
    assert!(watcher.read(vec![]).is_empty());
    assert_eq!(watcher.current_path, Some(path("Journal.01.log")));
}
