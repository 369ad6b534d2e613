//! The journal watcher's decisions: which journal to follow, when a session
//! starts and ends, and which events are passed on.
//!
//! The watcher polls the journals' directory. When the latest journal is one
//! it has not followed yet, it opens it: a journal that does not begin with a
//! file header is not ready yet; one that already ends with a shutdown is a
//! finished session, remembered so as not to open it again; any other starts a
//! session. While a session is followed, each new event is passed on, until a
//! shutdown ends the session.

use vstd::prelude::*;

use crate::journal_event::{JournalEntry, JournalEvent};
use crate::message::Message;

verus! {

/// What the watcher does once it knows the latest journal.
#[derive(Debug, Clone, Copy, PartialEq, Eq, Structural)]
pub enum WatchStep {
    /// The latest journal is the finished one: wait, then look again.
    Wait,
    /// The latest journal is not the one followed: open and read it whole.
    Open,
    /// The latest journal is the one followed: read its new events.
    Read,
}

/// What an opened journal tells.
#[derive(Debug, Clone, PartialEq, Eq)]
pub enum OpenOutcome {
    /// It does not begin with a file header: wait, then look again.
    NotReady,
    /// It already ends with a shutdown: look again at once.
    Finished,
    /// A session starts; the message announces it.
    Started(Message),
}

/// The journals that the watcher knows: the one it follows (if any), and the
/// last one whose session it saw end (if any).
pub struct JournalWatcher {
    pub current_path: Option<String>,
    pub last_path: Option<String>,
}

/// The step for `latest`, given the followed and the finished journals.
pub open spec fn watch_step(
    current: Option<Seq<char>>,
    last: Option<Seq<char>>,
    latest: Seq<char>,
) -> WatchStep {
    if last == Some(latest) {
        WatchStep::Wait
    } else if current != Some(latest) {
        WatchStep::Open
    } else {
        WatchStep::Read
    }
}

/// How many events come before the first shutdown (all of them, if none).
pub open spec fn events_before_shutdown(events: Seq<JournalEvent>) -> nat
    decreases events.len(),
{
    if events.len() == 0 {
        0
    } else if events[0] is Shutdown {
        0
    } else {
        1 + events_before_shutdown(events.drop_first())
    }
}

/// The events of a batch contain a shutdown.
pub open spec fn has_shutdown(events: Seq<JournalEvent>) -> bool {
    events_before_shutdown(events) < events.len()
}

/// The messages that a batch of new events gives: each event before the first
/// shutdown, in order, then the end of the session if there is a shutdown.
pub open spec fn forwarded(events: Seq<JournalEvent>) -> Seq<Message> {
    events.take(events_before_shutdown(events) as int).map_values(
        |e: JournalEvent| Message::JournalEvent(e),
    ) + if has_shutdown(events) {
        seq![Message::SessionEnd]
    } else {
        Seq::empty()
    }
}

/// The first shutdown of a batch is at `events_before_shutdown`, and nothing
/// before it is a shutdown.
pub proof fn lemma_events_before_shutdown(events: Seq<JournalEvent>)
    ensures
        events_before_shutdown(events) <= events.len(),
        forall|i: int|
            0 <= i < events_before_shutdown(events) ==> !(#[trigger] events[i] is Shutdown),
        has_shutdown(events) ==> events[events_before_shutdown(events) as int] is Shutdown,
    decreases events.len(),
{
    if events.len() > 0 && !(events[0] is Shutdown) {
        let rest = events.drop_first();
        lemma_events_before_shutdown(rest);
        assert forall|i: int| 0 <= i < events_before_shutdown(events) implies !(
        #[trigger] events[i] is Shutdown) by {
            if i > 0 {
                assert(events[i] == rest[i - 1]);
            }
        }
    }
}

/// The messages of a batch: the end of the session comes at most once, and
/// last; no shutdown is passed on as an event; there are no more messages
/// than events.
pub proof fn lemma_forwarded_shape(events: Seq<JournalEvent>)
    ensures
        forwarded(events).len() <= events.len(),
        forall|i: int|
            0 <= i < forwarded(events).len() && #[trigger] forwarded(events)[i] is SessionEnd ==> i
                == forwarded(events).len() - 1,
        forall|i: int|
            0 <= i < forwarded(events).len() ==> !(#[trigger] forwarded(events)[i] matches Message::JournalEvent(
                e,
            ) && e is Shutdown),
{
    lemma_events_before_shutdown(events);
    let k = events_before_shutdown(events) as int;
    let f = forwarded(events);
    assert forall|i: int| 0 <= i < f.len() && #[trigger] f[i] is SessionEnd implies i == f.len()
        - 1 by {
        if i < k {
            assert(f[i] == Message::JournalEvent(events[i]));
        }
    }
    assert forall|i: int| 0 <= i < f.len() implies !(#[trigger] f[i] matches Message::JournalEvent(
        e,
    ) && e is Shutdown) by {
        if i < k {
            assert(f[i] == Message::JournalEvent(events[i]));
        }
    }
}

/// A journal remembered as finished is waited on, never opened again,
/// whichever journal is followed.
pub proof fn lemma_finished_journal_waits(current: Option<Seq<char>>, finished: Seq<char>)
    ensures
        watch_step(current, Some(finished), finished) == WatchStep::Wait,
{
}

fn same_path(path: &Option<String>, latest: &String) -> (same: bool)
    ensures
        same == (path.deep_view() == Some(latest@)),
{
    match path {
        Some(p) => *p == *latest,
        None => false,
    }
}

impl JournalWatcher {
    /// A watcher that has not followed any journal yet.
    pub fn new() -> (watcher: JournalWatcher)
        ensures
            watcher.current_path is None,
            watcher.last_path is None,
    {
        JournalWatcher { current_path: None, last_path: None }
    }

    /// What to do, once `latest` is known to be the latest journal.
    pub fn step(&self, latest: &String) -> (step: WatchStep)
        ensures
            step == watch_step(self.current_path.deep_view(), self.last_path.deep_view(), latest@),
    {
        if same_path(&self.last_path, latest) {
            WatchStep::Wait
        } else if !same_path(&self.current_path, latest) {
            WatchStep::Open
        } else {
            WatchStep::Read
        }
    }

    /// Takes in the entries of the journal `latest`, just opened and read whole.
    pub fn opened(&mut self, latest: String, entries: &Vec<JournalEntry>) -> (outcome: OpenOutcome)
        ensures
            !(entries@.len() > 0 && entries@[0].event is Fileheader) ==> {
                &&& outcome == OpenOutcome::NotReady
                &&& final(self).current_path == old(self).current_path
                &&& final(self).last_path == old(self).last_path
            },
            entries@.len() > 0 && entries@[0].event is Fileheader && entries@.last().event is Shutdown
                ==> {
                &&& outcome == OpenOutcome::Finished
                &&& final(self).current_path == old(self).current_path
                &&& final(self).last_path == Some(latest)
            },
            entries@.len() > 0 && entries@[0].event is Fileheader && !(
            entries@.last().event is Shutdown) ==> {
                &&& outcome == OpenOutcome::Started(
                    Message::SessionStart { timestamp: entries@[0].timestamp },
                )
                &&& final(self).current_path == Some(latest)
                &&& final(self).last_path == old(self).last_path
            },
    {
        if entries.len() == 0 {
            return OpenOutcome::NotReady;
        }
        let first = &entries[0];
        if !matches!(first.event, JournalEvent::Fileheader) {
            return OpenOutcome::NotReady;
        }
        let last = &entries[entries.len() - 1];
        if matches!(last.event, JournalEvent::Shutdown) {
            self.last_path = Some(latest);
            return OpenOutcome::Finished;
        }
        let timestamp = first.timestamp;
        self.current_path = Some(latest);
        OpenOutcome::Started(Message::SessionStart { timestamp })
    }

    /// Takes in the new events of the followed journal, and gives the messages
    /// to pass on. A shutdown ends the session: the journal followed becomes
    /// the finished one, and nothing after the shutdown is passed on.
    pub fn read(&mut self, events: Vec<JournalEvent>) -> (messages: Vec<Message>)
        ensures
            messages@ == forwarded(events@),
            has_shutdown(events@) ==> {
                &&& final(self).current_path is None
                &&& final(self).last_path == old(self).current_path
            },
            !has_shutdown(events@) ==> {
                &&& final(self).current_path == old(self).current_path
                &&& final(self).last_path == old(self).last_path
            },
    {
        proof {
            lemma_events_before_shutdown(events@);
        }
        let ghost all = events@;
        let ghost k = events_before_shutdown(all);
        let mut messages: Vec<Message> = Vec::new();
        let total = events.len();
        let mut rest = events;
        let mut i: usize = 0;
        while rest.len() > 0
            invariant_except_break
                i <= k,
                i + rest@.len() == all.len(),
                all.len() == total,
                rest@ == all.skip(i as int),
                k == events_before_shutdown(all),
                k <= all.len(),
                forall|j: int| 0 <= j < k ==> !(#[trigger] all[j] is Shutdown),
                has_shutdown(all) ==> all[k as int] is Shutdown,
                messages@ == all.take(i as int).map_values(|e: JournalEvent| Message::JournalEvent(e)),
                self.current_path == old(self).current_path,
                self.last_path == old(self).last_path,
            ensures
                messages@ == forwarded(all),
                has_shutdown(all) ==> {
                    &&& self.current_path is None
                    &&& self.last_path == old(self).current_path
                },
                !has_shutdown(all) ==> {
                    &&& self.current_path == old(self).current_path
                    &&& self.last_path == old(self).last_path
                },
            decreases rest@.len(),
        {
            let event = rest.remove(0);
            proof {
                assert(all.skip(i + 1) =~= all.skip(i as int).drop_first());
                assert(all[i as int] == event);
            }
            if matches!(event, JournalEvent::Shutdown) {
                messages.push(Message::SessionEnd);
                self.last_path = self.current_path.take();
                proof {
                    assert(i == k);
                    assert(messages@ =~= forwarded(all));
                }
                break;
            }
            let ghost before = messages@;
            messages.push(Message::JournalEvent(event));
            proof {
                assert(i < k) by {
                    if i == k {
                        assert(has_shutdown(all));
                    }
                }
                assert(all.take(i + 1).map_values(|e: JournalEvent| Message::JournalEvent(e))
                    =~= before.push(Message::JournalEvent(event)));
            }
            i = i + 1;
        }
        messages
    }
}

} // verus!
