//! Append-only per-saga event log: the source of truth for recovery.

use vstd::prelude::*;
use vstd::string::StringExecFns;

use crate::context::SagaId;
use crate::events::ParticipantEvent;
use crate::u64map::U64Map;

verus! {

/// One journal record: a sequence number, a timestamp, and the event.
/// Never mutated once appended.
#[derive(Clone, Debug)]
#[verifier::ext_equal]
pub struct JournalEntry {
    /// Sequence number, strictly increasing per saga.
    pub sequence: u64,
    /// When the entry was recorded (millis since the UNIX epoch).
    pub recorded_at_millis: u64,
    /// The recorded event.
    pub event: ParticipantEvent,
}

/// Error from a journal store.
#[derive(Debug)]
pub enum JournalError {
    /// The backing store failed.
    Storage(String),
    /// The saga has no journal.
    NotFound(SagaId),
}

/// Whether the sequence numbers of `s` are strictly increasing.
pub open spec fn entries_increasing(s: Seq<JournalEntry>) -> bool {
    forall|i: int, j: int|
        0 <= i < j < s.len() ==> (#[trigger] s[i]).sequence < (#[trigger] s[j]).sequence
}

/// Whether every sequence number of `s` lies below `bound`.
pub open spec fn entries_below(s: Seq<JournalEntry>, bound: u64) -> bool {
    forall|i: int| 0 <= i < s.len() ==> (#[trigger] s[i]).sequence < bound
}

/// Contract of a journal store: per saga an append-only log whose
/// sequence numbers strictly increase, read back in append order.
pub trait ParticipantJournal {
    /// The entries of each saga, in append order.
    spec fn journal_view(&self) -> Map<u64, Seq<JournalEntry>>;

    /// Well-formedness of the store; every operation preserves it.
    spec fn journal_wf(&self) -> bool;

    /// Append `event` for `saga_id`, returning the assigned sequence,
    /// which is strictly greater than every sequence of the saga so far.
    fn append(&mut self, saga_id: SagaId, event: ParticipantEvent, now_millis: u64) -> (r: Result<
        u64,
        JournalError,
    >)
        requires
            old(self).journal_wf(),
        ensures
            final(self).journal_wf(),
            match r {
                Ok(seq) => {
                    let entry = JournalEntry {
                        sequence: seq,
                        recorded_at_millis: now_millis,
                        event,
                    };
                    let prior = if old(self).journal_view().contains_key(saga_id.0) {
                        old(self).journal_view()[saga_id.0]
                    } else {
                        Seq::<JournalEntry>::empty()
                    };
                    &&& final(self).journal_view() == old(self).journal_view().insert(
                        saga_id.0,
                        prior.push(entry),
                    )
                    &&& entries_below(prior, seq)
                },
                Err(_) => final(self).journal_view() == old(self).journal_view(),
            },
    ;

    /// The entries of `saga_id` in append order; `NotFound` exactly when
    /// the saga has none.
    fn read(&self, saga_id: SagaId) -> (r: Result<&Vec<JournalEntry>, JournalError>)
        requires
            self.journal_wf(),
        ensures
            match r {
                Ok(v) => self.journal_view().contains_key(saga_id.0) && v@
                    == self.journal_view()[saga_id.0],
                Err(_) => !self.journal_view().contains_key(saga_id.0),
            },
    ;

    /// Every saga holding at least one entry, each exactly once.
    fn list_sagas(&self) -> (r: Result<Vec<SagaId>, JournalError>)
        requires
            self.journal_wf(),
        ensures
            r matches Ok(v) ==> forall|i: int, j: int|
                0 <= i < j < v@.len() ==> (#[trigger] v@[i]).0 != (#[trigger] v@[j]).0,
            r matches Ok(v) ==> forall|k: u64| #[trigger]
                self.journal_view().contains_key(k) ==> v@.contains(SagaId(k)),
            r matches Ok(v) ==> forall|i: int|
                0 <= i < v@.len() ==> self.journal_view().contains_key((#[trigger] v@[i]).0),
    ;
}

/// In-memory journal. Not durable: it serves tests and hosts that accept
/// losing recoverability on crash.
pub struct InMemoryJournal {
    data: U64Map<Vec<JournalEntry>>,
    counter: u64,
}

impl InMemoryJournal {
    /// The entries of each saga, as a spec value.
    pub closed spec fn view(self) -> Map<u64, Seq<JournalEntry>> {
        self.data@.map_values(|v: Vec<JournalEntry>| v@)
    }

    /// The next sequence number to assign.
    pub closed spec fn counter_view(self) -> u64 {
        self.counter
    }

    /// Well-formed: the backing map is well-formed, every stored sequence
    /// lies below the counter, and each saga's sequences strictly increase.
    pub closed spec fn wf(self) -> bool {
        &&& self.data.wf()
        &&& self.counter >= 1
        &&& forall|k: u64| #[trigger]
            self.data@.contains_key(k) ==> entries_below(self.data@[k]@, self.counter)
                && entries_increasing(self.data@[k]@)
    }

    /// Create an empty journal; sequence numbers start at 1.
    pub fn new() -> (r: Self)
        ensures
            r.wf(),
            r@ == Map::<u64, Seq<JournalEntry>>::empty(),
            r.counter_view() == 1,
    {
        let r = InMemoryJournal { data: U64Map::new(), counter: 1 };
        proof {
            assert(r@ =~= Map::<u64, Seq<JournalEntry>>::empty());
        }
        r
    }
}

impl ParticipantJournal for InMemoryJournal {
    open spec fn journal_view(&self) -> Map<u64, Seq<JournalEntry>> {
        self.view()
    }

    open spec fn journal_wf(&self) -> bool {
        self.wf()
    }

    fn append(&mut self, saga_id: SagaId, event: ParticipantEvent, now_millis: u64) -> (r: Result<
        u64,
        JournalError,
    >)
        ensures
            r is Ok <==> old(self).counter_view() < u64::MAX,
            r matches Ok(seq) ==> seq == old(self).counter_view() && final(self).counter_view()
                == old(self).counter_view() + 1,
            r is Err ==> final(self).counter_view() == old(self).counter_view(),
    {
        if self.counter == u64::MAX {
            return Err(JournalError::Storage(String::from_str("sequence space exhausted")));
        }
        let seq = self.counter;
        self.counter = self.counter + 1;
        let entry = JournalEntry { sequence: seq, recorded_at_millis: now_millis, event };
        let mut list = match self.data.remove(saga_id.0) {
            Some(v) => v,
            None => Vec::new(),
        };
        let ghost list_pre = list@;
        list.push(entry);
        self.data.insert(saga_id.0, list);
        proof {
            let ghost prior = if old(self).view().contains_key(saga_id.0) {
                old(self).view()[saga_id.0]
            } else {
                Seq::<JournalEntry>::empty()
            };
            assert(list_pre == prior);
            assert(self.view() =~= old(self).view().insert(saga_id.0, prior.push(entry)));
            assert forall|k: u64| #[trigger]
                self.data@.contains_key(k) implies entries_below(self.data@[k]@, self.counter)
                && entries_increasing(self.data@[k]@) by {
                if k != saga_id.0 {
                    assert(old(self).data@.contains_key(k));
                    assert(self.data@[k] == old(self).data@[k]);
                }
            }
        }
        Ok(seq)
    }

    fn read(&self, saga_id: SagaId) -> (r: Result<&Vec<JournalEntry>, JournalError>) {
        match self.data.get(saga_id.0) {
            Some(list) => {
                proof {
                    assert(self.view().contains_key(saga_id.0));
                    assert(self.view()[saga_id.0] == list@);
                }
                Ok(list)
            },
            None => {
                proof {
                    assert(!self.view().contains_key(saga_id.0));
                }
                Err(JournalError::NotFound(saga_id))
            },
        }
    }


    #[verifier::rlimit(50)]
    fn list_sagas(&self) -> (r: Result<Vec<SagaId>, JournalError>)
        ensures
            r is Ok,
    {
        let raw = self.data.keys();
        let n = raw.len();
        let mut out: Vec<SagaId> = Vec::new();
        let mut idx: usize = 0;
        while idx < n
            invariant
                n == raw@.len(),
                idx <= n,
                out@.len() == idx,
                forall|t: int| 0 <= t < idx ==> (#[trigger] out@[t]).0 == raw@[t],
            decreases n - idx,
        {
            out.push(SagaId::new(raw[idx]));
            idx = idx + 1;
        }
        proof {
            assert(raw@.no_duplicates());
            assert forall|i: int, j: int| 0 <= i < j < out@.len() implies (#[trigger] out@[i]).0
                != (#[trigger] out@[j]).0 by {
                assert(raw@[i] != raw@[j]);
            }
            assert forall|k: u64| #[trigger]
                self.journal_view().contains_key(k) implies out@.contains(SagaId(k)) by {
                assert(raw@.contains(k));
                let t = choose|t: int| 0 <= t < raw@.len() && raw@[t] == k;
                assert(out@[t] == SagaId(k));
            }
            assert forall|i: int| 0 <= i < out@.len() implies self.journal_view().contains_key(
                (#[trigger] out@[i]).0,
            ) by {
                assert(raw@[i] == out@[i].0);
                assert(raw@.contains(raw@[i]));
            }
        }
        Ok(out)
    }
}

} // verus!
