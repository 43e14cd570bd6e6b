//! Per-saga processed-event store: the idempotency gate.
//!
//! Membership of a key means "this event was already observed"; the
//! dispatcher consults only `check_and_mark` in the hot path so that
//! observing and recording are one step.

use vstd::prelude::*;
use vstd::string::StringExecFns;

use crate::context::SagaId;
use crate::decimal::{spec_dec, u64_to_dec};
use crate::events::{str_views, vec_contains_string};
use crate::u64map::U64Map;

verus! {

/// The canonical dedupe key for an event: its trace ID and its kind tag.
pub open spec fn dedupe_key_view(trace_id: u64, event_type: Seq<char>) -> Seq<char> {
    spec_dec(trace_id as nat) + ":"@ + event_type
}

/// Build the canonical dedupe key for an event.
pub fn dedupe_key(trace_id: u64, event_type: &str) -> (r: String)
    ensures
        r@ == dedupe_key_view(trace_id, event_type@),
{
    let key = u64_to_dec(trace_id).concat(":").concat(event_type);
    proof {
        assert(key@ =~= dedupe_key_view(trace_id, event_type@));
    }
    key
}

/// Error from a dedupe store.
#[derive(Debug)]
pub enum DedupeError {
    /// The backing store failed.
    Storage(String),
}

/// Contract of a deduplication store: a set of `(saga, key)` pairs whose
/// sole hot-path operation atomically observes and records.
pub trait ParticipantDedupeStore {
    /// The pairs this store holds.
    spec fn dedupe_view(&self) -> Set<(u64, Seq<char>)>;

    /// Well-formedness of the store; every operation preserves it.
    spec fn dedupe_wf(&self) -> bool;

    /// Record `key` for `saga_id`; report whether it was newly inserted.
    fn check_and_mark(&mut self, saga_id: SagaId, key: &str) -> (r: Result<bool, DedupeError>)
        requires
            old(self).dedupe_wf(),
        ensures
            final(self).dedupe_wf(),
            match r {
                Ok(fresh) => final(self).dedupe_view() == old(self).dedupe_view().insert(
                    (saga_id.0, key@),
                ) && fresh == !old(self).dedupe_view().contains((saga_id.0, key@)),
                Err(_) => final(self).dedupe_view() == old(self).dedupe_view(),
            },
    ;

    /// Whether `key` was already recorded for `saga_id`.
    fn contains(&self, saga_id: SagaId, key: &str) -> (r: bool)
        requires
            self.dedupe_wf(),
        ensures
            r == self.dedupe_view().contains((saga_id.0, key@)),
    ;

    /// Record `key` for `saga_id`.
    fn mark_processed(&mut self, saga_id: SagaId, key: &str) -> (r: Result<(), DedupeError>)
        requires
            old(self).dedupe_wf(),
        ensures
            final(self).dedupe_wf(),
            match r {
                Ok(_) => final(self).dedupe_view() == old(self).dedupe_view().insert(
                    (saga_id.0, key@),
                ),
                Err(_) => final(self).dedupe_view() == old(self).dedupe_view(),
            },
    ;

    /// Remove every key recorded for `saga_id`.
    fn prune(&mut self, saga_id: SagaId) -> (r: Result<(), DedupeError>)
        requires
            old(self).dedupe_wf(),
        ensures
            final(self).dedupe_wf(),
            match r {
                Ok(_) => final(self).dedupe_view() == Set::new(
                    |p: (u64, Seq<char>)| old(self).dedupe_view().contains(p) && p.0 != saga_id.0,
                ),
                Err(_) => final(self).dedupe_view() == old(self).dedupe_view(),
            },
    ;
}

/// In-memory dedupe store. Not durable: after a crash it is empty, so
/// participants performing external calls must also use application-level
/// idempotency keys.
pub struct InMemoryDedupe {
    keys: U64Map<Vec<String>>,
}

impl InMemoryDedupe {
    /// The pairs this store holds, as a spec value.
    pub closed spec fn view(self) -> Set<(u64, Seq<char>)> {
        Set::new(
            |p: (u64, Seq<char>)|
                self.keys@.contains_key(p.0) && str_views(self.keys@[p.0]@).contains(p.1),
        )
    }

    /// Well-formedness of the backing map.
    pub closed spec fn wf(self) -> bool {
        self.keys.wf()
    }

    /// Create an empty store.
    pub fn new() -> (r: Self)
        ensures
            r.wf(),
            r@ == Set::<(u64, Seq<char>)>::empty(),
    {
        let r = InMemoryDedupe { keys: U64Map::new() };
        proof {
            assert(r@ =~= Set::<(u64, Seq<char>)>::empty());
        }
        r
    }
}

impl ParticipantDedupeStore for InMemoryDedupe {
    open spec fn dedupe_view(&self) -> Set<(u64, Seq<char>)> {
        self.view()
    }

    open spec fn dedupe_wf(&self) -> bool {
        self.wf()
    }

    fn check_and_mark(&mut self, saga_id: SagaId, key: &str) -> (r: Result<bool, DedupeError>)
        ensures
            r is Ok,
    {
        let key_owned = key.to_owned();
        let mut list = match self.keys.remove(saga_id.0) {
            Some(v) => v,
            None => Vec::new(),
        };
        let ghost list_pre = list@;
        let present = vec_contains_string(&list, &key_owned);
        if !present {
            list.push(key_owned);
        }
        let ghost list_snap = list@;
        self.keys.insert(saga_id.0, list);
        proof {
            let pair = (saga_id.0, key@);
            if !present {
                assert(str_views(list_snap) =~= str_views(list_pre).push(key@));
            }
            assert forall|p: (u64, Seq<char>)|
                #[trigger] self.view().contains(p) == (old(self).view().contains(p) || p
                    == pair) by {
                if p.0 == saga_id.0 {
                    if present {
                        assert(list_snap == list_pre);
                        assert(list_pre.len() > 0);
                        assert(old(self).keys@.contains_key(saga_id.0));
                        assert(old(self).keys@[saga_id.0]@ == list_pre);
                        if p == pair {
                            assert(old(self).view().contains(p));
                        }
                    } else {
                        if self.view().contains(p) {
                            let j = choose|j: int|
                                0 <= j < str_views(list_snap).len() && str_views(list_snap)[j]
                                    == p.1;
                            if j < list_pre.len() {
                                assert(str_views(list_pre)[j] == p.1);
                                assert(old(self).keys@.contains_key(saga_id.0));
                                assert(old(self).view().contains(p));
                            } else {
                                assert(p.1 == key@);
                            }
                        }
                        if old(self).view().contains(p) {
                            let j = choose|j: int|
                                0 <= j < str_views(old(self).keys@[saga_id.0]@).len()
                                    && str_views(old(self).keys@[saga_id.0]@)[j] == p.1;
                            assert(str_views(list_snap)[j] == p.1);
                        }
                        if p == pair {
                            assert(str_views(list_snap).last() == key@);
                        }
                    }
                }
            }
            assert(self.view() =~= old(self).view().insert(pair));
        }
        Ok(!present)
    }

    fn contains(&self, saga_id: SagaId, key: &str) -> (r: bool) {
        let key_owned = key.to_owned();
        match self.keys.get(saga_id.0) {
            Some(list) => vec_contains_string(list, &key_owned),
            None => false,
        }
    }

    fn mark_processed(&mut self, saga_id: SagaId, key: &str) -> (r: Result<(), DedupeError>)
        ensures
            r is Ok,
    {
        match self.check_and_mark(saga_id, key) {
            Ok(_) => Ok(()),
            Err(e) => Err(e),
        }
    }

    fn prune(&mut self, saga_id: SagaId) -> (r: Result<(), DedupeError>)
        ensures
            r is Ok,
    {
        let _ = self.keys.remove(saga_id.0);
        proof {
            assert(self.view() =~= Set::new(
                |p: (u64, Seq<char>)| old(self).view().contains(p) && p.0 != saga_id.0,
            ));
        }
        Ok(())
    }
}

} // verus!
