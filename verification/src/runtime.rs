//! The participant runtime: saga state table, journal, dedupe gate,
//! counters, and the event dispatcher.
//!
//! The host process owns the transport and the timers. It hands every
//! inbound wire event to [`handle_saga_event`] together with the clock
//! reading, and receives back the events to publish and, where a retry is
//! due, a directive saying what to re-invoke and after which delay.

use vstd::prelude::*;

use crate::context::{bump, SagaContext, SagaId, TraceIdGen};
use crate::dedupe::{dedupe_key, dedupe_key_view, InMemoryDedupe, ParticipantDedupeStore};
use crate::errors::{CompensationError, StepError, StepOutput};
use crate::events::{
    clone_bytes, clone_strings, is_comp_completed, is_comp_started, is_exec_completed, is_exec_failed,
    is_exec_started, is_quarantined, str_views, vec_contains_string, ParticipantEvent,
    SagaChoreographyEvent,
};
use crate::journal::{InMemoryJournal, JournalEntry, JournalError, ParticipantJournal};
use crate::recovery::{entry_rebuilt_image, rebuilt_of, step_rebuilt};
use crate::state::{phase_reachable, Phase, SagaParticipantState, SagaStateEntry};
use crate::stats::{saturating_inc, ParticipantStats};
use crate::traits::{DependencySpec, RetryPolicy, SagaParticipant};
use crate::u64map::{lemma_pairs_to_map_index, U64Map};

verus! {

/// The entries a journal map holds for one saga, empty if none.
pub open spec fn entries_of(m: Map<u64, Seq<JournalEntry>>, id: u64) -> Seq<JournalEntry> {
    if m.contains_key(id) {
        m[id]
    } else {
        Seq::empty()
    }
}

/// The phase of one saga in a state table, if present.
pub open spec fn phase_of(m: Map<u64, SagaStateEntry>, id: u64) -> Option<Phase> {
    if m.contains_key(id) {
        Some(m[id].phase_view())
    } else {
        None
    }
}

/// One saga's legal evolution across a dispatcher call: stay, be created,
/// be pruned, or move along the phase graph.
pub open spec fn phase_step_ok(pre: Option<Phase>, post: Option<Phase>) -> bool {
    match (pre, post) {
        (Option::None, Option::None) => true,
        (Option::None, Option::Some(p)) => phase_reachable(Phase::Idle, p),
        (Option::Some(_), Option::None) => true,
        (Option::Some(a), Option::Some(b)) => phase_reachable(a, b),
    }
}

/// State-transition legality over the whole table: every saga evolved
/// along the phase graph (or was created from Idle, or pruned).
pub open spec fn phase_evolution(
    pre: Map<u64, SagaStateEntry>,
    post: Map<u64, SagaStateEntry>,
) -> bool {
    forall|id: u64| #[trigger] phase_step_ok(phase_of(pre, id), phase_of(post, id))
}

/// Journal-state coherence: for every saga the dispatcher tracks beyond
/// Triggered, folding its journal yields exactly the phase of the state
/// table.
pub open spec fn states_match_journal(
    states: Map<u64, SagaStateEntry>,
    journal: Map<u64, Seq<JournalEntry>>,
) -> bool {
    forall|id: u64| #[trigger]
        states.contains_key(id) ==> match states[id] {
            SagaStateEntry::Idle(_) => true,
            SagaStateEntry::Triggered(_) => true,
            _ => rebuilt_of(entries_of(journal, id)) == entry_rebuilt_image(states[id]),
        }
}

/// The dedupe key of a wire event.
pub open spec fn event_key(e: SagaChoreographyEvent) -> Seq<char> {
    dedupe_key_view(e.context_view().trace_id, e.event_type_view())
}

/// Whether every name in `required` occurs among `have`.
pub open spec fn all_names_in(required: Seq<String>, have: Seq<Seq<char>>) -> bool {
    forall|j: int| 0 <= j < required.len() ==> have.contains((#[trigger] required[j])@)
}

/// The predecessors recorded for one saga, empty if none.
pub open spec fn pending_of(m: Map<u64, Seq<Seq<char>>>, id: u64) -> Seq<Seq<char>> {
    if m.contains_key(id) {
        m[id]
    } else {
        Seq::empty()
    }
}

/// Whether the completion of `completed` fires the step under `dep`,
/// given the predecessors recorded so far: immediately for `After` and
/// `AnyOf` members, and for `AllOf` once every named predecessor has been
/// seen (counting this one).
pub open spec fn triggers_step(
    dep: DependencySpec,
    pending_before: Seq<Seq<char>>,
    completed: Seq<char>,
) -> bool {
    match dep {
        DependencySpec::OnSagaStart => false,
        DependencySpec::After(step) => step@ == completed,
        DependencySpec::AnyOf(steps) => str_views(steps@).contains(completed),
        DependencySpec::AllOf(steps) => forall|j: int|
            0 <= j < steps@.len() ==> pending_before.contains((#[trigger] steps@[j])@) || (
            steps@[j])@ == completed,
    }
}

/// Whether `e` ends the saga's life at every participant.
pub open spec fn is_lifecycle(e: SagaChoreographyEvent) -> bool {
    ||| e is SagaCompleted
    ||| e is SagaFailed
    ||| e is SagaQuarantined
}

/// Static configuration of one participant: which step it runs, in which
/// saga types, when the step triggers, and how it retries.
pub struct ParticipantConfig {
    /// The step name this participant handles.
    pub step_name: String,
    /// Which saga types this participant joins.
    pub saga_types: Vec<String>,
    /// When does this step execute?
    pub depends_on: DependencySpec,
    /// Retry policy for this step and its compensation.
    pub retry_policy: RetryPolicy,
    /// Budget for one invocation; the host synthesizes a retriable
    /// failure when a call exceeds it.
    pub step_timeout_millis: u64,
}

/// The saga-side state one participant owns: its state table, journal,
/// dedupe gate, counters, and trace allocator.
pub struct ParticipantCore {
    /// Static configuration.
    pub config: ParticipantConfig,
    states: U64Map<SagaStateEntry>,
    journal: InMemoryJournal,
    dedupe: InMemoryDedupe,
    stats: ParticipantStats,
    trace_gen: TraceIdGen,
    pending: U64Map<Vec<String>>,
}

impl ParticipantCore {
    /// The state table: each saga's current entry.
    pub closed spec fn states_map(self) -> Map<u64, SagaStateEntry> {
        self.states@
    }

    /// The journal: each saga's entries in append order.
    pub closed spec fn journal_map(self) -> Map<u64, Seq<JournalEntry>> {
        self.journal@
    }

    /// The next journal sequence number.
    pub closed spec fn journal_cursor(self) -> u64 {
        self.journal.counter_view()
    }

    /// The dedupe gate: the (saga, key) pairs already observed.
    pub closed spec fn dedupe_set(self) -> Set<(u64, Seq<char>)> {
        self.dedupe@
    }

    /// The telemetry counters.
    pub closed spec fn stats_view(self) -> ParticipantStats {
        self.stats
    }

    /// The next trace ID the allocator would consider.
    pub closed spec fn trace_cursor(self) -> u64 {
        self.trace_gen.cursor()
    }

    /// The predecessors observed so far per saga, for `AllOf`
    /// dependencies.
    pub closed spec fn pending_map(self) -> Map<u64, Seq<Seq<char>>> {
        self.pending@.map_values(|v: Vec<String>| str_views(v@))
    }

    /// The static configuration, as a spec value.
    pub closed spec fn config_view(self) -> ParticipantConfig {
        self.config
    }

    /// Whether this participant serves a saga type: the type is among the
    /// configured `saga_types`.
    pub closed spec fn serves(self, saga_type: Seq<char>) -> bool {
        str_views(self.config.saga_types@).contains(saga_type)
    }

    /// Well-formed: the backing stores are well-formed and every state
    /// entry sits under its own saga ID.
    pub closed spec fn wf(self) -> bool {
        &&& self.states.wf()
        &&& self.journal.wf()
        &&& self.dedupe.wf()
        &&& self.pending.wf()
        &&& forall|id: u64| #[trigger]
            self.states@.contains_key(id) ==> self.states@[id].saga_id_view().0 == id
    }

    /// Everything except the dedupe gate and the counters is unchanged.
    pub open spec fn same_but_dedupe_and_stats(self, other: ParticipantCore) -> bool {
        &&& self.config_view() == other.config_view()
        &&& self.states_map() == other.states_map()
        &&& self.journal_map() == other.journal_map()
        &&& self.journal_cursor() == other.journal_cursor()
        &&& self.trace_cursor() == other.trace_cursor()
        &&& self.pending_map() == other.pending_map()
    }

    /// Create a participant core with empty stores.
    pub fn new(config: ParticipantConfig, trace_start: u64) -> (r: Self)
        ensures
            r.wf(),
            r.config_view() == config,
            forall|t: Seq<char>| #[trigger]
                r.serves(t) <==> str_views(config.saga_types@).contains(t),
            r.states_map() == Map::<u64, SagaStateEntry>::empty(),
            r.journal_map() == Map::<u64, Seq<JournalEntry>>::empty(),
            r.journal_cursor() == 1,
            r.dedupe_set() == Set::<(u64, Seq<char>)>::empty(),
            r.stats_view() == ParticipantStats::zeroed(),
            r.trace_cursor() == trace_start,
            r.pending_map() == Map::<u64, Seq<Seq<char>>>::empty(),
            states_match_journal(r.states_map(), r.journal_map()),
    {
        let r = ParticipantCore {
            config,
            states: U64Map::new(),
            journal: InMemoryJournal::new(),
            dedupe: InMemoryDedupe::new(),
            stats: ParticipantStats::new(),
            trace_gen: TraceIdGen::new(trace_start),
            pending: U64Map::new(),
        };
        proof {
            assert(r.pending_map() =~= Map::<u64, Seq<Seq<char>>>::empty());
        }
        r
    }

    /// The telemetry counters, by value.
    pub fn stats(&self) -> (r: ParticipantStats)
        ensures
            r == self.stats_view(),
    {
        self.stats
    }

    /// The state entry of one saga, if any.
    pub fn get_state(&self, saga_id: SagaId) -> (r: Option<&SagaStateEntry>)
        requires
            self.wf(),
        ensures
            match r {
                Some(e) => self.states_map().contains_key(saga_id.0) && *e
                    == self.states_map()[saga_id.0],
                None => !self.states_map().contains_key(saga_id.0),
            },
    {
        self.states.get(saga_id.0)
    }

    /// The phase of one saga, if any state is held for it.
    pub fn state_phase(&self, saga_id: SagaId) -> (r: Option<Phase>)
        requires
            self.wf(),
        ensures
            r == phase_of(self.states_map(), saga_id.0),
    {
        match self.states.get(saga_id.0) {
            Some(e) => Some(e.phase()),
            None => None,
        }
    }

    /// Observe and record an event key in one step; true means it was new.
    pub fn check_dedupe(&mut self, saga_id: SagaId, key: &str) -> (r: bool)
        requires
            old(self).wf(),
        ensures
            final(self).wf(),
            final(self).dedupe_set() == old(self).dedupe_set().insert((saga_id.0, key@)),
            r == !old(self).dedupe_set().contains((saga_id.0, key@)),
            final(self).same_but_dedupe_and_stats(*old(self)),
            final(self).stats_view() == old(self).stats_view(),
    {
        match self.dedupe.check_and_mark(saga_id, key) {
            Ok(fresh) => fresh,
            Err(_) => false,
        }
    }

    /// Append an event to the saga's journal, best effort: the in-memory
    /// journal accepts it unless its sequence space is exhausted.
    pub fn record_event(&mut self, saga_id: SagaId, event: ParticipantEvent, now_millis: u64)
        requires
            old(self).wf(),
        ensures
            final(self).wf(),
            final(self).config_view() == old(self).config_view(),
            final(self).states_map() == old(self).states_map(),
            final(self).dedupe_set() == old(self).dedupe_set(),
            final(self).stats_view() == old(self).stats_view(),
            final(self).trace_cursor() == old(self).trace_cursor(),
            final(self).pending_map() == old(self).pending_map(),
            old(self).journal_cursor() < u64::MAX ==> {
                &&& final(self).journal_map() == old(self).journal_map().insert(
                    saga_id.0,
                    entries_of(old(self).journal_map(), saga_id.0).push(
                        JournalEntry {
                            sequence: old(self).journal_cursor(),
                            recorded_at_millis: now_millis,
                            event,
                        },
                    ),
                )
                &&& final(self).journal_cursor() == old(self).journal_cursor() + 1
            },
            old(self).journal_cursor() == u64::MAX ==> final(self).journal_map() == old(
                self,
            ).journal_map() && final(self).journal_cursor() == old(self).journal_cursor(),
    {
        let _ = self.journal.append(saga_id, event, now_millis);
    }

    /// Drop the saga's state, pending set, and dedupe keys. After this no
    /// dedupe key for the saga remains.
    pub fn prune_saga(&mut self, saga_id: SagaId)
        requires
            old(self).wf(),
        ensures
            final(self).wf(),
            final(self).config_view() == old(self).config_view(),
            final(self).states_map() == old(self).states_map().remove(saga_id.0),
            final(self).journal_map() == old(self).journal_map(),
            final(self).journal_cursor() == old(self).journal_cursor(),
            final(self).stats_view() == old(self).stats_view(),
            final(self).trace_cursor() == old(self).trace_cursor(),
            final(self).pending_map() == old(self).pending_map().remove(saga_id.0),
            final(self).dedupe_set() == Set::new(
                |p: (u64, Seq<char>)|
                    old(self).dedupe_set().contains(p) && p.0 != saga_id.0,
            ),
            forall|p: (u64, Seq<char>)|
                p.0 == saga_id.0 ==> !final(self).dedupe_set().contains(p),
    {
        let _ = self.states.remove(saga_id.0);
        let _ = self.pending.remove(saga_id.0);
        let _ = self.dedupe.prune(saga_id);
        proof {
            assert(self.pending_map() =~= old(self).pending_map().remove(saga_id.0));
        }
    }

    /// Whether the saga has a state entry.
    pub fn contains_state(&self, saga_id: SagaId) -> (r: bool)
        ensures
            r == self.states_map().contains_key(saga_id.0),
    {
        self.states.contains_key(saga_id.0)
    }

    /// Remove the saga's state entry, if any.
    fn take_state(&mut self, saga_id: SagaId) -> (r: Option<SagaStateEntry>)
        requires
            old(self).wf(),
        ensures
            final(self).wf(),
            final(self).config_view() == old(self).config_view(),
            final(self).states_map() == old(self).states_map().remove(saga_id.0),
            final(self).journal_map() == old(self).journal_map(),
            final(self).journal_cursor() == old(self).journal_cursor(),
            final(self).dedupe_set() == old(self).dedupe_set(),
            final(self).stats_view() == old(self).stats_view(),
            final(self).trace_cursor() == old(self).trace_cursor(),
            final(self).pending_map() == old(self).pending_map(),
            match r {
                Some(e) => old(self).states_map().contains_key(saga_id.0) && e == old(
                    self,
                ).states_map()[saga_id.0],
                None => !old(self).states_map().contains_key(saga_id.0),
            },
    {
        self.states.remove(saga_id.0)
    }

    /// Store the saga's state entry.
    fn put_state(&mut self, saga_id: SagaId, entry: SagaStateEntry)
        requires
            old(self).wf(),
            entry.saga_id_view() == saga_id,
        ensures
            final(self).wf(),
            final(self).config_view() == old(self).config_view(),
            final(self).states_map() == old(self).states_map().insert(saga_id.0, entry),
            final(self).journal_map() == old(self).journal_map(),
            final(self).journal_cursor() == old(self).journal_cursor(),
            final(self).dedupe_set() == old(self).dedupe_set(),
            final(self).stats_view() == old(self).stats_view(),
            final(self).trace_cursor() == old(self).trace_cursor(),
            final(self).pending_map() == old(self).pending_map(),
    {
        self.states.insert(saga_id.0, entry);
    }

    /// The journal entries of one saga, in append order; `NotFound`
    /// exactly when the saga has none.
    pub fn read_journal(&self, saga_id: SagaId) -> (r: Result<&Vec<JournalEntry>, JournalError>)
        requires
            self.wf(),
        ensures
            match r {
                Ok(v) => self.journal_map().contains_key(saga_id.0) && v@ == self.journal_map()[
                    saga_id.0
                ],
                Err(_) => !self.journal_map().contains_key(saga_id.0),
            },
    {
        self.journal.read(saga_id)
    }

    /// Whether the dedupe gate already observed `key` for the saga.
    pub fn dedupe_contains(&self, saga_id: SagaId, key: &str) -> (r: bool)
        requires
            self.wf(),
        ensures
            r == self.dedupe_set().contains((saga_id.0, key@)),
    {
        self.dedupe.contains(saga_id, key)
    }

    /// Note that a named predecessor of the saga has completed, and report
    /// whether all of `required` have now been observed.
    fn record_predecessor(&mut self, saga_id: SagaId, completed: &String, required: &Vec<String>) -> (r:
        bool)
        requires
            old(self).wf(),
        ensures
            final(self).wf(),
            final(self).config_view() == old(self).config_view(),
            final(self).states_map() == old(self).states_map(),
            final(self).journal_map() == old(self).journal_map(),
            final(self).journal_cursor() == old(self).journal_cursor(),
            final(self).dedupe_set() == old(self).dedupe_set(),
            final(self).stats_view() == old(self).stats_view(),
            final(self).trace_cursor() == old(self).trace_cursor(),
            final(self).pending_map().remove(saga_id.0) == old(self).pending_map().remove(
                saga_id.0,
            ),
            final(self).pending_map().contains_key(saga_id.0),
            final(self).pending_map()[saga_id.0].contains(completed@),
            forall|n: Seq<char>|
                #[trigger] final(self).pending_map()[saga_id.0].contains(n) <==> (pending_of(
                    old(self).pending_map(),
                    saga_id.0,
                ).contains(n) || n == completed@),
            r == all_names_in(required@, final(self).pending_map()[saga_id.0]),
    {
        let mut list = match self.pending.remove(saga_id.0) {
            Some(v) => v,
            None => Vec::new(),
        };
        let ghost list_pre = list@;
        if !vec_contains_string(&list, completed) {
            list.push(completed.clone());
        }
        let ghost list_snap = list@;
        let n = required.len();
        let mut all_there = true;
        let mut idx: usize = 0;
        while idx < n
            invariant
                n == required@.len(),
                idx <= n,
                list@ == list_snap,
                all_there == (forall|j: int|
                    0 <= j < idx ==> str_views(list_snap).contains((#[trigger] required@[j])@)),
            decreases n - idx,
        {
            if !vec_contains_string(&list, &required[idx]) {
                all_there = false;
            }
            idx = idx + 1;
        }
        self.pending.insert(saga_id.0, list);
        proof {
            assert(str_views(list_snap).contains(completed@)) by {
                if str_views(list_pre).contains(completed@) {
                } else {
                    assert(str_views(list_snap) =~= str_views(list_pre).push(completed@));
                    assert(str_views(list_snap).last() == completed@);
                }
            }
            assert(self.pending_map() =~= old(self).pending_map().insert(
                saga_id.0,
                str_views(list_snap),
            ));
            assert(self.pending_map().remove(saga_id.0) =~= old(self).pending_map().remove(
                saga_id.0,
            ));
            assert(str_views(list_pre) == pending_of(old(self).pending_map(), saga_id.0));
            assert forall|n: Seq<char>| #[trigger]
                str_views(list_snap).contains(n) <==> (str_views(list_pre).contains(n) || n
                == completed@) by {
                if str_views(list_pre).contains(completed@) {
                    assert(list_snap == list_pre);
                } else {
                    assert(str_views(list_snap) =~= str_views(list_pre).push(completed@));
                    if str_views(list_snap).contains(n) {
                        let j = choose|j: int|
                            0 <= j < str_views(list_snap).len() && str_views(list_snap)[j] == n;
                        if j < str_views(list_pre).len() {
                            assert(str_views(list_pre)[j] == n);
                        } else {
                            assert(n == completed@);
                        }
                    }
                    if str_views(list_pre).contains(n) {
                        let j = choose|j: int|
                            0 <= j < str_views(list_pre).len() && str_views(list_pre)[j] == n;
                        assert(str_views(list_snap)[j] == n);
                    }
                    if n == completed@ {
                        assert(str_views(list_snap).last() == completed@);
                    }
                }
            }
        }
        all_there
    }

    /// Whether the saga `k` has a state entry in a non-terminal phase.
    pub open spec fn saga_active(self, k: u64) -> bool {
        self.states_map().contains_key(k) && !(self.states_map()[k].phase_view() is Compensated)
            && !(self.states_map()[k].phase_view() is Quarantined)
    }

    /// The state table's backing pairs, in insertion order.
    pub closed spec fn states_pairs(self) -> Seq<(u64, SagaStateEntry)> {
        self.states.pairs()
    }

    /// Whether the saga has a state entry in a non-terminal phase.
    pub fn is_saga_active(&self, saga_id: SagaId) -> (r: bool)
        requires
            self.wf(),
        ensures
            r == self.saga_active(saga_id.0),
    {
        match self.states.get(saga_id.0) {
            Some(e) => !e.is_terminal(),
            None => false,
        }
    }

    /// The sagas with a state entry in a non-terminal phase, each exactly
    /// once.
    pub fn active_saga_ids(&self) -> (r: Vec<SagaId>)
        requires
            self.wf(),
        ensures
            forall|i: int, j: int|
                0 <= i < j < r@.len() ==> (#[trigger] r@[i]).0 != (#[trigger] r@[j]).0,
            forall|i: int| 0 <= i < r@.len() ==> self.saga_active((#[trigger] r@[i]).0),
            forall|k: u64| #[trigger] self.saga_active(k) ==> r@.contains(SagaId(k)),
            r@.len() == count_active_pairs(self.states_pairs()),
    {
        let ids = self.states.keys();
        let n = ids.len();
        let mut out: Vec<SagaId> = Vec::new();
        let mut idx: usize = 0;
        while idx < n
            invariant
                self.wf(),
                n == ids@.len(),
                n == self.states.pairs().len(),
                idx <= n,
                ids@.no_duplicates(),
                forall|t: int| 0 <= t < n ==> ids@[t] == (#[trigger] self.states.pairs()[t]).0,
                forall|k: u64| ids@.contains(k) <==> self.states_map().contains_key(k),
                forall|t1: int, t2: int|
                    0 <= t1 < t2 < out@.len() ==> (#[trigger] out@[t1]).0 != (
                    #[trigger] out@[t2]).0,
                forall|t: int|
                    0 <= t < out@.len() ==> exists|i: int|
                        0 <= i < idx && (#[trigger] out@[t]).0 == ids@[i],
                forall|t: int| 0 <= t < out@.len() ==> self.saga_active((#[trigger] out@[t]).0),
                forall|i: int|
                    0 <= i < idx && self.saga_active(#[trigger] ids@[i]) ==> out@.contains(
                        SagaId(ids@[i]),
                    ),
                out@.len() == count_active_pairs(self.states.pairs().subrange(0, idx as int)),
            decreases n - idx,
        {
            let k = ids[idx];
            let ghost pre_count = self.states.pairs().subrange(0, idx as int);
            proof {
                assert(ids@.contains(k));
                self.states.lemma_wf_facts();
                lemma_pairs_to_map_index(self.states.pairs(), idx as int);
                assert(k == self.states.pairs()[idx as int].0);
                assert(self.states_map()[k] == self.states.pairs()[idx as int].1);
            }
            let active = match self.states.get(k) {
                Some(e) => !e.is_terminal(),
                None => false,
            };
            proof {
                assert(self.states.pairs().subrange(0, idx + 1).drop_last() =~= pre_count);
                assert(self.states.pairs().subrange(0, idx + 1).last() == self.states.pairs()[idx as int]);
                assert(active == !(self.states.pairs()[idx as int].1.phase_view() is Compensated)
                    && !(self.states.pairs()[idx as int].1.phase_view() is Quarantined)
                    || !active);
            }
            if active {
                proof {
                    assert forall|t: int| 0 <= t < out@.len() implies (#[trigger] out@[t]).0
                        != k by {
                        let i = choose|i: int| 0 <= i < idx && out@[t].0 == ids@[i];
                        assert(ids@[i] != ids@[idx as int]);
                    }
                }
                let ghost pre_out = out@;
                out.push(SagaId::new(k));
                proof {
                    assert forall|t: int| 0 <= t < out@.len() implies exists|i: int|
                        0 <= i < idx + 1 && (#[trigger] out@[t]).0 == ids@[i] by {
                        if t < pre_out.len() {
                            let i = choose|i: int| 0 <= i < idx && pre_out[t].0 == ids@[i];
                            assert(out@[t] == pre_out[t]);
                            assert(out@[t].0 == ids@[i]);
                        } else {
                            assert(out@[t].0 == ids@[idx as int]);
                        }
                    }
                    assert forall|i: int|
                        0 <= i < idx + 1 && self.saga_active(#[trigger] ids@[i]) implies
                        out@.contains(SagaId(ids@[i])) by {
                        if i < idx {
                            assert(pre_out.contains(SagaId(ids@[i])));
                            let t = choose|t: int|
                                0 <= t < pre_out.len() && pre_out[t] == SagaId(ids@[i]);
                            assert(out@[t] == SagaId(ids@[i]));
                        } else {
                            assert(out@.last() == SagaId(ids@[idx as int]));
                        }
                    }
                }
            }
            idx = idx + 1;
        }
        proof {
            assert forall|k: u64| #[trigger] self.saga_active(k) implies out@.contains(
                SagaId(k),
            ) by {
                assert(ids@.contains(k));
                let i = choose|i: int| 0 <= i < ids@.len() && ids@[i] == k;
                assert(self.saga_active(ids@[i]));
            }
            assert(self.states.pairs().subrange(0, n as int) =~= self.states.pairs());
        }
        out
    }

    /// How many sagas have a state entry in a non-terminal phase.
    pub fn active_saga_count(&self) -> (r: usize)
        requires
            self.wf(),
        ensures
            r == count_active_pairs(self.states_pairs()),
    {
        let n = self.states.len();
        let mut count: usize = 0;
        let mut idx: usize = 0;
        while idx < n
            invariant
                self.wf(),
                n == self.states.pairs().len(),
                idx <= n,
                count <= idx,
                count == count_active_pairs(self.states.pairs().subrange(0, idx as int)),
            decreases n - idx,
        {
            let ghost pre = self.states.pairs().subrange(0, idx as int);
            let (_, entry) = self.states.pair_at(idx);
            if !entry.is_terminal() {
                count = count + 1;
            }
            proof {
                assert(self.states.pairs().subrange(0, idx + 1).drop_last() =~= pre);
                assert(self.states.pairs().subrange(0, idx + 1).last() == self.states.pairs()[idx as int]);
            }
            idx = idx + 1;
        }
        proof {
            assert(self.states.pairs().subrange(0, n as int) =~= self.states.pairs());
        }
        count
    }
}

/// How many pairs of `s` hold a state entry in a non-terminal phase.
pub open spec fn count_active_pairs(s: Seq<(u64, SagaStateEntry)>) -> nat
    decreases s.len(),
{
    if s.len() == 0 {
        0
    } else {
        count_active_pairs(s.drop_last()) + if !(s.last().1.phase_view() is Compensated) && !(
        s.last().1.phase_view() is Quarantined) {
            1nat
        } else {
            0nat
        }
    }
}

/// A retry the host must schedule: after `delay_millis`, hand `context`
/// and `input` to [`retry_step`] (forward) or [`retry_compensation`].
pub struct RetryDirective {
    /// The context for the retry attempt: attempt counter incremented,
    /// fresh trace ID.
    pub context: SagaContext,
    /// The step input, or the compensation data.
    pub input: Vec<u8>,
    /// How long to wait before re-invoking, per the retry policy.
    pub delay_millis: u64,
    /// Whether the retry re-invokes the compensation rather than the
    /// forward step.
    pub compensation: bool,
}

/// What one dispatcher call asks of the host: events to publish and, at
/// most, one retry to schedule.
pub struct DispatchOutcome {
    /// Events to publish to the transport, in order.
    pub emitted: Vec<SagaChoreographyEvent>,
    /// A retry to schedule, if any.
    pub retry: Option<RetryDirective>,
}

impl DispatchOutcome {
    /// Nothing to publish, nothing to schedule.
    pub fn empty() -> (r: Self)
        ensures
            r.emitted@ == Seq::<SagaChoreographyEvent>::empty(),
            r.retry is None,
    {
        DispatchOutcome { emitted: Vec::new(), retry: None }
    }
}

/// A fresh Executing entry as the forward-step procedure builds it from a
/// context: Idle -> Triggered -> Executing on first attempt, stamped
/// `now`.
pub open spec fn fresh_executing_entry(
    e: SagaStateEntry,
    step_name: Seq<char>,
    ctx: SagaContext,
    now: u64,
) -> bool {
    e matches SagaStateEntry::Executing(s) && s.saga_id == ctx.saga_id && s.saga_type@
        == ctx.saga_type@ && s.step_name@ == step_name && s.correlation_id == ctx.correlation_id
        && s.trace_id == ctx.trace_id && s.initiator_peer_id == ctx.initiator_peer_id
        && s.saga_started_at_millis == ctx.saga_started_at_millis && s.last_updated_at_millis
        == now && s.state.attempt == 1 && s.state.started_at_millis == now
}

/// The journals agree except that exactly one entry was appended for
/// `id`, carrying sequence number `seqno` and recorded at `at`.
pub open spec fn journal_appended_one(
    pre: Map<u64, Seq<JournalEntry>>,
    post: Map<u64, Seq<JournalEntry>>,
    id: u64,
    seqno: u64,
    at: u64,
) -> bool {
    &&& post == pre.insert(id, entries_of(pre, id).push(entries_of(post, id).last()))
    &&& entries_of(post, id).len() == entries_of(pre, id).len() + 1
    &&& entries_of(post, id).last().sequence == seqno
    &&& entries_of(post, id).last().recorded_at_millis == at
}

/// Begin the forward step: build a fresh state Idle -> Triggered ->
/// Executing for the saga, persist the start of attempt 1, and count it.
fn begin_forward_step(core: &mut ParticipantCore, context: &SagaContext, now: u64)
    requires
        old(core).wf(),
    ensures
        final(core).wf(),
        final(core).config_view() == old(core).config_view(),
        final(core).dedupe_set() == old(core).dedupe_set(),
        final(core).trace_cursor() == old(core).trace_cursor(),
        final(core).pending_map() == old(core).pending_map(),
        final(core).states_map() == old(core).states_map().insert(
            context.saga_id.0,
            final(core).states_map()[context.saga_id.0],
        ),
        fresh_executing_entry(
            final(core).states_map()[context.saga_id.0],
            old(core).config_view().step_name@,
            *context,
            now,
        ),
        final(core).stats_view() == (ParticipantStats {
            steps_started: bump(old(core).stats_view().steps_started),
            ..old(core).stats_view()
        }),
        old(core).journal_cursor() < u64::MAX ==> {
            &&& journal_appended_one(
                old(core).journal_map(),
                final(core).journal_map(),
                context.saga_id.0,
                old(core).journal_cursor(),
                now,
            )
            &&& is_exec_started(
                entries_of(final(core).journal_map(), context.saga_id.0).last().event,
                1,
                now,
            )
            &&& final(core).journal_cursor() == old(core).journal_cursor() + 1
        },
        old(core).journal_cursor() == u64::MAX ==> final(core).journal_map() == old(
            core,
        ).journal_map() && final(core).journal_cursor() == old(core).journal_cursor(),
{
    let saga_id = context.saga_id;
    let state = SagaParticipantState::new(
        saga_id,
        context.saga_type.clone(),
        core.config.step_name.clone(),
        context.correlation_id,
        context.trace_id,
        context.initiator_peer_id,
        context.saga_started_at_millis,
    ).trigger("dependency_satisfied", now).start_execution(now);
    core.record_event(
        saga_id,
        ParticipantEvent::StepExecutionStarted { attempt: 1, started_at_millis: now },
        now,
    );
    core.put_state(saga_id, SagaStateEntry::Executing(state));
    core.stats.steps_started = saturating_inc(core.stats.steps_started);
}

/// A Completed entry as `complete_step` derives it from an Executing
/// entry: header carried over, stamped `now`, holding the output and the
/// compensation data.
pub open spec fn completed_from(
    e_new: SagaStateEntry,
    e_old: SagaStateEntry,
    output: Seq<u8>,
    comp: Seq<u8>,
    now: u64,
) -> bool {
    e_old matches SagaStateEntry::Executing(s) && e_new matches SagaStateEntry::Completed(t)
        && t.saga_id == s.saga_id && t.saga_type == s.saga_type && t.step_name == s.step_name
        && t.correlation_id == s.correlation_id && t.trace_id == s.trace_id
        && t.initiator_peer_id == s.initiator_peer_id && t.saga_started_at_millis
        == s.saga_started_at_millis && t.last_updated_at_millis == now && t.events == s.events
        && t.state.completed_at_millis == now && t.state.output@ == output
        && t.state.compensation_data@ == comp
}

/// Complete a step: move the saga Executing -> Completed, persist the
/// completion with its real compensation data, count it, and emit
/// `StepCompleted`. A saga not currently Executing here is left alone.
pub fn complete_step(
    core: &mut ParticipantCore,
    context: &SagaContext,
    output: StepOutput,
    now: u64,
) -> (out: DispatchOutcome)
    requires
        old(core).wf(),
    ensures
        final(core).wf(),
        final(core).config_view() == old(core).config_view(),
        final(core).dedupe_set() == old(core).dedupe_set(),
        final(core).trace_cursor() == old(core).trace_cursor(),
        final(core).pending_map() == old(core).pending_map(),
        out.retry is None,
        phase_of(old(core).states_map(), context.saga_id.0) != Some(Phase::Executing) ==> {
            &&& final(core).states_map() == old(core).states_map()
            &&& final(core).journal_map() == old(core).journal_map()
            &&& final(core).journal_cursor() == old(core).journal_cursor()
            &&& final(core).stats_view() == old(core).stats_view()
            &&& out.emitted@ == Seq::<SagaChoreographyEvent>::empty()
        },
        phase_of(old(core).states_map(), context.saga_id.0) == Some(Phase::Executing) ==> {
            &&& final(core).states_map() == old(core).states_map().insert(
                context.saga_id.0,
                final(core).states_map()[context.saga_id.0],
            )
            &&& completed_from(
                final(core).states_map()[context.saga_id.0],
                old(core).states_map()[context.saga_id.0],
                output.output_view(),
                output.comp_view(),
                now,
            )
            &&& final(core).stats_view() == (ParticipantStats {
                steps_completed: bump(old(core).stats_view().steps_completed),
                ..old(core).stats_view()
            })
            &&& out.emitted@.len() == 1
            &&& (out.emitted@[0] matches SagaChoreographyEvent::StepCompleted {
                context: c,
                output: o,
                compensation_available: avail,
            } && c == *context && o@ == output.output_view() && avail == (
            output.comp_view().len() > 0))
            &&& old(core).journal_cursor() < u64::MAX ==> {
                &&& journal_appended_one(
                    old(core).journal_map(),
                    final(core).journal_map(),
                    context.saga_id.0,
                    old(core).journal_cursor(),
                    now,
                )
                &&& is_exec_completed(
                    entries_of(final(core).journal_map(), context.saga_id.0).last().event,
                    output.output_view(),
                    output.comp_view(),
                    now,
                )
                &&& final(core).journal_cursor() == old(core).journal_cursor() + 1
            }
            &&& old(core).journal_cursor() == u64::MAX ==> final(core).journal_map() == old(
                core,
            ).journal_map() && final(core).journal_cursor() == old(core).journal_cursor()
        },
{
    let saga_id = context.saga_id;
    let (out_data, comp_data) = match output {
        StepOutput::Completed { output, compensation_data } => (output, compensation_data),
        StepOutput::CompletedWithEffect { output, compensation_data, .. } => (
            output,
            compensation_data,
        ),
    };
    match core.take_state(saga_id) {
        Some(SagaStateEntry::Executing(state)) => {
            let journal_output = clone_bytes(&out_data);
            let journal_comp = clone_bytes(&comp_data);
            let emitted_output = clone_bytes(&out_data);
            let compensation_available = comp_data.len() > 0;
            let new_state = state.complete(out_data, comp_data, now);
            core.put_state(saga_id, SagaStateEntry::Completed(new_state));
            core.record_event(
                saga_id,
                ParticipantEvent::StepExecutionCompleted {
                    output: journal_output,
                    compensation_data: journal_comp,
                    completed_at_millis: now,
                },
                now,
            );
            core.stats.steps_completed = saturating_inc(core.stats.steps_completed);
            let mut emitted: Vec<SagaChoreographyEvent> = Vec::new();
            emitted.push(
                SagaChoreographyEvent::StepCompleted {
                    context: context.duplicate(),
                    output: emitted_output,
                    compensation_available,
                },
            );
            DispatchOutcome { emitted, retry: None }
        },
        Some(other) => {
            core.put_state(saga_id, other);
            proof {
                assert(core.states_map() =~= old(core).states_map());
            }
            DispatchOutcome::empty()
        },
        None => DispatchOutcome::empty(),
    }
}

/// A Failed entry as `fail_step` derives it from an Executing entry.
pub open spec fn failed_from(
    e_new: SagaStateEntry,
    e_old: SagaStateEntry,
    error: Seq<char>,
    req: bool,
    now: u64,
) -> bool {
    e_old matches SagaStateEntry::Executing(s) && e_new matches SagaStateEntry::Failed(t)
        && t.saga_id == s.saga_id && t.saga_type == s.saga_type && t.step_name == s.step_name
        && t.correlation_id == s.correlation_id && t.trace_id == s.trace_id
        && t.initiator_peer_id == s.initiator_peer_id && t.saga_started_at_millis
        == s.saga_started_at_millis && t.last_updated_at_millis == now && t.events == s.events
        && t.state.failed_at_millis == now && t.state.error@ == error
        && t.state.requires_compensation == req
}

/// An Executing entry re-entered by an explicit retry: header carried
/// over, attempt incremented, stamped `now`.
pub open spec fn retried_executing(e_new: SagaStateEntry, e_old: SagaStateEntry, now: u64) -> bool {
    e_old matches SagaStateEntry::Executing(s) && e_new matches SagaStateEntry::Executing(t)
        && t.saga_id == s.saga_id && t.saga_type == s.saga_type && t.step_name == s.step_name
        && t.correlation_id == s.correlation_id && t.trace_id == s.trace_id
        && t.initiator_peer_id == s.initiator_peer_id && t.saga_started_at_millis
        == s.saga_started_at_millis && t.last_updated_at_millis == now && t.events == s.events
        && t.state.started_at_millis == now && t.state.attempt == s.state.attempt + 1
}

/// Whether a failure of this saga may still be retried: it is Executing,
/// attempts remain under the policy, and the attempt counter has room.
pub open spec fn retry_eligible(e: SagaStateEntry, policy: RetryPolicy, ctx: SagaContext) -> bool {
    e matches SagaStateEntry::Executing(s) && s.state.attempt < policy.max_attempts && ctx.attempt
        < u32::MAX
}

/// The context a retry directive carries, derived from `c` with the
/// attempt counter incremented and a fresh trace ID drawn at `cursor`.
pub open spec fn retry_context_of(r: SagaContext, c: SagaContext, cursor: u64, now: u64) -> bool {
    &&& r.saga_id == c.saga_id
    &&& r.saga_type == c.saga_type
    &&& r.step_name == c.step_name
    &&& r.correlation_id == c.correlation_id
    &&& r.causation_id == c.causation_id
    &&& r.trace_id == crate::context::fresh_trace(cursor, c.trace_id)
    &&& c.trace_id < u64::MAX ==> r.trace_id > c.trace_id
    &&& r.step_index == c.step_index
    &&& r.attempt == c.attempt + 1
    &&& r.initiator_peer_id == c.initiator_peer_id
    &&& r.saga_started_at_millis == c.saga_started_at_millis
    &&& r.event_timestamp_millis == now
}

/// Finish a final step failure: move the saga Executing -> Failed,
/// persist the failure, count it, and emit `StepFailed` — followed by
/// `CompensationRequested` naming the predecessors when the failure
/// requires compensation.
fn finish_step_failure(
    core: &mut ParticipantCore,
    context: &SagaContext,
    state: SagaParticipantState<crate::state::Executing>,
    reason: String,
    requires_compensation: bool,
    now: u64,
) -> (out: DispatchOutcome)
    requires
        old(core).wf(),
        state.saga_id == context.saga_id,
        !old(core).states_map().contains_key(context.saga_id.0),
    ensures
        final(core).wf(),
        final(core).config_view() == old(core).config_view(),
        final(core).dedupe_set() == old(core).dedupe_set(),
        final(core).trace_cursor() == old(core).trace_cursor(),
        final(core).pending_map() == old(core).pending_map(),
        out.retry is None,
        final(core).states_map() == old(core).states_map().insert(
            context.saga_id.0,
            final(core).states_map()[context.saga_id.0],
        ),
        failed_from(
            final(core).states_map()[context.saga_id.0],
            SagaStateEntry::Executing(state),
            reason@,
            requires_compensation,
            now,
        ),
        final(core).stats_view() == (ParticipantStats {
            steps_failed: bump(old(core).stats_view().steps_failed),
            ..old(core).stats_view()
        }),
        old(core).journal_cursor() < u64::MAX ==> {
            &&& journal_appended_one(
                old(core).journal_map(),
                final(core).journal_map(),
                context.saga_id.0,
                old(core).journal_cursor(),
                now,
            )
            &&& is_exec_failed(
                entries_of(final(core).journal_map(), context.saga_id.0).last().event,
                reason@,
                requires_compensation,
                now,
            )
            &&& final(core).journal_cursor() == old(core).journal_cursor() + 1
        },
        old(core).journal_cursor() == u64::MAX ==> final(core).journal_map() == old(
            core,
        ).journal_map() && final(core).journal_cursor() == old(core).journal_cursor(),
        !requires_compensation ==> out.emitted@.len() == 1,
        requires_compensation ==> out.emitted@.len() == 2,
        (out.emitted@[0] matches SagaChoreographyEvent::StepFailed {
            context: c,
            error: m,
            will_retry,
            requires_compensation: rc,
        } && c == *context && m@ == reason@ && will_retry == false && rc == requires_compensation),
        requires_compensation ==> (out.emitted@[1]
            matches SagaChoreographyEvent::CompensationRequested {
            context: c,
            failed_step,
            reason: m,
            steps_to_compensate,
        } && c == *context && failed_step@ == old(core).config_view().step_name@ && m@ == reason@
            && str_views(steps_to_compensate@) == old(core).config_view().depends_on.names_view()),
{
    let saga_id = context.saga_id;
    let journal_reason = reason.clone();
    let new_state = state.fail(reason.clone(), requires_compensation, now);
    core.put_state(saga_id, SagaStateEntry::Failed(new_state));
    core.record_event(
        saga_id,
        ParticipantEvent::StepExecutionFailed {
            error: journal_reason,
            requires_compensation,
            failed_at_millis: now,
        },
        now,
    );
    core.stats.steps_failed = saturating_inc(core.stats.steps_failed);
    let mut emitted: Vec<SagaChoreographyEvent> = Vec::new();
    if requires_compensation {
        emitted.push(
            SagaChoreographyEvent::StepFailed {
                context: context.duplicate(),
                error: reason.clone(),
                will_retry: false,
                requires_compensation,
            },
        );
        emitted.push(
            SagaChoreographyEvent::CompensationRequested {
                context: context.duplicate(),
                failed_step: core.config.step_name.clone(),
                reason,
                steps_to_compensate: core.config.depends_on.names(),
            },
        );
    } else {
        emitted.push(
            SagaChoreographyEvent::StepFailed {
                context: context.duplicate(),
                error: reason,
                will_retry: false,
                requires_compensation,
            },
        );
    }
    DispatchOutcome { emitted, retry: None }
}

/// Fail a step: a retriable error within the policy's budget re-arms the
/// step (attempt incremented) and hands the host a retry directive; an
/// exhausted retriable error escalates to a terminal failure; terminal
/// and compensation-requiring errors move the saga Executing -> Failed,
/// persist and count the failure, and emit `StepFailed` (plus
/// `CompensationRequested` naming the predecessors, where required). A
/// saga not currently Executing here is left alone.
pub fn fail_step(
    core: &mut ParticipantCore,
    context: &SagaContext,
    error: StepError,
    input: &Vec<u8>,
    now: u64,
) -> (out: DispatchOutcome)
    requires
        old(core).wf(),
    ensures
        final(core).wf(),
        final(core).config_view() == old(core).config_view(),
        final(core).dedupe_set() == old(core).dedupe_set(),
        final(core).pending_map() == old(core).pending_map(),
        phase_of(old(core).states_map(), context.saga_id.0) != Some(Phase::Executing) ==> {
            &&& final(core).states_map() == old(core).states_map()
            &&& final(core).journal_map() == old(core).journal_map()
            &&& final(core).journal_cursor() == old(core).journal_cursor()
            &&& final(core).stats_view() == old(core).stats_view()
            &&& final(core).trace_cursor() == old(core).trace_cursor()
            &&& out.emitted@ == Seq::<SagaChoreographyEvent>::empty()
            &&& out.retry is None
        },
        ({
            let id = context.saga_id.0;
            let executing = phase_of(old(core).states_map(), id) == Some(Phase::Executing);
            let retries = error is Retriable && retry_eligible(
                old(core).states_map()[id],
                old(core).config_view().retry_policy,
                *context,
            );
            &&& (executing && retries) ==> {
                &&& final(core).states_map() == old(core).states_map().insert(
                    id,
                    final(core).states_map()[id],
                )
                &&& retried_executing(
                    final(core).states_map()[id],
                    old(core).states_map()[id],
                    now,
                )
                &&& final(core).journal_map() == old(core).journal_map()
                &&& final(core).journal_cursor() == old(core).journal_cursor()
                &&& final(core).stats_view() == old(core).stats_view()
                &&& out.emitted@.len() == 1
                &&& (out.emitted@[0] matches SagaChoreographyEvent::StepFailed {
                    context: c,
                    error: m,
                    will_retry,
                    requires_compensation: rc,
                } && c == *context && m@ == error.reason_view() && will_retry == true && rc
                    == false)
                &&& (out.retry matches Some(d) && d.compensation == false && d.input@ == input@
                    && d.delay_millis == old(core).config_view().retry_policy.delay_view(
                    old(core).states_map()[id]->Executing_0.state.attempt,
                ) && retry_context_of(d.context, *context, old(core).trace_cursor(), now))
            }
            &&& (executing && !retries) ==> {
                &&& final(core).states_map() == old(core).states_map().insert(
                    id,
                    final(core).states_map()[id],
                )
                &&& failed_from(
                    final(core).states_map()[id],
                    old(core).states_map()[id],
                    error.reason_view(),
                    error is RequireCompensation,
                    now,
                )
                &&& final(core).trace_cursor() == old(core).trace_cursor()
                &&& final(core).stats_view() == (ParticipantStats {
                    steps_failed: bump(old(core).stats_view().steps_failed),
                    ..old(core).stats_view()
                })
                &&& old(core).journal_cursor() < u64::MAX ==> {
                    &&& journal_appended_one(
                        old(core).journal_map(),
                        final(core).journal_map(),
                        id,
                        old(core).journal_cursor(),
                        now,
                    )
                    &&& is_exec_failed(
                        entries_of(final(core).journal_map(), id).last().event,
                        error.reason_view(),
                        error is RequireCompensation,
                        now,
                    )
                    &&& final(core).journal_cursor() == old(core).journal_cursor() + 1
                }
                &&& old(core).journal_cursor() == u64::MAX ==> final(core).journal_map() == old(
                    core,
                ).journal_map() && final(core).journal_cursor() == old(core).journal_cursor()
                &&& out.retry is None
                &&& (out.emitted@[0] matches SagaChoreographyEvent::StepFailed {
                    context: c,
                    error: m,
                    will_retry,
                    requires_compensation: rc,
                } && c == *context && m@ == error.reason_view() && will_retry == false && rc == (
                error is RequireCompensation))
                &&& (error is RequireCompensation) ==> out.emitted@.len() == 2 && (out.emitted@[1]
                    matches SagaChoreographyEvent::CompensationRequested {
                    context: c,
                    failed_step,
                    reason: m,
                    steps_to_compensate,
                } && c == *context && failed_step@ == old(core).config_view().step_name@ && m@
                    == error.reason_view() && str_views(steps_to_compensate@) == old(
                    core,
                ).config_view().depends_on.names_view())
                &&& !(error is RequireCompensation) ==> out.emitted@.len() == 1
            }
        }),
{
    let saga_id = context.saga_id;
    match core.take_state(saga_id) {
        Some(SagaStateEntry::Executing(state)) => {
            match error {
                StepError::Retriable { reason } => {
                    let attempt = state.state.attempt;
                    if attempt < core.config.retry_policy.max_attempts && context.attempt
                        < u32::MAX {
                        let delay_millis = core.config.retry_policy.delay_for_attempt(attempt);
                        let new_state = state.retry_execution(now);
                        core.put_state(saga_id, SagaStateEntry::Executing(new_state));
                        let retry_ctx = context.retry(&mut core.trace_gen, now);
                        let mut emitted: Vec<SagaChoreographyEvent> = Vec::new();
                        emitted.push(
                            SagaChoreographyEvent::StepFailed {
                                context: context.duplicate(),
                                error: reason,
                                will_retry: true,
                                requires_compensation: false,
                            },
                        );
                        DispatchOutcome {
                            emitted,
                            retry: Some(
                                RetryDirective {
                                    context: retry_ctx,
                                    input: clone_bytes(input),
                                    delay_millis,
                                    compensation: false,
                                },
                            ),
                        }
                    } else {
                        finish_step_failure(core, context, state, reason, false, now)
                    }
                },
                StepError::Terminal { reason } => {
                    finish_step_failure(core, context, state, reason, false, now)
                },
                StepError::RequireCompensation { reason } => {
                    finish_step_failure(core, context, state, reason, true, now)
                },
            }
        },
        Some(other) => {
            core.put_state(saga_id, other);
            proof {
                assert(core.states_map() =~= old(core).states_map());
            }
            DispatchOutcome::empty()
        },
        None => DispatchOutcome::empty(),
    }
}

/// A Compensating entry as `compensate_wrapper` derives it from a
/// Completed entry: attempt 1, stamped `now`.
pub open spec fn compensating_from(e_new: SagaStateEntry, e_old: SagaStateEntry, now: u64) -> bool {
    e_old matches SagaStateEntry::Completed(s) && e_new matches SagaStateEntry::Compensating(t)
        && t.saga_id == s.saga_id && t.saga_type == s.saga_type && t.step_name == s.step_name
        && t.correlation_id == s.correlation_id && t.trace_id == s.trace_id
        && t.initiator_peer_id == s.initiator_peer_id && t.saga_started_at_millis
        == s.saga_started_at_millis && t.last_updated_at_millis == now && t.events == s.events
        && t.state.started_at_millis == now && t.state.attempt == 1
}

/// A Compensated entry as `complete_compensation` derives it from a
/// Compensating entry.
pub open spec fn compensated_from(e_new: SagaStateEntry, e_old: SagaStateEntry, now: u64) -> bool {
    e_old matches SagaStateEntry::Compensating(s) && e_new matches SagaStateEntry::Compensated(t)
        && t.saga_id == s.saga_id && t.saga_type == s.saga_type && t.step_name == s.step_name
        && t.correlation_id == s.correlation_id && t.trace_id == s.trace_id
        && t.initiator_peer_id == s.initiator_peer_id && t.saga_started_at_millis
        == s.saga_started_at_millis && t.last_updated_at_millis == now && t.events == s.events
        && t.state.completed_at_millis == now
}

/// A Quarantined entry as `fail_compensation` derives it from a
/// Compensating entry.
pub open spec fn quarantined_from(
    e_new: SagaStateEntry,
    e_old: SagaStateEntry,
    reason: Seq<char>,
    now: u64,
) -> bool {
    e_old matches SagaStateEntry::Compensating(s) && e_new matches SagaStateEntry::Quarantined(t)
        && t.saga_id == s.saga_id && t.saga_type == s.saga_type && t.step_name == s.step_name
        && t.correlation_id == s.correlation_id && t.trace_id == s.trace_id
        && t.initiator_peer_id == s.initiator_peer_id && t.saga_started_at_millis
        == s.saga_started_at_millis && t.last_updated_at_millis == now && t.events == s.events
        && t.state.quarantined_at_millis == now && t.state.reason@ == reason
}

/// A Compensating entry re-entered by an explicit retry.
pub open spec fn retried_compensating(
    e_new: SagaStateEntry,
    e_old: SagaStateEntry,
    now: u64,
) -> bool {
    e_old matches SagaStateEntry::Compensating(s) && e_new matches SagaStateEntry::Compensating(t)
        && t.saga_id == s.saga_id && t.saga_type == s.saga_type && t.step_name == s.step_name
        && t.correlation_id == s.correlation_id && t.trace_id == s.trace_id
        && t.initiator_peer_id == s.initiator_peer_id && t.saga_started_at_millis
        == s.saga_started_at_millis && t.last_updated_at_millis == now && t.events == s.events
        && t.state.started_at_millis == now && t.state.attempt == s.state.attempt + 1
}

/// Whether a failed compensation may still be retried: the saga is
/// Compensating, attempts remain under the policy, and the attempt
/// counter has room.
pub open spec fn comp_retry_eligible(
    e: SagaStateEntry,
    policy: RetryPolicy,
    ctx: SagaContext,
) -> bool {
    e matches SagaStateEntry::Compensating(s) && s.state.attempt < policy.max_attempts
        && ctx.attempt < u32::MAX
}

/// Complete a compensation: move the saga Compensating -> Compensated,
/// persist and count it, fire the participant hook, and emit
/// `CompensationCompleted`. A saga not currently Compensating here is
/// left alone.
pub fn complete_compensation<P: SagaParticipant>(
    participant: &mut P,
    core: &mut ParticipantCore,
    context: &SagaContext,
    now: u64,
) -> (out: DispatchOutcome)
    requires
        old(core).wf(),
    ensures
        final(core).wf(),
        final(core).config_view() == old(core).config_view(),
        final(core).dedupe_set() == old(core).dedupe_set(),
        final(core).trace_cursor() == old(core).trace_cursor(),
        final(core).pending_map() == old(core).pending_map(),
        out.retry is None,
        phase_of(old(core).states_map(), context.saga_id.0) != Some(Phase::Compensating) ==> {
            &&& final(core).states_map() == old(core).states_map()
            &&& final(core).journal_map() == old(core).journal_map()
            &&& final(core).journal_cursor() == old(core).journal_cursor()
            &&& final(core).stats_view() == old(core).stats_view()
            &&& out.emitted@ == Seq::<SagaChoreographyEvent>::empty()
        },
        phase_of(old(core).states_map(), context.saga_id.0) == Some(Phase::Compensating) ==> {
            &&& final(core).states_map() == old(core).states_map().insert(
                context.saga_id.0,
                final(core).states_map()[context.saga_id.0],
            )
            &&& compensated_from(
                final(core).states_map()[context.saga_id.0],
                old(core).states_map()[context.saga_id.0],
                now,
            )
            &&& final(core).stats_view() == (ParticipantStats {
                compensations_completed: bump(old(core).stats_view().compensations_completed),
                ..old(core).stats_view()
            })
            &&& out.emitted@.len() == 1
            &&& (out.emitted@[0] matches SagaChoreographyEvent::CompensationCompleted {
                context: c,
            } && c == *context)
            &&& old(core).journal_cursor() < u64::MAX ==> {
                &&& journal_appended_one(
                    old(core).journal_map(),
                    final(core).journal_map(),
                    context.saga_id.0,
                    old(core).journal_cursor(),
                    now,
                )
                &&& is_comp_completed(
                    entries_of(final(core).journal_map(), context.saga_id.0).last().event,
                    now,
                )
                &&& final(core).journal_cursor() == old(core).journal_cursor() + 1
            }
            &&& old(core).journal_cursor() == u64::MAX ==> final(core).journal_map() == old(
                core,
            ).journal_map() && final(core).journal_cursor() == old(core).journal_cursor()
        },
{
    let saga_id = context.saga_id;
    match core.take_state(saga_id) {
        Some(SagaStateEntry::Compensating(state)) => {
            let new_state = state.complete_compensation(now);
            core.put_state(saga_id, SagaStateEntry::Compensated(new_state));
            core.record_event(
                saga_id,
                ParticipantEvent::CompensationCompleted { completed_at_millis: now },
                now,
            );
            core.stats.compensations_completed = saturating_inc(
                core.stats.compensations_completed,
            );
            participant.on_compensation_completed(context);
            let mut emitted: Vec<SagaChoreographyEvent> = Vec::new();
            emitted.push(
                SagaChoreographyEvent::CompensationCompleted { context: context.duplicate() },
            );
            DispatchOutcome { emitted, retry: None }
        },
        Some(other) => {
            core.put_state(saga_id, other);
            proof {
                assert(core.states_map() =~= old(core).states_map());
            }
            DispatchOutcome::empty()
        },
        None => DispatchOutcome::empty(),
    }
}

/// Fail a compensation: a safe-to-retry error within the policy's budget
/// re-arms the compensation and hands the host a retry directive; an
/// exhausted, ambiguous, or terminal error quarantines the saga —
/// persisted, counted, the hook fired, and `SagaQuarantined` emitted. A
/// saga not currently Compensating here is left alone.
pub fn fail_compensation<P: SagaParticipant>(
    participant: &mut P,
    core: &mut ParticipantCore,
    context: &SagaContext,
    error: CompensationError,
    compensation_data: Vec<u8>,
    now: u64,
) -> (out: DispatchOutcome)
    requires
        old(core).wf(),
    ensures
        final(core).wf(),
        final(core).config_view() == old(core).config_view(),
        final(core).dedupe_set() == old(core).dedupe_set(),
        final(core).pending_map() == old(core).pending_map(),
        phase_of(old(core).states_map(), context.saga_id.0) != Some(Phase::Compensating) ==> {
            &&& final(core).states_map() == old(core).states_map()
            &&& final(core).journal_map() == old(core).journal_map()
            &&& final(core).journal_cursor() == old(core).journal_cursor()
            &&& final(core).stats_view() == old(core).stats_view()
            &&& final(core).trace_cursor() == old(core).trace_cursor()
            &&& out.emitted@ == Seq::<SagaChoreographyEvent>::empty()
            &&& out.retry is None
        },
        ({
            let id = context.saga_id.0;
            let compensating = phase_of(old(core).states_map(), id) == Some(Phase::Compensating);
            let retries = error is SafeToRetry && comp_retry_eligible(
                old(core).states_map()[id],
                old(core).config_view().retry_policy,
                *context,
            );
            &&& (compensating && retries) ==> {
                &&& final(core).states_map() == old(core).states_map().insert(
                    id,
                    final(core).states_map()[id],
                )
                &&& retried_compensating(
                    final(core).states_map()[id],
                    old(core).states_map()[id],
                    now,
                )
                &&& final(core).journal_map() == old(core).journal_map()
                &&& final(core).journal_cursor() == old(core).journal_cursor()
                &&& final(core).stats_view() == old(core).stats_view()
                &&& out.emitted@ == Seq::<SagaChoreographyEvent>::empty()
                &&& (out.retry matches Some(d) && d.compensation == true && d.input@
                    == compensation_data@ && d.delay_millis == old(
                    core,
                ).config_view().retry_policy.delay_view(
                    old(core).states_map()[id]->Compensating_0.state.attempt,
                ) && retry_context_of(d.context, *context, old(core).trace_cursor(), now))
            }
            &&& (compensating && !retries) ==> {
                &&& final(core).states_map() == old(core).states_map().insert(
                    id,
                    final(core).states_map()[id],
                )
                &&& quarantined_from(
                    final(core).states_map()[id],
                    old(core).states_map()[id],
                    error.reason_view(),
                    now,
                )
                &&& final(core).trace_cursor() == old(core).trace_cursor()
                &&& final(core).stats_view() == (ParticipantStats {
                    quarantined_sagas: bump(old(core).stats_view().quarantined_sagas),
                    ..old(core).stats_view()
                })
                &&& old(core).journal_cursor() < u64::MAX ==> {
                    &&& journal_appended_one(
                        old(core).journal_map(),
                        final(core).journal_map(),
                        id,
                        old(core).journal_cursor(),
                        now,
                    )
                    &&& is_quarantined(
                        entries_of(final(core).journal_map(), id).last().event,
                        error.reason_view(),
                        now,
                    )
                    &&& final(core).journal_cursor() == old(core).journal_cursor() + 1
                }
                &&& old(core).journal_cursor() == u64::MAX ==> final(core).journal_map() == old(
                    core,
                ).journal_map() && final(core).journal_cursor() == old(core).journal_cursor()
                &&& out.retry is None
                &&& out.emitted@.len() == 1
                &&& (out.emitted@[0] matches SagaChoreographyEvent::SagaQuarantined {
                    context: c,
                    reason: m,
                    step,
                } && c == *context && m@ == error.reason_view() && step@ == old(
                    core,
                ).config_view().step_name@)
            }
        }),
{
    let saga_id = context.saga_id;
    match core.take_state(saga_id) {
        Some(SagaStateEntry::Compensating(state)) => {
            let retriable = match &error {
                CompensationError::SafeToRetry { .. } => true,
                _ => false,
            };
            let attempt = state.state.attempt;
            if retriable && attempt < core.config.retry_policy.max_attempts && context.attempt
                < u32::MAX {
                let delay_millis = core.config.retry_policy.delay_for_attempt(attempt);
                let new_state = state.retry_compensation(now);
                core.put_state(saga_id, SagaStateEntry::Compensating(new_state));
                let retry_ctx = context.retry(&mut core.trace_gen, now);
                DispatchOutcome {
                    emitted: Vec::new(),
                    retry: Some(
                        RetryDirective {
                            context: retry_ctx,
                            input: compensation_data,
                            delay_millis,
                            compensation: true,
                        },
                    ),
                }
            } else {
                let reason = match error {
                    CompensationError::SafeToRetry { reason } => reason,
                    CompensationError::Ambiguous { reason } => reason,
                    CompensationError::Terminal { reason } => reason,
                };
                let new_state = state.quarantine(reason.clone(), now);
                core.put_state(saga_id, SagaStateEntry::Quarantined(new_state));
                core.record_event(
                    saga_id,
                    ParticipantEvent::Quarantined {
                        reason: reason.clone(),
                        quarantined_at_millis: now,
                    },
                    now,
                );
                core.stats.quarantined_sagas = saturating_inc(core.stats.quarantined_sagas);
                participant.on_quarantined(context, reason.as_str());
                let mut emitted: Vec<SagaChoreographyEvent> = Vec::new();
                emitted.push(
                    SagaChoreographyEvent::SagaQuarantined {
                        context: context.duplicate(),
                        reason,
                        step: core.config.step_name.clone(),
                    },
                );
                DispatchOutcome { emitted, retry: None }
            }
        },
        Some(other) => {
            core.put_state(saga_id, other);
            proof {
                assert(core.states_map() =~= old(core).states_map());
            }
            DispatchOutcome::empty()
        },
        None => DispatchOutcome::empty(),
    }
}

/// The journals agree on every saga but `id`, where the old entries are a
/// prefix of the new ones.
pub open spec fn journal_extends_only_at(
    pre: Map<u64, Seq<JournalEntry>>,
    post: Map<u64, Seq<JournalEntry>>,
    id: u64,
) -> bool {
    &&& forall|k: u64| k != id ==> #[trigger] entries_of(post, k) == entries_of(pre, k)
    &&& forall|k: u64| k != id ==> (#[trigger] post.contains_key(k)) == pre.contains_key(k)
    &&& entries_of(post, id).len() >= entries_of(pre, id).len()
    &&& entries_of(post, id).subrange(0, entries_of(pre, id).len() as int) == entries_of(pre, id)
}

/// Coherence is preserved by a step that updates one saga's state and
/// appends the matching marker to its journal.
proof fn lemma_match_after_marker(
    pre_s: Map<u64, SagaStateEntry>,
    pre_j: Map<u64, Seq<JournalEntry>>,
    post_s: Map<u64, SagaStateEntry>,
    post_j: Map<u64, Seq<JournalEntry>>,
    id: u64,
)
    requires
        states_match_journal(pre_s, pre_j),
        post_s == pre_s.insert(id, post_s[id]),
        post_s.contains_key(id),
        post_j == pre_j.insert(id, entries_of(pre_j, id).push(entries_of(post_j, id).last())),
        entries_of(post_j, id).len() == entries_of(pre_j, id).len() + 1,
        step_rebuilt(rebuilt_of(entries_of(pre_j, id)), entries_of(post_j, id).last().event)
            == entry_rebuilt_image(post_s[id]),
    ensures
        states_match_journal(post_s, post_j),
{
    assert forall|k: u64| #[trigger] post_s.contains_key(k) implies match post_s[k] {
        SagaStateEntry::Idle(_) => true,
        SagaStateEntry::Triggered(_) => true,
        _ => rebuilt_of(entries_of(post_j, k)) == entry_rebuilt_image(post_s[k]),
    } by {
        if k == id {
            assert(entries_of(post_j, id) == entries_of(pre_j, id).push(
                entries_of(post_j, id).last(),
            ));
            assert(entries_of(post_j, id).drop_last() =~= entries_of(pre_j, id));
        } else {
            assert(pre_s.contains_key(k) && post_s[k] == pre_s[k]);
            assert(entries_of(post_j, k) == entries_of(pre_j, k));
        }
    }
}

/// Coherence is preserved by a step that replaces one saga's state with
/// one of the same rebuilt image, without touching the journal.
proof fn lemma_match_same_image(
    pre_s: Map<u64, SagaStateEntry>,
    j: Map<u64, Seq<JournalEntry>>,
    post_s: Map<u64, SagaStateEntry>,
    id: u64,
)
    requires
        states_match_journal(pre_s, j),
        post_s == pre_s.insert(id, post_s[id]),
        post_s.contains_key(id),
        pre_s.contains_key(id),
        entry_rebuilt_image(post_s[id]) == entry_rebuilt_image(pre_s[id]),
        !(post_s[id] is Idle),
        !(post_s[id] is Triggered),
        !(pre_s[id] is Idle),
        !(pre_s[id] is Triggered),
    ensures
        states_match_journal(post_s, j),
{
    assert forall|k: u64| #[trigger] post_s.contains_key(k) implies match post_s[k] {
        SagaStateEntry::Idle(_) => true,
        SagaStateEntry::Triggered(_) => true,
        _ => rebuilt_of(entries_of(j, k)) == entry_rebuilt_image(post_s[k]),
    } by {
        if k != id {
            assert(pre_s.contains_key(k) && post_s[k] == pre_s[k]);
        }
    }
}

/// Execute the forward step: build the fresh Executing state, persist the
/// start, invoke the participant, and apply whatever came back — success
/// completes the step, failure fails or re-arms it. The participant's
/// result is unconstrained; what each result leads to is stated on
/// [`complete_step`] and [`fail_step`], which take it as an argument. A
/// saga that already has a state entry here is left alone: a step runs at
/// most once per saga at one participant.
pub fn execute_step_wrapper<P: SagaParticipant>(
    participant: &mut P,
    core: &mut ParticipantCore,
    context: SagaContext,
    input: Vec<u8>,
    now: u64,
) -> (out: DispatchOutcome)
    requires
        old(core).wf(),
    ensures
        final(core).wf(),
        final(core).config_view() == old(core).config_view(),
        final(core).dedupe_set() == old(core).dedupe_set(),
        final(core).pending_map() == old(core).pending_map(),
        final(core).states_map().remove(context.saga_id.0) == old(core).states_map().remove(
            context.saga_id.0,
        ),
        journal_extends_only_at(
            old(core).journal_map(),
            final(core).journal_map(),
            context.saga_id.0,
        ),
        old(core).states_map().contains_key(context.saga_id.0) ==> {
            &&& final(core).states_map() == old(core).states_map()
            &&& final(core).journal_map() == old(core).journal_map()
            &&& final(core).journal_cursor() == old(core).journal_cursor()
            &&& final(core).stats_view() == old(core).stats_view()
            &&& final(core).trace_cursor() == old(core).trace_cursor()
            &&& out.emitted@ == Seq::<SagaChoreographyEvent>::empty()
            &&& out.retry is None
        },
        !old(core).states_map().contains_key(context.saga_id.0) ==> {
            &&& final(core).states_map().contains_key(context.saga_id.0)
            &&& (final(core).states_map()[context.saga_id.0].phase_view() is Executing || final(core).states_map()[context.saga_id.0].phase_view() is Completed || final(core).states_map()[context.saga_id.0].phase_view() is Failed)
            &&& old(core).journal_cursor() < u64::MAX ==> ({
                let pre_len = entries_of(old(core).journal_map(), context.saga_id.0).len() as int;
                let post = entries_of(final(core).journal_map(), context.saga_id.0);
                &&& post.len() > pre_len
                &&& is_exec_started(post[pre_len].event, 1, now)
                &&& post[pre_len].sequence == old(core).journal_cursor()
                &&& post[pre_len].recorded_at_millis == now
            })
            &&& final(core).stats_view().steps_started == bump(
                old(core).stats_view().steps_started,
            )
            &&& final(core).stats_view().events_received == old(core).stats_view().events_received
            &&& final(core).stats_view().events_relevant == old(core).stats_view().events_relevant
            &&& final(core).stats_view().duplicate_events == old(
                core,
            ).stats_view().duplicate_events
            &&& final(core).stats_view().compensations_started == old(
                core,
            ).stats_view().compensations_started
            &&& final(core).stats_view().compensations_completed == old(
                core,
            ).stats_view().compensations_completed
            &&& final(core).stats_view().quarantined_sagas == old(
                core,
            ).stats_view().quarantined_sagas
        },
        out.retry matches Some(d) ==> d.compensation == false,
        phase_evolution(old(core).states_map(), final(core).states_map()),
        states_match_journal(old(core).states_map(), old(core).journal_map()) && old(
            core,
        ).journal_cursor() <= u64::MAX - 2 ==> states_match_journal(
            final(core).states_map(),
            final(core).journal_map(),
        ),
{
    let saga_id = context.saga_id;
    if core.contains_state(saga_id) {
        proof {
            let pre = entries_of(core.journal_map(), saga_id.0);
            assert(pre.subrange(0, pre.len() as int) =~= pre);
            assert forall|k: u64| #[trigger]
                phase_step_ok(
                    phase_of(old(core).states_map(), k),
                    phase_of(core.states_map(), k),
                ) by {}
        }
        return DispatchOutcome::empty();
    }
    begin_forward_step(core, &context, now);
    let ghost mid = *core;
    let result = participant.execute_step(&context, &input);
    let out = match result {
        Ok(output) => complete_step(core, &context, output, now),
        Err(error) => fail_step(core, &context, error, &input, now),
    };
    proof {
        let id = saga_id.0;
        assert(core.states_map().remove(id) =~= old(core).states_map().remove(id));
        assert forall|k: u64| #[trigger]
            phase_step_ok(
                phase_of(old(core).states_map(), k),
                phase_of(core.states_map(), k),
            ) by {
            if k != id {
                assert(phase_of(old(core).states_map(), k) == phase_of(
                    final(core).states_map(),
                    k,
                ));
            }
        }
        if states_match_journal(old(core).states_map(), old(core).journal_map()) && old(
            core,
        ).journal_cursor() <= u64::MAX - 2 {
            assert(mid.states_map() =~= old(core).states_map().insert(
                id,
                mid.states_map()[id],
            ));
            lemma_match_after_marker(
                old(core).states_map(),
                old(core).journal_map(),
                mid.states_map(),
                mid.journal_map(),
                id,
            );
            if phase_of(mid.states_map(), id) == Some(Phase::Executing) {
                if core.journal_map() == mid.journal_map() && core.states_map()
                    == mid.states_map() {
                } else if core.journal_map() == mid.journal_map() {
                    lemma_match_same_image(
                        mid.states_map(),
                        mid.journal_map(),
                        core.states_map(),
                        id,
                    );
                } else {
                    lemma_match_after_marker(
                        mid.states_map(),
                        mid.journal_map(),
                        core.states_map(),
                        core.journal_map(),
                        id,
                    );
                }
            }
        }
        assert(journal_extends_only_at(old(core).journal_map(), core.journal_map(), id)) by {
            let pre = entries_of(old(core).journal_map(), id);
            let post = entries_of(core.journal_map(), id);
            assert(post.len() >= pre.len());
            assert(post.subrange(0, pre.len() as int) =~= pre);
        }
    }
    out
}

/// Run the compensation of this participant's step: extract the retained
/// compensation data, move the saga Completed -> Compensating, persist and
/// count the start, invoke the participant, and apply whatever came back.
/// A saga not currently Completed here is left alone — a step that never
/// completed here has nothing to compensate, and one already compensating
/// is never re-entered, so across all events the compensation of a saga
/// starts at most once.
pub fn compensate_wrapper<P: SagaParticipant>(
    participant: &mut P,
    core: &mut ParticipantCore,
    context: &SagaContext,
    now: u64,
) -> (out: DispatchOutcome)
    requires
        old(core).wf(),
    ensures
        final(core).wf(),
        final(core).config_view() == old(core).config_view(),
        final(core).dedupe_set() == old(core).dedupe_set(),
        final(core).pending_map() == old(core).pending_map(),
        final(core).states_map().remove(context.saga_id.0) == old(core).states_map().remove(
            context.saga_id.0,
        ),
        journal_extends_only_at(
            old(core).journal_map(),
            final(core).journal_map(),
            context.saga_id.0,
        ),
        phase_of(old(core).states_map(), context.saga_id.0) != Some(Phase::Completed) ==> {
            &&& final(core).states_map() == old(core).states_map()
            &&& final(core).journal_map() == old(core).journal_map()
            &&& final(core).journal_cursor() == old(core).journal_cursor()
            &&& final(core).stats_view() == old(core).stats_view()
            &&& final(core).trace_cursor() == old(core).trace_cursor()
            &&& out.emitted@ == Seq::<SagaChoreographyEvent>::empty()
            &&& out.retry is None
        },
        phase_of(final(core).states_map(), context.saga_id.0) != Some(Phase::Completed),
        phase_of(old(core).states_map(), context.saga_id.0) == Some(Phase::Completed) ==> {
            &&& final(core).states_map().contains_key(context.saga_id.0)
            &&& (final(core).states_map()[context.saga_id.0].phase_view() is Compensating || final(core).states_map()[context.saga_id.0].phase_view() is Compensated || final(core).states_map()[context.saga_id.0].phase_view() is Quarantined)
            &&& final(core).stats_view().compensations_started == bump(
                old(core).stats_view().compensations_started,
            )
            &&& final(core).stats_view().events_received == old(core).stats_view().events_received
            &&& final(core).stats_view().events_relevant == old(core).stats_view().events_relevant
            &&& final(core).stats_view().duplicate_events == old(
                core,
            ).stats_view().duplicate_events
            &&& final(core).stats_view().steps_started == old(core).stats_view().steps_started
            &&& final(core).stats_view().steps_completed == old(core).stats_view().steps_completed
            &&& final(core).stats_view().steps_failed == old(core).stats_view().steps_failed
        },
        out.retry matches Some(d) ==> d.compensation == true,
        phase_of(old(core).states_map(), context.saga_id.0) == Some(Phase::Completed) ==> (
        out.retry matches Some(d) ==> d.input@ == old(
            core,
        ).states_map()[context.saga_id.0]->Completed_0.state.compensation_data@),
        phase_evolution(old(core).states_map(), final(core).states_map()),
        states_match_journal(old(core).states_map(), old(core).journal_map()) && old(
            core,
        ).journal_cursor() <= u64::MAX - 2 ==> states_match_journal(
            final(core).states_map(),
            final(core).journal_map(),
        ),
{
    let saga_id = context.saga_id;
    let is_completed = match core.get_state(saga_id) {
        Some(e) => match e.phase() {
            Phase::Completed => true,
            _ => false,
        },
        None => false,
    };
    if !is_completed {
        proof {
            let pre = entries_of(core.journal_map(), saga_id.0);
            assert(pre.subrange(0, pre.len() as int) =~= pre);
            assert forall|k: u64| #[trigger]
                phase_step_ok(
                    phase_of(old(core).states_map(), k),
                    phase_of(core.states_map(), k),
                ) by {}
        }
        return DispatchOutcome::empty();
    }
    let state = match core.take_state(saga_id) {
        Some(SagaStateEntry::Completed(s)) => s,
        _ => {
            proof {
                assert(false);
            }
            return DispatchOutcome::empty();
        },
    };
    let comp_data = clone_bytes(&state.state.compensation_data);
    let new_state = state.start_compensation(now);
    core.put_state(saga_id, SagaStateEntry::Compensating(new_state));
    core.record_event(
        saga_id,
        ParticipantEvent::CompensationStarted { attempt: 1, started_at_millis: now },
        now,
    );
    core.stats.compensations_started = saturating_inc(core.stats.compensations_started);
    let ghost mid = *core;
    let result = participant.compensate_step(context, &comp_data);
    let out = match result {
        Ok(_) => complete_compensation(participant, core, context, now),
        Err(error) => fail_compensation(participant, core, context, error, comp_data, now),
    };
    proof {
        let id = saga_id.0;
        assert(core.states_map().remove(id) =~= old(core).states_map().remove(id));
        assert forall|k: u64| #[trigger]
            phase_step_ok(
                phase_of(old(core).states_map(), k),
                phase_of(core.states_map(), k),
            ) by {
            if k != id {
                assert(phase_of(old(core).states_map(), k) == phase_of(
                    final(core).states_map(),
                    k,
                ));
            }
        }
        if states_match_journal(old(core).states_map(), old(core).journal_map()) && old(
            core,
        ).journal_cursor() <= u64::MAX - 2 {
            assert(mid.states_map() =~= old(core).states_map().insert(
                id,
                mid.states_map()[id],
            ));
            lemma_match_after_marker(
                old(core).states_map(),
                old(core).journal_map(),
                mid.states_map(),
                mid.journal_map(),
                id,
            );
            if phase_of(mid.states_map(), id) == Some(Phase::Compensating) {
                if core.journal_map() == mid.journal_map() && core.states_map()
                    == mid.states_map() {
                } else if core.journal_map() == mid.journal_map() {
                    lemma_match_same_image(
                        mid.states_map(),
                        mid.journal_map(),
                        core.states_map(),
                        id,
                    );
                } else {
                    lemma_match_after_marker(
                        mid.states_map(),
                        mid.journal_map(),
                        core.states_map(),
                        core.journal_map(),
                        id,
                    );
                }
            }
        }
        assert(journal_extends_only_at(old(core).journal_map(), core.journal_map(), id)) by {
            let pre = entries_of(old(core).journal_map(), id);
            let post = entries_of(core.journal_map(), id);
            assert(post.len() >= pre.len());
            assert(post.subrange(0, pre.len() as int) =~= pre);
        }
    }
    out
}

/// At-most-one compensation per step. `compensate_wrapper` invokes the
/// participant's compensation only from a Completed state, and its
/// contract guarantees that afterwards the saga's phase is Compensating,
/// Compensated, or Quarantined — never Completed. This lemma closes the
/// loop: from those phases no path of the phase graph leads back into
/// Completed, and every dispatcher call ensures `phase_evolution`, so for
/// as long as the saga lives here its state can never be Completed again.
/// A redelivered `CompensationRequested` therefore finds a non-Completed
/// state and, by `compensate_wrapper`'s contract, changes nothing and
/// invokes nothing: the compensation of a saga starts at most once.
/// Retries of a compensation that failed safely are bounded separately:
/// `fail_compensation` re-arms it only while the state's attempt counter
/// is below `retry_policy.max_attempts`.
pub proof fn lemma_compensation_at_most_once(after: Phase, later: Phase)
    requires
        after is Compensating || after is Compensated || after is Quarantined,
        phase_reachable(after, later),
    ensures
        !(later is Completed),
{
}

/// An unchanged journal extends itself at any saga.
proof fn lemma_journal_extends_refl(j: Map<u64, Seq<JournalEntry>>, id: u64)
    ensures
        journal_extends_only_at(j, j, id),
{
    assert(entries_of(j, id).subrange(0, entries_of(j, id).len() as int) =~= entries_of(j, id));
}

/// An unchanged state table evolves legally.
proof fn lemma_phase_evolution_refl(m: Map<u64, SagaStateEntry>)
    ensures
        phase_evolution(m, m),
{
    assert forall|k: u64| #[trigger] phase_step_ok(phase_of(m, k), phase_of(m, k)) by {}
}

/// Removing one saga preserves journal-state coherence.
proof fn lemma_match_after_remove(
    pre_s: Map<u64, SagaStateEntry>,
    j: Map<u64, Seq<JournalEntry>>,
    id: u64,
)
    requires
        states_match_journal(pre_s, j),
    ensures
        states_match_journal(pre_s.remove(id), j),
{
    assert forall|k: u64| #[trigger] pre_s.remove(id).contains_key(k) implies match pre_s.remove(
        id,
    )[k] {
        SagaStateEntry::Idle(_) => true,
        SagaStateEntry::Triggered(_) => true,
        _ => rebuilt_of(entries_of(j, k)) == entry_rebuilt_image(pre_s.remove(id)[k]),
    } by {
        assert(pre_s.contains_key(k) && pre_s.remove(id)[k] == pre_s[k]);
    }
}

/// Handle one inbound wire event, in order: filter by saga type, gate by
/// the dedupe key, then dispatch by variant — `SagaStarted` and
/// `StepCompleted` may run the forward step, `CompensationRequested` may
/// run the compensation, and the saga lifecycle events fire the hook and
/// prune the saga. Everything the host must do comes back as a value:
/// events to publish and, at most, one retry to schedule.
pub fn handle_saga_event<P: SagaParticipant>(
    participant: &mut P,
    core: &mut ParticipantCore,
    event: SagaChoreographyEvent,
    now: u64,
) -> (out: DispatchOutcome)
    requires
        old(core).wf(),
    ensures
        final(core).wf(),
        final(core).config_view() == old(core).config_view(),
        phase_evolution(old(core).states_map(), final(core).states_map()),
        final(core).states_map().remove(event.context_view().saga_id.0) == old(
            core,
        ).states_map().remove(event.context_view().saga_id.0),
        journal_extends_only_at(
            old(core).journal_map(),
            final(core).journal_map(),
            event.context_view().saga_id.0,
        ),
        final(core).pending_map().remove(event.context_view().saga_id.0) == old(
            core,
        ).pending_map().remove(event.context_view().saga_id.0),
        !old(core).serves(event.context_view().saga_type@) ==> {
            &&& final(core).states_map() == old(core).states_map()
            &&& final(core).journal_map() == old(core).journal_map()
            &&& final(core).journal_cursor() == old(core).journal_cursor()
            &&& final(core).dedupe_set() == old(core).dedupe_set()
            &&& final(core).stats_view() == old(core).stats_view()
            &&& final(core).trace_cursor() == old(core).trace_cursor()
            &&& final(core).pending_map() == old(core).pending_map()
            &&& out.emitted@ == Seq::<SagaChoreographyEvent>::empty()
            &&& out.retry is None
        },
        old(core).serves(event.context_view().saga_type@) && old(core).dedupe_set().contains(
            (event.context_view().saga_id.0, event_key(event)),
        ) ==> {
            &&& final(core).states_map() == old(core).states_map()
            &&& final(core).journal_map() == old(core).journal_map()
            &&& final(core).journal_cursor() == old(core).journal_cursor()
            &&& final(core).dedupe_set() == old(core).dedupe_set()
            &&& final(core).trace_cursor() == old(core).trace_cursor()
            &&& final(core).pending_map() == old(core).pending_map()
            &&& final(core).stats_view() == (ParticipantStats {
                duplicate_events: bump(old(core).stats_view().duplicate_events),
                ..old(core).stats_view()
            })
            &&& out.emitted@ == Seq::<SagaChoreographyEvent>::empty()
            &&& out.retry is None
        },
        old(core).serves(event.context_view().saga_type@) && !old(core).dedupe_set().contains(
            (event.context_view().saga_id.0, event_key(event)),
        ) && is_lifecycle(event) ==> {
            &&& final(core).states_map() == old(core).states_map().remove(
                event.context_view().saga_id.0,
            )
            &&& final(core).journal_map() == old(core).journal_map()
            &&& final(core).journal_cursor() == old(core).journal_cursor()
            &&& final(core).trace_cursor() == old(core).trace_cursor()
            &&& final(core).pending_map() == old(core).pending_map().remove(
                event.context_view().saga_id.0,
            )
            &&& forall|p: (u64, Seq<char>)|
                p.0 == event.context_view().saga_id.0 ==> !final(core).dedupe_set().contains(p)
            &&& final(core).stats_view() == (ParticipantStats {
                events_received: bump(old(core).stats_view().events_received),
                events_relevant: bump(old(core).stats_view().events_relevant),
                ..old(core).stats_view()
            })
            &&& out.emitted@ == Seq::<SagaChoreographyEvent>::empty()
            &&& out.retry is None
        },
        old(core).serves(event.context_view().saga_type@) && !old(core).dedupe_set().contains(
            (event.context_view().saga_id.0, event_key(event)),
        ) && !is_lifecycle(event) ==> {
            &&& final(core).dedupe_set() == old(core).dedupe_set().insert(
                (event.context_view().saga_id.0, event_key(event)),
            )
            &&& final(core).stats_view().events_received == bump(
                old(core).stats_view().events_received,
            )
            &&& final(core).stats_view().events_relevant == bump(
                old(core).stats_view().events_relevant,
            )
            &&& final(core).stats_view().duplicate_events == old(
                core,
            ).stats_view().duplicate_events
        },
        ({
            let c = event.context_view();
            let id = c.saga_id.0;
            let gate = old(core).serves(c.saga_type@) && !old(core).dedupe_set().contains(
                (id, event_key(event)),
            );
            let fires_forward = (event is StepCompleted && triggers_step(
                old(core).config_view().depends_on,
                pending_of(old(core).pending_map(), id),
                c.step_name@,
            ) && c.step_index < usize::MAX) || (event is SagaStarted && old(
                core,
            ).config_view().depends_on is OnSagaStart);
            &&& (gate && fires_forward && !old(core).states_map().contains_key(id)) ==> {
                &&& final(core).states_map().contains_key(id)
                &&& (final(core).states_map()[id].phase_view() is Executing || final(core).states_map()[id].phase_view() is Completed || final(core).states_map()[id].phase_view() is Failed)
                &&& final(core).stats_view().steps_started == bump(
                    old(core).stats_view().steps_started,
                )
                &&& final(core).stats_view().compensations_started == old(
                    core,
                ).stats_view().compensations_started
                &&& old(core).journal_cursor() < u64::MAX ==> ({
                    let pre_len = entries_of(old(core).journal_map(), id).len() as int;
                    let post = entries_of(final(core).journal_map(), id);
                    &&& post.len() > pre_len
                    &&& is_exec_started(post[pre_len].event, 1, now)
                    &&& post[pre_len].sequence == old(core).journal_cursor()
                })
            }
            &&& (gate && (
                event is StepStarted || event is CompensationStarted
                    || event is CompensationCompleted || event is CompensationFailed
                    || event is StepAck || (event is SagaStarted && !(old(
                    core,
                ).config_view().depends_on is OnSagaStart)) || (event is StepCompleted
                    && !triggers_step(
                    old(core).config_view().depends_on,
                    pending_of(old(core).pending_map(), id),
                    c.step_name@,
                )) || (event is StepCompleted && c.step_index == usize::MAX) || (fires_forward
                    && old(core).states_map().contains_key(id)) || (event
                    matches SagaChoreographyEvent::CompensationRequested {
                    steps_to_compensate: steps,
                    ..
                } && !str_views(steps@).contains(old(core).config_view().step_name@))
            )) ==> {
                &&& final(core).states_map() == old(core).states_map()
                &&& final(core).journal_map() == old(core).journal_map()
                &&& final(core).journal_cursor() == old(core).journal_cursor()
                &&& final(core).stats_view() == (ParticipantStats {
                    events_received: bump(old(core).stats_view().events_received),
                    events_relevant: bump(old(core).stats_view().events_relevant),
                    ..old(core).stats_view()
                })
                &&& out.emitted@ == Seq::<SagaChoreographyEvent>::empty()
                &&& out.retry is None
            }
            &&& (gate && (event matches SagaChoreographyEvent::CompensationRequested {
                steps_to_compensate: steps,
                ..
            } && str_views(steps@).contains(old(core).config_view().step_name@))) ==> {
                &&& phase_of(old(core).states_map(), id) != Some(Phase::Completed) ==> {
                    &&& final(core).states_map() == old(core).states_map()
                    &&& final(core).journal_map() == old(core).journal_map()
                    &&& final(core).journal_cursor() == old(core).journal_cursor()
                    &&& final(core).stats_view() == (ParticipantStats {
                        events_received: bump(old(core).stats_view().events_received),
                        events_relevant: bump(old(core).stats_view().events_relevant),
                        ..old(core).stats_view()
                    })
                    &&& out.emitted@ == Seq::<SagaChoreographyEvent>::empty()
                    &&& out.retry is None
                }
                &&& phase_of(old(core).states_map(), id) == Some(Phase::Completed) ==> {
                    &&& final(core).states_map().contains_key(id)
                    &&& (final(core).states_map()[id].phase_view() is Compensating || final(core).states_map()[id].phase_view() is Compensated || final(core).states_map()[id].phase_view() is Quarantined)
                    &&& final(core).stats_view().compensations_started == bump(
                        old(core).stats_view().compensations_started,
                    )
                    &&& final(core).stats_view().steps_started == old(
                        core,
                    ).stats_view().steps_started
                }
            }
        }),
        states_match_journal(old(core).states_map(), old(core).journal_map()) && old(
            core,
        ).journal_cursor() <= u64::MAX - 2 ==> states_match_journal(
            final(core).states_map(),
            final(core).journal_map(),
        ),
{
    let saga_id = event.context().saga_id;
    let ghost id = saga_id.0;
    let saga_type = event.context().saga_type.clone();
    let served = vec_contains_string(&core.config.saga_types, &saga_type);
    if !served {
        proof {
            lemma_journal_extends_refl(core.journal_map(), id);
            lemma_phase_evolution_refl(core.states_map());
        }
        return DispatchOutcome::empty();
    }
    let key = dedupe_key(event.context().trace_id, event.event_type());
    let fresh = core.check_dedupe(saga_id, key.as_str());
    if !fresh {
        core.stats.duplicate_events = saturating_inc(core.stats.duplicate_events);
        proof {
            assert(core.dedupe_set() =~= old(core).dedupe_set());
            lemma_journal_extends_refl(core.journal_map(), id);
            lemma_phase_evolution_refl(core.states_map());
        }
        return DispatchOutcome::empty();
    }
    core.stats.events_received = saturating_inc(core.stats.events_received);
    core.stats.events_relevant = saturating_inc(core.stats.events_relevant);
    let ghost gated = *core;
    let out = match event {
        SagaChoreographyEvent::SagaStarted { context, payload } => {
            if core.config.depends_on.is_on_saga_start() {
                let mut ctx = context;
                ctx.step_name = core.config.step_name.clone();
                execute_step_wrapper(participant, core, ctx, payload, now)
            } else {
                proof {
                    lemma_journal_extends_refl(core.journal_map(), id);
                    lemma_phase_evolution_refl(core.states_map());
                }
                DispatchOutcome::empty()
            }
        },
        SagaChoreographyEvent::StepCompleted { context, output, .. } => {
            let ghost dep = old(core).config_view().depends_on;
            let ghost before = pending_of(old(core).pending_map(), saga_id.0);
            let triggered = match &core.config.depends_on {
                DependencySpec::OnSagaStart => {
                    proof {
                        assert(!triggers_step(dep, before, context.step_name@));
                    }
                    false
                },
                DependencySpec::After(step) => {
                    let hit = *step == context.step_name;
                    proof {
                        assert(hit == triggers_step(dep, before, context.step_name@));
                    }
                    hit
                },
                DependencySpec::AnyOf(steps) => {
                    let hit = vec_contains_string(steps, &context.step_name);
                    proof {
                        assert(hit == triggers_step(dep, before, context.step_name@));
                    }
                    hit
                },
                DependencySpec::AllOf(steps) => {
                    let required = clone_strings(steps);
                    let fired = core.record_predecessor(saga_id, &context.step_name, &required);
                    proof {
                        let fp = core.pending_map()[saga_id.0];
                        if fired {
                            assert forall|j: int| 0 <= j < steps@.len() implies before.contains(
                                (#[trigger] steps@[j])@,
                            ) || (steps@[j])@ == context.step_name@ by {
                                assert(required@[j] == steps@[j]);
                                assert(fp.contains((required@[j])@));
                            }
                        } else {
                            let j = choose|j: int|
                                0 <= j < required@.len() && !fp.contains(
                                    (#[trigger] required@[j])@,
                                );
                            assert(fp.contains((required@[j])@) == (before.contains(
                                (required@[j])@,
                            ) || (required@[j])@ == context.step_name@));
                            assert(required@[j] == steps@[j]);
                        }
                        assert(fired == triggers_step(dep, before, context.step_name@));
                    }
                    fired
                },
            };
            if triggered && context.step_index < usize::MAX {
                let next_context = context.next_step(
                    core.config.step_name.clone(),
                    &mut core.trace_gen,
                    now,
                );
                execute_step_wrapper(participant, core, next_context, output, now)
            } else {
                proof {
                    lemma_journal_extends_refl(core.journal_map(), id);
                    lemma_phase_evolution_refl(core.states_map());
                }
                DispatchOutcome::empty()
            }
        },
        SagaChoreographyEvent::CompensationRequested { context, steps_to_compensate, .. } => {
            if vec_contains_string(&steps_to_compensate, &core.config.step_name) {
                compensate_wrapper(participant, core, &context, now)
            } else {
                proof {
                    lemma_journal_extends_refl(core.journal_map(), id);
                    lemma_phase_evolution_refl(core.states_map());
                }
                DispatchOutcome::empty()
            }
        },
        SagaChoreographyEvent::SagaCompleted { context } => {
            participant.on_saga_completed(&context);
            core.prune_saga(saga_id);
            proof {
                lemma_journal_extends_refl(core.journal_map(), id);
            }
            DispatchOutcome::empty()
        },
        SagaChoreographyEvent::SagaFailed { context, reason } => {
            participant.on_saga_failed(&context, reason.as_str());
            core.prune_saga(saga_id);
            proof {
                lemma_journal_extends_refl(core.journal_map(), id);
            }
            DispatchOutcome::empty()
        },
        SagaChoreographyEvent::SagaQuarantined { context, reason, .. } => {
            participant.on_quarantined(&context, reason.as_str());
            core.prune_saga(saga_id);
            proof {
                lemma_journal_extends_refl(core.journal_map(), id);
            }
            DispatchOutcome::empty()
        },
        _ => {
            proof {
                lemma_journal_extends_refl(core.journal_map(), id);
                lemma_phase_evolution_refl(core.states_map());
            }
            DispatchOutcome::empty()
        },
    };
    proof {
        assert(core.states_map().remove(id) =~= old(core).states_map().remove(id));
        assert(core.pending_map().remove(id) =~= old(core).pending_map().remove(id));
        assert forall|k: u64| #[trigger]
            phase_step_ok(
                phase_of(old(core).states_map(), k),
                phase_of(core.states_map(), k),
            ) by {
            if k != id {
                let pre = old(core).states_map();
                let post = core.states_map();
                assert(post.remove(id) == pre.remove(id));
                assert(post.contains_key(k) == post.remove(id).contains_key(k));
                assert(pre.contains_key(k) == pre.remove(id).contains_key(k));
                if post.contains_key(k) {
                    assert(post[k] == post.remove(id)[k]);
                    assert(pre[k] == pre.remove(id)[k]);
                }
                assert(phase_of(pre, k) == phase_of(post, k));
            } else {
                assert(phase_step_ok(
                    phase_of(gated.states_map(), k),
                    phase_of(core.states_map(), k),
                ));
            }
        }
        if is_lifecycle(event) {
            assert(core.dedupe_set() =~= Set::new(
                |p: (u64, Seq<char>)| gated.dedupe_set().contains(p) && p.0 != id,
            ));
        }
        if states_match_journal(old(core).states_map(), old(core).journal_map()) && old(
            core,
        ).journal_cursor() <= u64::MAX - 2 {
            if is_lifecycle(event) {
                lemma_match_after_remove(
                    old(core).states_map(),
                    old(core).journal_map(),
                    id,
                );
            }
        }
    }
    out
}

/// Re-invoke the forward step after a scheduled retry: persist the start
/// of the attempt the state already carries, invoke the participant, and
/// apply whatever came back. A saga no longer Executing — pruned or moved
/// on meanwhile — is left alone.
pub fn retry_step<P: SagaParticipant>(
    participant: &mut P,
    core: &mut ParticipantCore,
    context: SagaContext,
    input: Vec<u8>,
    now: u64,
) -> (out: DispatchOutcome)
    requires
        old(core).wf(),
    ensures
        final(core).wf(),
        final(core).config_view() == old(core).config_view(),
        final(core).dedupe_set() == old(core).dedupe_set(),
        final(core).pending_map() == old(core).pending_map(),
        final(core).states_map().remove(context.saga_id.0) == old(core).states_map().remove(
            context.saga_id.0,
        ),
        journal_extends_only_at(
            old(core).journal_map(),
            final(core).journal_map(),
            context.saga_id.0,
        ),
        phase_evolution(old(core).states_map(), final(core).states_map()),
        phase_of(old(core).states_map(), context.saga_id.0) != Some(Phase::Executing) ==> {
            &&& final(core).states_map() == old(core).states_map()
            &&& final(core).journal_map() == old(core).journal_map()
            &&& final(core).journal_cursor() == old(core).journal_cursor()
            &&& final(core).stats_view() == old(core).stats_view()
            &&& final(core).trace_cursor() == old(core).trace_cursor()
            &&& out.emitted@ == Seq::<SagaChoreographyEvent>::empty()
            &&& out.retry is None
        },
        phase_of(old(core).states_map(), context.saga_id.0) == Some(Phase::Executing) ==> {
            &&& final(core).states_map().contains_key(context.saga_id.0)
            &&& (final(core).states_map()[context.saga_id.0].phase_view() is Executing || final(core).states_map()[context.saga_id.0].phase_view() is Completed || final(core).states_map()[context.saga_id.0].phase_view() is Failed)
            &&& old(core).journal_cursor() < u64::MAX ==> ({
                let pre_len = entries_of(old(core).journal_map(), context.saga_id.0).len() as int;
                let post = entries_of(final(core).journal_map(), context.saga_id.0);
                &&& post.len() > pre_len
                &&& is_exec_started(
                    post[pre_len].event,
                    old(core).states_map()[context.saga_id.0]->Executing_0.state.attempt,
                    now,
                )
                &&& post[pre_len].sequence == old(core).journal_cursor()
                &&& post[pre_len].recorded_at_millis == now
            })
        },
        out.retry matches Some(d) ==> d.compensation == false,
        states_match_journal(old(core).states_map(), old(core).journal_map()) && old(
            core,
        ).journal_cursor() <= u64::MAX - 2 ==> states_match_journal(
            final(core).states_map(),
            final(core).journal_map(),
        ),
{
    let saga_id = context.saga_id;
    let attempt_now = match core.get_state(saga_id) {
        Some(SagaStateEntry::Executing(s)) => Some(s.state.attempt),
        _ => None,
    };
    match attempt_now {
        Some(attempt) => {
            core.record_event(
                saga_id,
                ParticipantEvent::StepExecutionStarted { attempt, started_at_millis: now },
                now,
            );
            let ghost mid = *core;
            let result = participant.execute_step(&context, &input);
            let out = match result {
                Ok(output) => complete_step(core, &context, output, now),
                Err(error) => fail_step(core, &context, error, &input, now),
            };
            proof {
                let id = saga_id.0;
                assert(core.states_map().remove(id) =~= old(core).states_map().remove(id));
                assert forall|k: u64| #[trigger]
                    phase_step_ok(
                        phase_of(old(core).states_map(), k),
                        phase_of(core.states_map(), k),
                    ) by {
                    if k != id {
                        assert(phase_of(old(core).states_map(), k) == phase_of(
                            core.states_map(),
                            k,
                        ));
                    }
                }
                if states_match_journal(old(core).states_map(), old(core).journal_map()) && old(
                    core,
                ).journal_cursor() <= u64::MAX - 2 {
                    assert(mid.states_map() =~= old(core).states_map().insert(
                        id,
                        mid.states_map()[id],
                    ));
                    lemma_match_after_marker(
                        old(core).states_map(),
                        old(core).journal_map(),
                        mid.states_map(),
                        mid.journal_map(),
                        id,
                    );
                    if core.journal_map() == mid.journal_map() && core.states_map()
                        == mid.states_map() {
                    } else if core.journal_map() == mid.journal_map() {
                        lemma_match_same_image(
                            mid.states_map(),
                            mid.journal_map(),
                            core.states_map(),
                            id,
                        );
                    } else {
                        lemma_match_after_marker(
                            mid.states_map(),
                            mid.journal_map(),
                            core.states_map(),
                            core.journal_map(),
                            id,
                        );
                    }
                }
                assert(journal_extends_only_at(
                    old(core).journal_map(),
                    core.journal_map(),
                    id,
                )) by {
                    let pre = entries_of(old(core).journal_map(), id);
                    let post = entries_of(core.journal_map(), id);
                    assert(post.len() >= pre.len());
                    assert(post.subrange(0, pre.len() as int) =~= pre);
                }
            }
            out
        },
        None => {
            proof {
                lemma_journal_extends_refl(core.journal_map(), saga_id.0);
                lemma_phase_evolution_refl(core.states_map());
            }
            DispatchOutcome::empty()
        },
    }
}

/// Re-invoke the compensation after a scheduled retry: persist the start
/// of the attempt the state already carries, invoke the participant, and
/// apply whatever came back. A saga no longer Compensating is left alone.
pub fn retry_compensation<P: SagaParticipant>(
    participant: &mut P,
    core: &mut ParticipantCore,
    context: SagaContext,
    compensation_data: Vec<u8>,
    now: u64,
) -> (out: DispatchOutcome)
    requires
        old(core).wf(),
    ensures
        final(core).wf(),
        final(core).config_view() == old(core).config_view(),
        final(core).dedupe_set() == old(core).dedupe_set(),
        final(core).pending_map() == old(core).pending_map(),
        final(core).states_map().remove(context.saga_id.0) == old(core).states_map().remove(
            context.saga_id.0,
        ),
        journal_extends_only_at(
            old(core).journal_map(),
            final(core).journal_map(),
            context.saga_id.0,
        ),
        phase_evolution(old(core).states_map(), final(core).states_map()),
        phase_of(old(core).states_map(), context.saga_id.0) != Some(Phase::Compensating) ==> {
            &&& final(core).states_map() == old(core).states_map()
            &&& final(core).journal_map() == old(core).journal_map()
            &&& final(core).journal_cursor() == old(core).journal_cursor()
            &&& final(core).stats_view() == old(core).stats_view()
            &&& final(core).trace_cursor() == old(core).trace_cursor()
            &&& out.emitted@ == Seq::<SagaChoreographyEvent>::empty()
            &&& out.retry is None
        },
        phase_of(old(core).states_map(), context.saga_id.0) == Some(Phase::Compensating) ==> {
            &&& final(core).states_map().contains_key(context.saga_id.0)
            &&& (final(core).states_map()[context.saga_id.0].phase_view() is Compensating || final(core).states_map()[context.saga_id.0].phase_view() is Compensated || final(core).states_map()[context.saga_id.0].phase_view() is Quarantined)
            &&& old(core).journal_cursor() < u64::MAX ==> ({
                let pre_len = entries_of(old(core).journal_map(), context.saga_id.0).len() as int;
                let post = entries_of(final(core).journal_map(), context.saga_id.0);
                &&& post.len() > pre_len
                &&& is_comp_started(
                    post[pre_len].event,
                    old(core).states_map()[context.saga_id.0]->Compensating_0.state.attempt,
                    now,
                )
                &&& post[pre_len].sequence == old(core).journal_cursor()
                &&& post[pre_len].recorded_at_millis == now
            })
        },
        out.retry matches Some(d) ==> d.compensation == true,
        states_match_journal(old(core).states_map(), old(core).journal_map()) && old(
            core,
        ).journal_cursor() <= u64::MAX - 2 ==> states_match_journal(
            final(core).states_map(),
            final(core).journal_map(),
        ),
{
    let saga_id = context.saga_id;
    let attempt_now = match core.get_state(saga_id) {
        Some(SagaStateEntry::Compensating(s)) => Some(s.state.attempt),
        _ => None,
    };
    match attempt_now {
        Some(attempt) => {
            core.record_event(
                saga_id,
                ParticipantEvent::CompensationStarted { attempt, started_at_millis: now },
                now,
            );
            let ghost mid = *core;
            let result = participant.compensate_step(&context, &compensation_data);
            let out = match result {
                Ok(_) => complete_compensation(participant, core, &context, now),
                Err(error) => fail_compensation(
                    participant,
                    core,
                    &context,
                    error,
                    compensation_data,
                    now,
                ),
            };
            proof {
                let id = saga_id.0;
                assert(core.states_map().remove(id) =~= old(core).states_map().remove(id));
                assert forall|k: u64| #[trigger]
                    phase_step_ok(
                        phase_of(old(core).states_map(), k),
                        phase_of(core.states_map(), k),
                    ) by {
                    if k != id {
                        assert(phase_of(old(core).states_map(), k) == phase_of(
                            core.states_map(),
                            k,
                        ));
                    }
                }
                if states_match_journal(old(core).states_map(), old(core).journal_map()) && old(
                    core,
                ).journal_cursor() <= u64::MAX - 2 {
                    assert(mid.states_map() =~= old(core).states_map().insert(
                        id,
                        mid.states_map()[id],
                    ));
                    lemma_match_after_marker(
                        old(core).states_map(),
                        old(core).journal_map(),
                        mid.states_map(),
                        mid.journal_map(),
                        id,
                    );
                    if core.journal_map() == mid.journal_map() && core.states_map()
                        == mid.states_map() {
                    } else if core.journal_map() == mid.journal_map() {
                        lemma_match_same_image(
                            mid.states_map(),
                            mid.journal_map(),
                            core.states_map(),
                            id,
                        );
                    } else {
                        lemma_match_after_marker(
                            mid.states_map(),
                            mid.journal_map(),
                            core.states_map(),
                            core.journal_map(),
                            id,
                        );
                    }
                }
                assert(journal_extends_only_at(
                    old(core).journal_map(),
                    core.journal_map(),
                    id,
                )) by {
                    let pre = entries_of(old(core).journal_map(), id);
                    let post = entries_of(core.journal_map(), id);
                    assert(post.len() >= pre.len());
                    assert(post.subrange(0, pre.len() as int) =~= pre);
                }
            }
            out
        },
        None => {
            proof {
                lemma_journal_extends_refl(core.journal_map(), saga_id.0);
                lemma_phase_evolution_refl(core.states_map());
            }
            DispatchOutcome::empty()
        },
    }
}

} // verus!
