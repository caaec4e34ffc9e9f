//! Decisions of the synchronization: what to fetch, when to start the next
//! fetch, and how each entry moves from check to installation.
//!
//! The caller performs the checks, transfers and extractions and reports
//! their outcomes; every decision is made here.
use vstd::prelude::*;
use crate::descriptor::{ResourceDescriptor, ResourceKind};
use crate::integrity::{LocalFile, Validity, assessment, content_matches};

verus! {

/// An entry must be fetched when its file is not valid, or when it is a
/// native archive whose natives directory is missing: extraction is tied to
/// a fresh fetch of the archive.
pub open spec fn fetch_needed(kind: ResourceKind, file_valid: bool, natives_present: bool) -> bool {
    !file_valid || (kind == ResourceKind::NativeArchive && !natives_present)
}

/// Whether the entry of `kind` must be fetched, given whether its file is
/// valid and whether the natives directory exists.
pub fn needs_fetch(kind: ResourceKind, file_valid: bool, natives_present: bool) -> (r: bool)
    ensures
        r == fetch_needed(kind, file_valid, natives_present),
{
    !file_valid || (kind == ResourceKind::NativeArchive && !natives_present)
}

/// The positions to fetch: every position when `force`, else those not valid.
pub open spec fn pending_positions(valid: Seq<bool>, force: bool) -> Seq<usize>
    decreases valid.len(),
{
    if valid.len() == 0 {
        Seq::empty()
    } else {
        pending_positions(valid.drop_last(), force) + if force || !valid.last() {
            seq![(valid.len() - 1) as usize]
        } else {
            Seq::empty()
        }
    }
}

/// The positions of the descriptors to fetch, in order: all of them when
/// `force`, else those whose local file is not valid.
pub fn select_pending(valid: &Vec<bool>, force: bool) -> (r: Vec<usize>)
    ensures
        r@ == pending_positions(valid@, force),
{
    let mut r: Vec<usize> = Vec::new();
    let mut i: usize = 0;
    while i < valid.len()
        invariant
            i <= valid@.len(),
            r@ == pending_positions(valid@.subrange(0, i as int), force),
        decreases valid@.len() - i,
    {
        assert(valid@.subrange(0, i + 1).drop_last() =~= valid@.subrange(0, i as int));
        if force || !valid[i] {
            r.push(i);
        }
        assert(r@ =~= pending_positions(valid@.subrange(0, i + 1), force));
        i = i + 1;
    }
    assert(valid@.subrange(0, valid@.len() as int) =~= valid@);
    r
}

/// Without `force`, a collection whose files are all valid leaves nothing to fetch.
pub proof fn lemma_all_valid_nothing_pending(valid: Seq<bool>)
    requires
        forall|i: int| 0 <= i < valid.len() ==> #[trigger] valid[i],
    ensures
        pending_positions(valid, false).len() == 0,
    decreases valid.len(),
{
    if valid.len() > 0 {
        let prefix = valid.drop_last();
        assert forall|i: int| 0 <= i < prefix.len() implies #[trigger] prefix[i] by {
            assert(prefix[i] == valid[i]);
        }
        lemma_all_valid_nothing_pending(prefix);
        assert(valid.last() == valid[valid.len() - 1]);
    }
}

/// Synchronising again after a complete synchronisation fetches nothing: when
/// every descriptor's local file holds the expected content, each is assessed
/// valid, and no position is pending.
pub proof fn lemma_resync_fetches_nothing(
    descriptors: Seq<ResourceDescriptor>,
    locals: Seq<LocalFile>,
    valid: Seq<bool>,
)
    requires
        locals.len() == descriptors.len(),
        valid.len() == descriptors.len(),
        forall|i: int|
            0 <= i < descriptors.len() ==> (#[trigger] locals[i] is Loaded && content_matches(
                locals[i]->content@,
                descriptors[i].sha1@,
                descriptors[i].size,
            )),
        forall|i: int|
            0 <= i < descriptors.len() ==> #[trigger] valid[i] == (assessment(
                locals[i],
                descriptors[i].sha1@,
                descriptors[i].size,
            ) == Validity::Valid),
    ensures
        pending_positions(valid, false).len() == 0,
{
    assert forall|i: int| 0 <= i < valid.len() implies #[trigger] valid[i] by {
        assert(locals[i] is Loaded);
    }
    lemma_all_valid_nothing_pending(valid);
}

pub open spec fn sum_sizes(descriptors: Seq<ResourceDescriptor>, positions: Seq<usize>) -> int
    decreases positions.len(),
{
    if positions.len() == 0 {
        0
    } else {
        sum_sizes(descriptors, positions.drop_last()) + descriptors[positions.last() as int].size
    }
}

/// The total size of the descriptors at `positions`, saturated at `u64::MAX`.
pub fn pending_bytes(descriptors: &Vec<ResourceDescriptor>, positions: &Vec<usize>) -> (r: u64)
    requires
        forall|i: int| 0 <= i < positions@.len() ==> #[trigger] positions@[i] < descriptors@.len(),
    ensures
        r == if sum_sizes(descriptors@, positions@) > u64::MAX {
            u64::MAX as int
        } else {
            sum_sizes(descriptors@, positions@)
        },
{
    let mut total: u64 = 0;
    let mut i: usize = 0;
    while i < positions.len()
        invariant
            forall|k: int| 0 <= k < positions@.len() ==> #[trigger] positions@[k] < descriptors@.len(),
            i <= positions@.len(),
            total == if sum_sizes(descriptors@, positions@.subrange(0, i as int)) > u64::MAX {
                u64::MAX as int
            } else {
                sum_sizes(descriptors@, positions@.subrange(0, i as int))
            },
            sum_sizes(descriptors@, positions@.subrange(0, i as int)) >= 0,
        decreases positions@.len() - i,
    {
        assert(positions@.subrange(0, i + 1).drop_last() =~= positions@.subrange(0, i as int));
        let size = descriptors[positions[i]].size;
        total = total.saturating_add(size);
        i = i + 1;
    }
    assert(positions@.subrange(0, positions@.len() as int) =~= positions@);
    total
}

/// Hands out pending positions to at most `limit` concurrent fetches and
/// stops handing out after the first failure. A `limit` of zero sets no bound.
#[derive(Debug)]
pub struct FetchScheduler {
    /// Positions to fetch, in the order they are handed out.
    pub pending: Vec<usize>,
    /// How many positions have been handed out.
    pub next: usize,
    pub in_flight: usize,
    pub limit: usize,
    pub completed: usize,
    /// The position whose fetch failed first.
    pub first_failure: Option<usize>,
}

impl FetchScheduler {
    pub open spec fn wf(&self) -> bool {
        &&& self.next <= self.pending@.len()
        &&& self.limit == 0 || self.in_flight <= self.limit
        &&& self.completed + self.in_flight <= self.next
    }

    /// Whether `next_job` would hand out a position now.
    pub open spec fn may_start(&self) -> bool {
        &&& self.first_failure is None
        &&& self.next < self.pending@.len()
        &&& self.limit == 0 || self.in_flight < self.limit
    }

    /// A scheduler over `pending` with nothing started yet.
    pub fn new(pending: Vec<usize>, limit: usize) -> (r: FetchScheduler)
        ensures
            r.wf(),
            r.pending == pending,
            r.limit == limit,
            r.next == 0,
            r.in_flight == 0,
            r.completed == 0,
            r.first_failure is None,
    {
        FetchScheduler { pending, next: 0, in_flight: 0, limit, completed: 0, first_failure: None }
    }

    /// The next position to fetch, if one may start now: none after a
    /// failure, none when all were handed out, none while `limit` fetches
    /// are in flight.
    pub fn next_job(&mut self) -> (r: Option<usize>)
        requires
            old(self).wf(),
        ensures
            final(self).wf(),
            final(self).limit > 0 ==> final(self).in_flight <= final(self).limit,
            old(self).first_failure is Some ==> r is None,
            old(self).may_start() ==> r == Some(old(self).pending@[old(self).next as int]),
            old(self).may_start() ==> *final(self) == (FetchScheduler {
                next: (old(self).next + 1) as usize,
                in_flight: (old(self).in_flight + 1) as usize,
                ..*old(self)
            }),
            !old(self).may_start() ==> r is None && *final(self) == *old(self),
    {
        if self.first_failure.is_some() || self.next >= self.pending.len() || (self.limit > 0
            && self.in_flight >= self.limit) {
            return None;
        }
        let job = self.pending[self.next];
        self.next = self.next + 1;
        self.in_flight = self.in_flight + 1;
        Some(job)
    }

    /// Records the outcome of the fetch of position `job`. Returns whether it
    /// is the first failure, whose error the synchronisation returns.
    pub fn job_finished(&mut self, job: usize, ok: bool) -> (first: bool)
        requires
            old(self).wf(),
            old(self).in_flight > 0,
        ensures
            final(self).wf(),
            final(self).pending == old(self).pending,
            final(self).next == old(self).next,
            final(self).limit == old(self).limit,
            final(self).in_flight == old(self).in_flight - 1,
            final(self).completed == if ok {
                old(self).completed + 1
            } else {
                old(self).completed as int
            },
            first == (!ok && old(self).first_failure is None),
            final(self).first_failure == if first {
                Some(job)
            } else {
                old(self).first_failure
            },
    {
        self.in_flight = self.in_flight - 1;
        if ok {
            self.completed = self.completed + 1;
            false
        } else if self.first_failure.is_none() {
            self.first_failure = Some(job);
            true
        } else {
            false
        }
    }

    /// Whether the synchronisation is over: nothing is in flight and either
    /// everything was handed out or a fetch failed.
    pub fn is_finished(&self) -> (r: bool)
        ensures
            r == (self.in_flight == 0 && (self.first_failure is Some || self.next
                == self.pending@.len())),
    {
        self.in_flight == 0 && (self.first_failure.is_some() || self.next == self.pending.len())
    }
}

/// No scheduler state, reachable or not, that is well formed has more fetches
/// in flight than a nonzero limit.
pub proof fn lemma_concurrency_bound(s: FetchScheduler)
    requires
        s.wf(),
        s.limit > 0,
    ensures
        s.in_flight <= s.limit,
{
}

/// Once a fetch has failed, no further position is handed out.
pub proof fn lemma_fail_fast(s: FetchScheduler)
    requires
        s.first_failure is Some,
    ensures
        !s.may_start(),
{
}

/// Where one descriptor stands in the synchronisation.
#[derive(Clone, Copy, Debug, PartialEq, Eq, Structural)]
pub enum EntryState {
    Unchecked,
    /// The local file is valid; nothing to do.
    Valid,
    Invalid,
    Fetching,
    /// A native archive was fetched and is being extracted.
    Extracting,
    Done,
    Failed,
}

/// An outcome reported by the caller.
#[derive(Clone, Copy, Debug, PartialEq, Eq, Structural)]
pub enum EntryEvent {
    Checked { valid: bool },
    FetchStarted,
    FetchEnded { ok: bool },
    ExtractEnded { ok: bool },
}

/// What the caller has to do for an entry next.
#[derive(Clone, Copy, Debug, PartialEq, Eq, Structural)]
pub enum EntryAction {
    Check,
    Fetch,
    Extract,
    Nothing,
}

pub open spec fn entry_transition(s: EntryState, kind: ResourceKind, e: EntryEvent) -> EntryState {
    match (s, e) {
        (EntryState::Unchecked, EntryEvent::Checked { valid }) => if valid {
            EntryState::Valid
        } else {
            EntryState::Invalid
        },
        (EntryState::Invalid, EntryEvent::FetchStarted) => EntryState::Fetching,
        (EntryState::Fetching, EntryEvent::FetchEnded { ok }) => if !ok {
            EntryState::Failed
        } else if kind == ResourceKind::NativeArchive {
            EntryState::Extracting
        } else {
            EntryState::Done
        },
        (EntryState::Extracting, EntryEvent::ExtractEnded { ok }) => if ok {
            EntryState::Done
        } else {
            EntryState::Failed
        },
        _ => s,
    }
}

pub open spec fn entry_action(s: EntryState) -> EntryAction {
    match s {
        EntryState::Unchecked => EntryAction::Check,
        EntryState::Invalid => EntryAction::Fetch,
        EntryState::Extracting => EntryAction::Extract,
        _ => EntryAction::Nothing,
    }
}

impl EntryState {
    /// The state after event `e`. An event that does not apply leaves the
    /// state unchanged. Only a native archive is extracted after its fetch.
    pub fn advance(self, kind: ResourceKind, e: EntryEvent) -> (r: EntryState)
        ensures
            r == entry_transition(self, kind, e),
    {
        match (self, e) {
            (EntryState::Unchecked, EntryEvent::Checked { valid }) => if valid {
                EntryState::Valid
            } else {
                EntryState::Invalid
            },
            (EntryState::Invalid, EntryEvent::FetchStarted) => EntryState::Fetching,
            (EntryState::Fetching, EntryEvent::FetchEnded { ok }) => if !ok {
                EntryState::Failed
            } else if kind == ResourceKind::NativeArchive {
                EntryState::Extracting
            } else {
                EntryState::Done
            },
            (EntryState::Extracting, EntryEvent::ExtractEnded { ok }) => if ok {
                EntryState::Done
            } else {
                EntryState::Failed
            },
            _ => self,
        }
    }

    /// What the caller does next for an entry in this state.
    pub fn action(self) -> (r: EntryAction)
        ensures
            r == entry_action(self),
    {
        match self {
            EntryState::Unchecked => EntryAction::Check,
            EntryState::Invalid => EntryAction::Fetch,
            EntryState::Extracting => EntryAction::Extract,
            _ => EntryAction::Nothing,
        }
    }

    /// Whether the entry is settled: valid, done or failed.
    pub fn is_terminal(self) -> (r: bool)
        ensures
            r == (self is Valid || self is Done || self is Failed),
    {
        matches!(self, EntryState::Valid | EntryState::Done | EntryState::Failed)
    }
}

} // verus!
