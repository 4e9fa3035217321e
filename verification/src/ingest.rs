use vstd::prelude::*;
use crate::errors::{source_error_text, SourceError, StoreError};
use crate::source_kind::{kind_name, SourceKind};

verus! {

/// Result of a sync operation for one data source.
#[derive(Debug, Clone, Copy, PartialEq, Eq, Structural)]
pub struct SyncReport {
    pub source: SourceKind,
    /// Number of trips fetched from the source.
    pub fetched: u64,
    /// Number of trips written to the store (idempotent upsert).
    pub upserted: u64,
    pub duration_ms: u64,
}

/// Why syncing a source failed.
#[derive(Debug, Clone)]
pub enum IngestError {
    /// No source of this kind is registered.
    SourceNotConfigured(SourceKind),
    /// The store could not say when the newest trip of the source started.
    LatestQueryFailed(SourceKind, StoreError),
    /// The source could not deliver its trips.
    FetchFailed(SourceKind, SourceError),
    /// The store could not write the fetched trips.
    UpsertFailed(SourceKind, StoreError),
}

impl IngestError {
    /// The source whose sync failed.
    pub open spec fn failed_source(self) -> SourceKind {
        match self {
            IngestError::SourceNotConfigured(kind) => kind,
            IngestError::LatestQueryFailed(kind, _) => kind,
            IngestError::FetchFailed(kind, _) => kind,
            IngestError::UpsertFailed(kind, _) => kind,
        }
    }
}

/// The message of a failed sync. A failed store call is described by what
/// was attempted; a failed fetch also quotes the source's own message.
pub open spec fn ingest_error_text(e: IngestError) -> Seq<char> {
    match e {
        IngestError::SourceNotConfigured(kind) => "source not configured: "@ + kind_name(kind),
        IngestError::LatestQueryFailed(kind, _) => "failed to query latest timestamp for "@
            + kind_name(kind),
        IngestError::FetchFailed(kind, cause) => "fetch failed for "@ + kind_name(kind) + ": "@
            + source_error_text(cause),
        IngestError::UpsertFailed(kind, _) => "upsert failed for "@ + kind_name(kind),
    }
}

impl IngestError {
    /// The error's message, e.g. `source not configured: Strava`.
    pub fn to_string(&self) -> (text: String)
        ensures
            text@ == ingest_error_text(*self),
    {
        match self {
            IngestError::SourceNotConfigured(kind) => {
                let mut text = String::from_str("source not configured: ");
                text.append(kind.name());
                text
            },
            IngestError::LatestQueryFailed(kind, _) => {
                let mut text = String::from_str("failed to query latest timestamp for ");
                text.append(kind.name());
                text
            },
            IngestError::FetchFailed(kind, cause) => {
                let mut text = String::from_str("fetch failed for ");
                text.append(kind.name());
                text.append(": ");
                let cause_text = cause.to_string();
                text.append(cause_text.as_str());
                text
            },
            IngestError::UpsertFailed(kind, _) => {
                let mut text = String::from_str("upsert failed for ");
                text.append(kind.name());
                text
            },
        }
    }
}

/// `i` is the position of the first entry of `kinds` equal to `kind`.
pub open spec fn is_first_index(kinds: Seq<SourceKind>, kind: SourceKind, i: int) -> bool {
    &&& 0 <= i < kinds.len()
    &&& kinds[i] == kind
    &&& forall|j: int| 0 <= j < i ==> kinds[j] != kind
}

/// Which of the registered sources, listed by kind in registration order,
/// serves `kind`: the first one of that kind, or none.
pub fn find_source(kinds: &Vec<SourceKind>, kind: SourceKind) -> (found: Option<usize>)
    ensures
        match found {
            Some(i) => is_first_index(kinds@, kind, i as int),
            None => !kinds@.contains(kind),
        },
{
    let mut i: usize = 0;
    while i < kinds.len()
        invariant
            i <= kinds.len(),
            forall|j: int| 0 <= j < i ==> kinds@[j] != kind,
        decreases kinds.len() - i,
    {
        if kinds[i] == kind {
            return Some(i);
        }
        i = i + 1;
    }
    None
}

/// Where a sync of one source stands: which store or source call it waits
/// for, or that it is over.
#[derive(Debug, Clone, Copy, PartialEq, Eq, Structural)]
pub enum SyncPhase {
    /// Waiting for the start time of the newest stored trip of the source.
    AwaitingLatest,
    /// Waiting for the source to deliver the trips that started since then.
    AwaitingFetch,
    /// Waiting for the store to write the `fetched` trips.
    AwaitingUpsert { fetched: u64 },
    /// The sync is over; its outcome has been handed out.
    Finished,
}

/// How far a phase is along the sync; every step moves it forward.
pub open spec fn phase_rank(phase: SyncPhase) -> nat {
    match phase {
        SyncPhase::AwaitingLatest => 0,
        SyncPhase::AwaitingFetch => 1,
        SyncPhase::AwaitingUpsert { .. } => 2,
        SyncPhase::Finished => 3,
    }
}

/// The state of one sync: the source being synced, the position of the
/// registered source that serves it, and the phase.
#[derive(Debug, Clone, Copy, PartialEq, Eq, Structural)]
pub struct SyncState {
    pub source: SourceKind,
    pub source_index: usize,
    pub phase: SyncPhase,
}

/// What the last store or source call returned. `T` is the timestamp type of
/// the store, `B` the trip type that sources deliver and the store writes.
pub enum SyncEvent<T, B> {
    /// `latest_started_at` returned.
    LatestQueried(Result<Option<T>, StoreError>),
    /// `fetch` returned.
    Fetched(Result<Vec<B>, SourceError>),
    /// `upsert_trips` returned.
    Upserted(Result<u64, StoreError>),
}

/// The next thing to do for a sync.
pub enum SyncAction<T, B> {
    /// Ask the store when the newest trip of this source started.
    QueryLatest(SourceKind),
    /// Ask the registered source at `source_index` for the trips that started
    /// after `since` (`None`: all of them).
    Fetch { source_index: usize, since: Option<T> },
    /// Write these trips to the store.
    Upsert(Vec<B>),
    /// The sync is over, with this outcome.
    Finish(Result<SyncReport, IngestError>),
}

impl SyncState {
    /// The event is the reply to the call that this state waits for.
    pub open spec fn accepts_event<T, B>(self, event: SyncEvent<T, B>) -> bool {
        match event {
            SyncEvent::LatestQueried(_) => self.phase is AwaitingLatest,
            SyncEvent::Fetched(_) => self.phase is AwaitingFetch,
            SyncEvent::Upserted(_) => self.phase is AwaitingUpsert,
        }
    }

    /// Whether `event` is the reply to the call that this state waits for.
    pub fn accepts<T, B>(&self, event: &SyncEvent<T, B>) -> (ok: bool)
        ensures
            ok == self.accepts_event(*event),
            event is LatestQueried ==> (ok <==> self.phase == SyncPhase::AwaitingLatest),
            event is Fetched ==> (ok <==> self.phase == SyncPhase::AwaitingFetch),
            event is Upserted ==> (ok <==> self.phase is AwaitingUpsert),
    {
        match event {
            SyncEvent::LatestQueried(_) => match self.phase {
                SyncPhase::AwaitingLatest => true,
                _ => false,
            },
            SyncEvent::Fetched(_) => match self.phase {
                SyncPhase::AwaitingFetch => true,
                _ => false,
            },
            SyncEvent::Upserted(_) => match self.phase {
                SyncPhase::AwaitingUpsert { .. } => true,
                _ => false,
            },
        }
    }
}

/// How a sync of `source` begins, given the kinds of the registered sources
/// in order: with a question to the store when the first source of that kind
/// is found, and with `SourceNotConfigured` when there is none.
pub open spec fn sync_start<T, B>(kinds: Seq<SourceKind>, source: SourceKind) -> (
    SyncState,
    SyncAction<T, B>,
) {
    if kinds.contains(source) {
        let i = choose|i: int| is_first_index(kinds, source, i);
        (
            SyncState { source, source_index: i as usize, phase: SyncPhase::AwaitingLatest },
            SyncAction::QueryLatest(source),
        )
    } else {
        (
            SyncState { source, source_index: 0, phase: SyncPhase::Finished },
            SyncAction::Finish(Err(IngestError::SourceNotConfigured(source))),
        )
    }
}

/// One step of a sync: the state after `event`, and what to do next.
/// A successful reply leads to the next call, handing it exactly what came
/// back; a failed one ends the sync with an error that names the source and
/// carries the failure.
pub open spec fn sync_transition<T, B>(state: SyncState, event: SyncEvent<T, B>) -> (
    SyncState,
    SyncAction<T, B>,
) {
    let finished = SyncState { phase: SyncPhase::Finished, ..state };
    match event {
        SyncEvent::LatestQueried(Ok(since)) => (
            SyncState { phase: SyncPhase::AwaitingFetch, ..state },
            SyncAction::Fetch { source_index: state.source_index, since },
        ),
        SyncEvent::LatestQueried(Err(cause)) => (
            finished,
            SyncAction::Finish(Err(IngestError::LatestQueryFailed(state.source, cause))),
        ),
        SyncEvent::Fetched(Ok(trips)) => (
            SyncState { phase: SyncPhase::AwaitingUpsert { fetched: trips@.len() as u64 }, ..state },
            SyncAction::Upsert(trips),
        ),
        SyncEvent::Fetched(Err(cause)) => (
            finished,
            SyncAction::Finish(Err(IngestError::FetchFailed(state.source, cause))),
        ),
        SyncEvent::Upserted(Ok(upserted)) => (
            finished,
            SyncAction::Finish(
                Ok(
                    SyncReport {
                        source: state.source,
                        fetched: state.phase->fetched,
                        upserted,
                        duration_ms: 0,
                    },
                ),
            ),
        ),
        SyncEvent::Upserted(Err(cause)) => (
            finished,
            SyncAction::Finish(Err(IngestError::UpsertFailed(state.source, cause))),
        ),
    }
}

/// Begins syncing `source`, given the kinds of the registered sources in
/// order.
pub fn start_sync<T, B>(kinds: &Vec<SourceKind>, source: SourceKind) -> (res: (
    SyncState,
    SyncAction<T, B>,
))
    ensures
        res == sync_start::<T, B>(kinds@, source),
        kinds@.contains(source) ==> is_first_index(kinds@, source, res.0.source_index as int),
{
    match find_source(kinds, source) {
        Some(i) => {
            proof {
                let c = choose|c: int| is_first_index(kinds@, source, c);
                assert(is_first_index(kinds@, source, c));
                if c < i {
                    assert(kinds@[c] != source);
                } else if c > i {
                    assert(kinds@[i as int] != source);
                }
            }
            (
                SyncState { source, source_index: i, phase: SyncPhase::AwaitingLatest },
                SyncAction::QueryLatest(source),
            )
        },
        None => (
            SyncState { source, source_index: 0, phase: SyncPhase::Finished },
            SyncAction::Finish(Err(IngestError::SourceNotConfigured(source))),
        ),
    }
}

/// Takes the reply to the call that `state` waits for and decides what comes
/// next.
pub fn advance_sync<T, B>(state: SyncState, event: SyncEvent<T, B>) -> (res: (
    SyncState,
    SyncAction<T, B>,
))
    requires
        state.accepts_event(event),
    ensures
        res == sync_transition(state, event),
{
    let finished = SyncState { phase: SyncPhase::Finished, ..state };
    match event {
        SyncEvent::LatestQueried(Ok(since)) => (
            SyncState { phase: SyncPhase::AwaitingFetch, ..state },
            SyncAction::Fetch { source_index: state.source_index, since },
        ),
        SyncEvent::LatestQueried(Err(cause)) => (
            finished,
            SyncAction::Finish(Err(IngestError::LatestQueryFailed(state.source, cause))),
        ),
        SyncEvent::Fetched(Ok(trips)) => {
            let fetched = trips.len() as u64;
            (
                SyncState { phase: SyncPhase::AwaitingUpsert { fetched }, ..state },
                SyncAction::Upsert(trips),
            )
        },
        SyncEvent::Fetched(Err(cause)) => (
            finished,
            SyncAction::Finish(Err(IngestError::FetchFailed(state.source, cause))),
        ),
        SyncEvent::Upserted(Ok(upserted)) => {
            let fetched = match state.phase {
                SyncPhase::AwaitingUpsert { fetched } => fetched,
                _ => 0,
            };
            (
                finished,
                SyncAction::Finish(
                    Ok(SyncReport { source: state.source, fetched, upserted, duration_ms: 0 }),
                ),
            )
        },
        SyncEvent::Upserted(Err(cause)) => (
            finished,
            SyncAction::Finish(Err(IngestError::UpsertFailed(state.source, cause))),
        ),
    }
}

impl<T, B> SyncEvent<T, B> {
    /// The call that this event replies to failed.
    pub open spec fn is_failure(self) -> bool {
        match self {
            SyncEvent::LatestQueried(r) => r is Err,
            SyncEvent::Fetched(r) => r is Err,
            SyncEvent::Upserted(r) => r is Err,
        }
    }
}

/// A sync of a registered source whose calls all succeed asks the store for
/// the newest start time, hands exactly that time to the first registered
/// source of the kind, writes exactly the trips it fetched, and reports the
/// number of trips fetched, the number the store wrote, and a duration of 0.
pub proof fn lemma_successful_sync_reports_counts<T, B>(
    kinds: Seq<SourceKind>,
    source: SourceKind,
    since: Option<T>,
    trips: Vec<B>,
    upserted: u64,
)
    requires
        kinds.contains(source),
        kinds.len() <= usize::MAX,
    ensures
        ({
            let (s0, a0) = sync_start::<T, B>(kinds, source);
            let e1 = SyncEvent::<T, B>::LatestQueried(Ok(since));
            let (s1, a1) = sync_transition(s0, e1);
            let e2 = SyncEvent::<T, B>::Fetched(Ok(trips));
            let (s2, a2) = sync_transition(s1, e2);
            let e3 = SyncEvent::<T, B>::Upserted(Ok(upserted));
            let (s3, a3) = sync_transition(s2, e3);
            &&& a0 == SyncAction::<T, B>::QueryLatest(source)
            &&& is_first_index(kinds, source, s0.source_index as int)
            &&& s0.accepts_event(e1)
            &&& a1 == SyncAction::<T, B>::Fetch { source_index: s0.source_index, since }
            &&& s1.accepts_event(e2)
            &&& a2 == SyncAction::<T, B>::Upsert(trips)
            &&& s2.accepts_event(e3)
            &&& a3 == SyncAction::<T, B>::Finish(
                Ok(
                    SyncReport {
                        source,
                        fetched: trips@.len() as u64,
                        upserted,
                        duration_ms: 0,
                    },
                ),
            )
            &&& s3.phase == SyncPhase::Finished
        }),
{
    let i = choose|i: int| 0 <= i < kinds.len() && kinds[i] == source;
    lemma_first_index_exists(kinds, source, i);
}

/// When `kinds[i] == kind`, some position is the first one holding `kind`.
proof fn lemma_first_index_exists(kinds: Seq<SourceKind>, kind: SourceKind, i: int)
    requires
        0 <= i < kinds.len(),
        kinds[i] == kind,
    ensures
        exists|f: int| is_first_index(kinds, kind, f),
    decreases i,
{
    if exists|j: int| 0 <= j < i && kinds[j] == kind {
        let j = choose|j: int| 0 <= j < i && kinds[j] == kind;
        lemma_first_index_exists(kinds, kind, j);
    } else {
        assert(is_first_index(kinds, kind, i));
    }
}

/// A sync is refused with `SourceNotConfigured` exactly when no registered
/// source has the requested kind; otherwise it is served by the first
/// registered source of that kind.
pub proof fn lemma_unconfigured_source_is_refused<T, B>(kinds: Seq<SourceKind>, source: SourceKind)
    requires
        kinds.len() <= usize::MAX,
    ensures
        (sync_start::<T, B>(kinds, source).1 == SyncAction::<T, B>::Finish(
            Err(IngestError::SourceNotConfigured(source)),
        )) <==> !kinds.contains(source),
        !kinds.contains(source) ==> sync_start::<T, B>(kinds, source).0.phase
            == SyncPhase::Finished,
        kinds.contains(source) ==> is_first_index(
            kinds,
            source,
            sync_start::<T, B>(kinds, source).0.source_index as int,
        ),
{
    if kinds.contains(source) {
        let i = choose|i: int| 0 <= i < kinds.len() && kinds[i] == source;
        lemma_first_index_exists(kinds, source, i);
    }
}

/// A failed store or source call ends the sync at once: the outcome is an
/// error naming the synced source, and no further reply is accepted.
pub proof fn lemma_failed_call_ends_sync<T, B>(state: SyncState, event: SyncEvent<T, B>)
    requires
        state.accepts_event(event),
        event.is_failure(),
    ensures
        sync_transition(state, event).0.phase == SyncPhase::Finished,
        sync_transition(state, event).1 matches SyncAction::Finish(Err(e)) && e.failed_source()
            == state.source,
        event matches SyncEvent::LatestQueried(Err(cause)) ==> sync_transition(state, event).1
            == SyncAction::<T, B>::Finish(Err(IngestError::LatestQueryFailed(state.source, cause))),
        event matches SyncEvent::Fetched(Err(cause)) ==> sync_transition(state, event).1
            == SyncAction::<T, B>::Finish(Err(IngestError::FetchFailed(state.source, cause))),
        event matches SyncEvent::Upserted(Err(cause)) ==> sync_transition(state, event).1
            == SyncAction::<T, B>::Finish(Err(IngestError::UpsertFailed(state.source, cause))),
        forall|next: SyncEvent<T, B>| !sync_transition(state, event).0.accepts_event(next),
{
}

/// Every accepted reply moves a sync strictly forward, and a finished sync
/// accepts none, so a sync is over after at most three replies.
pub proof fn lemma_sync_moves_forward<T, B>(state: SyncState, event: SyncEvent<T, B>)
    requires
        state.accepts_event(event),
    ensures
        phase_rank(sync_transition(state, event).0.phase) > phase_rank(state.phase),
        phase_rank(sync_transition(state, event).0.phase) <= 3,
        state.phase != SyncPhase::Finished,
        sync_transition(state, event).0.source == state.source,
        sync_transition(state, event).0.source_index == state.source_index,
{
}

/// Whether a reply is accepted depends only on the phase and on which call it
/// answers, never on what the call returned: the store's answer about the
/// newest trip is taken exactly while waiting for it, the source's fetch
/// result exactly while waiting for the fetch, and the store's upsert result
/// exactly while waiting for the upsert, whether each succeeded or failed,
/// whatever the error.
pub proof fn lemma_acceptance_ignores_payload<T, B>(
    state: SyncState,
    latest: Result<Option<T>, StoreError>,
    fetched: Result<Vec<B>, SourceError>,
    upserted: Result<u64, StoreError>,
)
    ensures
        state.accepts_event(SyncEvent::<T, B>::LatestQueried(latest)) <==> state.phase
            == SyncPhase::AwaitingLatest,
        state.accepts_event(SyncEvent::<T, B>::Fetched(fetched)) <==> state.phase
            == SyncPhase::AwaitingFetch,
        state.accepts_event(SyncEvent::<T, B>::Upserted(upserted)) <==> state.phase is AwaitingUpsert,
{
}

/// In a sync of a registered source, a failure of any of its three calls, of
/// any cause, is accepted as the reply to that call and ends the sync with the
/// error for that call, naming the source and carrying exactly the failure;
/// the calls before it hand on what came back.
pub proof fn lemma_any_failure_is_reported<T, B>(
    kinds: Seq<SourceKind>,
    source: SourceKind,
    since: Option<T>,
    trips: Vec<B>,
    latest_failure: StoreError,
    fetch_failure: SourceError,
    upsert_failure: StoreError,
)
    requires
        kinds.contains(source),
        kinds.len() <= usize::MAX,
    ensures
        ({
            let s0 = sync_start::<T, B>(kinds, source).0;
            let e_latest = SyncEvent::<T, B>::LatestQueried(Err(latest_failure));
            &&& s0.accepts_event(e_latest)
            &&& sync_transition(s0, e_latest).1 == SyncAction::<T, B>::Finish(
                Err(IngestError::LatestQueryFailed(source, latest_failure)),
            )
            &&& sync_transition(s0, e_latest).0.phase == SyncPhase::Finished
        }),
        ({
            let s0 = sync_start::<T, B>(kinds, source).0;
            let s1 = sync_transition(s0, SyncEvent::<T, B>::LatestQueried(Ok(since))).0;
            let e_fetch = SyncEvent::<T, B>::Fetched(Err(fetch_failure));
            &&& s1.accepts_event(e_fetch)
            &&& sync_transition(s1, e_fetch).1 == SyncAction::<T, B>::Finish(
                Err(IngestError::FetchFailed(source, fetch_failure)),
            )
            &&& sync_transition(s1, e_fetch).0.phase == SyncPhase::Finished
        }),
        ({
            let s0 = sync_start::<T, B>(kinds, source).0;
            let s1 = sync_transition(s0, SyncEvent::<T, B>::LatestQueried(Ok(since))).0;
            let s2 = sync_transition(s1, SyncEvent::<T, B>::Fetched(Ok(trips))).0;
            let e_upsert = SyncEvent::<T, B>::Upserted(Err(upsert_failure));
            &&& s2.accepts_event(e_upsert)
            &&& sync_transition(s2, e_upsert).1 == SyncAction::<T, B>::Finish(
                Err(IngestError::UpsertFailed(source, upsert_failure)),
            )
            &&& sync_transition(s2, e_upsert).0.phase == SyncPhase::Finished
        }),
{
}

} // verus!
