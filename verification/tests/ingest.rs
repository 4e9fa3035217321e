use wisp::ingest::{
    advance_sync, find_source, start_sync, SyncAction, SyncEvent, SyncPhase, SyncState,
};
use wisp::{IngestError, SourceError, SourceKind, StoreError, SyncReport, TripId};

/// The calls a sync made, in order.
#[derive(Debug, PartialEq)]
enum Call {
    QueryLatest(SourceKind),
    Fetch(usize, Option<i64>),
    Upsert(Vec<u32>),
}

/// Runs a sync of `source` over sources of `kinds`, answering each call with
/// the reply given for it.
fn drive(
    kinds: &Vec<SourceKind>,
    source: SourceKind,
    latest: Result<Option<i64>, StoreError>,
    fetched: Result<Vec<u32>, SourceError>,
    upserted: Result<u64, StoreError>,
) -> (Result<SyncReport, IngestError>, Vec<Call>) {
    let mut latest = Some(latest);
    let mut fetched = Some(fetched);
    let mut upserted = Some(upserted);
    let mut calls = Vec::new();
    let (mut state, mut action): (SyncState, SyncAction<i64, u32>) = start_sync(kinds, source);
    loop {
        let event = match action {
            SyncAction::QueryLatest(kind) => {
                calls.push(Call::QueryLatest(kind));
                SyncEvent::LatestQueried(latest.take().unwrap())
            }
            SyncAction::Fetch { source_index, since } => {
                calls.push(Call::Fetch(source_index, since));
                SyncEvent::Fetched(fetched.take().unwrap())
            }
            SyncAction::Upsert(trips) => {
                calls.push(Call::Upsert(trips));
                SyncEvent::Upserted(upserted.take().unwrap())
            }
            SyncAction::Finish(outcome) => {
                assert_eq!(state.phase, SyncPhase::Finished);
                return (outcome, calls);
            }
        };
        assert!(state.accepts(&event));
        let next = advance_sync(state, event);
        state = next.0;
        action = next.1;
    }
}

#[test]
fn sync_source_with_noops_returns_zero_counts() {
    let (outcome, _) = drive(
        &vec![SourceKind::Gpx],
        SourceKind::Gpx,
        Ok(None),
        Ok(vec![]),
        Ok(0),
    );
    let report = outcome.unwrap();
    assert_eq!(report.source, SourceKind::Gpx);
    assert_eq!(report.fetched, 0);
    assert_eq!(report.upserted, 0);
}

#[test]
fn sync_source_errors_when_source_not_configured() {
    let (outcome, calls) = drive(&vec![], SourceKind::Strava, Ok(None), Ok(vec![]), Ok(0));
    let err = outcome.unwrap_err();
    assert!(err.to_string().contains("not configured"));
    assert!(calls.is_empty());
}

#[test]
fn unconfigured_source_message_names_the_kind() {
    let (outcome, calls) = drive(
        &vec![SourceKind::Gpx, SourceKind::ConnectedCars],
        SourceKind::GoogleTimeline,
        Ok(None),
        Ok(vec![]),
        Ok(0),
    );
    assert_eq!(outcome.unwrap_err().to_string(), "source not configured: GoogleTimeline");
    assert!(calls.is_empty());
}

#[test]
fn successful_sync_hands_on_what_each_call_returned() {
    let kinds = vec![SourceKind::Strava, SourceKind::Gpx, SourceKind::Gpx];
    let (outcome, calls) = drive(
        &kinds,
        SourceKind::Gpx,
        Ok(Some(1_700_000_000)),
        Ok(vec![7, 8, 9]),
        Ok(2),
    );
    assert_eq!(
        calls,
        vec![
            Call::QueryLatest(SourceKind::Gpx),
            Call::Fetch(1, Some(1_700_000_000)),
            Call::Upsert(vec![7, 8, 9]),
        ]
    );
    assert_eq!(
        outcome.unwrap(),
        SyncReport { source: SourceKind::Gpx, fetched: 3, upserted: 2, duration_ms: 0 }
    );
}

#[test]
fn failed_latest_query_stops_the_sync() {
    let (outcome, calls) = drive(
        &vec![SourceKind::Strava],
        SourceKind::Strava,
        Err(StoreError::Unavailable("disk gone".to_string())),
        Ok(vec![1]),
        Ok(1),
    );
    let err = outcome.unwrap_err();
    assert_eq!(err.to_string(), "failed to query latest timestamp for Strava");
    assert!(matches!(
        err,
        IngestError::LatestQueryFailed(SourceKind::Strava, StoreError::Unavailable(_))
    ));
    assert_eq!(calls, vec![Call::QueryLatest(SourceKind::Strava)]);
}

#[test]
fn failed_fetch_quotes_the_source_error() {
    let (outcome, calls) = drive(
        &vec![SourceKind::ConnectedCars],
        SourceKind::ConnectedCars,
        Ok(None),
        Err(SourceError::RateLimited(30)),
        Ok(1),
    );
    let err = outcome.unwrap_err();
    assert_eq!(
        err.to_string(),
        "fetch failed for ConnectedCars: rate limited; retry after 30s"
    );
    assert_eq!(
        calls,
        vec![Call::QueryLatest(SourceKind::ConnectedCars), Call::Fetch(0, None)]
    );
}

#[test]
fn failed_upsert_stops_the_sync() {
    let id = TripId::from(uuid::Uuid::nil());
    let (outcome, calls) = drive(
        &vec![SourceKind::Gpx],
        SourceKind::Gpx,
        Ok(None),
        Ok(vec![4]),
        Err(StoreError::NotFound(id)),
    );
    let err = outcome.unwrap_err();
    assert_eq!(err.to_string(), "upsert failed for Gpx");
    assert!(matches!(err, IngestError::UpsertFailed(SourceKind::Gpx, StoreError::NotFound(_))));
    assert_eq!(calls.len(), 3);
}

#[test]
fn find_source_picks_the_first_registered_match() {
    let kinds = vec![SourceKind::Strava, SourceKind::Gpx, SourceKind::Strava];
    assert_eq!(find_source(&kinds, SourceKind::Strava), Some(0));
    assert_eq!(find_source(&kinds, SourceKind::Gpx), Some(1));
    assert_eq!(find_source(&kinds, SourceKind::GoogleTimeline), None);
    assert_eq!(find_source(&vec![], SourceKind::Gpx), None);
}

#[test]
fn states_accept_only_the_reply_they_wait_for() {
    let (state, _): (SyncState, SyncAction<i64, u32>) =
        start_sync(&vec![SourceKind::Gpx], SourceKind::Gpx);
    assert_eq!(state.phase, SyncPhase::AwaitingLatest);
    let fetched: SyncEvent<i64, u32> = SyncEvent::Fetched(Ok(vec![]));
    let upserted: SyncEvent<i64, u32> = SyncEvent::Upserted(Ok(0));
    let latest: SyncEvent<i64, u32> = SyncEvent::LatestQueried(Ok(None));
    assert!(state.accepts(&latest));
    assert!(!state.accepts(&fetched));
    assert!(!state.accepts(&upserted));
    let (state, _) = advance_sync(state, latest);
    assert_eq!(state.phase, SyncPhase::AwaitingFetch);
    assert!(state.accepts(&fetched));
    assert!(!state.accepts(&upserted));
    let (state, _) = advance_sync(state, SyncEvent::<i64, u32>::Fetched(Ok(vec![1, 2])));
    assert_eq!(state.phase, SyncPhase::AwaitingUpsert { fetched: 2 });
    assert!(state.accepts(&upserted));
    let (state, _) = advance_sync(state, upserted);
    assert_eq!(state.phase, SyncPhase::Finished);
    assert!(!state.accepts(&fetched));
}
