use stream_accumulator::orchestrator::{Action, DailyUpdate, Event, Phase, ALBUM_SYNC_ROUNDS, POLL_WAIT_SECS};

#[test]
fn gate_waits_until_the_canary_is_ready() {
    let (mut u, first) = DailyUpdate::new(5);
    assert_eq!(first, Action::CheckCanary(0));
    assert_eq!(u.step(Event::CanaryChecked(Some(false))), Action::CheckCanary(POLL_WAIT_SECS));
    assert_eq!(u.phase(), Phase::StatusGate);
    assert_eq!(u.step(Event::CanaryChecked(Some(true))), Action::RefreshArtists);
    assert_eq!(u.phase(), Phase::RefreshArtists);
}

#[test]
fn unknown_canary_opens_the_gate() {
    let (mut u, _) = DailyUpdate::new(5);
    assert_eq!(u.step(Event::CanaryChecked(None)), Action::RefreshArtists);
}

#[test]
fn canary_fetch_failure_aborts() {
    let (mut u, _) = DailyUpdate::new(5);
    assert_eq!(u.step(Event::CanaryUnavailable), Action::Abort);
    assert_eq!(u.phase(), Phase::Aborted);
}

#[test]
fn artist_refresh_failure_aborts() {
    let (mut u, _) = DailyUpdate::new(5);
    u.step(Event::CanaryChecked(Some(true)));
    assert_eq!(u.step(Event::ArtistRefreshFailed), Action::Abort);
}

#[test]
fn failed_discovery_aborts() {
    let (mut u, _) = DailyUpdate::new(5);
    u.step(Event::CanaryChecked(Some(true)));
    assert_eq!(u.step(Event::ArtistsRefreshed), Action::DiscoverAlbums);
    assert_eq!(u.step(Event::AlbumsDiscovered(false)), Action::Abort);
}

#[test]
fn full_pass_runs_every_phase() {
    let (mut u, _) = DailyUpdate::new(5);
    u.step(Event::CanaryChecked(Some(true)));
    u.step(Event::ArtistsRefreshed);
    assert_eq!(u.step(Event::AlbumsDiscovered(true)), Action::CountRemainingAlbums);
    assert_eq!(u.step(Event::AlbumsRemaining(40)), Action::IngestAlbums);
    assert_eq!(u.phase(), Phase::SyncAlbums(1));
    assert_eq!(u.step(Event::AlbumsRemaining(0)), Action::CountPendingStreams);
    assert_eq!(u.step(Event::TracksRemaining(3)), Action::SweepStreams(0));
    assert_eq!(u.step(Event::TracksRemaining(1)), Action::SweepStreams(POLL_WAIT_SECS));
    assert_eq!(u.step(Event::TracksRemaining(0)), Action::Complete);
    assert_eq!(u.phase(), Phase::Finished);
}

#[test]
fn album_rounds_stop_at_the_cap() {
    let (mut u, _) = DailyUpdate::new(5);
    u.step(Event::CanaryChecked(Some(true)));
    u.step(Event::ArtistsRefreshed);
    u.step(Event::AlbumsDiscovered(true));
    let mut ingests = 0;
    while u.step(Event::AlbumsRemaining(7)) == Action::IngestAlbums {
        ingests += 1;
    }
    assert_eq!(ingests, ALBUM_SYNC_ROUNDS);
    assert_eq!(u.phase(), Phase::SweepStreams(0));
}

#[test]
fn sweeps_stop_at_the_cap() {
    let (mut u, _) = DailyUpdate::new(2);
    u.step(Event::CanaryChecked(Some(true)));
    u.step(Event::ArtistsRefreshed);
    u.step(Event::AlbumsDiscovered(true));
    u.step(Event::AlbumsRemaining(0));
    assert_eq!(u.step(Event::TracksRemaining(9)), Action::SweepStreams(0));
    assert_eq!(u.step(Event::TracksRemaining(9)), Action::SweepStreams(POLL_WAIT_SECS));
    assert_eq!(u.step(Event::TracksRemaining(9)), Action::Complete);
}

#[test]
fn unexpected_event_aborts() {
    let (mut u, _) = DailyUpdate::new(2);
    assert_eq!(u.step(Event::TracksRemaining(1)), Action::Abort);
}
