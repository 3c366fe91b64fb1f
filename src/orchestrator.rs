use vstd::prelude::*;

verus! {

/// Seconds to wait before polling the canary track again, and between two
/// sweeps of the stream completion.
pub const POLL_WAIT_SECS: u64 = 900;

/// Largest number of album ingestion rounds in one daily update.
pub const ALBUM_SYNC_ROUNDS: u32 = 13;

/// Where a daily update stands.
#[derive(Clone, Copy, PartialEq, Eq, Structural, Debug)]
pub enum Phase {
    /// Waiting for the canary track's figure to roll over to a new day.
    StatusGate,
    /// Refreshing the tracked artists' details and follower counts.
    RefreshArtists,
    /// Discovering the album identifiers of the tracked artists.
    DiscoverAlbums,
    /// Ingesting the albums not yet updated today; the rounds run so far.
    SyncAlbums(u32),
    /// Recording the missing daily figures; the sweeps run so far.
    SweepStreams(u32),
    Finished,
    Aborted,
}

/// What the work of a phase reported.
#[derive(Clone, Copy, PartialEq, Eq, Structural, Debug)]
pub enum Event {
    /// The readiness oracle's answer for the canary track.
    CanaryChecked(Option<bool>),
    /// The canary's figure could not be fetched.
    CanaryUnavailable,
    ArtistsRefreshed,
    ArtistRefreshFailed,
    /// Discovery ended; `false` when it produced no album set.
    AlbumsDiscovered(bool),
    /// How many of the discovered albums are not updated today.
    AlbumsRemaining(u64),
    /// How many albums hold a track without today's figure.
    TracksRemaining(u64),
}

/// What the runner is to do next; after each action it reports the matching event.
#[derive(Clone, Copy, PartialEq, Eq, Structural, Debug)]
pub enum Action {
    /// Wait the given seconds, then check the canary track.
    CheckCanary(u64),
    RefreshArtists,
    DiscoverAlbums,
    /// Count the discovered albums not updated today.
    CountRemainingAlbums,
    /// Ingest the remaining albums, then count them again.
    IngestAlbums,
    /// Count the albums with tracks lacking today's figure.
    CountPendingStreams,
    /// Wait the given seconds, re-record the figures of the pending albums, then count again.
    SweepStreams(u64),
    Complete,
    Abort,
}

/// The transition table of a daily update whose stream sweeps are capped at `max_sweeps`.
pub open spec fn transition(phase: Phase, event: Event, max_sweeps: u32) -> (Phase, Action) {
    match (phase, event) {
        (Phase::StatusGate, Event::CanaryChecked(Some(false))) => (
            Phase::StatusGate,
            Action::CheckCanary(POLL_WAIT_SECS),
        ),
        (Phase::StatusGate, Event::CanaryChecked(_)) => (
            Phase::RefreshArtists,
            Action::RefreshArtists,
        ),
        (Phase::RefreshArtists, Event::ArtistsRefreshed) => (
            Phase::DiscoverAlbums,
            Action::DiscoverAlbums,
        ),
        (Phase::DiscoverAlbums, Event::AlbumsDiscovered(true)) => (
            Phase::SyncAlbums(0),
            Action::CountRemainingAlbums,
        ),
        (Phase::SyncAlbums(round), Event::AlbumsRemaining(n)) => if n > 0 && round
            < ALBUM_SYNC_ROUNDS {
            (Phase::SyncAlbums((round + 1) as u32), Action::IngestAlbums)
        } else {
            (Phase::SweepStreams(0), Action::CountPendingStreams)
        },
        (Phase::SweepStreams(sweep), Event::TracksRemaining(n)) => if n > 0 && sweep
            < max_sweeps {
            (
                Phase::SweepStreams((sweep + 1) as u32),
                Action::SweepStreams(
                    if sweep == 0 {
                        0
                    } else {
                        POLL_WAIT_SECS
                    },
                ),
            )
        } else {
            (Phase::Finished, Action::Complete)
        },
        (Phase::Finished, _) => (Phase::Finished, Action::Complete),
        _ => (Phase::Aborted, Action::Abort),
    }
}

/// The round counters stay within their caps.
pub open spec fn phase_within(phase: Phase, max_sweeps: u32) -> bool {
    match phase {
        Phase::SyncAlbums(round) => round <= ALBUM_SYNC_ROUNDS,
        Phase::SweepStreams(sweep) => sweep <= max_sweeps,
        _ => true,
    }
}

/// The state machine of one daily update: status gate, artist refresh, album
/// discovery and ingestion, then the stream completion sweep.
pub struct DailyUpdate {
    phase: Phase,
    max_sweeps: u32,
}

impl DailyUpdate {
    pub closed spec fn current(&self) -> Phase {
        self.phase
    }

    pub closed spec fn sweep_cap(&self) -> u32 {
        self.max_sweeps
    }

    /// A daily update starts at the status gate, with its first action a check
    /// of the canary track without waiting.
    pub fn new(max_sweeps: u32) -> (r: (DailyUpdate, Action))
        ensures
            r.0.current() == Phase::StatusGate,
            r.0.sweep_cap() == max_sweeps,
            r.1 == Action::CheckCanary(0),
    {
        (DailyUpdate { phase: Phase::StatusGate, max_sweeps }, Action::CheckCanary(0))
    }

    pub fn phase(&self) -> (r: Phase)
        ensures
            r == self.current(),
    {
        self.phase
    }

    /// Takes the event that the last action reported and returns the next action.
    pub fn step(&mut self, event: Event) -> (r: Action)
        requires
            phase_within(old(self).current(), old(self).sweep_cap()),
        ensures
            (final(self).current(), r) == transition(
                old(self).current(),
                event,
                old(self).sweep_cap(),
            ),
            final(self).sweep_cap() == old(self).sweep_cap(),
            phase_within(final(self).current(), final(self).sweep_cap()),
    {
        let (phase, action) = match (self.phase, event) {
            (Phase::StatusGate, Event::CanaryChecked(Some(false))) => (
                Phase::StatusGate,
                Action::CheckCanary(POLL_WAIT_SECS),
            ),
            (Phase::StatusGate, Event::CanaryChecked(_)) => (
                Phase::RefreshArtists,
                Action::RefreshArtists,
            ),
            (Phase::RefreshArtists, Event::ArtistsRefreshed) => (
                Phase::DiscoverAlbums,
                Action::DiscoverAlbums,
            ),
            (Phase::DiscoverAlbums, Event::AlbumsDiscovered(true)) => (
                Phase::SyncAlbums(0),
                Action::CountRemainingAlbums,
            ),
            (Phase::SyncAlbums(round), Event::AlbumsRemaining(n)) => {
                if n > 0 && round < ALBUM_SYNC_ROUNDS {
                    (Phase::SyncAlbums(round + 1), Action::IngestAlbums)
                } else {
                    (Phase::SweepStreams(0), Action::CountPendingStreams)
                }
            },
            (Phase::SweepStreams(sweep), Event::TracksRemaining(n)) => {
                if n > 0 && sweep < self.max_sweeps {
                    let wait = if sweep == 0 {
                        0
                    } else {
                        POLL_WAIT_SECS
                    };
                    (Phase::SweepStreams(sweep + 1), Action::SweepStreams(wait))
                } else {
                    (Phase::Finished, Action::Complete)
                }
            },
            (Phase::Finished, _) => (Phase::Finished, Action::Complete),
            _ => (Phase::Aborted, Action::Abort),
        };
        self.phase = phase;
        action
    }
}

/// Whatever the events, a daily update runs at most `ALBUM_SYNC_ROUNDS`
/// ingestion rounds and at most `max_sweeps` stream sweeps: each one moves its
/// counter up by one, and none is issued once the counter has reached its cap.
pub proof fn lemma_rounds_bounded(phase: Phase, event: Event, max_sweeps: u32)
    requires
        phase_within(phase, max_sweeps),
    ensures
        phase_within(transition(phase, event, max_sweeps).0, max_sweeps),
        transition(phase, event, max_sweeps).1 == Action::IngestAlbums ==> match phase {
            Phase::SyncAlbums(r) => r < ALBUM_SYNC_ROUNDS && transition(phase, event, max_sweeps).0
                == Phase::SyncAlbums((r + 1) as u32),
            _ => false,
        },
        transition(phase, event, max_sweeps).1 is SweepStreams ==> match phase {
            Phase::SweepStreams(s) => s < max_sweeps && transition(phase, event, max_sweeps).0
                == Phase::SweepStreams((s + 1) as u32),
            _ => false,
        },
{
}

} // verus!
