use vstd::prelude::*;

verus! {

/// Largest gap between the two most recent recorded values for which the
/// upstream figure is still taken to be settling.
pub const SETTLING_GAP: i64 = 100;

/// Whether `playcount` is to be recorded as the day's figure, given the recorded
/// values of the track, most recent first.
pub open spec fn ready(history: Seq<i64>, playcount: u64) -> bool {
    history.len() == 0
        || history[0] as int != playcount as int
        || (history.len() >= 2 && history[0] - history[1] <= SETTLING_GAP as int)
}

/// The oracle's answer: `None` for a track the store does not know, else
/// whether the observed figure is ready to be recorded.
pub open spec fn readiness(history: Option<Seq<i64>>, playcount: u64) -> Option<bool> {
    match history {
        None => None,
        Some(h) => Some(ready(h, playcount)),
    }
}

/// Decides whether `playcount` is a new, settled daily observation, given the
/// track's recorded values, most recent first.
pub fn is_ready(history: &[i64], playcount: u64) -> (r: bool)
    ensures
        r == ready(history@, playcount),
{
    if history.len() == 0 {
        return true;
    }
    let latest = history[0];
    if latest < 0 || latest as u64 != playcount {
        return true;
    }
    history.len() >= 2 && (latest as i128) - (history[1] as i128) <= SETTLING_GAP as i128
}

/// Compares the freshly observed play count of a track with its recorded
/// history (`None` when the store holds no row for the track).
pub fn compare_streams(history: Option<&[i64]>, playcount: u64) -> (r: Option<bool>)
    ensures
        r == readiness(
            match history {
                None => None,
                Some(h) => Some(h@),
            },
            playcount,
        ),
{
    match history {
        None => None,
        Some(h) => Some(is_ready(h, playcount)),
    }
}

} // verus!
