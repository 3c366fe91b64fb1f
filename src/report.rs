use vstd::prelude::*;
use crate::payload::{CalendarDate, ExtractedColors, Image};

verus! {

/// One track of an album report: its latest recorded figure and its growth
/// over the last day and the last week, where the history reaches that far.
#[derive(Debug)]
pub struct TrackRow {
    pub name: String,
    pub total: Option<i64>,
    pub difference_day: Option<i64>,
    pub difference_week: Option<i64>,
}

/// Recorded play counts are never negative.
pub open spec fn counts_valid(history: Seq<i64>) -> bool {
    forall|i: int| 0 <= i < history.len() ==> history[i] >= 0
}

/// The figure of a history (most recent first) `back` entries after the latest,
/// subtracted from the latest, when the history is long enough.
pub open spec fn growth(history: Seq<i64>, back: int) -> Option<int> {
    if history.len() <= back {
        None
    } else {
        Some(history[0] - history[back])
    }
}

pub open spec fn widen(v: Option<i64>) -> Option<int> {
    match v {
        Some(x) => Some(x as int),
        None => None,
    }
}

impl TrackRow {
    /// The report row of a track, given its recorded values most recent first.
    pub fn create_row(name: String, history: &[i64]) -> (r: TrackRow)
        requires
            counts_valid(history@),
        ensures
            r.name == name,
            r.total == (if history@.len() == 0 {
                None
            } else {
                Some(history@[0])
            }),
            widen(r.difference_day) == growth(history@, 1),
            widen(r.difference_week) == growth(history@, 7),
    {
        let total = if history.len() == 0 {
            None
        } else {
            Some(history[0])
        };
        let difference_day = if history.len() < 2 {
            None
        } else {
            Some(history[0] - history[1])
        };
        let difference_week = if history.len() < 8 {
            None
        } else {
            Some(history[0] - history[7])
        };
        TrackRow { name, total, difference_day, difference_week }
    }
}

pub open spec fn value_or_zero(v: Option<i64>) -> int {
    match v {
        Some(x) => x as int,
        None => 0,
    }
}

/// The sums over the rows of an album report.
pub open spec fn sum_rows(rows: Seq<TrackRow>) -> (int, int, int)
    decreases rows.len(),
{
    if rows.len() == 0 {
        (0, 0, 0)
    } else {
        let s = sum_rows(rows.drop_last());
        let r = rows.last();
        (
            s.0 + value_or_zero(r.total),
            s.1 + value_or_zero(r.difference_day),
            s.2 + value_or_zero(r.difference_week),
        )
    }
}

/// The album-level figures of a report: the sums of the track rows' totals,
/// day growths and week growths, a missing figure counting as zero.
pub fn album_totals(rows: &Vec<TrackRow>) -> (r: (i128, i128, i128))
    ensures
        (r.0 as int, r.1 as int, r.2 as int) == sum_rows(rows@),
{
    let mut total: i128 = 0;
    let mut day: i128 = 0;
    let mut week: i128 = 0;
    let mut i: usize = 0;
    let ghost bound: int = 0x8000_0000_0000_0000int;
    while i < rows.len()
        invariant
            i <= rows.len(),
            bound == 0x8000_0000_0000_0000int,
            (total as int, day as int, week as int) == sum_rows(rows@.take(i as int)),
            -(i * bound) <= total <= i * bound,
            -(i * bound) <= day <= i * bound,
            -(i * bound) <= week <= i * bound,
        decreases rows.len() - i,
    {
        proof {
            assert(rows@.take(i + 1).drop_last() =~= rows@.take(i as int));
            assert(i * bound + bound == (i + 1) * bound) by (nonlinear_arith);
            assert((i + 1) * bound <= 0xFFFF_FFFF_FFFF_FFFF * bound) by (nonlinear_arith)
                requires
                    i + 1 <= 0xFFFF_FFFF_FFFF_FFFFint,
                    bound == 0x8000_0000_0000_0000int,
            ;
        }
        let row = &rows[i];
        let t: i128 = match row.total {
            Some(x) => x as i128,
            None => 0,
        };
        let d: i128 = match row.difference_day {
            Some(x) => x as i128,
            None => 0,
        };
        let w: i128 = match row.difference_week {
            Some(x) => x as i128,
            None => 0,
        };
        total = total + t;
        day = day + d;
        week = week + w;
        i = i + 1;
    }
    proof {
        assert(rows@.take(rows@.len() as int) =~= rows@);
    }
    (total, day, week)
}

/// The report of one album: its metadata, its track rows and the sums of
/// their figures.
#[derive(Debug)]
pub struct AlbumDisplay {
    pub name: String,
    pub date: Option<CalendarDate>,
    pub release_date: CalendarDate,
    pub colors: Option<ExtractedColors>,
    pub images: Vec<Image>,
    pub sharing_id: String,
    pub tracks: Vec<TrackRow>,
    pub total: i128,
    pub difference_day: i128,
    pub difference_week: i128,
}

/// The report of one artist: its albums' reports.
#[derive(Debug)]
pub struct ArtistDisplay {
    pub name: String,
    pub images: Vec<Image>,
    pub albums: Vec<AlbumDisplay>,
}

impl AlbumDisplay {
    /// Assembles an album report from the album's stored metadata (`date` being
    /// the day it was last updated) and its track rows.
    pub fn create_album(
        name: String,
        date: Option<CalendarDate>,
        release_date: CalendarDate,
        colors: Option<ExtractedColors>,
        images: Vec<Image>,
        sharing_id: String,
        tracks: Vec<TrackRow>,
    ) -> (r: AlbumDisplay)
        ensures
            r.name == name && r.date == date && r.release_date == release_date,
            r.colors == colors && r.images == images && r.sharing_id == sharing_id,
            r.tracks == tracks,
            (r.total as int, r.difference_day as int, r.difference_week as int) == sum_rows(
                tracks@,
            ),
    {
        let (total, difference_day, difference_week) = album_totals(&tracks);
        AlbumDisplay {
            name,
            date,
            release_date,
            colors,
            images,
            sharing_id,
            tracks,
            total,
            difference_day,
            difference_week,
        }
    }
}

} // verus!
