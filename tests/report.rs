use stream_accumulator::payload::CalendarDate;
use stream_accumulator::report::{album_totals, AlbumDisplay, TrackRow};

#[test]
fn row_with_a_week_of_history() {
    let row = TrackRow::create_row("Anti-Hero".to_string(), &[900, 800, 700, 600, 500, 400, 300, 100]);
    assert_eq!(row.name, "Anti-Hero");
    assert_eq!(row.total, Some(900));
    assert_eq!(row.difference_day, Some(100));
    assert_eq!(row.difference_week, Some(800));
}

#[test]
fn row_with_short_history() {
    let row = TrackRow::create_row("x".to_string(), &[42]);
    assert_eq!(row.total, Some(42));
    assert_eq!(row.difference_day, None);
    assert_eq!(row.difference_week, None);
    let empty = TrackRow::create_row("y".to_string(), &[]);
    assert_eq!(empty.total, None);
}

#[test]
fn totals_count_missing_figures_as_zero() {
    let rows = vec![
        TrackRow::create_row("a".to_string(), &[10, 4]),
        TrackRow::create_row("b".to_string(), &[5]),
        TrackRow::create_row("c".to_string(), &[20, 10, 9, 8, 7, 6, 5, 1]),
    ];
    assert_eq!(album_totals(&rows), (35, 16, 19));
    assert_eq!(album_totals(&Vec::new()), (0, 0, 0));
}

#[test]
fn album_report_sums_its_rows() {
    let rows = vec![
        TrackRow::create_row("a".to_string(), &[10, 4]),
        TrackRow::create_row("b".to_string(), &[5]),
    ];
    let release = CalendarDate { year: 2022, month: 10, day: 21 };
    let album = AlbumDisplay::create_album("Midnights".to_string(), None, release, None, Vec::new(), "share".to_string(), rows);
    assert_eq!(album.name, "Midnights");
    assert_eq!(album.release_date, release);
    assert_eq!(album.tracks.len(), 2);
    assert_eq!((album.total, album.difference_day, album.difference_week), (15, 6, 0));
}
