use stream_accumulator::ingest::{album_links, IngestError, TrackPlan};
use stream_accumulator::payload::{
    AlbumUnion, CalendarDate, ExtractedColors, Image, SharingInfo, TrackObject,
};

fn s(v: &str) -> String {
    v.to_string()
}

fn day() -> CalendarDate {
    CalendarDate { year: 2024, month: 3, day: 5 }
}

fn track(id: &str, playcount: u64, artists: &[&str]) -> TrackObject {
    TrackObject {
        uid: format!("uid-{}", id),
        saved: false,
        uri: format!("spotify:track:{}", id),
        name: format!("Track {}", id),
        playcount,
        duration_ms: 201_000,
        artist_uris: artists.iter().map(|a| format!("spotify:artist:{}", a)).collect(),
    }
}

fn album(id: &str, tracks: Vec<TrackObject>) -> AlbumUnion {
    AlbumUnion {
        typename: s("Album"),
        uri: format!("spotify:album:{}", id),
        name: s("Midnights"),
        release_date: s("2022-10-21T00:00:00Z"),
        album_type: s("ALBUM"),
        artist_uris: vec![s("spotify:artist:X")],
        images: vec![Image { url: s("https://i.example/cover.jpg"), height: 640, width: 640 }],
        colors: ExtractedColors { color_raw: s("#112233"), color_light: s("#445566"), color_dark: s("#778899") },
        sharing_info: SharingInfo { share_url: s("https://share.example/M"), share_id: s("share-M") },
        tracks,
    }
}

fn followed() -> Vec<String> {
    vec![s("X")]
}

#[test]
fn track_with_only_unfollowed_artists_is_skipped() {
    let t = track("T9", 10, &["Y", "Z"]);
    assert!(t.update(&s("M"), &followed()).is_none());
}

#[test]
fn track_links_only_followed_artists() {
    let t = track("T2", 500, &["X", "Y", "X"]);
    let plan = t.update(&s("M"), &vec![s("X"), s("W")]).unwrap();
    assert_eq!(plan.artist_ids, vec![s("X")]);
    assert_eq!(plan.track.id, "T2");
    assert_eq!(plan.track.album_id, "M");
    assert_eq!(plan.track.name, "Track T2");
    assert_eq!(plan.track.length, 201_000);
}

#[test]
fn track_links_each_followed_artist_once() {
    let t = track("T3", 1, &["X", "W", "Y"]);
    let mut links = t.update(&s("M"), &vec![s("W"), s("X")]).unwrap().artist_ids;
    links.sort();
    assert_eq!(links, vec![s("W"), s("X")]);
}

#[test]
fn album_plan_carries_the_album_row() {
    let a = album("M", vec![track("T1", 1000, &["X"])]);
    assert!(a.is_well_formed());
    let plan = a.update(&followed(), day()).unwrap();
    assert_eq!(plan.album.id, "M");
    assert_eq!(plan.album.name, "Midnights");
    assert_eq!(plan.album.release_date, CalendarDate { year: 2022, month: 10, day: 21 });
    assert_eq!(plan.album.album_type, "ALBUM");
    assert_eq!(plan.album.images.len(), 1);
    assert_eq!(plan.album.images[0].url, "https://i.example/cover.jpg");
    assert_eq!(plan.album.colors.color_dark, "#778899");
    assert!(plan.album.display);
    assert_eq!(plan.album.updated, day());
    assert_eq!(plan.album.sharing_id, "share-M");
}

#[test]
fn release_date_keeps_the_timestamp_offset() {
    let mut a = album("M", Vec::new());
    a.release_date = s("2022-10-21T23:30:00-05:00");
    let plan = a.update(&followed(), day()).unwrap();
    assert_eq!(plan.album.release_date, CalendarDate { year: 2022, month: 10, day: 21 });
}

#[test]
fn invalid_release_date_is_an_error() {
    let mut a = album("M", Vec::new());
    a.release_date = s("21 October 2022");
    assert_eq!(a.update(&followed(), day()).err(), Some(IngestError::InvalidReleaseDate));
}

#[test]
fn malformed_locators_are_detected() {
    let mut a = album("M", vec![track("T1", 1, &["X"])]);
    a.tracks[0].artist_uris.push(s("artist-without-namespace"));
    assert!(!a.is_well_formed());
    let mut b = album("M", Vec::new());
    b.uri = s("spotify:M");
    assert!(!b.is_well_formed());
}

#[test]
fn end_to_end_album_pass() {
    let a = album("M", vec![track("T1", 1000, &["X"]), track("T2", 500, &["X", "Y"])]);
    let plan = a.update(&followed(), day()).unwrap();
    assert_eq!(plan.album.updated, day());
    assert_eq!(plan.tracks.len(), 2);
    let t1 = plan.tracks[0].as_ref().unwrap();
    let t2 = plan.tracks[1].as_ref().unwrap();
    assert_eq!(t1.track.id, "T1");
    assert_eq!(t2.track.id, "T2");
    assert_eq!(t2.artist_ids, vec![s("X")]);

    let histories = vec![Some(Vec::new()), Some(vec![500, 500])];
    let streams = a.update_track_streams(&histories, day());
    let s1 = streams[0].as_ref().unwrap();
    assert_eq!((s1.track_id.as_str(), s1.date, s1.streams), ("T1", day(), 1000));
    let s2 = streams[1].as_ref().unwrap();
    assert_eq!((s2.track_id.as_str(), s2.date, s2.streams), ("T2", day(), 500));
}

#[test]
fn stream_rows_follow_the_oracle() {
    let a = album("M", vec![track("T1", 500, &["X"]), track("T2", 500, &["X"]), track("T3", 7, &["Y"])]);
    let histories = vec![Some(vec![500, 100]), Some(vec![400]), None];
    let streams = a.update_track_streams(&histories, day());
    assert!(streams[0].is_none());
    assert_eq!(streams[1].as_ref().unwrap().streams, 500);
    assert!(streams[2].is_none());
}

#[test]
fn album_links_are_deduplicated() {
    let a = album("M", vec![track("T1", 1, &["X", "W"]), track("T2", 1, &["W"]), track("T3", 1, &["Y"])]);
    let plan = a.update(&vec![s("X"), s("W")], day()).unwrap();
    assert!(plan.tracks[2].is_none());
    let stored: Vec<TrackPlan> = plan.tracks.into_iter().flatten().collect();
    let mut links = album_links(&stored);
    links.sort();
    assert_eq!(links, vec![s("W"), s("X")]);
}

#[test]
fn ingesting_twice_plans_the_same_rows() {
    let a = album("M", vec![track("T1", 1000, &["X"]), track("T2", 500, &["X", "Y"])]);
    let first = a.update(&followed(), day()).unwrap();
    let second = a.update(&followed(), day()).unwrap();
    assert_eq!(format!("{:?}", first), format!("{:?}", second));
}
