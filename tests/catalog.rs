use stream_accumulator::catalog::{delete_associated_albums, get_albums_to_update, tracks_to_update};
use stream_accumulator::ingest::TrackRecord;

fn ids(v: &[&str]) -> Vec<String> {
    v.iter().map(|s| s.to_string()).collect()
}

fn sorted(mut v: Vec<String>) -> Vec<String> {
    v.sort();
    v
}

fn track(id: &str, album: &str) -> TrackRecord {
    TrackRecord { id: id.to_string(), album_id: album.to_string(), name: id.to_string(), length: 1 }
}

#[test]
fn albums_updated_today_are_left_out() {
    let r = get_albums_to_update(&ids(&["a", "b", "c", "b"]), &ids(&["b", "z"]));
    assert_eq!(sorted(r), ids(&["a", "c"]));
}

#[test]
fn nothing_remains_when_all_are_updated() {
    assert!(get_albums_to_update(&ids(&["a"]), &ids(&["a"])).is_empty());
}

#[test]
fn albums_with_missing_stream_rows() {
    let tracks = vec![track("t1", "A"), track("t2", "A"), track("t3", "B"), track("t4", "C")];
    let r = tracks_to_update(&tracks, &ids(&["t1", "t3"]));
    assert_eq!(sorted(r), ids(&["A", "C"]));
}

#[test]
fn no_album_pending_when_all_tracks_recorded() {
    let tracks = vec![track("t1", "A")];
    assert!(tracks_to_update(&tracks, &ids(&["t1"])).is_empty());
}

#[test]
fn only_solely_owned_albums_are_deleted() {
    let albums = vec![("a".to_string(), 1), ("b".to_string(), 2), ("c".to_string(), 1)];
    assert_eq!(delete_associated_albums(&albums), ids(&["a", "c"]));
}
