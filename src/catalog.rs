use vstd::prelude::*;
use crate::idset::{contains_id, distinct_ids, ids, insert_id};
use crate::ingest::{plans_track, AlbumPlan, AlbumRecord, StreamRecord, TrackRecord};
use crate::payload::{AlbumUnion, CalendarDate};
use crate::uri::locator_id;

verus! {

/// The relational store as the engine sees it: each table keyed as the store
/// keys it, so that a row is upserted in place and a junction pair is held once.
pub struct CatalogModel {
    pub albums: Map<Seq<char>, AlbumRecord>,
    pub tracks: Map<Seq<char>, TrackRecord>,
    pub streams: Map<(Seq<char>, CalendarDate), u64>,
    pub artist_albums: Set<(Seq<char>, Seq<char>)>,
    pub artist_tracks: Set<(Seq<char>, Seq<char>)>,
}

/// Track `id` is among the tracks an album plan stores.
pub open spec fn plan_has_track(p: AlbumPlan, id: Seq<char>) -> bool {
    exists|i: int|
        0 <= i < p.tracks@.len() && p.tracks@[i] is Some && p.tracks@[i]->0.track.id@ == id
}

/// The Track rows an album plan upserts, by track identifier.
pub open spec fn plan_track_rows(p: AlbumPlan) -> Map<Seq<char>, TrackRecord> {
    Map::new(
        |id: Seq<char>| plan_has_track(p, id),
        |id: Seq<char>|
            p.tracks@[choose|i: int|
                0 <= i < p.tracks@.len() && p.tracks@[i] is Some && p.tracks@[i]->0.track.id@
                    == id]->0.track,
    )
}

/// The artist-track pairs an album plan inserts.
pub open spec fn plan_track_links(p: AlbumPlan) -> Set<(Seq<char>, Seq<char>)> {
    Set::new(
        |l: (Seq<char>, Seq<char>)|
            exists|i: int|
                0 <= i < p.tracks@.len() && p.tracks@[i] is Some && ids(
                    p.tracks@[i]->0.artist_ids@,
                ).contains(l.0) && l.1 == p.tracks@[i]->0.track.id@,
    )
}

/// The artist-album pairs an album plan inserts.
pub open spec fn plan_album_links(p: AlbumPlan) -> Set<(Seq<char>, Seq<char>)> {
    Set::new(
        |l: (Seq<char>, Seq<char>)|
            exists|i: int|
                0 <= i < p.tracks@.len() && p.tracks@[i] is Some && ids(
                    p.tracks@[i]->0.artist_ids@,
                ).contains(l.0) && l.1 == p.album.id@,
    )
}

/// The store after the writes of an album plan: the album row upserted, the
/// planned track rows upserted, and the junction pairs inserted if absent.
pub open spec fn ingest_model(c: CatalogModel, p: AlbumPlan) -> CatalogModel {
    CatalogModel {
        albums: c.albums.insert(p.album.id@, p.album),
        tracks: c.tracks.union_prefer_right(plan_track_rows(p)),
        streams: c.streams,
        artist_albums: c.artist_albums.union(plan_album_links(p)),
        artist_tracks: c.artist_tracks.union(plan_track_links(p)),
    }
}

/// The store after a DailyStreams row is upserted on its (track, date) key.
pub open spec fn record_model(c: CatalogModel, s: StreamRecord) -> CatalogModel {
    CatalogModel { streams: c.streams.insert((s.track_id@, s.date), s.streams), ..c }
}

/// Ingesting the same album plan a second time leaves the store as the first
/// ingestion left it: one Album row, one Track row per stored track and each
/// junction pair once.
pub proof fn lemma_ingest_idempotent(c: CatalogModel, p: AlbumPlan)
    ensures
        ingest_model(ingest_model(c, p), p) == ingest_model(c, p),
        ingest_model(c, p).albums[p.album.id@] == p.album,
        forall|id: Seq<char>| #[trigger]
            plan_has_track(p, id) ==> ingest_model(c, p).tracks.contains_key(id),
{
    let once = ingest_model(c, p);
    let twice = ingest_model(once, p);
    assert(twice.albums =~= once.albums);
    assert(twice.tracks =~= once.tracks);
    assert(twice.artist_albums =~= once.artist_albums);
    assert(twice.artist_tracks =~= once.artist_tracks);
}

/// Recording the same daily figure twice leaves one row for its (track, date)
/// key, as recording it once does.
pub proof fn lemma_record_idempotent(c: CatalogModel, s: StreamRecord)
    ensures
        record_model(record_model(c, s), s) == record_model(c, s),
        record_model(c, s).streams[(s.track_id@, s.date)] == s.streams,
{
    assert(record_model(record_model(c, s), s).streams =~= record_model(c, s).streams);
}

/// Every junction pair that ingesting an album plan inserts names a followed
/// artist: an artist that is not followed is never linked, neither to a track
/// nor to the album, whatever other artists share the track with it.
pub proof fn lemma_links_only_followed(a: AlbumUnion, p: AlbumPlan, followed: Set<Seq<char>>)
    requires
        p.tracks@.len() == a.tracks@.len(),
        forall|i: int|
            0 <= i < a.tracks@.len() && p.tracks@[i] is Some ==> plans_track(
                p.tracks@[i]->0,
                a.tracks@[i],
                locator_id(a.uri@),
                followed,
            ),
    ensures
        forall|l: (Seq<char>, Seq<char>)| #[trigger]
            plan_track_links(p).contains(l) ==> followed.contains(l.0),
        forall|l: (Seq<char>, Seq<char>)| #[trigger]
            plan_album_links(p).contains(l) ==> followed.contains(l.0),
{
    assert forall|l: (Seq<char>, Seq<char>)| #[trigger]
        plan_track_links(p).contains(l) implies followed.contains(l.0) by {
        let i = choose|i: int|
            0 <= i < p.tracks@.len() && p.tracks@[i] is Some && ids(
                p.tracks@[i]->0.artist_ids@,
            ).contains(l.0) && l.1 == p.tracks@[i]->0.track.id@;
        assert(plans_track(p.tracks@[i]->0, a.tracks@[i], locator_id(a.uri@), followed));
    }
    assert forall|l: (Seq<char>, Seq<char>)| #[trigger]
        plan_album_links(p).contains(l) implies followed.contains(l.0) by {
        let i = choose|i: int|
            0 <= i < p.tracks@.len() && p.tracks@[i] is Some && ids(
                p.tracks@[i]->0.artist_ids@,
            ).contains(l.0) && l.1 == p.album.id@;
        assert(plans_track(p.tracks@[i]->0, a.tracks@[i], locator_id(a.uri@), followed));
    }
}

/// The fetched album identifiers that were not yet updated on the sync day,
/// `completed` being those that were.
pub fn get_albums_to_update(fetched: &Vec<String>, completed: &Vec<String>) -> (r: Vec<String>)
    ensures
        distinct_ids(r@),
        ids(r@) == ids(fetched@).difference(ids(completed@)),
{
    let mut out: Vec<String> = Vec::new();
    let mut i: usize = 0;
    while i < fetched.len()
        invariant
            i <= fetched.len(),
            distinct_ids(out@),
            ids(out@) == ids(fetched@.take(i as int)).difference(ids(completed@)),
        decreases fetched.len() - i,
    {
        proof {
            assert(fetched@.take(i + 1) == fetched@.take(i as int).push(fetched@[i as int]));
            crate::idset::lemma_ids_push(fetched@.take(i as int), fetched@[i as int]);
        }
        if !contains_id(completed, &fetched[i]) {
            insert_id(&mut out, fetched[i].clone());
        }
        assert(ids(out@) =~= ids(fetched@.take(i + 1)).difference(ids(completed@)));
        i = i + 1;
    }
    proof {
        assert(fetched@.take(fetched@.len() as int) =~= fetched@);
    }
    out
}

/// The albums holding a track with no DailyStreams row for the sync day.
pub open spec fn albums_missing_streams(tracks: Seq<TrackRecord>, recorded: Set<Seq<char>>) -> Set<
    Seq<char>,
> {
    Set::new(
        |a: Seq<char>|
            exists|i: int|
                0 <= i < tracks.len() && !recorded.contains(tracks[i].id@) && tracks[i].album_id@
                    == a,
    )
}

/// The albums whose tracks still lack the sync day's DailyStreams row, given
/// the stored tracks and the tracks that have that row.
pub fn tracks_to_update(tracks: &Vec<TrackRecord>, recorded: &Vec<String>) -> (r: Vec<String>)
    ensures
        distinct_ids(r@),
        ids(r@) == albums_missing_streams(tracks@, ids(recorded@)),
{
    let mut out: Vec<String> = Vec::new();
    let mut i: usize = 0;
    while i < tracks.len()
        invariant
            i <= tracks.len(),
            distinct_ids(out@),
            ids(out@) == albums_missing_streams(tracks@.take(i as int), ids(recorded@)),
        decreases tracks.len() - i,
    {
        let ghost a = tracks@.take(i as int);
        let ghost b = tracks@.take(i + 1);
        let missing = !contains_id(recorded, &tracks[i].id);
        if missing {
            insert_id(&mut out, tracks[i].album_id.clone());
        }
        proof {
            let expected = if missing {
                albums_missing_streams(a, ids(recorded@)).insert(tracks@[i as int].album_id@)
            } else {
                albums_missing_streams(a, ids(recorded@))
            };
            assert forall|x: Seq<char>| #[trigger]
                albums_missing_streams(b, ids(recorded@)).contains(x) implies expected.contains(
                x,
            ) by {
                let k = choose|k: int|
                    0 <= k < b.len() && !ids(recorded@).contains(b[k].id@) && b[k].album_id@ == x;
                if k < i {
                    assert(a[k] == b[k]);
                }
            }
            assert forall|x: Seq<char>| #[trigger]
                expected.contains(x) implies albums_missing_streams(b, ids(recorded@)).contains(
                x,
            ) by {
                if albums_missing_streams(a, ids(recorded@)).contains(x) {
                    let k = choose|k: int|
                        0 <= k < a.len() && !ids(recorded@).contains(a[k].id@) && a[k].album_id@
                            == x;
                    assert(a[k] == b[k]);
                } else {
                    assert(b[i as int] == tracks@[i as int]);
                }
            }
            assert(ids(out@) =~= albums_missing_streams(b, ids(recorded@)));
        }
        i = i + 1;
    }
    proof {
        assert(tracks@.take(tracks@.len() as int) =~= tracks@);
    }
    out
}

/// Of the albums of an artist that is being removed, each with the number of
/// artists owning it, those that no other artist owns.
pub fn delete_associated_albums(albums: &Vec<(String, u64)>) -> (r: Vec<String>)
    ensures
        r@.len() <= albums@.len(),
        ids(r@) == Set::new(
            |a: Seq<char>|
                exists|i: int| 0 <= i < albums@.len() && albums@[i].1 == 1 && albums@[i].0@ == a,
        ),
{
    let ghost target = Set::new(
        |a: Seq<char>|
            exists|i: int| 0 <= i < albums@.len() && albums@[i].1 == 1 && albums@[i].0@ == a,
    );
    let mut out: Vec<String> = Vec::new();
    let mut i: usize = 0;
    while i < albums.len()
        invariant
            i <= albums.len(),
            out@.len() <= i,
            forall|x: Seq<char>|
                ids(out@).contains(x) <==> exists|k: int|
                    0 <= k < i && albums@[k].1 == 1 && albums@[k].0@ == x,
        decreases albums.len() - i,
    {
        if albums[i].1 == 1 {
            let ghost before = out@;
            out.push(albums[i].0.clone());
            proof {
                crate::idset::lemma_ids_push(before, albums@[i as int].0);
            }
        }
        i = i + 1;
    }
    assert(ids(out@) =~= target);
    out
}

} // verus!
