use vstd::prelude::*;
use crate::idset::{contains_id, distinct_ids, ids, insert_id};
use crate::payload::{
    copy_images, parse_rfc3339_date, rfc3339_date, AlbumUnion, CalendarDate, ExtractedColors,
    Image, TrackObject,
};
use crate::readiness::{compare_streams, readiness};
use crate::uri::{get_id_from_uri, is_locator, is_well_formed_uri, locator_id};

verus! {

/// The Album row written for an ingested album.
#[derive(Debug)]
pub struct AlbumRecord {
    pub id: String,
    pub name: String,
    pub release_date: CalendarDate,
    pub album_type: String,
    pub images: Vec<Image>,
    pub colors: ExtractedColors,
    pub display: bool,
    pub updated: CalendarDate,
    pub sharing_id: String,
}

/// The Track row written for an ingested track.
#[derive(Debug)]
pub struct TrackRecord {
    pub id: String,
    pub album_id: String,
    pub name: String,
    pub length: u32,
}

/// A track to store, with the tracked artists it is to be linked to.
#[derive(Debug)]
pub struct TrackPlan {
    pub track: TrackRecord,
    pub artist_ids: Vec<String>,
}

/// The writes of one album ingestion: the album row, then for each track of
/// the payload, in order, the track to store or `None` when no tracked artist
/// appears on it.
#[derive(Debug)]
pub struct AlbumPlan {
    pub album: AlbumRecord,
    pub tracks: Vec<Option<TrackPlan>>,
}

/// A DailyStreams row.
#[derive(Debug)]
pub struct StreamRecord {
    pub track_id: String,
    pub date: CalendarDate,
    pub streams: u64,
}

/// Why an album payload could not be ingested.
#[derive(Debug, PartialEq, Eq, Structural)]
pub enum IngestError {
    /// The release date is not an RFC 3339 timestamp.
    InvalidReleaseDate,
}

/// The tracked artists among those a track names.
pub open spec fn tracked_links(artist_uris: Seq<String>, followed: Set<Seq<char>>) -> Set<
    Seq<char>,
> {
    Set::new(
        |a: Seq<char>|
            followed.contains(a) && exists|i: int|
                0 <= i < artist_uris.len() && locator_id(artist_uris[i]@) == a,
    )
}

/// `p` is the plan for storing track `t` of album `album_id`.
pub open spec fn plans_track(
    p: TrackPlan,
    t: TrackObject,
    album_id: Seq<char>,
    followed: Set<Seq<char>>,
) -> bool {
    &&& p.track.id@ == locator_id(t.uri@)
    &&& p.track.album_id@ == album_id
    &&& p.track.name@ == t.name@
    &&& p.track.length == t.duration_ms
    &&& distinct_ids(p.artist_ids@)
    &&& ids(p.artist_ids@) == tracked_links(t.artist_uris@, followed)
}

/// The date that an ingestion of a payload released on `release` records.
pub open spec fn release_date_of(release: Seq<char>, d: CalendarDate) -> bool {
    rfc3339_date(release) == Some((d.year as int, d.month as int, d.day as int))
}

/// The artists that the stored tracks link to the album.
pub open spec fn linked_artists(stored: Seq<TrackPlan>) -> Set<Seq<char>> {
    Set::new(
        |a: Seq<char>| exists|i: int| 0 <= i < stored.len() && ids(stored[i].artist_ids@).contains(a),
    )
}

impl TrackObject {
    pub open spec fn well_formed(&self) -> bool {
        &&& is_locator(self.uri@)
        &&& forall|i: int| 0 <= i < self.artist_uris@.len() ==> is_locator(self.artist_uris@[i]@)
    }

    /// Checks that the track's locator and those of its artists have three segments.
    pub fn is_well_formed(&self) -> (r: bool)
        ensures
            r == self.well_formed(),
    {
        if !is_well_formed_uri(self.uri.as_str()) {
            return false;
        }
        let mut i: usize = 0;
        while i < self.artist_uris.len()
            invariant
                i <= self.artist_uris.len(),
                forall|k: int| 0 <= k < i ==> is_locator(self.artist_uris@[k]@),
            decreases self.artist_uris.len() - i,
        {
            if !is_well_formed_uri(self.artist_uris[i].as_str()) {
                return false;
            }
            i = i + 1;
        }
        true
    }

    /// Plans the storing of this track in album `album_id`: its row, and one link
    /// per tracked artist it names. A track that names no tracked artist is not
    /// stored at all (`None`).
    pub fn update(&self, album_id: &String, followed: &Vec<String>) -> (r: Option<TrackPlan>)
        requires
            self.well_formed(),
        ensures
            r is None <==> tracked_links(self.artist_uris@, ids(followed@)).is_empty(),
            r is Some ==> plans_track(r->0, *self, album_id@, ids(followed@)),
    {
        let mut links: Vec<String> = Vec::new();
        let mut i: usize = 0;
        while i < self.artist_uris.len()
            invariant
                self.well_formed(),
                i <= self.artist_uris.len(),
                distinct_ids(links@),
                ids(links@) == tracked_links(self.artist_uris@.take(i as int), ids(followed@)),
            decreases self.artist_uris.len() - i,
        {
            let artist_id = get_id_from_uri(self.artist_uris[i].as_str()).to_owned();
            let ghost before = ids(links@);
            if contains_id(followed, &artist_id) {
                insert_id(&mut links, artist_id);
            }
            proof {
                lemma_tracked_links_step(self.artist_uris@, ids(followed@), i as int);
                assert(ids(links@) =~= tracked_links(
                    self.artist_uris@.take(i + 1),
                    ids(followed@),
                ));
            }
            i = i + 1;
        }
        proof {
            assert(self.artist_uris@.take(self.artist_uris@.len() as int) =~= self.artist_uris@);
        }
        if links.len() == 0 {
            assert(ids(links@) =~= Set::empty());
            return None;
        }
        assert(ids(links@).contains(links@[0]@));
        let track = TrackRecord {
            id: get_id_from_uri(self.uri.as_str()).to_owned(),
            album_id: album_id.clone(),
            name: self.name.clone(),
            length: self.duration_ms,
        };
        Some(TrackPlan { track, artist_ids: links })
    }

    /// Decides whether this track's play count is recorded as the day's figure,
    /// given its recorded values, most recent first (`None` when the store has
    /// no row for the track), and returns the row to write.
    pub fn update_streams(&self, history: Option<&[i64]>, day: CalendarDate) -> (r: Option<
        StreamRecord,
    >)
        requires
            is_locator(self.uri@),
        ensures
            r is Some <==> readiness(
                match history {
                    None => None,
                    Some(h) => Some(h@),
                },
                self.playcount,
            ) == Some(true),
            r is Some ==> r->0.track_id@ == locator_id(self.uri@) && r->0.date == day
                && r->0.streams == self.playcount,
    {
        match compare_streams(history, self.playcount) {
            Some(true) => Some(
                StreamRecord {
                    track_id: get_id_from_uri(self.uri.as_str()).to_owned(),
                    date: day,
                    streams: self.playcount,
                },
            ),
            _ => None,
        }
    }
}

proof fn lemma_tracked_links_step(uris: Seq<String>, followed: Set<Seq<char>>, i: int)
    requires
        0 <= i < uris.len(),
    ensures
        tracked_links(uris.take(i + 1), followed) == if followed.contains(locator_id(uris[i]@)) {
            tracked_links(uris.take(i), followed).insert(locator_id(uris[i]@))
        } else {
            tracked_links(uris.take(i), followed)
        },
{
    let a = uris.take(i);
    let b = uris.take(i + 1);
    let expected = if followed.contains(locator_id(uris[i]@)) {
        tracked_links(a, followed).insert(locator_id(uris[i]@))
    } else {
        tracked_links(a, followed)
    };
    assert forall|x: Seq<char>| tracked_links(b, followed).contains(x) implies expected.contains(
        x,
    ) by {
        let k = choose|k: int| 0 <= k < b.len() && locator_id(b[k]@) == x;
        if k < i {
            assert(a[k] == b[k]);
        }
    }
    assert forall|x: Seq<char>| expected.contains(x) implies tracked_links(b, followed).contains(
        x,
    ) by {
        if tracked_links(a, followed).contains(x) {
            let k = choose|k: int| 0 <= k < a.len() && locator_id(a[k]@) == x;
            assert(a[k] == b[k]);
        } else {
            assert(b[i] == uris[i]);
        }
    }
    assert(tracked_links(b, followed) =~= expected);
}

impl AlbumUnion {
    pub open spec fn well_formed(&self) -> bool {
        &&& is_locator(self.uri@)
        &&& forall|i: int| 0 <= i < self.tracks@.len() ==> (#[trigger] self.tracks@[i]).well_formed()
    }

    /// Checks every locator of the payload that ingestion reads.
    pub fn is_well_formed(&self) -> (r: bool)
        ensures
            r == self.well_formed(),
    {
        if !is_well_formed_uri(self.uri.as_str()) {
            return false;
        }
        let mut i: usize = 0;
        while i < self.tracks.len()
            invariant
                i <= self.tracks.len(),
                forall|k: int| 0 <= k < i ==> (#[trigger] self.tracks@[k]).well_formed(),
            decreases self.tracks.len() - i,
        {
            if !self.tracks[i].is_well_formed() {
                return false;
            }
            i = i + 1;
        }
        true
    }

    /// Plans the ingestion of this album on sync day `day`: the album row, marked
    /// as updated on `day`, and for each track the plan of
    /// [`TrackObject::update`].
    pub fn update(&self, followed: &Vec<String>, day: CalendarDate) -> (r: Result<
        AlbumPlan,
        IngestError,
    >)
        requires
            self.well_formed(),
        ensures
            r is Err <==> rfc3339_date(self.release_date@) is None,
            r is Ok ==> {
                let p = r->Ok_0;
                &&& p.album.id@ == locator_id(self.uri@)
                &&& p.album.name@ == self.name@
                &&& release_date_of(self.release_date@, p.album.release_date)
                &&& p.album.album_type@ == self.album_type@
                &&& p.album.images@ == self.images@
                &&& p.album.colors == self.colors
                &&& p.album.display
                &&& p.album.updated == day
                &&& p.album.sharing_id@ == self.sharing_info.share_id@
                &&& p.tracks@.len() == self.tracks@.len()
                &&& forall|i: int|
                    0 <= i < self.tracks@.len() ==> {
                        &&& (p.tracks@[i] is None <==> tracked_links(
                            self.tracks@[i].artist_uris@,
                            ids(followed@),
                        ).is_empty())
                        &&& (p.tracks@[i] is Some ==> plans_track(
                            p.tracks@[i]->0,
                            self.tracks@[i],
                            locator_id(self.uri@),
                            ids(followed@),
                        ))
                    }
            },
    {
        let release_date = match parse_rfc3339_date(self.release_date.as_str()) {
            Some(d) => d,
            None => {
                return Err(IngestError::InvalidReleaseDate);
            },
        };
        let album_id = get_id_from_uri(self.uri.as_str()).to_owned();
        let mut tracks: Vec<Option<TrackPlan>> = Vec::new();
        let mut i: usize = 0;
        while i < self.tracks.len()
            invariant
                self.well_formed(),
                album_id@ == locator_id(self.uri@),
                i <= self.tracks.len(),
                tracks@.len() == i,
                forall|k: int|
                    0 <= k < i ==> {
                        &&& (tracks@[k] is None <==> tracked_links(
                            self.tracks@[k].artist_uris@,
                            ids(followed@),
                        ).is_empty())
                        &&& (tracks@[k] is Some ==> plans_track(
                            tracks@[k]->0,
                            self.tracks@[k],
                            album_id@,
                            ids(followed@),
                        ))
                    },
            decreases self.tracks.len() - i,
        {
            assert(self.tracks@[i as int].well_formed());
            let plan = self.tracks[i].update(&album_id, followed);
            tracks.push(plan);
            i = i + 1;
        }
        let album = AlbumRecord {
            id: album_id,
            name: self.name.clone(),
            release_date,
            album_type: self.album_type.clone(),
            images: copy_images(&self.images),
            colors: self.colors.duplicate(),
            display: true,
            updated: day,
            sharing_id: self.sharing_info.share_id.clone(),
        };
        Ok(AlbumPlan { album, tracks })
    }

    /// The stream-recording half of ingestion: for each track, given its
    /// recorded history (`histories[i]` for the `i`-th track), the DailyStreams
    /// row to write on `day`, or `None` when the track is not ready.
    pub fn update_track_streams(&self, histories: &Vec<Option<Vec<i64>>>, day: CalendarDate) -> (r:
        Vec<Option<StreamRecord>>)
        requires
            self.well_formed(),
            histories@.len() == self.tracks@.len(),
        ensures
            r@.len() == self.tracks@.len(),
            forall|i: int|
                0 <= i < self.tracks@.len() ==> {
                    &&& (r@[i] is Some <==> readiness(
                        match histories@[i] {
                            None => None,
                            Some(h) => Some(h@),
                        },
                        self.tracks@[i].playcount,
                    ) == Some(true))
                    &&& (r@[i] is Some ==> r@[i]->0.track_id@ == locator_id(self.tracks@[i].uri@)
                        && r@[i]->0.date == day && r@[i]->0.streams == self.tracks@[i].playcount)
                },
    {
        let mut out: Vec<Option<StreamRecord>> = Vec::new();
        let mut i: usize = 0;
        while i < self.tracks.len()
            invariant
                self.well_formed(),
                histories@.len() == self.tracks@.len(),
                i <= self.tracks.len(),
                out@.len() == i,
                forall|k: int|
                    0 <= k < i ==> {
                        &&& (out@[k] is Some <==> readiness(
                            match histories@[k] {
                                None => None,
                                Some(h) => Some(h@),
                            },
                            self.tracks@[k].playcount,
                        ) == Some(true))
                        &&& (out@[k] is Some ==> out@[k]->0.track_id@ == locator_id(
                            self.tracks@[k].uri@,
                        ) && out@[k]->0.date == day && out@[k]->0.streams
                            == self.tracks@[k].playcount)
                    },
            decreases self.tracks.len() - i,
        {
            assert(self.tracks@[i as int].well_formed());
            let record = match &histories[i] {
                None => self.tracks[i].update_streams(None, day),
                Some(h) => self.tracks[i].update_streams(Some(h.as_slice()), day),
            };
            out.push(record);
            i = i + 1;
        }
        out
    }
}

/// The artist-album links of an ingested album, each artist once: every
/// tracked artist of the tracks that were stored.
pub fn album_links(stored: &Vec<TrackPlan>) -> (r: Vec<String>)
    ensures
        distinct_ids(r@),
        ids(r@) == linked_artists(stored@),
{
    let mut out: Vec<String> = Vec::new();
    let mut i: usize = 0;
    while i < stored.len()
        invariant
            i <= stored.len(),
            distinct_ids(out@),
            ids(out@) == linked_artists(stored@.take(i as int)),
        decreases stored.len() - i,
    {
        let artists = &stored[i].artist_ids;
        let ghost before = ids(out@);
        let mut j: usize = 0;
        while j < artists.len()
            invariant
                i < stored.len(),
                artists == stored@[i as int].artist_ids,
                j <= artists.len(),
                distinct_ids(out@),
                ids(out@) == before.union(ids(artists@.take(j as int))),
            decreases artists.len() - j,
        {
            insert_id(&mut out, artists[j].clone());
            proof {
                assert(artists@.take(j + 1) == artists@.take(j as int).push(artists@[j as int]));
                crate::idset::lemma_ids_push(artists@.take(j as int), artists@[j as int]);
                assert(ids(out@) =~= before.union(ids(artists@.take(j + 1))));
            }
            j = j + 1;
        }
        proof {
            assert(artists@.take(artists@.len() as int) =~= artists@);
            let a = stored@.take(i as int);
            let b = stored@.take(i + 1);
            assert forall|x: Seq<char>| linked_artists(b).contains(x) implies ids(out@).contains(
                x,
            ) by {
                let k = choose|k: int| 0 <= k < b.len() && ids(b[k].artist_ids@).contains(x);
                if k < i {
                    assert(a[k] == b[k]);
                    assert(linked_artists(a).contains(x));
                }
            }
            assert forall|x: Seq<char>| ids(out@).contains(x) implies linked_artists(b).contains(
                x,
            ) by {
                if linked_artists(a).contains(x) {
                    let k = choose|k: int| 0 <= k < a.len() && ids(a[k].artist_ids@).contains(x);
                    assert(a[k] == b[k]);
                } else {
                    assert(b[i as int] == stored@[i as int]);
                }
            }
            assert(ids(out@) =~= linked_artists(b));
        }
        i = i + 1;
    }
    proof {
        assert(stored@.take(stored@.len() as int) =~= stored@);
    }
    out
}

} // verus!
