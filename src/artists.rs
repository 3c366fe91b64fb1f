use vstd::prelude::*;
use vstd::string::*;
use crate::payload::{copy_images, CalendarDate, Image};
use crate::uri::{get_id_from_uri, is_locator, locator_id};

verus! {

/// An artist as the metadata API describes it.
#[derive(Debug)]
pub struct ArtistDetail {
    pub id: String,
    pub name: String,
    pub images: Vec<Image>,
    pub followers: u64,
}

/// The Artist row written on a refresh.
#[derive(Debug)]
pub struct ArtistRecord {
    pub id: String,
    pub name: String,
    pub images: Vec<Image>,
}

/// The FollowerInstance row written on a refresh.
#[derive(Debug)]
pub struct FollowerRecord {
    pub artist_id: String,
    pub date: CalendarDate,
    pub count: u64,
}

/// The separator of identifiers in a metadata query (an encoded comma).
pub open spec fn query_separator() -> Seq<char> {
    seq!['%', '2', 'C']
}

/// The identifiers written one after another, with the separator between two.
pub open spec fn joined(ids: Seq<String>) -> Seq<char>
    decreases ids.len(),
{
    if ids.len() == 0 {
        Seq::empty()
    } else if ids.len() == 1 {
        ids[0]@
    } else {
        joined(ids.drop_last()) + query_separator() + ids.last()@
    }
}

/// The `ids` parameter of a metadata query for the given artists.
pub fn artist_ids_query(ids: &Vec<String>) -> (r: String)
    ensures
        r@ == joined(ids@),
{
    let mut out = String::new();
    let mut i: usize = 0;
    while i < ids.len()
        invariant
            i <= ids.len(),
            out@ == joined(ids@.take(i as int)),
        decreases ids.len() - i,
    {
        let ghost before = ids@.take(i as int);
        let ghost after = ids@.take(i + 1);
        proof {
            assert(after.drop_last() =~= before);
            assert(after.last() == ids@[i as int]);
        }
        if i > 0 {
            let sep = "%2C";
            proof {
                reveal_strlit("%2C");
                assert(sep@ =~= query_separator());
            }
            out.append(sep);
        } else {
            assert(before.len() == 0);
        }
        out.append(ids[i].as_str());
        i = i + 1;
    }
    proof {
        assert(ids@.take(ids@.len() as int) =~= ids@);
    }
    out
}

/// `a` and `f` are the rows written on `day` for the described artist.
pub open spec fn records_artist(a: ArtistRecord, f: FollowerRecord, d: ArtistDetail, day: CalendarDate) -> bool {
    &&& a.id@ == d.id@
    &&& a.name@ == d.name@
    &&& a.images@ == d.images@
    &&& f.artist_id@ == d.id@
    &&& f.date == day
    &&& f.count == d.followers
}

/// The Artist and FollowerInstance rows to write on `day` for each artist of a
/// metadata response, in order; `None` when the response holds no artist.
pub fn update_artist_detail(response: &Vec<ArtistDetail>, day: CalendarDate) -> (r: Option<
    Vec<(ArtistRecord, FollowerRecord)>,
>)
    ensures
        r is None <==> response@.len() == 0,
        r is Some ==> r->0@.len() == response@.len() && forall|i: int|
            0 <= i < response@.len() ==> records_artist(
                #[trigger] r->0@[i].0,
                r->0@[i].1,
                response@[i],
                day,
            ),
{
    if response.len() == 0 {
        return None;
    }
    let mut out: Vec<(ArtistRecord, FollowerRecord)> = Vec::new();
    let mut i: usize = 0;
    while i < response.len()
        invariant
            i <= response.len(),
            out@.len() == i,
            forall|k: int|
                0 <= k < i ==> records_artist(#[trigger] out@[k].0, out@[k].1, response@[k], day),
        decreases response.len() - i,
    {
        let d = &response[i];
        let artist = ArtistRecord { id: d.id.clone(), name: d.name.clone(), images: copy_images(&d.images) };
        let follower = FollowerRecord { artist_id: d.id.clone(), date: day, count: d.followers };
        out.push((artist, follower));
        i = i + 1;
    }
    Some(out)
}

/// Number of album groups queried for each artist.
pub const ALBUM_GROUP_COUNT: usize = 3;

/// The album group queried at a position: albums, singles, then compilations.
pub fn album_group(index: usize) -> (r: &'static str)
    requires
        index < ALBUM_GROUP_COUNT,
    ensures
        index == 0 ==> r@ == "album"@,
        index == 1 ==> r@ == "single"@,
        index == 2 ==> r@ == "compilation"@,
{
    if index == 0 {
        "album"
    } else if index == 1 {
        "single"
    } else {
        "compilation"
    }
}

/// The next request of an artist's album listing.
#[derive(Debug)]
pub enum PageRequest {
    /// The first page of the album group at this position.
    FirstPage(usize),
    /// The page at the link the previous page gave.
    NextPage(String),
}

/// The paged listing of one artist's albums over the album groups: each
/// group's pages are followed until one has no next link, and a failed page
/// fails the whole listing.
pub struct AlbumPager {
    group: usize,
    next: Option<String>,
    ids: Vec<String>,
    failed: bool,
}

/// The identifiers of a page's album locators, in order.
pub open spec fn page_ids(uris: Seq<String>) -> Seq<Seq<char>> {
    uris.map_values(|u: String| locator_id(u@))
}

impl AlbumPager {
    pub closed spec fn collected(&self) -> Seq<Seq<char>> {
        self.ids@.map_values(|s: String| s@)
    }

    pub closed spec fn has_failed(&self) -> bool {
        self.failed
    }

    pub closed spec fn group_index(&self) -> nat {
        self.group as nat
    }

    pub closed spec fn next_link(&self) -> Option<Seq<char>> {
        match self.next {
            None => None,
            Some(s) => Some(s@),
        }
    }

    pub closed spec fn wf(&self) -> bool {
        self.group <= ALBUM_GROUP_COUNT && (self.group == ALBUM_GROUP_COUNT ==> self.next is None)
    }

    /// The listing has nothing more to request.
    pub open spec fn finished(&self) -> bool {
        self.has_failed() || self.group_index() == ALBUM_GROUP_COUNT
    }

    pub fn new() -> (r: AlbumPager)
        ensures
            r.wf(),
            !r.finished(),
            r.group_index() == 0,
            r.next_link() is None,
            r.collected().len() == 0,
    {
        AlbumPager { group: 0, next: None, ids: Vec::new(), failed: false }
    }

    pub fn is_finished(&self) -> (r: bool)
        ensures
            r == self.finished(),
    {
        self.failed || self.group == ALBUM_GROUP_COUNT
    }

    /// The page to request next: the pending next link, else the first page of
    /// the current group.
    pub fn request(&self) -> (r: PageRequest)
        requires
            self.wf(),
            !self.finished(),
        ensures
            match self.next_link() {
                Some(link) => r matches PageRequest::NextPage(u) && u@ == link,
                None => r == PageRequest::FirstPage(self.group_index() as usize),
            },
            r matches PageRequest::FirstPage(g) ==> g < ALBUM_GROUP_COUNT,
    {
        match &self.next {
            Some(link) => PageRequest::NextPage(link.clone()),
            None => PageRequest::FirstPage(self.group),
        }
    }

    /// Records the page that was requested: its album locators and its next
    /// link, or `None` when the request failed.
    pub fn record_page(&mut self, page: Option<(Vec<String>, Option<String>)>)
        requires
            old(self).wf(),
            !old(self).finished(),
            page matches Some(p) ==> forall|i: int| 0 <= i < p.0@.len() ==> is_locator(#[trigger] p.0@[i]@),
        ensures
            final(self).wf(),
            page is None ==> final(self).has_failed() && final(self).collected() == old(self).collected(),
            page matches Some(p) ==> {
                &&& !final(self).has_failed()
                &&& final(self).collected() == old(self).collected() + page_ids(p.0@)
                &&& match p.1 {
                    Some(link) => final(self).next_link() == Some(link@)
                        && final(self).group_index() == old(self).group_index(),
                    None => final(self).next_link() is None && final(self).group_index()
                        == old(self).group_index() + 1,
                }
            },
    {
        match page {
            None => {
                self.failed = true;
            },
            Some((uris, next)) => {
                let mut i: usize = 0;
                let ghost start = self.ids@.map_values(|s: String| s@);
                while i < uris.len()
                    invariant
                        i <= uris.len(),
                        forall|k: int| 0 <= k < uris@.len() ==> is_locator(#[trigger] uris@[k]@),
                        self.ids@.map_values(|s: String| s@) == start + page_ids(
                            uris@.take(i as int),
                        ),
                        self.group == old(self).group,
                        self.next == old(self).next,
                        self.failed == old(self).failed,
                    decreases uris.len() - i,
                {
                    let id = get_id_from_uri(uris[i].as_str()).to_owned();
                    let ghost before = self.ids@;
                    self.ids.push(id);
                    proof {
                        assert(self.ids@ == before.push(id));
                        assert(id@ == locator_id(uris@[i as int]@));
                        assert(before.push(id).map_values(|s: String| s@) =~= before.map_values(
                            |s: String| s@,
                        ).push(id@));
                        assert(page_ids(uris@.take(i + 1)) =~= page_ids(uris@.take(i as int)).push(
                            locator_id(uris@[i as int]@),
                        ));
                        assert(self.ids@.map_values(|s: String| s@) =~= start + page_ids(
                            uris@.take(i + 1),
                        ));
                    }
                    i = i + 1;
                }
                proof {
                    assert(uris@.take(uris@.len() as int) =~= uris@);
                }
                match next {
                    Some(link) => {
                        self.next = Some(link);
                    },
                    None => {
                        self.next = None;
                        self.group = self.group + 1;
                    },
                }
            },
        }
    }

    /// The album identifiers of the listing, or `None` when a page failed.
    pub fn finish(self) -> (r: Option<Vec<String>>)
        requires
            self.finished(),
        ensures
            r is None <==> self.has_failed(),
            r matches Some(v) ==> v@.map_values(|s: String| s@) == self.collected(),
    {
        if self.failed {
            None
        } else {
            Some(self.ids)
        }
    }
}

} // verus!
