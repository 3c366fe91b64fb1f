use vstd::prelude::*;
use chrono::Datelike;

verus! {

/// A calendar day.
#[derive(Clone, Copy, PartialEq, Eq, Structural, Debug)]
pub struct CalendarDate {
    pub year: i32,
    pub month: u32,
    pub day: u32,
}

/// The calendar date written in an RFC 3339 timestamp, as (year, month, day),
/// or `None` when the text is not such a timestamp.
pub uninterp spec fn rfc3339_date(s: Seq<char>) -> Option<(int, int, int)>;

/// Relies on `chrono::DateTime::parse_from_rfc3339` and `DateTime::date_naive`:
/// the date of the timestamp in its own offset, or an error for text that is
/// not RFC 3339.
#[verifier::external_body]
pub(crate) fn parse_rfc3339_date(s: &str) -> (r: Option<CalendarDate>)
    ensures
        match r {
            None => rfc3339_date(s@) is None,
            Some(d) => rfc3339_date(s@) == Some((d.year as int, d.month as int, d.day as int)),
        },
{
    match chrono::DateTime::parse_from_rfc3339(s) {
        Ok(t) => {
            let d = t.date_naive();
            Some(CalendarDate { year: d.year(), month: d.month(), day: d.day() })
        },
        Err(_) => None,
    }
}

/// An image descriptor of an artist or an album cover.
#[derive(Debug)]
pub struct Image {
    pub url: String,
    pub height: u32,
    pub width: u32,
}

impl Image {
    pub fn duplicate(&self) -> (r: Image)
        ensures
            r == *self,
    {
        Image { url: self.url.clone(), height: self.height, width: self.width }
    }
}

/// Copies a list of images.
pub fn copy_images(v: &Vec<Image>) -> (r: Vec<Image>)
    ensures
        r@ == v@,
{
    let mut out: Vec<Image> = Vec::new();
    let mut i: usize = 0;
    while i < v.len()
        invariant
            i <= v.len(),
            out@ == v@.take(i as int),
        decreases v.len() - i,
    {
        out.push(v[i].duplicate());
        proof {
            assert(v@.take(i + 1) == v@.take(i as int).push(v@[i as int]));
        }
        i = i + 1;
    }
    proof {
        assert(v@.take(v.len() as int) =~= v@);
    }
    out
}

/// The palette extracted from an album cover.
#[derive(Debug)]
pub struct ExtractedColors {
    pub color_raw: String,
    pub color_light: String,
    pub color_dark: String,
}

impl ExtractedColors {
    pub fn duplicate(&self) -> (r: ExtractedColors)
        ensures
            r == *self,
    {
        ExtractedColors {
            color_raw: self.color_raw.clone(),
            color_light: self.color_light.clone(),
            color_dark: self.color_dark.clone(),
        }
    }
}

/// Sharing information of an album or a track.
#[derive(Debug)]
pub struct SharingInfo {
    pub share_url: String,
    pub share_id: String,
}

/// One track of an album detail payload.
#[derive(Debug)]
pub struct TrackObject {
    pub uid: String,
    pub saved: bool,
    pub uri: String,
    pub name: String,
    pub playcount: u64,
    pub duration_ms: u32,
    pub artist_uris: Vec<String>,
}

/// The album detail payload of the scraping endpoint: album metadata, cover
/// art, sharing information and the tracks with their play counts.
#[derive(Debug)]
pub struct AlbumUnion {
    pub typename: String,
    pub uri: String,
    pub name: String,
    pub release_date: String,
    pub album_type: String,
    pub artist_uris: Vec<String>,
    pub images: Vec<Image>,
    pub colors: ExtractedColors,
    pub sharing_info: SharingInfo,
    pub tracks: Vec<TrackObject>,
}

/// The track detail payload of the scraping endpoint.
#[derive(Debug)]
pub struct TrackUnion {
    pub typename: String,
    pub id: String,
    pub uri: String,
    pub name: String,
    pub duration_ms: u32,
    pub track_number: u32,
    pub playcount: u64,
    pub sharing_info: SharingInfo,
}

} // verus!
