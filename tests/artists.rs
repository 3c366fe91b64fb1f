use stream_accumulator::artists::{
    album_group, artist_ids_query, update_artist_detail, AlbumPager, ArtistDetail, PageRequest,
};
use stream_accumulator::payload::{CalendarDate, Image};

fn s(v: &str) -> String {
    v.to_string()
}

#[test]
fn query_joins_identifiers_with_encoded_commas() {
    assert_eq!(artist_ids_query(&vec![s("06HL4z0CvFAxyc27GXpf02"), s("4q3ewBCX7sLwd24euuV69X")]),
        "06HL4z0CvFAxyc27GXpf02%2C4q3ewBCX7sLwd24euuV69X");
    assert_eq!(artist_ids_query(&vec![s("a")]), "a");
    assert_eq!(artist_ids_query(&Vec::new()), "");
}

#[test]
fn empty_response_refreshes_nothing() {
    let day = CalendarDate { year: 2024, month: 1, day: 2 };
    assert!(update_artist_detail(&Vec::new(), day).is_none());
}

#[test]
fn response_gives_artist_and_follower_rows() {
    let day = CalendarDate { year: 2024, month: 1, day: 2 };
    let response = vec![ArtistDetail {
        id: s("06HL4z0CvFAxyc27GXpf02"),
        name: s("Taylor Swift"),
        images: vec![Image { url: s("https://i.example/a.jpg"), height: 160, width: 160 }],
        followers: 12345,
    }];
    let rows = update_artist_detail(&response, day).unwrap();
    assert_eq!(rows.len(), 1);
    let (artist, follower) = &rows[0];
    assert_eq!(artist.id, "06HL4z0CvFAxyc27GXpf02");
    assert_eq!(artist.name, "Taylor Swift");
    assert_eq!(artist.images[0].height, 160);
    assert_eq!(follower.artist_id, "06HL4z0CvFAxyc27GXpf02");
    assert_eq!(follower.date, day);
    assert_eq!(follower.count, 12345);
}

#[test]
fn album_groups_in_order() {
    assert_eq!(album_group(0), "album");
    assert_eq!(album_group(1), "single");
    assert_eq!(album_group(2), "compilation");
}

#[test]
fn pager_follows_next_links_through_every_group() {
    let mut p = AlbumPager::new();
    assert!(matches!(p.request(), PageRequest::FirstPage(0)));
    p.record_page(Some((vec![s("spotify:album:a1")], Some(s("https://next/1")))));
    match p.request() {
        PageRequest::NextPage(u) => assert_eq!(u, "https://next/1"),
        other => panic!("unexpected request {:?}", other),
    }
    p.record_page(Some((vec![s("spotify:album:a2")], None)));
    assert!(matches!(p.request(), PageRequest::FirstPage(1)));
    p.record_page(Some((Vec::new(), None)));
    assert!(matches!(p.request(), PageRequest::FirstPage(2)));
    p.record_page(Some((vec![s("spotify:album:c1")], None)));
    assert!(p.is_finished());
    assert_eq!(p.finish(), Some(vec![s("a1"), s("a2"), s("c1")]));
}

#[test]
fn pager_fails_on_a_failed_page() {
    let mut p = AlbumPager::new();
    p.record_page(Some((vec![s("spotify:album:a1")], None)));
    p.record_page(None);
    assert!(p.is_finished());
    assert_eq!(p.finish(), None);
}
