use stream_accumulator::uri::{checked_id_from_uri, get_id_from_uri, is_well_formed_uri};

#[test]
fn third_segment_of_album_locator() {
    assert_eq!(get_id_from_uri("spotify:album:51hV7ASoVjOVuIhbib79We"), "51hV7ASoVjOVuIhbib79We");
}

#[test]
fn third_segment_ignores_further_segments() {
    assert_eq!(get_id_from_uri("spotify:track:7Eb9KO7l6Qt8skHG9oRQBD:extra"), "7Eb9KO7l6Qt8skHG9oRQBD");
}

#[test]
fn third_segment_may_be_empty() {
    assert_eq!(get_id_from_uri("a:b:"), "");
    assert_eq!(get_id_from_uri("::"), "");
}

#[test]
fn fewer_than_three_segments_is_rejected() {
    assert!(!is_well_formed_uri("spotify:album"));
    assert!(!is_well_formed_uri("06HL4z0CvFAxyc27GXpf02"));
    assert!(!is_well_formed_uri(""));
    assert_eq!(checked_id_from_uri("spotify:artist"), None);
}

#[test]
fn checked_id_of_well_formed_locator() {
    assert!(is_well_formed_uri("spotify:artist:06HL4z0CvFAxyc27GXpf02"));
    assert_eq!(checked_id_from_uri("spotify:artist:06HL4z0CvFAxyc27GXpf02"), Some("06HL4z0CvFAxyc27GXpf02"));
}
