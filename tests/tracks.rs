use termplayer::search::{chars_of, contains_chars, find_match};
use termplayer::tracks::{file_uri, path_le, sort_paths, TrackList};

fn strings(v: &[&str]) -> Vec<String> {
    v.iter().map(|s| s.to_string()).collect()
}

#[test]
fn listing_is_sorted_lexicographically() {
    let sorted = sort_paths(strings(&["./b.ogg", "./a.mp3", "./ab.mp3", "./B.flac", "./a.mp3"]));
    assert_eq!(sorted, strings(&["./B.flac", "./a.mp3", "./a.mp3", "./ab.mp3", "./b.ogg"]));
}

#[test]
fn path_order_is_by_characters() {
    assert!(path_le(&"./a".to_string(), &"./ab".to_string()));
    assert!(!path_le(&"./ab".to_string(), &"./a".to_string()));
    assert!(path_le(&"./a".to_string(), &"./a".to_string()));
    assert!(path_le(&"./Z".to_string(), &"./a".to_string()));
    assert!(path_le(&"./é".to_string(), &"./😀".to_string()));
}

#[test]
fn empty_listing_gives_empty_track_list() {
    let t = TrackList::from_listing(Vec::new());
    assert_eq!(t.len(), 0);
}

#[test]
fn uri_is_built_from_path() {
    assert_eq!(file_uri("/music/a b.mp3"), "file:///music/a b.mp3");
    let t = TrackList::from_listing(strings(&["/m/c.mp3", "/m/a.mp3"]));
    assert_eq!(t.path(0), "/m/a.mp3");
    assert_eq!(t.uri(1), "file:///m/c.mp3");
}

#[test]
fn track_found_by_uri() {
    let t = TrackList::from_listing(strings(&["/m/a.mp3", "/m/b.mp3", "/m/c.mp3"]));
    assert_eq!(t.position_of_uri(&"file:///m/b.mp3".to_string()), Some(1));
    assert_eq!(t.position_of_uri(&"/m/b.mp3".to_string()), None);
    assert_eq!(t.position_of_uri(&"file:///m/d.mp3".to_string()), None);
}

#[test]
fn substring_containment() {
    let hay = chars_of("hello world");
    assert!(contains_chars(&hay, &chars_of("lo w")));
    assert!(contains_chars(&hay, &chars_of("")));
    assert!(contains_chars(&hay, &chars_of("hello world")));
    assert!(!contains_chars(&hay, &chars_of("world!")));
    assert!(!contains_chars(&hay, &chars_of("wold")));
    assert!(!contains_chars(&chars_of(""), &chars_of("a")));
}

#[test]
fn cyclic_scan_starts_after_selection() {
    let entries: Vec<Vec<char>> = ["rock1", "jazz", "rock2", "pop"].iter().map(|s| chars_of(s)).collect();
    assert_eq!(find_match(&entries, 0, &chars_of("rock")), Some(2));
    assert_eq!(find_match(&entries, 2, &chars_of("rock")), Some(0));
    assert_eq!(find_match(&entries, 1, &chars_of("jazz")), Some(1));
    assert_eq!(find_match(&entries, 1, &chars_of("metal")), None);
    assert_eq!(find_match(&entries, 3, &chars_of("")), Some(0));
}

#[test]
fn search_ignores_case() {
    let t = TrackList::from_listing(strings(&["/m/Alpha.mp3", "/m/Rock Song.mp3", "/m/zeta.mp3"]));
    assert_eq!(t.next_match(0, &"ROCK".to_string()), Some(1));
    assert_eq!(t.next_match(1, &"alpha".to_string()), Some(0));
    assert_eq!(t.next_match(0, &"missing".to_string()), None);
}

#[test]
fn empty_search_selects_next_track() {
    let t = TrackList::from_listing(strings(&["/m/a", "/m/b", "/m/c"]));
    assert_eq!(t.next_match(0, &String::new()), Some(1));
    assert_eq!(t.next_match(2, &String::new()), Some(0));
}
