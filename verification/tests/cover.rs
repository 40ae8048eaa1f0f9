use media_session::cover::{cover_path, encode_cover, CoverCache};

#[test]
fn base64_of_known_bytes() {
    assert_eq!(encode_cover(&Vec::new()), Some(String::new()));
    assert_eq!(encode_cover(&b"h".to_vec()), Some(String::from("aA==")));
    assert_eq!(encode_cover(&b"he".to_vec()), Some(String::from("aGU=")));
    assert_eq!(encode_cover(&b"hel".to_vec()), Some(String::from("aGVs")));
    assert_eq!(encode_cover(&b"hello".to_vec()), Some(String::from("aGVsbG8=")));
    assert_eq!(encode_cover(&vec![0xfb, 0xff, 0xbf]), Some(String::from("+/+/")));
    assert_eq!(encode_cover(&vec![0, 0, 0, 255]), Some(String::from("AAAA/w==")));
}

#[test]
fn base64_has_four_characters_for_three_bytes_begun() {
    for len in 0usize..50 {
        let text = encode_cover(&vec![7u8; len]).unwrap();
        assert_eq!(text.chars().count(), 4 * ((len + 2) / 3));
    }
}

#[test]
fn cover_path_strips_the_file_scheme() {
    assert_eq!(cover_path("file:///tmp/cover.png"), Some(String::from("/tmp/cover.png")));
    assert_eq!(cover_path("file://host/dir/ä.jpg"), Some(String::from("host/dir/ä.jpg")));
    assert_eq!(cover_path("file://"), Some(String::new()));
}

#[test]
fn cover_path_takes_no_other_scheme() {
    assert_eq!(cover_path(""), None);
    assert_eq!(cover_path("file:/"), None);
    assert_eq!(cover_path("file:/tmp/a"), None);
    assert_eq!(cover_path("FILE:///tmp/a"), None);
    assert_eq!(cover_path("https://example.org/a.png"), None);
    assert_eq!(cover_path(" file:///tmp/a"), None);
    assert_eq!(cover_path("/tmp/a"), None);
}

#[test]
fn empty_cache_holds_nothing() {
    let cache = CoverCache::new();
    assert!(!cache.holds(""));
    assert!(!cache.holds("/tmp/a"));
    assert_eq!(cache.b64(), None);
    assert_eq!(cache.raw(), None);
}

#[test]
fn cache_remembers_one_source() {
    let mut cache = CoverCache::new();
    cache.remember("/tmp/a", Some(b"hello".to_vec()));
    assert!(cache.holds("/tmp/a"));
    assert!(!cache.holds("/tmp/b"));
    assert!(!cache.holds("/tmp/"));
    assert_eq!(cache.b64(), Some(String::from("aGVsbG8=")));
    assert_eq!(cache.raw(), Some(b"hello".to_vec()));
    cache.remember("/tmp/b", Some(vec![0]));
    assert!(!cache.holds("/tmp/a"));
    assert!(cache.holds("/tmp/b"));
    assert_eq!(cache.b64(), Some(String::from("AA==")));
    assert_eq!(cache.raw(), Some(vec![0]));
}

#[test]
fn failed_read_forgets_the_cover_before() {
    let mut cache = CoverCache::new();
    cache.remember("/tmp/a", Some(b"hello".to_vec()));
    cache.remember("/tmp/gone", None);
    assert!(cache.holds("/tmp/gone"));
    assert!(!cache.holds("/tmp/a"));
    assert_eq!(cache.b64(), None);
    assert_eq!(cache.raw(), None);
}

#[test]
fn remembering_twice_changes_nothing() {
    let mut cache = CoverCache::new();
    cache.remember("/tmp/a", Some(b"hello".to_vec()));
    let (b64, raw) = (cache.b64(), cache.raw());
    cache.remember("/tmp/a", Some(b"hello".to_vec()));
    assert!(cache.holds("/tmp/a"));
    assert_eq!(cache.b64(), b64);
    assert_eq!(cache.raw(), raw);
}
