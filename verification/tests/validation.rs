use youtube_downloader::validation::{is_valid_url, LONG_HOST, SHORT_HOST};

#[test]
fn host_names_are_fixed() {
    assert_eq!(LONG_HOST, "youtube.com");
    assert_eq!(SHORT_HOST, "youtu.be");
}

#[test]
fn accepts_the_long_host() {
    assert!(is_valid_url("https://www.youtube.com/watch?v=abc"));
    assert!(is_valid_url("youtube.com"));
    assert!(is_valid_url("http://m.youtube.com/"));
}

#[test]
fn accepts_the_short_host() {
    assert!(is_valid_url("https://youtu.be/abc"));
    assert!(is_valid_url("youtu.be"));
}

#[test]
fn accepts_a_host_name_anywhere_in_the_text() {
    assert!(is_valid_url("not an address, yet it says youtube.com"));
    assert!(is_valid_url("https://example.com/?next=youtu.be"));
    assert!(is_valid_url("\u{1f3ac} youtu.be \u{1f3ac}"));
}

#[test]
fn rejects_other_addresses() {
    assert!(!is_valid_url("https://example.com/video"));
    assert!(!is_valid_url("https://vimeo.com/1"));
}

#[test]
fn rejects_the_empty_address() {
    assert!(!is_valid_url(""));
}

#[test]
fn rejects_near_misses() {
    assert!(!is_valid_url("https://www.youtube.co/watch"));
    assert!(!is_valid_url("https://youtu,be/abc"));
    assert!(!is_valid_url("https://youtube .com"));
    assert!(!is_valid_url("https://www.YouTube.com/watch?v=abc"));
    assert!(!is_valid_url("youtu.b"));
}
