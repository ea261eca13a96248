use png2t::rate::{delay_from_capture, delay_from_rate, resolve_delay};

const RATE_ERROR: &str = "Could not determine framerate of video!";

#[test]
fn ntsc_rate_gives_33_ms() {
    let metadata = "Stream #0:0(und): Video: h264 (High), yuv420p, 1920x1080, 4500 kb/s, 29.97 fps, 30 tbr, 30k tbn";
    assert_eq!(resolve_delay(metadata), Ok(33));
}

#[test]
fn missing_rate_is_an_error() {
    assert_eq!(resolve_delay("Stream #0:0: Audio: mp3, 44100 Hz, stereo"), Err(String::from(RATE_ERROR)));
    assert_eq!(resolve_delay(""), Err(String::from(RATE_ERROR)));
}

#[test]
fn rate_without_digits_is_an_error() {
    assert_eq!(resolve_delay("variable fps"), Err(String::from(RATE_ERROR)));
    assert_eq!(resolve_delay("0 fps"), Err(String::from(RATE_ERROR)));
}

#[test]
fn first_rate_in_the_description_counts() {
    assert_eq!(resolve_delay("Video: 25 fps, then 50 fps"), Ok(40));
    assert_eq!(resolve_delay("Video: 1920x1080, 60 fps"), Ok(17));
}

#[test]
fn delays_are_rounded_to_the_nearest_millisecond() {
    assert_eq!(delay_from_rate("29.97"), Some(33));
    assert_eq!(delay_from_rate("30"), Some(33));
    assert_eq!(delay_from_rate("60"), Some(17));
    assert_eq!(delay_from_rate("25"), Some(40));
    assert_eq!(delay_from_rate("23.976"), Some(42));
    assert_eq!(delay_from_rate("24."), Some(42));
    assert_eq!(delay_from_rate(".5"), Some(2000));
    assert_eq!(delay_from_rate("1"), Some(1000));
    assert_eq!(delay_from_rate("1000"), Some(1));
    assert_eq!(delay_from_rate("2000"), Some(1));
    assert_eq!(delay_from_rate("2001"), Some(0));
    assert_eq!(delay_from_rate("0.000000000000001"), Some(1_000_000_000_000_000_000));
    assert_eq!(delay_from_rate("007.50"), Some(133));
}

#[test]
fn unreadable_rates() {
    assert_eq!(delay_from_rate(""), None);
    assert_eq!(delay_from_rate("."), None);
    assert_eq!(delay_from_rate("0"), None);
    assert_eq!(delay_from_rate("0.000"), None);
    assert_eq!(delay_from_rate("1.2.3"), None);
    assert_eq!(delay_from_rate("12a"), None);
    assert_eq!(delay_from_rate("-5"), None);
    assert_eq!(delay_from_rate("1000000000000000"), None);
    assert_eq!(delay_from_rate("1.0000000000000000"), None);
    assert_eq!(delay_from_rate("\u{0663}0"), None);
}

#[test]
fn delay_for_what_the_search_found() {
    assert_eq!(delay_from_capture(&Some(String::from("29.97"))), Ok(33));
    assert_eq!(delay_from_capture(&Some(String::new())), Err(String::from(RATE_ERROR)));
    assert_eq!(delay_from_capture(&None), Err(String::from(RATE_ERROR)));
}
