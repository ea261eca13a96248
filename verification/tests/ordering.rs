use png2t::frames::{frame_files, has_short_digit_runs, is_frame_file, select_frames, sort_names};

fn names(list: &[&str]) -> Vec<String> {
    list.iter().map(|name| String::from(*name)).collect()
}

#[test]
fn frames_are_ordered_by_number() {
    let sorted = sort_names(&names(&["frame1", "frame2", "frame10", "frame9"]));
    assert_eq!(sorted, names(&["frame1", "frame2", "frame9", "frame10"]));
}

#[test]
fn plain_text_order_would_differ() {
    let sorted = sort_names(&names(&["frame10.exr", "frame2.exr", "frame1.exr"]));
    assert_eq!(sorted, names(&["frame1.exr", "frame2.exr", "frame10.exr"]));
    let mut plain = names(&["frame10.exr", "frame2.exr", "frame1.exr"]);
    plain.sort();
    assert_ne!(sorted, plain);
}

#[test]
fn sorting_keeps_every_name() {
    let sorted = sort_names(&names(&["b", "a", "b", "a10", "a9", ""]));
    assert_eq!(sorted, names(&["", "a", "a9", "a10", "b", "b"]));
    assert_eq!(sort_names(&Vec::new()), Vec::<String>::new());
}

#[test]
fn only_frame_files_are_kept() {
    let listing = names(&["/tmp/TEMP/frame2.exr", "/tmp/TEMP/audio.mp3", "/tmp/TEMP/frame1.exr", "/tmp/TEMP/.exr"]);
    assert_eq!(select_frames(&listing), names(&["/tmp/TEMP/frame2.exr", "/tmp/TEMP/frame1.exr"]));
    assert_eq!(frame_files(&listing), names(&["/tmp/TEMP/frame1.exr", "/tmp/TEMP/frame2.exr"]));
}

#[test]
fn frame_file_names() {
    assert!(is_frame_file("frame1.exr"));
    assert!(is_frame_file("a.exr"));
    assert!(is_frame_file("dir/a..exr"));
    assert!(!is_frame_file(".exr"));
    assert!(!is_frame_file("dir/.exr"));
    assert!(!is_frame_file("frame1.png"));
    assert!(!is_frame_file("frame1.EXR"));
    assert!(!is_frame_file("frame1exr"));
    assert!(!is_frame_file("exr"));
    assert!(!is_frame_file(""));
}

#[test]
fn digit_runs() {
    assert!(has_short_digit_runs(""));
    assert!(has_short_digit_runs("frame123456789.exr"));
    assert!(has_short_digit_runs("123456789a123456789"));
    assert!(!has_short_digit_runs("frame1234567890.exr"));
    assert!(!has_short_digit_runs("0000000000"));
}
