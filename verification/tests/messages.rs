use png2t::report::{decode_failure, flush_failure, frame_label, push_number};

#[test]
fn single_frame_is_named_by_its_file() {
    assert_eq!(frame_label(0, 1, "cat.png"), "cat.png");
    assert_eq!(decode_failure(0, 1, "cat.png", "bad header"), "Unable to decode cat.png: bad header");
}

#[test]
fn one_of_several_frames_is_named_by_its_index() {
    assert_eq!(frame_label(12, 240, "clip.mp4"), "frame 12/240 of clip.mp4");
    assert_eq!(frame_label(0, 0, "clip.mp4"), "frame 0/0 of clip.mp4");
    assert_eq!(
        decode_failure(3, 10, "clip.mp4", "unexpected end of file"),
        "Unable to decode frame 3/10 of clip.mp4: unexpected end of file"
    );
}

#[test]
fn flush_failure_names_the_cell() {
    assert_eq!(flush_failure(7, 120, "broken pipe"), "\nFailed to print image at (7, 120): broken pipe");
    assert_eq!(flush_failure(0, 0, ""), "\nFailed to print image at (0, 0): ");
}

#[test]
fn numbers_in_messages() {
    let mut out = String::from("#");
    push_number(&mut out, 0);
    out.push(' ');
    push_number(&mut out, 9);
    out.push(' ');
    push_number(&mut out, 1905);
    out.push(' ');
    push_number(&mut out, 18446744073709551615);
    assert_eq!(out, "#0 9 1905 18446744073709551615");
}
