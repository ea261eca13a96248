use png2t::bitmap::{fits, Bitmap, Pixel};
use png2t::media::{Args, Media};
use png2t::sizing::{parse_size, resolve_size, thumbnail_size};

const SIZE_ERROR: &str = "Invalid coordinates supplied to --size: must be in format NUMxNUM";

fn px(r: u8, g: u8, b: u8, a: u8) -> Pixel {
    Pixel { r, g, b, a }
}

fn args(size: Option<&str>) -> Args {
    Args {
        file: String::from("clip.mp4"),
        invert: false,
        flip_h: false,
        flip_v: false,
        size: size.map(String::from),
        preserve_dims: false,
        loop_video: false,
        mute: false,
    }
}

fn gradient(width: u32, height: u32) -> Bitmap {
    let mut bitmap = Bitmap::new(width, height, px(0, 0, 0, 255));
    for y in 0..height {
        for x in 0..width {
            bitmap.put_pixel(x, y, px(x as u8, y as u8, (x + y) as u8, 200));
        }
    }
    bitmap
}

fn media_of(config: Args, frames: Vec<Bitmap>) -> Media {
    let mut media = Media::new(config);
    media.unpack_file(frames, false);
    media
}

#[test]
fn default_thumbnail_of_wide_source() {
    assert_eq!(resolve_size(100, 50, &None, false), Ok((64, 32)));
    assert_eq!(thumbnail_size(100, 50), (64, 32));
}

#[test]
fn default_thumbnail_of_tall_and_square_sources() {
    assert_eq!(thumbnail_size(50, 100), (32, 64));
    assert_eq!(thumbnail_size(50, 50), (64, 64));
    assert_eq!(thumbnail_size(3, 7), (27, 64));
    assert_eq!(thumbnail_size(7, 3), (64, 27));
    assert_eq!(thumbnail_size(1, 1000), (0, 64));
}

#[test]
fn default_thumbnail_of_empty_source() {
    assert_eq!(thumbnail_size(0, 0), (0, 64));
    assert_eq!(thumbnail_size(5, 0), (64, 0));
    assert_eq!(thumbnail_size(0, 5), (0, 64));
}

#[test]
fn preserved_dimensions_are_the_source_dimensions() {
    assert_eq!(resolve_size(100, 50, &None, true), Ok((100, 50)));
}

#[test]
fn explicit_size_wins_over_everything() {
    let request = Some(String::from("10x20"));
    assert_eq!(resolve_size(100, 50, &request, false), Ok((10, 20)));
    assert_eq!(resolve_size(7, 900, &request, true), Ok((10, 20)));
}

#[test]
fn malformed_size_is_rejected() {
    let request = Some(String::from("10xA"));
    assert_eq!(resolve_size(100, 50, &request, false), Err(String::from(SIZE_ERROR)));
}

#[test]
fn size_requests_are_read_piece_by_piece() {
    assert_eq!(parse_size("10x20"), Some((10, 20)));
    assert_eq!(parse_size("+10x020"), Some((10, 20)));
    assert_eq!(parse_size("10x20x30"), Some((10, 20)));
    assert_eq!(parse_size("4294967295x1"), Some((4294967295, 1)));
    assert_eq!(parse_size("4294967296x1"), None);
    assert_eq!(parse_size("10x20x0"), None);
    assert_eq!(parse_size("10x20x"), None);
    assert_eq!(parse_size("0x5"), None);
    assert_eq!(parse_size("5x0"), None);
    assert_eq!(parse_size("10"), None);
    assert_eq!(parse_size("10x"), None);
    assert_eq!(parse_size("x10"), None);
    assert_eq!(parse_size("x"), None);
    assert_eq!(parse_size(""), None);
    assert_eq!(parse_size("10 x20"), None);
    assert_eq!(parse_size("-1x20"), None);
    assert_eq!(parse_size("10X20"), None);
    assert_eq!(parse_size("+x2"), None);
}

#[test]
fn transform_gives_the_thumbnail_geometry() {
    let mut media = media_of(args(None), vec![gradient(100, 50)]);
    assert_eq!(media.transform(), Ok(()));
    assert_eq!((media.frames[0].width, media.frames[0].height), (64, 32));
    assert_eq!(media.frames[0].rows.len(), 32);
    assert!(media.frames[0].rows.iter().all(|row| row.len() == 64));
}

#[test]
fn transform_gives_the_explicit_size_to_every_frame() {
    let mut media = media_of(args(Some("10x20")), vec![gradient(100, 50), gradient(30, 30), gradient(1, 2)]);
    assert_eq!(media.transform(), Ok(()));
    assert_eq!(media.frames.len(), 3);
    for frame in &media.frames {
        assert_eq!((frame.width, frame.height), (10, 20));
        assert_eq!(frame.rows.len(), 20);
        assert!(frame.rows.iter().all(|row| row.len() == 10));
    }
}

#[test]
fn transform_with_malformed_size_changes_nothing() {
    let mut media = media_of(args(Some("10xA")), vec![gradient(6, 4), gradient(6, 4)]);
    assert_eq!(media.transform(), Err(String::from(SIZE_ERROR)));
    assert_eq!(media.frames.len(), 2);
    for frame in &media.frames {
        assert_eq!((frame.width, frame.height), (6, 4));
        assert_eq!(frame.rows, gradient(6, 4).rows);
    }
}

#[test]
fn transform_uses_the_first_frame_for_all() {
    let mut media = media_of(args(None), vec![gradient(100, 50), gradient(50, 100)]);
    assert_eq!(media.transform(), Ok(()));
    for frame in &media.frames {
        assert_eq!((frame.width, frame.height), (64, 32));
    }
}

#[test]
fn transform_applies_invert_then_flips() {
    let mut config = args(Some("2x2"));
    config.invert = true;
    config.flip_h = true;
    config.flip_v = true;
    let mut source = Bitmap::new(2, 2, px(0, 0, 0, 0));
    source.put_pixel(0, 0, px(1, 2, 3, 4));
    source.put_pixel(1, 0, px(5, 6, 7, 8));
    source.put_pixel(0, 1, px(9, 10, 11, 12));
    source.put_pixel(1, 1, px(13, 14, 15, 16));
    let mut media = media_of(config, vec![source]);
    assert_eq!(media.transform(), Ok(()));
    let frame = &media.frames[0];
    assert_eq!(frame.get_pixel(0, 0), px(242, 241, 240, 16));
    assert_eq!(frame.get_pixel(1, 0), px(246, 245, 244, 12));
    assert_eq!(frame.get_pixel(0, 1), px(250, 249, 248, 8));
    assert_eq!(frame.get_pixel(1, 1), px(254, 253, 252, 4));
}

#[test]
fn target_size_and_reshape_allow_scaling_in_between() {
    let mut media = media_of(args(None), vec![gradient(100, 50)]);
    assert_eq!(media.target_size(), Ok((64, 32)));
    assert!(media.reshapable(32, 16));
    media.reshape(32, 16);
    assert_eq!((media.frames[0].width, media.frames[0].height), (32, 16));
}

#[test]
fn nearest_resize_doubles_each_pixel() {
    let mut source = Bitmap::new(2, 2, px(0, 0, 0, 255));
    source.put_pixel(0, 0, px(10, 0, 0, 255));
    source.put_pixel(1, 0, px(20, 0, 0, 255));
    source.put_pixel(0, 1, px(30, 0, 0, 255));
    source.put_pixel(1, 1, px(40, 0, 0, 255));
    let made = source.resized(4, 4);
    assert_eq!((made.width, made.height), (4, 4));
    assert_eq!(made.get_pixel(0, 0), px(10, 0, 0, 255));
    assert_eq!(made.get_pixel(1, 1), px(10, 0, 0, 255));
    assert_eq!(made.get_pixel(2, 0), px(20, 0, 0, 255));
    assert_eq!(made.get_pixel(3, 1), px(20, 0, 0, 255));
    assert_eq!(made.get_pixel(0, 2), px(30, 0, 0, 255));
    assert_eq!(made.get_pixel(3, 3), px(40, 0, 0, 255));
}

#[test]
fn resize_to_nothing_gives_an_empty_bitmap() {
    let made = gradient(4, 4).resized(0, 3);
    assert_eq!((made.width, made.height), (0, 3));
    assert_eq!(made.rows.len(), 3);
    assert!(made.rows.iter().all(|row| row.is_empty()));
}

#[test]
fn invert_twice_restores_every_channel() {
    let source = gradient(5, 4);
    let mut bitmap = gradient(5, 4);
    bitmap.invert();
    assert_eq!(bitmap.get_pixel(2, 1), px(253, 254, 252, 200));
    for y in 0..4 {
        for x in 0..5 {
            assert_eq!(bitmap.get_pixel(x, y).a, source.get_pixel(x, y).a);
        }
    }
    bitmap.invert();
    assert_eq!(bitmap.rows, source.rows);
}

#[test]
fn invert_of_one_pixel() {
    assert_eq!(px(0, 255, 100, 7).invert(), px(255, 0, 155, 7));
    assert_eq!(px(0, 255, 100, 7).invert().invert(), px(0, 255, 100, 7));
}

#[test]
fn horizontal_flip_mirrors_and_twice_restores() {
    let source = gradient(5, 4);
    let mut bitmap = gradient(5, 4);
    bitmap.flip_horizontal();
    for y in 0..4 {
        for x in 0..5 {
            assert_eq!(bitmap.get_pixel(x, y), source.get_pixel(4 - x, y));
        }
    }
    assert_ne!(bitmap.rows, source.rows);
    bitmap.flip_horizontal();
    assert_eq!(bitmap.rows, source.rows);
}

#[test]
fn vertical_flip_reverses_rows_and_twice_restores() {
    let source = gradient(5, 4);
    let mut bitmap = gradient(5, 4);
    bitmap.flip_vertical();
    for y in 0..4 {
        for x in 0..5 {
            assert_eq!(bitmap.get_pixel(x, y), source.get_pixel(x, 3 - y));
        }
    }
    assert_ne!(bitmap.rows, source.rows);
    bitmap.flip_vertical();
    assert_eq!(bitmap.rows, source.rows);
}

#[test]
fn unpacking_tells_videos_from_stills() {
    let mut still = Media::new(args(None));
    still.unpack_file(vec![gradient(2, 2)], true);
    assert!(!still.is_video);
    assert!(still.has_audio);

    let mut video = Media::new(args(None));
    video.unpack_file(vec![gradient(2, 2), gradient(2, 2)], false);
    assert!(video.is_video);
    assert!(!video.has_audio);

    let mut muted_config = args(None);
    muted_config.mute = true;
    let mut muted = Media::new(muted_config);
    muted.unpack_file(vec![gradient(2, 2), gradient(2, 2)], true);
    assert!(!muted.has_audio);
}

#[test]
fn channels_round_trip() {
    let pixel = px(1, 2, 3, 4);
    assert_eq!(pixel.channels(), [1, 2, 3, 4]);
    assert_eq!(Pixel::from_channels([1, 2, 3, 4]), pixel);
    assert!(px(9, 9, 9, 0).is_clear());
    assert!(!pixel.is_clear());
}

#[test]
fn buffers_beyond_the_address_space_do_not_fit() {
    assert!(fits(0, 4294967295));
    assert!(fits(64, 64));
    assert!(fits(65536, 65536));
    assert!(!fits(4294967295, 4294967295));
    let bitmap = gradient(4, 4);
    assert!(bitmap.resizable(64, 32));
    assert!(!bitmap.resizable(4294967295, 4294967295));
    let media = media_of(args(None), vec![gradient(4, 4), gradient(2, 2)]);
    assert!(media.reshapable(64, 32));
    assert!(!media.reshapable(4294967295, 4294967295));
}
