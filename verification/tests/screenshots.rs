use std::io::Cursor;
use std::path::Path;

use adb_agent::imaging::default_screenshot_path;
use adb_agent::imaging::encode_preview;
use adb_agent::imaging::format_for_extension;
use adb_agent::imaging::make_preview;
use adb_agent::imaging::preview_of;
use adb_agent::imaging::preview_size;
use adb_agent::imaging::resolve_screenshot_format;
use adb_agent::imaging::screenshot_path_at;
use adb_agent::imaging::time_from_clock;
use adb_agent::imaging::unix_now;
use adb_agent::preview::fit_within;
use adb_agent::response::ScreenshotFormat;
use adb_agent::shot::choose_shot;

fn picture(width: u32, height: u32) -> image::DynamicImage {
    let mut pixels = image::RgbaImage::new(width, height);
    for (x, y, pixel) in pixels.enumerate_pixels_mut() {
        *pixel = image::Rgba([(x % 251) as u8, (y % 241) as u8, 90, 255]);
    }
    image::DynamicImage::ImageRgba8(pixels)
}

fn png(width: u32, height: u32) -> Vec<u8> {
    let mut file = Cursor::new(Vec::new());
    picture(width, height).write_to(&mut file, image::ImageFormat::Png).unwrap();
    file.into_inner()
}

/// What the arithmetic of doubles makes of the box.
fn fit_by_doubles(width: u32, height: u32, max_width: u32, max_height: u32) -> (u32, u32) {
    let scale = (max_width as f64 / width as f64)
        .min(max_height as f64 / height as f64)
        .min(1.0);
    (
        ((width as f64 * scale).round() as u32).max(1),
        ((height as f64 * scale).round() as u32).max(1),
    )
}

#[test]
fn default_screenshot_name_matches_format() {
    let jpeg_path = default_screenshot_path(ScreenshotFormat::Jpeg);
    let png_path = default_screenshot_path(ScreenshotFormat::Png);

    assert_eq!(
        Path::new(&jpeg_path).extension().and_then(|ext| ext.to_str()),
        Some("jpg")
    );
    assert_eq!(
        Path::new(&png_path).extension().and_then(|ext| ext.to_str()),
        Some("png")
    );
}

#[test]
fn fit_within_preserves_aspect_ratio_without_upscaling() {
    assert_eq!(fit_within(1440, 3120, 1080, 1080), (498, 1080));
    assert_eq!(fit_within(800, 600, 1080, 1080), (800, 600));
}

#[test]
fn fitting_agrees_with_doubles() {
    let sides = [
        0u32,
        1,
        2,
        3,
        5,
        7,
        10,
        99,
        480,
        719,
        720,
        1079,
        1080,
        1081,
        1440,
        2340,
        3120,
        3840,
        65535,
        65536,
        16777217,
        123456789,
        2147483647,
        2147483648,
        4294967294,
        4294967295,
    ];
    for width in sides {
        for height in sides {
            for (max_width, max_height) in
                [(1080, 1080), (1, 1), (0, 5), (900, 901), (3, 4294967295), (4294967295, 7)]
            {
                assert_eq!(
                    fit_within(width, height, max_width, max_height),
                    fit_by_doubles(width, height, max_width, max_height),
                    "{width}x{height} in {max_width}x{max_height}"
                );
            }
        }
    }
}

#[test]
fn fitting_agrees_with_doubles_on_many_sizes() {
    let mut seed: u64 = 0x9e3779b97f4a7c15;
    let mut next = |bits: u32| {
        seed = seed.wrapping_mul(6364136223846793005).wrapping_add(1442695040888963407);
        ((seed >> 33) as u32) >> (31 - bits)
    };
    for round in 0..200_000u32 {
        let bits = 4 + round % 27;
        let (w, h, mw, mh) = (next(bits), next(bits), next(12), next(12));
        assert_eq!(fit_within(w, h, mw, mh), fit_by_doubles(w, h, mw, mh), "{w} {h} {mw} {mh}");
    }
}

#[test]
fn a_preview_is_in_the_box_and_never_larger() {
    for (w, h) in [(1440, 3120), (3120, 1440), (1, 5000), (1080, 1080), (1081, 1080), (20, 30)] {
        let (x, y) = fit_within(w, h, 1080, 900);
        assert!(1 <= x && x <= 1080 && x <= w);
        assert!(1 <= y && y <= 900 && y <= h);
    }
}

#[test]
fn names_are_made_of_the_time() {
    assert_eq!(screenshot_path_at(1700000000, ScreenshotFormat::Jpeg), "screenshot-1700000000.jpg");
    assert_eq!(screenshot_path_at(0, ScreenshotFormat::Png), "screenshot-0.png");
    assert_eq!(time_from_clock(Some(7)), 7);
    assert_eq!(time_from_clock(None), 0);
    assert!(unix_now() > 1_600_000_000);
    assert!(default_screenshot_path(ScreenshotFormat::Png).starts_with("screenshot-1"));
}

#[test]
fn the_format_is_asked_for_or_follows_the_extension() {
    let jpeg = ScreenshotFormat::Jpeg;
    let png = ScreenshotFormat::Png;
    assert_eq!(resolve_screenshot_format(None, None), jpeg);
    assert_eq!(resolve_screenshot_format(Some("screen.png"), None), png);
    assert_eq!(resolve_screenshot_format(Some("dir.png/screen.PNG"), None), png);
    assert_eq!(resolve_screenshot_format(Some("screen.jpg"), None), jpeg);
    assert_eq!(resolve_screenshot_format(Some("screen"), None), jpeg);
    assert_eq!(resolve_screenshot_format(Some("png"), None), jpeg);
    assert_eq!(resolve_screenshot_format(Some(".png"), None), jpeg);
    assert_eq!(resolve_screenshot_format(Some("a.png.gif"), None), jpeg);
    assert_eq!(resolve_screenshot_format(Some("shots.png/screen"), None), jpeg);
    assert_eq!(resolve_screenshot_format(Some("shots/.png"), None), jpeg);
    assert_eq!(resolve_screenshot_format(Some("a.png/.."), None), jpeg);
    assert_eq!(resolve_screenshot_format(Some("a.png/"), None), png);
    assert_eq!(resolve_screenshot_format(Some("a.png//./"), None), png);
    assert_eq!(resolve_screenshot_format(Some("a.."), None), jpeg);
    assert_eq!(resolve_screenshot_format(Some("shot.png."), None), jpeg);
    assert_eq!(resolve_screenshot_format(Some("shot.png/.."), None), jpeg);
    assert_eq!(resolve_screenshot_format(Some("shot.png/..."), None), jpeg);
    assert_eq!(resolve_screenshot_format(Some("shot.png/.png"), None), jpeg);
    assert_eq!(resolve_screenshot_format(Some("..png"), None), png);
    assert_eq!(resolve_screenshot_format(Some("./a/../b.png/."), None), png);
    assert_eq!(resolve_screenshot_format(Some(""), None), jpeg);
    assert_eq!(resolve_screenshot_format(Some("/"), None), jpeg);
    assert_eq!(resolve_screenshot_format(Some("."), None), jpeg);
    assert_eq!(resolve_screenshot_format(Some("\\\\server\\share\\dir\\shot.png"), None), png);
    assert_eq!(resolve_screenshot_format(Some("//server/share/shot.png/"), None), png);
    assert_eq!(resolve_screenshot_format(Some("screen.png"), Some(jpeg)), jpeg);
    assert_eq!(resolve_screenshot_format(None, Some(png)), png);
    assert_eq!(format_for_extension(Some("pNg")), png);
    assert_eq!(format_for_extension(Some("pngx")), jpeg);
    assert_eq!(format_for_extension(None), jpeg);
}

#[test]
fn a_screenshot_goes_to_the_path_that_is_asked_for() {
    let chosen = choose_shot(Some("a.png".to_string()), None, 900, 800, 78, true);
    assert_eq!(chosen.path, "a.png");
    assert_eq!(chosen.format, ScreenshotFormat::Png);
    assert_eq!((chosen.max_width, chosen.max_height, chosen.quality), (900, 800, 78));
    assert!(chosen.full);
    let chosen = choose_shot(None, Some(ScreenshotFormat::Png), 1, 2, 3, false);
    assert!(chosen.path.starts_with("screenshot-") && chosen.path.ends_with(".png"));
    assert!(!chosen.full);
    assert!(choose_shot(None, None, 1, 2, 3, false).path.ends_with(".jpg"));
}

#[test]
fn the_size_is_kept_in_full() {
    assert_eq!(preview_size((1440, 3120), 1080, 1080, false), (498, 1080));
    assert_eq!(preview_size((1440, 3120), 1080, 1080, true), (1440, 3120));
}

#[test]
fn a_screenshot_is_decoded_and_resized() {
    let made = make_preview(&png(400, 200), 100, 100, false).unwrap();
    assert_eq!((made.original_width, made.original_height), (400, 200));
    assert_eq!((made.output_width, made.output_height), (100, 50));
    assert_eq!((made.image.width(), made.image.height()), (100, 50));
    let full = make_preview(&png(400, 200), 100, 100, true).unwrap();
    assert_eq!((full.output_width, full.output_height), (400, 200));
    assert_eq!(full.image.to_rgba8(), picture(400, 200).to_rgba8());
    assert!(make_preview(&vec![1, 2, 3], 100, 100, false).is_none());
    assert!(make_preview(&vec![], 100, 100, false).is_none());
}

#[test]
fn a_preview_that_fits_keeps_its_pixels() {
    let made = preview_of(picture(30, 20), 1080, 1080, false);
    assert_eq!(made.image.to_rgba8(), picture(30, 20).to_rgba8());
    assert_eq!((made.output_width, made.output_height), (30, 20));
}

#[test]
fn previews_are_encoded_in_both_formats() {
    let made = preview_of(picture(60, 40), 30, 30, false);
    let file = encode_preview(&made, ScreenshotFormat::Png, 1).unwrap();
    assert_eq!(&file[..8], &[0x89, b'P', b'N', b'G', 0x0d, 0x0a, 0x1a, 0x0a]);
    let back = image::load_from_memory(&file).unwrap();
    assert_eq!(back.to_rgba8(), made.image.to_rgba8());
    let fine = encode_preview(&made, ScreenshotFormat::Jpeg, 95).unwrap();
    assert_eq!(&fine[..2], &[0xff, 0xd8]);
    let back = image::load_from_memory(&fine).unwrap();
    assert_eq!((back.width(), back.height()), (30, 20));
    let coarse = encode_preview(&made, ScreenshotFormat::Jpeg, 5).unwrap();
    assert!(coarse.len() < fine.len());
    assert_eq!(encode_preview(&made, ScreenshotFormat::Jpeg, 95).unwrap(), fine);
}

#[test]
fn points_of_a_preview_are_points_of_the_device() {
    for (width, height) in [(1440u32, 3120u32), (1080, 1080), (3000, 7), (1081, 1080)] {
        let (shown, _) = fit_within(width, height, 1080, 1080);
        let scale = width as f64 / shown as f64;
        for x in 0..shown {
            let point = (x as f64 * scale).round() as u64;
            let (x, original, shown) = (x as u64, width as u64, shown as u64);
            assert_eq!(point, (2 * x * original + shown) / (2 * shown));
            assert!(point < original);
        }
    }
}
