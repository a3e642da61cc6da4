use recolor_images::blend::{blend, Color, Pixel, BLEND_SCALE};
use recolor_images::codec::{encode_image, load_image, output_file_name, output_format, OutputFormat};
use recolor_images::entry::{ImageData, DEFAULT_BLEND};
use recolor_images::gallery::{apply_to_all_images, ImageApp};
use recolor_images::raster::{recolor, PixelBuffer};

fn px(r: u8, g: u8, b: u8, a: u8) -> Pixel {
    Pixel { r, g, b, a }
}

fn solid(width: u32, height: u32, p: Pixel) -> PixelBuffer {
    PixelBuffer::new(width, height, vec![p; (width * height) as usize]).unwrap()
}

fn gradient(width: u32, height: u32) -> PixelBuffer {
    let mut pixels = Vec::new();
    for i in 0..(width * height) {
        let v = (i * 37 % 256) as u8;
        pixels.push(px(v, 255 - v, v / 2, 200 + (i % 50) as u8));
    }
    PixelBuffer::new(width, height, pixels).unwrap()
}

fn png_bytes(image: &PixelBuffer) -> Vec<u8> {
    encode_image(image, OutputFormat::Png).unwrap()
}

#[test]
fn blend_zero_factor_is_identity() {
    let targets = [Color::from_rgb(0, 0, 0), Color::from_rgb(255, 255, 255), Color::from_rgb(12, 200, 99)];
    for t in targets {
        for p in [px(0, 0, 0, 0), px(255, 255, 255, 255), px(1, 128, 254, 77)] {
            assert_eq!(blend(p, t, 0), p);
        }
    }
}

#[test]
fn blend_full_factor_gives_target() {
    let t = Color::from_rgb(12, 200, 99);
    for p in [px(0, 0, 0, 0), px(255, 255, 255, 255), px(1, 128, 254, 77)] {
        let r = blend(p, t, BLEND_SCALE);
        assert_eq!((r.r, r.g, r.b, r.a), (12, 200, 99, p.a));
    }
}

#[test]
fn blend_keeps_alpha() {
    let t = Color::from_rgb(0, 0, 255);
    for f in [0, 1, 333, 500, 999, 1000, 5000] {
        assert_eq!(blend(px(10, 20, 30, 42), t, f).a, 42);
    }
}

#[test]
fn blend_clamps_factor_above_scale() {
    let p = px(10, 20, 30, 40);
    let t = Color::from_rgb(200, 100, 50);
    assert_eq!(blend(p, t, 4000), blend(p, t, BLEND_SCALE));
}

#[test]
fn blend_truncates_toward_zero() {
    // (750 * 100 + 250 * 200) / 1000 = 125 ; (750 * 3 + 250 * 0) / 1000 = 2.25 -> 2
    let r = blend(px(100, 3, 255, 9), Color::from_rgb(200, 0, 0), 250);
    assert_eq!(r, px(125, 2, 191, 9));
}

#[test]
fn white_to_blue_at_half() {
    let mut image = solid(2, 2, px(255, 255, 255, 255));
    recolor(&mut image, Color::from_rgb(0, 0, 255), 500);
    assert_eq!(image.width, 2);
    assert_eq!(image.height, 2);
    assert_eq!(image.pixels.len(), 4);
    for p in &image.pixels {
        assert_eq!(*p, px(127, 127, 255, 255));
    }
}

#[test]
fn pixel_buffer_rejects_wrong_count() {
    assert!(PixelBuffer::new(2, 2, vec![px(0, 0, 0, 0); 3]).is_none());
    assert!(PixelBuffer::from_rgba(1, 2, &[0u8; 7]).is_none());
    let b = PixelBuffer::from_rgba(1, 2, &[1, 2, 3, 4, 5, 6, 7, 8]).unwrap();
    assert_eq!(b.pixels, vec![px(1, 2, 3, 4), px(5, 6, 7, 8)]);
    assert_eq!(b.to_rgba(), vec![1, 2, 3, 4, 5, 6, 7, 8]);
}

#[test]
fn new_entry_starts_stale_with_defaults() {
    let image = gradient(3, 2);
    let e = ImageData::new("dir/pic.png".to_string(), image);
    assert!(e.is_stale());
    assert_eq!(e.color, Color::from_rgb(255, 0, 0));
    assert_eq!(e.blend, DEFAULT_BLEND);
    assert_eq!(e.recolored.pixels, e.original.pixels);
}

#[test]
fn recompute_twice_gives_identical_pixels() {
    let mut e = ImageData::new("a.png".to_string(), gradient(4, 3));
    e.set_color(Color::from_rgb(10, 220, 30));
    e.set_blend(420);
    e.recompute();
    let first = e.recolored.to_rgba();
    e.recompute();
    let second = e.recolored.to_rgba();
    assert_eq!(first, second);
    assert!(!e.is_stale());
    assert_eq!(e.original.pixels, gradient(4, 3).pixels);
}

#[test]
fn recompute_applies_blend_to_every_pixel() {
    let mut e = ImageData::new("a.png".to_string(), gradient(3, 3));
    e.recompute();
    let orig = gradient(3, 3);
    for (o, r) in orig.pixels.iter().zip(e.recolored.pixels.iter()) {
        assert_eq!(*r, blend(*o, Color::from_rgb(255, 0, 0), 700));
    }
}

#[test]
fn setters_mark_stale_and_clamp() {
    let mut e = ImageData::new("a.png".to_string(), gradient(2, 2));
    e.recompute();
    assert!(!e.is_stale());
    e.set_blend(2500);
    assert!(e.is_stale());
    assert_eq!(e.blend, BLEND_SCALE);
    e.recompute();
    e.set_color(Color::from_rgb(1, 2, 3));
    assert!(e.is_stale());
}

#[test]
fn apply_batch_copies_source_params_to_all() {
    let mut app = ImageApp::new();
    for name in ["a.png", "b.png", "c.png"] {
        app.load(name.to_string(), &png_bytes(&gradient(2, 3))).unwrap();
    }
    app.images[0].set_color(Color::from_rgb(0, 0, 255));
    app.images[0].set_blend(500);
    app.images[2].set_color(Color::from_rgb(9, 9, 9));
    app.apply_batch(0);
    for e in &app.images {
        assert_eq!(e.color, Color::from_rgb(0, 0, 255));
        assert_eq!(e.blend, 500);
        assert!(!e.is_stale());
        let mut single = ImageData::new(e.path.clone(), e.original.duplicate());
        single.set_color(Color::from_rgb(0, 0, 255));
        single.set_blend(500);
        single.recompute();
        assert_eq!(single.recolored.pixels, e.recolored.pixels);
    }
}

#[test]
fn apply_single_touches_one_entry() {
    let mut app = ImageApp::new();
    app.load("a.png".to_string(), &png_bytes(&gradient(2, 2))).unwrap();
    app.load("b.png".to_string(), &png_bytes(&gradient(2, 2))).unwrap();
    app.images[1].set_blend(1000);
    app.apply_changes(1);
    assert!(app.images[0].is_stale());
    assert!(!app.images[1].is_stale());
    for p in &app.images[1].recolored.pixels {
        assert_eq!((p.r, p.g, p.b), (255, 0, 0));
    }
}

#[test]
fn apply_to_all_images_recolors_every_entry() {
    let mut images = vec![
        ImageData::new("x.png".to_string(), solid(1, 1, px(255, 255, 255, 255))),
        ImageData::new("y.png".to_string(), solid(2, 1, px(0, 0, 0, 10))),
    ];
    apply_to_all_images(&mut images, Color::from_rgb(0, 0, 255), 500);
    assert_eq!(images[0].recolored.pixels, vec![px(127, 127, 255, 255)]);
    assert_eq!(images[1].recolored.pixels, vec![px(0, 0, 127, 10); 2]);
}

#[test]
fn png_round_trip_keeps_pixels() {
    let image = gradient(5, 4);
    let bytes = png_bytes(&image);
    assert_eq!(&bytes[1..4], b"PNG");
    let back = load_image(&bytes).unwrap();
    assert_eq!((back.width, back.height), (5, 4));
    assert_eq!(back.pixels, image.pixels);
}

#[test]
fn load_image_rejects_garbage() {
    let err = load_image(b"this is not an image").unwrap_err();
    assert!(!err.message.is_empty());
}

#[test]
fn load_all_skips_only_the_corrupt_file() {
    let mut app = ImageApp::new();
    let sources = vec![
        ("valid1.png".to_string(), png_bytes(&gradient(2, 2))),
        ("corrupt.png".to_string(), b"\x89PNG garbage".to_vec()),
        ("valid2.png".to_string(), png_bytes(&solid(3, 1, px(1, 2, 3, 4)))),
    ];
    let failures = app.load_all(sources);
    assert_eq!(app.len(), 2);
    assert_eq!(app.images[0].path, "valid1.png");
    assert_eq!(app.images[1].path, "valid2.png");
    assert_eq!(app.images[1].original.pixels, vec![px(1, 2, 3, 4); 3]);
    assert_eq!(failures.len(), 1);
    assert_eq!(failures[0].path, "corrupt.png");
}

#[test]
fn output_names_and_formats() {
    assert_eq!(output_file_name("/photos/holiday/beach.png"), "beach.png");
    assert_eq!(output_file_name("/photos/.."), "output.png");
    assert_eq!(output_file_name(""), "output.png");
    assert_eq!(output_format("beach.JPG"), OutputFormat::Jpeg);
    assert_eq!(output_format("beach.png"), OutputFormat::Png);
    assert_eq!(output_format("beach"), OutputFormat::Png);
    assert_eq!(output_format("beach.gif"), OutputFormat::Png);
}

#[test]
fn save_all_reports_each_entry() {
    let mut app = ImageApp::default();
    app.load("/in/one.png".to_string(), &png_bytes(&gradient(2, 2))).unwrap();
    app.load("/in/two".to_string(), &png_bytes(&gradient(1, 3))).unwrap();
    app.load("/in/three.png".to_string(), &png_bytes(&solid(2, 2, px(255, 255, 255, 255)))).unwrap();
    app.set_apply_to_all(true);
    app.images[0].set_color(Color::from_rgb(0, 0, 255));
    app.images[0].set_blend(500);
    app.apply_changes(0);
    let results = app.save_all();
    assert_eq!(results.len(), 3);
    let names: Vec<String> = results
        .iter()
        .map(|r| match r {
            Ok(e) => e.file_name.clone(),
            Err(f) => f.file_name.clone(),
        })
        .collect();
    assert_eq!(names, vec!["one.png", "two", "three.png"]);
    let third = results[2].as_ref().unwrap();
    assert_eq!(third.format, OutputFormat::Png);
    let decoded = load_image(&third.bytes).unwrap();
    assert_eq!(decoded.pixels, vec![px(127, 127, 255, 255); 4]);
}
