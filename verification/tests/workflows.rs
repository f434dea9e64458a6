use dualcut_engine::thumbs::{ThumbnailAction, ThumbnailEvent, ThumbnailJob, ThumbnailStage};
use dualcut_engine::vector::{
    shape_png, shape_png_maybe_inverted, ShapeAction, ShapeEvent, ShapeKind, ShapeStage,
};

fn rect_pixels(width: usize, height: usize, inside: impl Fn(usize, usize) -> bool) -> Vec<u8> {
    let mut px = Vec::with_capacity(width * height * 4);
    for y in 0..height {
        for x in 0..width {
            if inside(x, y) {
                px.extend_from_slice(&[255, 0, 0, 255]);
            } else {
                px.extend_from_slice(&[0, 0, 0, 0]);
            }
        }
    }
    px
}

#[test]
fn shape_request_starts_with_the_cache_lookup() {
    let (job, action) = shape_png(ShapeKind::Rect, "#ff0000", 64, 32);
    assert_eq!(job.stage, ShapeStage::CheckingCache);
    match action {
        ShapeAction::CheckCache { file } => assert_eq!(file, "shape-Rect-ff0000-64x32-f0.png"),
        other => panic!("unexpected {other:?}"),
    }
}

#[test]
fn cached_shape_is_not_rendered_again() {
    let (mut job, _) = shape_png(ShapeKind::Star, "#123456", 32, 32);
    match job.step(ShapeEvent::Cached) {
        ShapeAction::Finish(Ok(file)) => assert_eq!(file, "shape-Star-123456-32x32-f0.png"),
        other => panic!("unexpected {other:?}"),
    }
    assert_eq!(job.stage, ShapeStage::Done);
}

#[test]
fn uncached_shape_is_rendered_then_saved_at_its_size() {
    let (mut job, _) = shape_png(ShapeKind::Rect, "#ff0000", 64, 32);
    match job.step(ShapeEvent::NotCached) {
        ShapeAction::Render { kind, fill_hex, width, height } => {
            assert_eq!(kind, ShapeKind::Rect);
            assert_eq!(fill_hex, "#ff0000");
            assert_eq!((width, height), (64, 32));
        }
        other => panic!("unexpected {other:?}"),
    }
    let px = rect_pixels(64, 32, |_, _| true);
    match job.step(ShapeEvent::Rendered(px.clone())) {
        ShapeAction::Save { file, raster } => {
            assert_eq!(file, "shape-Rect-ff0000-64x32-f0.png");
            assert_eq!(raster.image.dimensions(), (64, 32));
            assert_eq!(raster.image.as_raw(), &px);
        }
        other => panic!("unexpected {other:?}"),
    }
    match job.step(ShapeEvent::Saved) {
        ShapeAction::Finish(Ok(file)) => assert_eq!(file, "shape-Rect-ff0000-64x32-f0.png"),
        other => panic!("unexpected {other:?}"),
    }
}

#[test]
fn inverted_shape_is_opaque_fill_outside_and_clear_inside() {
    let (mut job, first) = shape_png_maybe_inverted(ShapeKind::Circle, "#0000ff", 4, 4, "0", true);
    match first {
        ShapeAction::CheckCache { file } => assert_eq!(file, "shape-Circle-0000ff-4x4-f0-inv.png"),
        other => panic!("unexpected {other:?}"),
    }
    job.step(ShapeEvent::NotCached);
    let px = rect_pixels(4, 4, |x, y| (1..3).contains(&x) && (1..3).contains(&y));
    match job.step(ShapeEvent::Rendered(px)) {
        ShapeAction::Save { raster, .. } => {
            let img = raster.image;
            assert_eq!(img.get_pixel(0, 0).0, [0, 0, 255, 255]);
            assert_eq!(img.get_pixel(1, 1).0, [0, 0, 0, 0]);
            assert_eq!(img.get_pixel(3, 2).0, [0, 0, 255, 255]);
        }
        other => panic!("unexpected {other:?}"),
    }
}

#[test]
fn short_render_cannot_become_an_image() {
    let (mut job, _) = shape_png(ShapeKind::Rect, "#ffffff", 8, 8);
    job.step(ShapeEvent::NotCached);
    match job.step(ShapeEvent::Rendered(vec![0; 8 * 8 * 4 - 1])) {
        ShapeAction::Finish(Err(e)) => assert_eq!(e, "image from raw"),
        other => panic!("unexpected {other:?}"),
    }
    assert_eq!(job.stage, ShapeStage::Done);
}

#[test]
fn failed_render_ends_the_shape_request() {
    let (mut job, _) = shape_png(ShapeKind::Arrow, "#ffffff", 8, 8);
    job.step(ShapeEvent::NotCached);
    match job.step(ShapeEvent::Failed("no GPU/Vulkan adapter available".into())) {
        ShapeAction::Finish(Err(e)) => assert_eq!(e, "no GPU/Vulkan adapter available"),
        other => panic!("unexpected {other:?}"),
    }
}

#[test]
fn failed_save_ends_the_shape_request() {
    let (mut job, _) = shape_png(ShapeKind::Line, "#ffffff", 2, 2);
    job.step(ShapeEvent::NotCached);
    job.step(ShapeEvent::Rendered(vec![0; 16]));
    assert_eq!(job.stage, ShapeStage::Saving);
    match job.step(ShapeEvent::Failed("saving x".into())) {
        ShapeAction::Finish(Err(e)) => assert_eq!(e, "saving x"),
        other => panic!("unexpected {other:?}"),
    }
}

#[test]
fn thumbnail_request_checks_the_cache_first() {
    let (job, action) = ThumbnailJob::new("a");
    assert_eq!(job.stage, ThumbnailStage::CheckingCache);
    match action {
        ThumbnailAction::CheckCache { file } => assert_eq!(file, "thumb-af63dc4c8601ec8c.png"),
        other => panic!("unexpected {other:?}"),
    }
}

#[test]
fn cached_thumbnail_is_not_decoded_again() {
    let (mut job, _) = ThumbnailJob::new("file:///clip.mp4");
    match job.step(ThumbnailEvent::Cached) {
        ThumbnailAction::Finish(Ok(file)) => assert_eq!(file, job.file),
        other => panic!("unexpected {other:?}"),
    }
}

#[test]
fn thumbnail_frame_is_saved_as_128_by_72_rgb() {
    let (mut job, _) = ThumbnailJob::new("file:///clip.mp4");
    match job.step(ThumbnailEvent::NotCached) {
        ThumbnailAction::Extract { uri, width, height } => {
            assert_eq!(uri, "file:///clip.mp4");
            assert_eq!((width, height), (128, 72));
        }
        other => panic!("unexpected {other:?}"),
    }
    let frame: Vec<u8> = (0..128 * 3 * 72).map(|i| (i % 251) as u8).collect();
    match job.step(ThumbnailEvent::Frame(frame.clone())) {
        ThumbnailAction::Save { file, raster } => {
            assert_eq!(file, job.file);
            assert_eq!(raster.image.dimensions(), (128, 72));
            assert_eq!(raster.image.as_raw(), &frame);
            assert_eq!(raster.image.get_pixel(1, 0).0, [3, 4, 5]);
        }
        other => panic!("unexpected {other:?}"),
    }
    match job.step(ThumbnailEvent::Saved) {
        ThumbnailAction::Finish(Ok(file)) => assert_eq!(file, job.file),
        other => panic!("unexpected {other:?}"),
    }
}

#[test]
fn failed_decoding_ends_the_thumbnail_request() {
    let (mut job, _) = ThumbnailJob::new("file:///missing.mp4");
    job.step(ThumbnailEvent::NotCached);
    match job.step(ThumbnailEvent::Failed("prerolling for thumbnail".into())) {
        ThumbnailAction::Finish(Err(e)) => assert_eq!(e, "prerolling for thumbnail"),
        other => panic!("unexpected {other:?}"),
    }
    assert_eq!(job.stage, ThumbnailStage::Done);
}
