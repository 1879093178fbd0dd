use slate::document::edit::{
    flip_document_horizontal, flip_document_vertical, resize_document_canvas,
    resize_document_pixels, rotate_document_clockwise,
};
use slate::document::{Document, Layer, LayerKind, Mask};
use slate::image::adjust::{filter_grayscale, filter_invert, filter_noise};
use slate::image::color::ColorManager;
use slate::image::loading::{open_decoded_image, rgba_from_raw};
use slate::image::pipeline::{
    EditPipeline, ExportFormat, ExportParams, PresetTarget, ResizeKernel, ResizeMode,
    ResizeTarget, Rotation,
};
use slate::image::transform::{
    fit_mask_to_canvas, fit_rgba_to_canvas, flip_mask_vertical, flip_rgba_horizontal,
    flip_rgba_vertical, resize_mask_nearest, resize_rgba_nearest, rotate_mask_clockwise,
    rotate_rgba_clockwise,
};

fn raster_of(doc: &Document, index: usize) -> (u32, u32, Vec<u8>) {
    match &doc.layers[index].kind {
        LayerKind::Raster(raster) => (raster.width, raster.height, raster.data.clone()),
        _ => panic!("expected raster layer"),
    }
}

#[test]
fn resize_rgba_nearest_preserves_corner_pixels() {
    let data = vec![10, 0, 0, 255, 20, 0, 0, 255, 30, 0, 0, 255, 40, 0, 0, 255];

    let resized = resize_rgba_nearest(&data, 2, 2, 4, 4);

    assert_eq!(resized[0], 10);
    assert_eq!(resized[(3 * 4 + 3) * 4], 40);
}

#[test]
fn rotate_rgba_clockwise_swaps_dimensions_in_pixel_order() {
    let data = vec![
        1, 0, 0, 255, 2, 0, 0, 255, 3, 0, 0, 255, 4, 0, 0, 255, 5, 0, 0, 255, 6, 0, 0, 255,
    ];

    let rotated = rotate_rgba_clockwise(&data, 3, 2);
    let red_values: Vec<u8> = rotated.chunks_exact(4).map(|px| px[0]).collect();

    assert_eq!(red_values, vec![4, 1, 5, 2, 6, 3]);
}

#[test]
fn resize_treats_zero_sizes_as_one_and_fills_missing_pixels() {
    let resized = resize_rgba_nearest(&[], 0, 0, 0, 2);
    assert_eq!(resized, vec![0; 8]);
    let mask = resize_mask_nearest(&[7], 1, 1, 3, 1);
    assert_eq!(mask, vec![7, 7, 7]);
    let short_mask = resize_mask_nearest(&[], 2, 2, 2, 1);
    assert_eq!(short_mask, vec![255, 255]);
}

#[test]
fn resize_downscale_picks_nearest_source() {
    let mask: Vec<u8> = (0..16).collect();
    let half = resize_mask_nearest(&mask, 4, 4, 2, 2);
    assert_eq!(half, vec![0, 2, 8, 10]);
}

#[test]
fn fit_to_canvas_anchors_top_left() {
    let data = vec![1, 1, 1, 1, 2, 2, 2, 2, 3, 3, 3, 3, 4, 4, 4, 4];
    let grown = fit_rgba_to_canvas(&data, 2, 2, 3, 1);
    assert_eq!(grown, vec![1, 1, 1, 1, 2, 2, 2, 2, 0, 0, 0, 0]);
    let mask = fit_mask_to_canvas(&[9, 8, 7, 6], 2, 2, 3, 3);
    assert_eq!(mask, vec![9, 8, 255, 7, 6, 255, 255, 255, 255]);
    let truncated = fit_mask_to_canvas(&[9, 8, 7], 2, 2, 2, 2);
    assert_eq!(truncated, vec![9, 8, 255, 255]);
}

#[test]
fn rotate_mask_fills_missing_pixels_with_white() {
    let rotated = rotate_mask_clockwise(&[1, 2, 3], 2, 2);
    assert_eq!(rotated, vec![3, 1, 255, 2]);
}

#[test]
fn four_quarter_turns_give_the_buffer_back() {
    let data: Vec<u8> = (0..24).collect();
    let once = rotate_rgba_clockwise(&data, 3, 2);
    let twice = rotate_rgba_clockwise(&once, 2, 3);
    let thrice = rotate_rgba_clockwise(&twice, 3, 2);
    let back = rotate_rgba_clockwise(&thrice, 2, 3);
    assert_ne!(once, data);
    assert_eq!(back, data);
}

#[test]
fn flips_mirror_pixels_and_undo_themselves() {
    let data: Vec<u8> = (0..24).collect();
    let h = flip_rgba_horizontal(&data, 3, 2);
    assert_eq!(&h[0..4], &data[8..12]);
    assert_eq!(flip_rgba_horizontal(&h, 3, 2), data);
    let v = flip_rgba_vertical(&data, 3, 2);
    assert_eq!(&v[0..12], &data[12..24]);
    assert_eq!(flip_rgba_vertical(&v, 3, 2), data);
    let mask = flip_mask_vertical(&[1, 2, 3, 4, 5], 2, 2);
    assert_eq!(mask, vec![3, 4, 1, 2, 5]);
}

#[test]
fn invert_keeps_alpha() {
    let mut data = vec![0, 10, 255, 77, 1, 2, 3];
    filter_invert(&mut data);
    assert_eq!(data, vec![255, 245, 0, 77, 254, 253, 252]);
}

#[test]
fn grayscale_weights_channels() {
    let mut data = vec![100, 50, 200, 9];
    filter_grayscale(&mut data);
    // (200 * 30 + 50 * 59 + 100 * 11) / 100 = 100
    assert_eq!(data, vec![100, 100, 100, 9]);
}

#[test]
fn noise_is_deterministic_and_keeps_alpha() {
    let mut data = vec![100, 100, 100, 200, 0, 255, 128, 50];
    filter_noise(&mut data, 2, 1);
    // offset at (0, 0) is 0 % 31 - 15 = -15
    assert_eq!(&data[0..4], &[85, 85, 85, 200]);
    // offset at (1, 0) is 73856093 % 31 - 15
    let offset = (73_856_093u64 % 31) as i32 - 15;
    let expect = |v: i32| (v + offset).clamp(0, 255) as u8;
    assert_eq!(&data[4..8], &[expect(0), expect(255), expect(128), 50]);
    let mut again = vec![100, 100, 100, 200, 0, 255, 128, 50];
    filter_noise(&mut again, 2, 1);
    assert_eq!(again, data);
}

fn sample_with_mask() -> Document {
    let mut doc = Document::new(2, 1);
    let mut layer = Layer::new_raster("Layer", 2, 1, vec![1, 1, 1, 1, 2, 2, 2, 2]);
    let mut mask = Mask::new("Mask", 2, 1);
    mask.data = vec![10, 20];
    layer.mask = Some(mask);
    doc.add_layer(layer);
    doc.add_layer(Layer::new_text("Text"));
    doc
}

#[test]
fn document_rotation_turns_layers_masks_and_canvas() {
    let mut doc = sample_with_mask();
    let revision = doc.revision;
    rotate_document_clockwise(&mut doc);
    assert_eq!((doc.canvas_width, doc.canvas_height), (1, 2));
    assert_eq!(raster_of(&doc, 0), (1, 2, vec![1, 1, 1, 1, 2, 2, 2, 2]));
    let mask = doc.layers[0].mask.as_ref().unwrap();
    assert_eq!((mask.width, mask.height, mask.data.clone()), (1, 2, vec![10, 20]));
    assert_eq!(doc.revision, revision + 1);
    assert!(matches!(doc.layers[1].kind, LayerKind::Text(_)));
}

#[test]
fn document_flips_mirror_layers_and_masks() {
    let mut doc = sample_with_mask();
    flip_document_horizontal(&mut doc);
    assert_eq!(raster_of(&doc, 0).2, vec![2, 2, 2, 2, 1, 1, 1, 1]);
    assert_eq!(doc.layers[0].mask.as_ref().unwrap().data, vec![20, 10]);
    flip_document_vertical(&mut doc);
    assert_eq!(raster_of(&doc, 0).2, vec![2, 2, 2, 2, 1, 1, 1, 1]);
}

#[test]
fn document_resizes_scale_or_pad_every_layer() {
    let mut doc = sample_with_mask();
    resize_document_pixels(&mut doc, 4, 0);
    assert_eq!((doc.canvas_width, doc.canvas_height), (4, 1));
    let (w, h, data) = raster_of(&doc, 0);
    assert_eq!((w, h), (4, 0));
    assert_eq!(data, vec![1, 1, 1, 1, 1, 1, 1, 1, 2, 2, 2, 2, 2, 2, 2, 2]);
    assert_eq!(doc.layers[0].mask.as_ref().unwrap().data, vec![10, 10, 20, 20]);

    let mut padded = sample_with_mask();
    resize_document_canvas(&mut padded, 3, 2);
    assert_eq!((padded.canvas_width, padded.canvas_height), (3, 2));
    let (w, h, data) = raster_of(&padded, 0);
    assert_eq!((w, h), (3, 2));
    assert_eq!(&data[0..8], &[1, 1, 1, 1, 2, 2, 2, 2]);
    assert!(data[8..].iter().all(|&b| b == 0));
    assert_eq!(padded.layers[0].mask.as_ref().unwrap().data, vec![10, 20, 255, 255, 255, 255]);
}

#[test]
fn pipeline_defaults_and_labels() {
    let pipeline = EditPipeline::default();
    assert_eq!(pipeline.rotation, Rotation::Unrotated);
    assert_eq!(pipeline.kernel, ResizeKernel::Lanczos3);
    assert_eq!(pipeline.preset, PresetTarget::Custom(1920, 1080));
    assert!(pipeline.crop.is_none() && pipeline.resize.is_none());
    let params = ExportParams::default();
    assert_eq!((params.format, params.quality, params.strip_metadata), (ExportFormat::Png, 90, true));
    assert_eq!(ExportFormat::WebP.as_str(), "WebP");
    assert_eq!(ExportFormat::extensions(), vec!["png", "jpg", "webp"]);
    assert_eq!(ResizeKernel::all().len(), 4);
    assert_eq!(ResizeKernel::Cubic.as_str(), "Cubic");
    assert_eq!(ResizeMode::default(), ResizeMode::FillCrop);
    assert_eq!(ResizeMode::all(), vec![ResizeMode::Fit, ResizeMode::FillCrop, ResizeMode::Stretch]);
    assert_eq!(ResizeMode::Fit.as_str(), "Fit inside");
    assert_eq!(Rotation::Clockwise270.as_str(), "270 deg");
    assert_eq!(Rotation::all()[1], Rotation::Clockwise90);
    assert_eq!(ResizeTarget::new(8, 9).mode, ResizeMode::FillCrop);
    assert_eq!(PresetTarget::presets()[3], (3840, 2160, "3840 x 2160"));
}

#[test]
fn color_manager_leaves_pixels_alone() {
    let manager = ColorManager::default();
    let mut data = [1u8, 2, 3, 4];
    manager.transform_pixels(&mut data, None);
    assert_eq!(data, [1, 2, 3, 4]);
    let custom = ColorManager::new_with_config(slate::document::ColorConfig::default());
    assert!(custom.config.embedded_profile.is_none());
}

#[test]
fn document_edits_undo_themselves_when_repeated() {
    let mut doc = sample_with_mask();
    let original: Vec<u8> = raster_of(&doc, 0).2;
    let revision = doc.revision;
    flip_document_horizontal(&mut doc);
    flip_document_horizontal(&mut doc);
    assert_eq!(raster_of(&doc, 0).2, original);
    for _ in 0..4 {
        rotate_document_clockwise(&mut doc);
    }
    assert_eq!(raster_of(&doc, 0), (2, 1, original));
    assert_eq!(doc.layers[0].mask.as_ref().unwrap().data, vec![10, 20]);
    assert_eq!((doc.canvas_width, doc.canvas_height), (2, 1));
    assert_eq!(doc.revision, revision + 6);
}

#[test]
fn rgba_from_raw_copies_whole_pixels_and_zeroes_the_rest() {
    let raw = vec![1, 2, 3, 4, 5, 6, 7, 8, 9, 10];
    let rgba = rgba_from_raw(&raw, 2, 2);
    assert_eq!(rgba, vec![1, 2, 3, 4, 5, 6, 7, 8, 0, 0, 0, 0, 0, 0, 0, 0]);
    assert!(rgba_from_raw(&[], 0, 3).is_empty());
}

#[test]
fn opening_a_decoded_image_replaces_the_document() {
    let mut doc = Document::new(10, 10);
    doc.add_layer(Layer::new_raster("Old", 10, 10, vec![0; 400]));
    doc.add_layer(Layer::new_raster("Older", 10, 10, vec![0; 400]));
    let revision = doc.revision;
    let raw = vec![7u8; 2 * 3 * 4];
    open_decoded_image(&mut doc, "/tmp/photos/beach.png", 2, 3, &raw);
    assert_eq!(doc.layers.len(), 1);
    assert_eq!(doc.layers[0].name, "beach");
    assert_eq!(doc.active_layer_id, Some(doc.layers[0].id));
    assert_eq!((doc.canvas_width, doc.canvas_height), (2, 3));
    assert_eq!(raster_of(&doc, 0), (2, 3, vec![7u8; 24]));
    assert_eq!(doc.file_path.as_deref(), Some("/tmp/photos/beach.png"));
    assert_eq!(doc.revision, revision + 1);
    assert!(!doc.has_unsaved_changes);
    assert!(!doc.undo_stack.can_undo());
    assert!(!doc.undo_stack.can_redo());
}

#[test]
fn rotated_pixel_lands_at_its_turned_position() {
    let (w, h) = (3u32, 2u32);
    let data: Vec<u8> = (0..(w * h * 4) as u8).collect();
    let rotated = rotate_rgba_clockwise(&data, w, h);
    for y in 0..h {
        for x in 0..w {
            let src = ((y * w + x) * 4) as usize;
            let dst = ((x * h + (h - 1 - y)) * 4) as usize;
            assert_eq!(rotated[dst..dst + 4], data[src..src + 4]);
        }
    }
}

#[test]
fn opened_layer_takes_the_file_stem() {
    let mut doc = Document::new(1, 1);
    open_decoded_image(&mut doc, "/pictures/archive.tar.png", 1, 1, &[1, 2, 3, 4]);
    assert_eq!(doc.layers[0].name, "archive.tar");
    open_decoded_image(&mut doc, "/pictures/.hidden", 1, 1, &[1, 2, 3, 4]);
    assert_eq!(doc.layers[0].name, ".hidden");
    open_decoded_image(&mut doc, "/", 1, 1, &[1, 2, 3, 4]);
    assert_eq!(doc.layers[0].name, "Layer");
}
