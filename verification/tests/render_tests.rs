use slate::document::{Document, Layer, Mask};
use slate::tile::snapshot::{build_render_frame, flatten_single_normal_layer, PixelRect};

#[test]
fn render_frame_skips_hidden_and_non_raster_layers() {
    let mut doc = Document::new(2, 2);
    let mut hidden = Layer::new_raster("Hidden", 2, 2, vec![255; 16]);
    hidden.visible = false;
    doc.add_layer(hidden);
    doc.add_layer(Layer::new_text("Text"));

    let frame = build_render_frame(&doc);

    assert!(frame.layers.is_empty());
}

#[test]
fn render_frame_outputs_bgra_with_enabled_mask_alpha() {
    let mut doc = Document::new(1, 1);
    let mut layer = Layer::new_raster("Layer", 1, 1, vec![10, 20, 30, 200]);
    let mut mask = Mask::new("Mask", 1, 1);
    mask.data[0] = 128;
    layer.mask = Some(mask);
    doc.add_layer(layer);

    let frame = build_render_frame(&doc);
    let layer = &frame.layers[0];

    assert_eq!(layer.pixels_bgra[0], 30);
    assert_eq!(layer.pixels_bgra[1], 20);
    assert_eq!(layer.pixels_bgra[2], 10);
    assert_eq!(layer.pixels_bgra[3], 100);
}

#[test]
fn flatten_frame_copies_single_normal_layer_without_blending() {
    let mut doc = Document::new(2, 1);
    doc.add_layer(Layer::new_raster("Layer", 2, 1, vec![10, 20, 30, 255, 40, 50, 60, 255]));

    let flattened = flatten_single_normal_layer(&build_render_frame(&doc)).unwrap();

    assert_eq!(flattened.pixels_bgra, vec![30, 20, 10, 255, 60, 50, 40, 255]);
}

#[test]
fn disabled_mask_leaves_alpha_alone() {
    let mut doc = Document::new(1, 1);
    let mut layer = Layer::new_raster("Layer", 1, 1, vec![10, 20, 30, 200]);
    let mut mask = Mask::new("Mask", 1, 1);
    mask.data[0] = 0;
    mask.enabled = false;
    layer.mask = Some(mask);
    doc.add_layer(layer);
    let frame = build_render_frame(&doc);
    assert_eq!(frame.layers[0].pixels_bgra, vec![30, 20, 10, 200]);
}

#[test]
fn two_layers_are_not_copied_as_one() {
    let mut doc = Document::new(1, 1);
    doc.add_layer(Layer::new_raster("A", 1, 1, vec![1, 2, 3, 255]));
    doc.add_layer(Layer::new_raster("B", 1, 1, vec![4, 5, 6, 255]));
    assert!(flatten_single_normal_layer(&build_render_frame(&doc)).is_none());
}

#[test]
fn union_covers_both_rectangles() {
    let a = PixelRect::new(2, 3, 4, 5);
    let b = PixelRect::new(0, 6, 1, 10);
    assert_eq!(a.union(b), PixelRect::new(0, 3, 6, 13));
    assert_eq!(a.union(b), b.union(a));
    let far = PixelRect::new(u32::MAX - 1, 0, 10, 1);
    assert_eq!(far.union(a).width, u32::MAX - 2);
}
