use slate::document::command::HISTORY_DEPTH;
use slate::document::{Document, Layer, LayerKind, Mask};
use slate::editor::{
    apply_active_raster_filter, apply_active_raster_pixels, bgra_to_rgba,
    commit_prepaint_layer_state, layer_paint_state_changed, merge_down_pair,
    merged_down_document, toggle_mask_edit, toggle_mask_enabled, toggle_mask_view, PixelFilter,
};
use slate::layer_panel::{brush_target, layer_panel_fingerprint, BrushTarget};
use slate::tile::snapshot::FlattenedFrame;

fn pixels(doc: &Document, index: usize) -> Vec<u8> {
    match &doc.layers[index].kind {
        LayerKind::Raster(raster) => raster.data.clone(),
        _ => panic!("expected raster layer"),
    }
}

#[test]
fn filter_runs_on_the_active_raster_layer_only() {
    let mut doc = Document::new(1, 1);
    doc.add_layer(Layer::new_raster("Pixels", 1, 1, vec![0, 10, 20, 30]));
    let revision = doc.revision;
    doc.mark_saved();
    assert!(apply_active_raster_filter(&mut doc, PixelFilter::Invert));
    assert_eq!(pixels(&doc, 0), vec![255, 245, 235, 30]);
    assert_eq!(doc.revision, revision + 1);
    assert!(doc.has_unsaved_changes);

    doc.add_layer(Layer::new_text("Words"));
    assert!(!apply_active_raster_filter(&mut doc, PixelFilter::Grayscale));
    doc.active_layer_id = None;
    assert!(!apply_active_raster_filter(&mut doc, PixelFilter::Noise));
}

#[test]
fn outside_filter_result_replaces_active_pixels() {
    let mut doc = Document::new(1, 1);
    doc.add_layer(Layer::new_raster("Pixels", 1, 1, vec![0, 10, 20, 30]));
    let revision = doc.revision;
    assert!(apply_active_raster_pixels(&mut doc, Some(vec![9, 9, 9, 9])));
    assert_eq!(pixels(&doc, 0), vec![9, 9, 9, 9]);
    assert!(apply_active_raster_pixels(&mut doc, None));
    assert_eq!(pixels(&doc, 0), vec![9, 9, 9, 9]);
    assert_eq!(doc.revision, revision + 2);
}

#[test]
fn mask_toggles_flip_one_flag_each() {
    let mut mask = Mask::new("Mask", 1, 1);
    toggle_mask_edit(&mut mask);
    assert!(mask.editing && mask.enabled && !mask.show_on_canvas);
    toggle_mask_enabled(&mut mask);
    assert!(!mask.enabled);
    toggle_mask_view(&mut mask);
    assert!(mask.show_on_canvas);
}

#[test]
fn committed_paint_change_is_undoable() {
    let mut doc = Document::new(1, 1);
    let layer = Layer::new_raster("Layer", 1, 1, vec![255; 4]);
    let layer_id = layer.id;
    doc.add_layer(layer);
    let before = doc.layer(layer_id).unwrap().clone();
    assert!(!layer_paint_state_changed(&before, doc.layer(layer_id).unwrap()));

    if let LayerKind::Raster(raster) = &mut doc.layers[0].kind {
        raster.data[0] = 0;
    }
    assert!(layer_paint_state_changed(&before, doc.layer(layer_id).unwrap()));
    commit_prepaint_layer_state(&mut doc, before);

    assert!(doc.undo_stack.can_undo());
    assert_eq!(pixels(&doc, 0)[0], 0);

    let mut undo_stack = std::mem::replace(&mut doc.undo_stack, slate::document::UndoStack::new());
    undo_stack.undo(&mut doc);
    doc.undo_stack = undo_stack;
    assert_eq!(pixels(&doc, 0)[0], 255);
    assert!(HISTORY_DEPTH > 0);
}

#[test]
fn unchanged_layer_commits_nothing() {
    let mut doc = Document::new(1, 1);
    let layer = Layer::new_raster("Layer", 1, 1, vec![255; 4]);
    let id = layer.id;
    doc.add_layer(layer);
    let before = doc.layer(id).unwrap().clone();
    let revision = doc.revision;
    commit_prepaint_layer_state(&mut doc, before);
    assert!(!doc.undo_stack.can_undo());
    assert_eq!(doc.revision, revision);
}

#[test]
fn merge_down_replaces_the_pair_with_one_layer() {
    let mut doc = Document::new(1, 1);
    let bottom = Layer::new_raster("Bottom", 1, 1, vec![255, 0, 0, 255]);
    let top = Layer::new_raster("Top", 1, 1, vec![0, 0, 255, 255]);
    let top_id = top.id;
    doc.add_layer(bottom);
    doc.add_layer(top);
    doc.active_layer_id = Some(top_id);

    let pair = merge_down_pair(&doc).unwrap();
    assert_eq!(pair.layers.len(), 2);
    assert_eq!(pair.layers[0].name, "Bottom");

    let flattened = FlattenedFrame { width: 1, height: 1, pixels_bgra: vec![128, 0, 127, 255] };
    let merged = merged_down_document(&doc, &flattened).unwrap();
    assert_eq!(merged.layers.len(), 1);
    assert_eq!(merged.layers[0].name, "Bottom + Top");
    assert_eq!(pixels(&merged, 0), vec![127, 0, 128, 255]);
    assert_eq!(merged.active_layer_id, Some(merged.layers[0].id));
    assert!(merged.has_unsaved_changes);
    assert_eq!(merged.revision, doc.revision + 1);

    doc.active_layer_id = Some(doc.layers[0].id);
    assert!(merge_down_pair(&doc).is_none());
    assert!(merged_down_document(&doc, &flattened).is_none());
}

#[test]
fn bgra_reorders_whole_pixels() {
    assert_eq!(bgra_to_rgba(&[1, 2, 3, 4, 5, 6, 7, 8, 9]), vec![3, 2, 1, 4, 7, 6, 5, 8]);
}

#[test]
fn brush_goes_to_mask_being_edited() {
    let mut doc = Document::new(2, 2);
    assert_eq!(brush_target(&doc), BrushTarget::NoLayer);
    let mut layer = Layer::new_raster("Layer", 2, 2, vec![255; 16]);
    let mut mask = Mask::new("Mask", 2, 2);
    mask.editing = true;
    layer.mask = Some(mask);
    doc.add_layer(layer);
    assert_eq!(brush_target(&doc), BrushTarget::Mask);
    doc.layers[0].mask.as_mut().unwrap().editing = false;
    assert_eq!(brush_target(&doc), BrushTarget::Pixels);
    doc.layers[0].locked = true;
    assert_eq!(brush_target(&doc), BrushTarget::Locked);
    doc.add_layer(Layer::new_text("Text"));
    assert_eq!(brush_target(&doc), BrushTarget::Unpaintable);
}

#[test]
fn fingerprint_changes_with_panel_state() {
    let mut doc = Document::new(1, 1);
    doc.add_layer(Layer::new_raster("Layer", 1, 1, vec![0; 4]));
    let before = layer_panel_fingerprint(&doc);
    assert_eq!(before.layers[0].kind, "raster");
    assert_eq!(before, layer_panel_fingerprint(&doc));
    doc.layers[0].visible = false;
    assert_ne!(before, layer_panel_fingerprint(&doc));
}
