use slate::document::{Command, Document, Layer, LayerKind, Mask, UndoStack};
use slate::document::edit::{edit_fits_document, LayerEdit};
use slate::editor::{active_filter_fits, execute_document_command, PixelFilter};
use slate::tile::snapshot::FlattenedFrame;
use slate::window_actions::{
    active_layer_index, add_mask_command, apply_mask_command, copy_active_layer,
    delete_layer_command, duplicate_layer_command, filter_command, merge_down_command,
    new_layer_command, paste_layer_command, redo_document, remove_mask_command, rotate_command,
    toggle_active_mask, undo_document, MaskToggle,
};

fn two_layer_document() -> Document {
    let mut doc = Document::new(2, 1);
    doc.add_layer(Layer::new_raster("Bottom", 2, 1, vec![1, 1, 1, 1, 2, 2, 2, 2]));
    doc.add_layer(Layer::new_raster("Top", 2, 1, vec![3, 3, 3, 3, 4, 4, 4, 4]));
    doc
}

#[test]
fn new_layer_is_transparent_canvas_sized_and_on_top() {
    let mut doc = two_layer_document();
    let cmd = new_layer_command(&doc);
    execute_document_command(&mut doc, Command::AddLayer(cmd));
    assert_eq!(doc.layers.len(), 3);
    assert_eq!(doc.layers[2].name, "New Layer");
    match &doc.layers[2].kind {
        LayerKind::Raster(r) => assert_eq!((r.width, r.height, r.data.clone()), (2, 1, vec![0; 8])),
        _ => panic!("expected raster layer"),
    }
    assert_eq!(doc.active_layer_id, Some(doc.layers[2].id));
    assert!(doc.undo_stack.can_undo());
}

#[test]
fn delete_copy_paste_and_duplicate_follow_the_active_layer() {
    let mut doc = two_layer_document();
    assert_eq!(active_layer_index(&doc), Some(1));
    let copied = copy_active_layer(&doc).unwrap();
    assert_eq!(copied.name, "Top");

    let duplicate = duplicate_layer_command(&doc).unwrap();
    execute_document_command(&mut doc, Command::AddLayer(duplicate));
    assert_eq!(doc.layers[2].name, "Top copy");
    assert_ne!(doc.layers[2].id, doc.layers[1].id);

    let paste = paste_layer_command(&doc, &copied);
    execute_document_command(&mut doc, Command::AddLayer(paste));
    assert_eq!(doc.layers[3].name, "Top paste");
    assert_eq!(doc.layers.len(), 4);

    let delete = delete_layer_command(&doc).unwrap();
    execute_document_command(&mut doc, Command::RemoveLayer(delete));
    assert_eq!(doc.layers.len(), 3);

    doc.active_layer_id = None;
    assert!(delete_layer_command(&doc).is_none());
    assert!(copy_active_layer(&doc).is_none());
    assert!(duplicate_layer_command(&doc).is_none());
}

#[test]
fn mask_actions_need_the_right_mask_state() {
    let mut doc = two_layer_document();
    assert!(remove_mask_command(&doc).is_none());
    assert!(apply_mask_command(&doc).is_none());
    let add = add_mask_command(&doc).unwrap();
    execute_document_command(&mut doc, Command::AddLayerMask(add));
    let mask = doc.layers[1].mask.as_ref().unwrap();
    assert_eq!((mask.name.as_str(), mask.width, mask.height), ("Layer Mask", 2, 1));
    assert!(add_mask_command(&doc).is_none());
    assert!(remove_mask_command(&doc).is_some());
    let apply = apply_mask_command(&doc).unwrap();
    execute_document_command(&mut doc, Command::ApplyLayerMask(apply));
    assert!(doc.layers[1].mask.is_none());
}

#[test]
fn mask_toggle_counts_two_revisions() {
    let mut doc = two_layer_document();
    let revision = doc.revision;
    assert!(!toggle_active_mask(&mut doc, MaskToggle::Edit));
    assert_eq!(doc.revision, revision + 1);
    doc.layers[1].mask = Some(Mask::new("Mask", 2, 1));
    doc.mark_saved();
    assert!(toggle_active_mask(&mut doc, MaskToggle::View));
    assert_eq!(doc.revision, revision + 3);
    assert!(doc.layers[1].mask.as_ref().unwrap().show_on_canvas);
    assert!(doc.has_unsaved_changes);
}

#[test]
fn undo_and_redo_run_through_the_document_history() {
    let mut doc = two_layer_document();
    let cmd = new_layer_command(&doc);
    execute_document_command(&mut doc, Command::AddLayer(cmd));
    undo_document(&mut doc);
    assert_eq!(doc.layers.len(), 2);
    redo_document(&mut doc);
    assert_eq!(doc.layers.len(), 3);
    let mut empty = Document::new(1, 1);
    undo_document(&mut empty);
    redo_document(&mut empty);
    assert!(empty.layers.is_empty());
}

#[test]
fn rotate_and_filter_are_single_undoable_steps() {
    let mut doc = two_layer_document();
    let rotate = rotate_command(&doc);
    execute_document_command(&mut doc, Command::ReplaceDocument(rotate));
    assert_eq!((doc.canvas_width, doc.canvas_height), (1, 2));
    let filter = filter_command(&doc, PixelFilter::Invert).unwrap();
    execute_document_command(&mut doc, Command::ReplaceDocument(filter));
    match &doc.layers[1].kind {
        LayerKind::Raster(r) => assert_eq!(r.data, vec![252, 252, 252, 3, 251, 251, 251, 4]),
        _ => panic!("expected raster layer"),
    }
    let mut stack = std::mem::replace(&mut doc.undo_stack, UndoStack::new());
    assert_eq!(stack.undo_name(), Some("Apply Filter"));
    stack.undo(&mut doc);
    assert_eq!(stack.undo_name(), Some("Rotate Image"));
    stack.undo(&mut doc);
    assert_eq!((doc.canvas_width, doc.canvas_height), (2, 1));
}

#[test]
fn merge_down_command_names_its_step() {
    let doc = two_layer_document();
    let flattened = FlattenedFrame { width: 2, height: 1, pixels_bgra: vec![0; 8] };
    assert!(merge_down_command(&doc, &flattened).is_some());
    let mut single = Document::new(1, 1);
    single.add_layer(Layer::new_raster("Only", 1, 1, vec![0; 4]));
    assert!(merge_down_command(&single, &flattened).is_none());
}

#[test]
fn guards_report_when_operations_fit() {
    let mut doc = two_layer_document();
    assert!(edit_fits_document(&doc, LayerEdit::RotateClockwise));
    assert!(edit_fits_document(&doc, LayerEdit::FlipHorizontal));
    assert!(!edit_fits_document(&doc, LayerEdit::ResizePixels { width: 70_000, height: 70_000 }));
    assert!(active_filter_fits(&doc, PixelFilter::Noise));
    if let LayerKind::Raster(raster) = &mut doc.layers[1].kind {
        raster.data.truncate(5);
    }
    assert!(!edit_fits_document(&doc, LayerEdit::FlipVertical));
    assert!(!active_filter_fits(&doc, PixelFilter::Noise));
    assert!(!active_filter_fits(&doc, PixelFilter::Grayscale));
    assert!(active_filter_fits(&doc, PixelFilter::Invert));

    let cmd = Command::AddLayer(new_layer_command(&doc));
    assert!(cmd.fits_apply(&doc));
    doc.revision = u64::MAX - 1;
    assert!(!cmd.fits_apply(&doc));
    doc.revision = 0;
    assert!(doc.undo_stack.undo_fits_now(&doc));
    assert!(doc.undo_stack.redo_fits_now(&doc));
    execute_document_command(&mut doc, cmd);
    assert!(doc.undo_stack.undo_fits_now(&doc));
    doc.revision = u64::MAX;
    assert!(!doc.undo_stack.undo_fits_now(&doc));
}
