use slate::document::command::HISTORY_DEPTH;
use slate::document::project::{
    check_project_size, checked_pixel_len, decode_project, encode_project, is_project_path,
    temporary_path_for, validate_document, ProjectError, MAX_PROJECT_BYTES, PROJECT_VERSION,
};
use slate::document::{
    AddLayerCommand, AddLayerMaskCommand, ApplyLayerMaskCommand, Command, Document, Layer,
    LayerKind, Mask, ModifyLayerCommand, RemoveLayerCommand, RemoveLayerMaskCommand,
    ReplaceDocumentCommand,
    UndoStack,
};

fn raster_data(doc: &Document, index: usize) -> Vec<u8> {
    match &doc.layers[index].kind {
        LayerKind::Raster(raster) => raster.data.clone(),
        _ => panic!("expected raster layer"),
    }
}

#[test]
fn mask_commands_round_trip_through_undo_redo() {
    let mut doc = Document::new(4, 4);
    let layer = Layer::new_raster("Layer", 4, 4, vec![255; 4 * 4 * 4]);
    let layer_id = layer.id;
    doc.add_layer(layer);

    let mut stack = UndoStack::new();
    stack.execute(
        Command::AddLayerMask(AddLayerMaskCommand::new(layer_id, Mask::new("Layer Mask", 4, 4))),
        &mut doc,
    );
    assert!(doc.layer(layer_id).and_then(|layer| layer.mask.as_ref()).is_some());

    stack.undo(&mut doc);
    assert!(doc.layer(layer_id).and_then(|layer| layer.mask.as_ref()).is_none());

    stack.redo(&mut doc);
    assert!(doc.layer(layer_id).and_then(|layer| layer.mask.as_ref()).is_some());

    stack.execute(Command::RemoveLayerMask(RemoveLayerMaskCommand::new(layer_id)), &mut doc);
    assert!(doc.layer(layer_id).and_then(|layer| layer.mask.as_ref()).is_none());

    stack.undo(&mut doc);
    assert!(doc.layer(layer_id).and_then(|layer| layer.mask.as_ref()).is_some());
}

#[test]
fn apply_mask_multiplies_alpha_and_can_undo() {
    let mut doc = Document::new(1, 1);
    let mut layer = Layer::new_raster("Layer", 1, 1, vec![10, 20, 30, 200]);
    let layer_id = layer.id;
    let mut mask = Mask::new("Layer Mask", 1, 1);
    mask.data[0] = 128;
    layer.mask = Some(mask);
    doc.add_layer(layer);

    let mut stack = UndoStack::new();
    stack.execute(Command::ApplyLayerMask(ApplyLayerMaskCommand::new(layer_id)), &mut doc);

    let layer = doc.layer(layer_id).unwrap();
    assert!(layer.mask.is_none());
    let LayerKind::Raster(raster) = &layer.kind else {
        panic!("expected raster layer");
    };
    assert_eq!(raster.data[3], 100);

    stack.undo(&mut doc);
    let layer = doc.layer(layer_id).unwrap();
    assert!(layer.mask.is_some());
    let LayerKind::Raster(raster) = &layer.kind else {
        panic!("expected raster layer");
    };
    assert_eq!(raster.data[3], 200);
}

#[test]
fn replace_document_command_round_trips_canvas_state() {
    let mut doc = Document::new(2, 2);
    let mut next = doc.clone();
    next.canvas_width = 4;
    next.canvas_height = 3;

    let mut stack = UndoStack::new();
    stack.execute(
        Command::ReplaceDocument(ReplaceDocumentCommand::new("Resize Canvas", next)),
        &mut doc,
    );

    assert_eq!((doc.canvas_width, doc.canvas_height), (4, 3));
    stack.undo(&mut doc);
    assert_eq!((doc.canvas_width, doc.canvas_height), (2, 2));
    stack.redo(&mut doc);
    assert_eq!((doc.canvas_width, doc.canvas_height), (4, 3));
}

fn sample_document() -> Document {
    let mut document = Document::new(2, 2);
    document.add_layer(Layer::new_raster("Pixels", 2, 2, vec![255; 2 * 2 * 4]));
    document
}

#[test]
fn project_round_trip_preserves_layers_and_resets_runtime_state() {
    let document = sample_document();
    let encoded = encode_project(&document).expect("encode project");
    let decoded = decode_project(encoded).expect("decode project");

    assert_eq!(decoded.canvas_width, 2);
    assert_eq!(decoded.canvas_height, 2);
    assert_eq!(decoded.layers.len(), 1);
    assert_eq!(decoded.layers[0].name, "Pixels");
    assert!(!decoded.has_unsaved_changes);
    assert!(!decoded.undo_stack.can_undo());
}

#[test]
fn malformed_raster_payload_is_rejected() {
    let mut document = sample_document();
    let LayerKind::Raster(raster) = &mut document.layers[0].kind else {
        panic!("expected raster layer");
    };
    raster.data.pop();

    let error = encode_project(&document).expect_err("invalid payload should fail");
    assert!(error.message().contains("bytes"));
}

#[test]
fn future_project_versions_are_rejected() {
    let document = sample_document();
    let mut envelope = encode_project(&document).unwrap();
    envelope.version = PROJECT_VERSION + 1;

    let error = decode_project(envelope).expect_err("future version should fail");
    assert!(matches!(error, ProjectError::UnsupportedVersion(_)));
}

#[test]
fn project_path_detection_is_case_insensitive() {
    assert!(is_project_path("poster.slate"));
    assert!(is_project_path("poster.SLATE"));
    assert!(!is_project_path("poster.png"));
}

#[test]
fn unsupported_version_message_names_the_version() {
    let error = ProjectError::UnsupportedVersion(7);
    assert_eq!(error.message(), "Project version 7 is newer than this Slate build");
}

#[test]
fn undo_restores_added_layer_state_and_redo_reapplies() {
    let mut doc = Document::new(2, 2);
    let first = Layer::new_raster("First", 2, 2, vec![1; 16]);
    let first_id = first.id;
    doc.add_layer(first);
    let second = Layer::new_raster("Second", 2, 2, vec![2; 16]);
    let second_id = second.id;

    let mut stack = UndoStack::new();
    stack.execute(Command::AddLayer(AddLayerCommand::new(second, 1)), &mut doc);
    assert_eq!(doc.layers.len(), 2);
    assert_eq!(doc.active_layer_id, Some(second_id));
    assert_eq!(stack.undo_name(), Some("Add Layer"));

    stack.undo(&mut doc);
    assert_eq!(doc.layers.len(), 1);
    assert_eq!(doc.layers[0].id, first_id);
    assert_eq!(stack.redo_name(), Some("Add Layer"));

    stack.redo(&mut doc);
    assert_eq!(doc.layers.len(), 2);
    assert_eq!(doc.layers[1].id, second_id);
    assert_eq!(raster_data(&doc, 1), vec![2; 16]);
}

#[test]
fn removing_a_layer_can_be_undone() {
    let mut doc = sample_document();
    let id = doc.layers[0].id;
    let mut stack = UndoStack::new();
    stack.execute(Command::RemoveLayer(RemoveLayerCommand::new(0)), &mut doc);
    assert!(doc.layers.is_empty());
    assert_eq!(doc.active_layer_id, None);
    stack.undo(&mut doc);
    assert_eq!(doc.layers.len(), 1);
    assert_eq!(doc.layers[0].id, id);
}

#[test]
fn history_keeps_only_the_most_recent_commands() {
    let mut doc = sample_document();
    let id = doc.layers[0].id;
    let mut stack = UndoStack::new();
    for _ in 0..(HISTORY_DEPTH + 5) {
        stack.execute(
            Command::AddLayerMask(AddLayerMaskCommand::new(id, Mask::new("Mask", 2, 2))),
            &mut doc,
        );
    }
    assert_eq!(stack.history_names().len(), HISTORY_DEPTH);
    let mut undone = 0;
    while stack.can_undo() {
        stack.undo(&mut doc);
        undone += 1;
    }
    assert_eq!(undone, HISTORY_DEPTH);
    assert!(stack.can_redo());
}

#[test]
fn new_command_after_undo_clears_redo() {
    let mut doc = sample_document();
    let id = doc.layers[0].id;
    let mut stack = UndoStack::new();
    stack.execute(Command::AddLayerMask(AddLayerMaskCommand::new(id, Mask::new("Mask", 2, 2))), &mut doc);
    stack.undo(&mut doc);
    assert!(stack.can_redo());
    stack.execute(Command::RemoveLayerMask(RemoveLayerMaskCommand::new(id)), &mut doc);
    assert!(!stack.can_redo());
}

#[test]
fn moving_and_removing_layers_keeps_order_and_active_layer() {
    let mut doc = Document::new(1, 1);
    let a = Layer::new_raster("A", 1, 1, vec![0; 4]);
    let b = Layer::new_raster("B", 1, 1, vec![0; 4]);
    let c = Layer::new_raster("C", 1, 1, vec![0; 4]);
    let (a_id, b_id, c_id) = (a.id, b.id, c.id);
    doc.add_layer(a);
    doc.add_layer(b);
    doc.add_layer(c);
    doc.move_layer(2, 0);
    let order: Vec<_> = doc.layers.iter().map(|l| l.id).collect();
    assert_eq!(order, vec![c_id, a_id, b_id]);
    assert_eq!(doc.active_layer_id, Some(c_id));
    let removed = doc.remove_layer(c_id).unwrap();
    assert_eq!(removed.id, c_id);
    assert_eq!(doc.active_layer_id, Some(b_id));
    assert!(doc.remove_layer(c_id).is_none());
}

#[test]
fn cloned_document_has_no_history() {
    let mut doc = sample_document();
    let id = doc.layers[0].id;
    let mut stack = UndoStack::new();
    stack.execute(Command::AddLayerMask(AddLayerMaskCommand::new(id, Mask::new("Mask", 2, 2))), &mut doc);
    doc.undo_stack = stack;
    let copy = doc.clone();
    assert!(doc.undo_stack.can_undo());
    assert!(!copy.undo_stack.can_undo());
    assert_eq!(copy.layers.len(), 1);
}

#[test]
fn layer_ids_are_random_version_four_uuids() {
    let a = Layer::new_raster("A", 1, 1, vec![0; 4]);
    let b = Layer::new_raster("B", 1, 1, vec![0; 4]);
    assert_ne!(a.id, b.id);
    let value = a.id.as_u128();
    assert_eq!((value >> 76) & 0xF, 4);
    assert_eq!((value >> 62) & 0x3, 2);
}

fn invalid_message(error: ProjectError) -> String {
    match error {
        ProjectError::Invalid(message) => message,
        other => panic!("expected an invalid-project error, got {other:?}"),
    }
}

#[test]
fn validation_names_each_problem() {
    assert_eq!(checked_pixel_len(2, 3, 4).unwrap(), 24);
    assert_eq!(invalid_message(checked_pixel_len(0, 3, 4).unwrap_err()), "Invalid pixel dimensions 0x3");
    assert_eq!(invalid_message(checked_pixel_len(40000, 1, 1).unwrap_err()), "Invalid pixel dimensions 40000x1");

    let mut doc = sample_document();
    assert!(validate_document(&doc).is_ok());
    let copy = doc.layers[0].clone();
    doc.layers.push(copy);
    assert_eq!(invalid_message(validate_document(&doc).unwrap_err()), "Project contains duplicate layer identifiers");

    let mut doc = sample_document();
    doc.layers[0].opacity_bits = 1.5f32.to_bits();
    assert_eq!(invalid_message(validate_document(&doc).unwrap_err()), "Layer 'Pixels' has an invalid opacity");

    let mut doc = sample_document();
    let mut edge = Mask::new("Edge", 2, 1);
    edge.data.pop();
    doc.layers[0].mask = Some(edge);
    assert_eq!(invalid_message(validate_document(&doc).unwrap_err()), "Mask 'Edge' has 1 bytes but 2 were expected");

    let mut doc = sample_document();
    doc.active_layer_id = Some(Layer::new_text("Elsewhere").id);
    assert_eq!(
        invalid_message(validate_document(&doc).unwrap_err()),
        "The active layer identifier does not exist in the layer stack"
    );

    let mut doc = sample_document();
    doc.selection = Some(Mask::new("Selection", 1, 1));
    doc.selection.as_mut().unwrap().data.clear();
    assert_eq!(invalid_message(validate_document(&doc).unwrap_err()), "The document selection has invalid pixel data");
}

#[test]
fn envelope_checks_format_and_version() {
    let mut envelope = encode_project(&sample_document()).unwrap();
    envelope.format = "something.else".to_string();
    assert_eq!(invalid_message(decode_project(envelope).unwrap_err()), "The selected file is not a Slate project");
    let mut envelope = encode_project(&sample_document()).unwrap();
    envelope.version = 0;
    assert_eq!(invalid_message(decode_project(envelope).unwrap_err()), "Project version 0 is not supported");
}

#[test]
fn project_size_limit_and_temporary_path() {
    assert!(check_project_size(MAX_PROJECT_BYTES).is_ok());
    assert_eq!(
        invalid_message(check_project_size(MAX_PROJECT_BYTES + 1).unwrap_err()),
        "Project is larger than the 2 GiB safety limit"
    );
    assert_eq!(temporary_path_for("/work/poster.slate"), "/work/.poster.slate.tmp");
    assert_eq!(temporary_path_for("/"), "/.project.slate.tmp");
}

#[test]
fn undo_removes_a_layer_added_past_the_top() {
    let mut doc = Document::new(2, 2);
    let first = Layer::new_raster("First", 2, 2, vec![1; 16]);
    let first_id = first.id;
    doc.add_layer(first);
    let extra = Layer::new_raster("Extra", 2, 2, vec![2; 16]);
    let extra_id = extra.id;

    let mut stack = UndoStack::new();
    stack.execute(Command::AddLayer(AddLayerCommand::new(extra, 10)), &mut doc);
    assert_eq!(doc.layers.len(), 2);
    assert_eq!(doc.layers[1].id, extra_id);

    stack.undo(&mut doc);
    assert_eq!(doc.layers.len(), 1);
    assert_eq!(doc.layers[0].id, first_id);
    assert_eq!(doc.active_layer_id, Some(first_id));
    assert!(doc.has_unsaved_changes);

    stack.redo(&mut doc);
    assert_eq!(doc.layers.len(), 2);
    assert_eq!(doc.layers[1].id, extra_id);
}

#[test]
fn undo_restores_a_layer_modified_into_another_identifier() {
    let mut doc = Document::new(2, 2);
    let first = Layer::new_raster("First", 2, 2, vec![1; 16]);
    let first_id = first.id;
    doc.add_layer(first);
    let replacement = Layer::new_raster("Replacement", 2, 2, vec![9; 16]);
    let replacement_id = replacement.id;
    assert_ne!(replacement_id, first_id);

    let mut stack = UndoStack::new();
    stack.execute(Command::ModifyLayer(ModifyLayerCommand::new(first_id, replacement)), &mut doc);
    assert_eq!(doc.layers[0].id, replacement_id);
    assert_eq!(raster_data(&doc, 0), vec![9; 16]);

    stack.undo(&mut doc);
    assert_eq!(doc.layers.len(), 1);
    assert_eq!(doc.layers[0].id, first_id);
    assert_eq!(raster_data(&doc, 0), vec![1; 16]);
    assert!(doc.has_unsaved_changes);

    stack.redo(&mut doc);
    assert_eq!(doc.layers[0].id, replacement_id);
}

#[test]
fn history_never_holds_more_than_its_depth() {
    let mut doc = sample_document();
    let id = doc.layers[0].id;
    let mut stack = UndoStack::new();
    for _ in 0..(HISTORY_DEPTH + 3) {
        stack.execute(
            Command::AddLayerMask(AddLayerMaskCommand::new(id, Mask::new("Mask", 2, 2))),
            &mut doc,
        );
    }
    for _ in 0..10 {
        stack.undo(&mut doc);
    }
    assert_eq!(stack.history_names().len(), HISTORY_DEPTH - 10);
    assert!(stack.can_redo());
    stack.execute(Command::RemoveLayerMask(RemoveLayerMaskCommand::new(id)), &mut doc);
    assert_eq!(stack.history_names().len(), HISTORY_DEPTH - 9);
    assert!(!stack.can_redo());
    assert_eq!(stack.undo_name(), Some("Remove Layer Mask"));
}

#[test]
fn undoing_a_replaced_document_gives_back_its_content() {
    let mut doc = sample_document();
    doc.has_unsaved_changes = false;
    let revision = doc.revision;
    let ids: Vec<_> = doc.layers.iter().map(|layer| layer.id).collect();
    let active = doc.active_layer_id;
    let mut next = Document::new(5, 7);
    next.revision = 40;

    let mut stack = UndoStack::new();
    stack.execute(Command::ReplaceDocument(ReplaceDocumentCommand::new("Resize Image", next)), &mut doc);
    assert_eq!(doc.revision, 41);
    assert!(doc.layers.is_empty());

    stack.undo(&mut doc);
    assert_eq!((doc.canvas_width, doc.canvas_height), (2, 2));
    assert_eq!(doc.layers.iter().map(|layer| layer.id).collect::<Vec<_>>(), ids);
    assert_eq!(doc.active_layer_id, active);
    assert_eq!(doc.revision, revision + 1);
    assert!(doc.has_unsaved_changes);
}
