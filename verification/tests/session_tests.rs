use slate::actions::{exposed_actions, names_are_distinct, shortcuts, visible_window_actions};
use slate::document::{AddLayerMaskCommand, BitDepth, ColorSpace, Command, Document, Layer, LayerKind, Mask};
use slate::editor::execute_document_command;
use slate::layer_panel::history_entries;
use slate::session::output_preview_signature;
use slate::float_bits::f64_bits_to_u32;
use slate::image::pipeline::{CropRect, EditPipeline, ExportFormat, ExportParams, ResizeTarget, Rotation};
use slate::layer_panel::{bit_depth_label, canvas_size_label, color_space_label, layer_kind_label};
use slate::palette::{default_palette_entries, palette_entry_matches, text_contains};
use slate::session::{
    default_project_name, export_extension, export_filter_name, export_mime_type,
    export_save_target, image_document, mark_saved_at, opened_document, output_filename,
    replace_extension, window_title,
};
use slate::tools::tool::{options_page, Modifiers, ToolKind, tool_for_key};
use std::collections::HashSet;

#[test]
fn default_project_name_replaces_image_extension() {
    let mut document = Document::new(1, 1);
    document.file_path = Some("/tmp/poster.png".to_string());
    assert_eq!(default_project_name(&document), "poster.slate");
}

#[test]
fn default_project_name_without_path_is_untitled() {
    let document = Document::new(1, 1);
    assert_eq!(default_project_name(&document), "untitled.slate");
}

#[test]
fn output_filename_reflects_rotation_dimensions() {
    let doc = Document::new(400, 300);
    let mut pipeline = EditPipeline::default();
    pipeline.rotation = Rotation::Clockwise90;

    let filename = output_filename(&doc, &pipeline, &ExportParams::default());

    assert_eq!(filename, "image_300x400.png");
}

#[test]
fn output_filename_prefers_resize_then_crop() {
    let mut doc = Document::new(400, 300);
    doc.file_path = Some("/photos/beach.jpeg".to_string());
    let mut pipeline = EditPipeline::default();
    pipeline.crop = Some(CropRect {
        x_bits: 0f64.to_bits(),
        y_bits: 37.5f64.to_bits(),
        width_bits: 400.0f64.to_bits(),
        height_bits: 225.9f64.to_bits(),
    });
    let params = ExportParams { format: ExportFormat::Jpeg, quality: 80, strip_metadata: true };
    assert_eq!(output_filename(&doc, &pipeline, &params), "beach_400x225.jpg");
    pipeline.resize = Some(ResizeTarget::new(64, 32));
    assert_eq!(output_filename(&doc, &pipeline, &params), "beach_64x32.jpg");
}

#[test]
fn f64_bits_truncate_and_saturate_like_as_casts() {
    for value in [0.0f64, 0.99, 1.0, 37.5, 225.9, 4294967295.0, 4294967296.0, 1e20, -3.0, -0.5] {
        assert_eq!(f64_bits_to_u32(value.to_bits()), value as u32, "{value}");
    }
    assert_eq!(f64_bits_to_u32(f64::NAN.to_bits()), 0);
    assert_eq!(f64_bits_to_u32(f64::INFINITY.to_bits()), u32::MAX);
    assert_eq!(f64_bits_to_u32(f64::NEG_INFINITY.to_bits()), 0);
    assert_eq!(f64_bits_to_u32(f64::MIN_POSITIVE.to_bits()), 0);
}

#[test]
fn export_dialog_metadata_matches_selected_format() {
    assert_eq!(export_extension(ExportFormat::Png), "png");
    assert_eq!(export_mime_type(ExportFormat::Jpeg), "image/jpeg");
    assert_eq!(export_filter_name(ExportFormat::WebP), "WebP Image");
}

#[test]
fn export_target_clamps_lossy_quality() {
    let png = ExportParams::default();
    assert_eq!(export_save_target(&png), "slate_export.png");
    let jpeg = ExportParams { format: ExportFormat::Jpeg, quality: 250, strip_metadata: true };
    assert_eq!(export_save_target(&jpeg), "slate_export.jpg[Q=100]");
    let webp = ExportParams { format: ExportFormat::WebP, quality: 0, strip_metadata: false };
    assert_eq!(export_save_target(&webp), "slate_export.webp[Q=1]");
    let usual = ExportParams { format: ExportFormat::Jpeg, quality: 90, strip_metadata: true };
    assert_eq!(export_save_target(&usual), "slate_export.jpg[Q=90]");
}

#[test]
fn window_title_marks_unsaved_changes() {
    let mut doc = Document::new(1, 1);
    assert_eq!(window_title(&doc), "Untitled — Slate");
    doc.file_path = Some("/work/poster.slate".to_string());
    doc.has_unsaved_changes = true;
    assert_eq!(window_title(&doc), "● poster.slate — Slate");
}

#[test]
fn opened_image_becomes_one_saved_layer() {
    let doc = image_document("/tmp/photo.png", 1, 1, vec![1, 2, 3, 4]).unwrap();
    assert_eq!(doc.layers.len(), 1);
    assert_eq!(doc.layers[0].name, "photo");
    assert!(!doc.has_unsaved_changes);
    assert_eq!(doc.active_layer_id, Some(doc.layers[0].id));
    assert!(matches!(&doc.layers[0].kind, LayerKind::Raster(r) if r.data == vec![1, 2, 3, 4]));
    let error = image_document("/tmp/photo.png", 0, 5, Vec::new()).unwrap_err();
    assert_eq!(error, "The image has invalid zero-sized dimensions.");
}

#[test]
fn opened_and_saved_documents_remember_their_path() {
    let mut doc = Document::new(1, 1);
    doc.has_unsaved_changes = true;
    let opened = opened_document(doc, u64::MAX, "/a/b.slate");
    assert_eq!(opened.revision, 0);
    assert_eq!(opened.file_path.as_deref(), Some("/a/b.slate"));
    assert!(!opened.has_unsaved_changes);
    let mut again = opened;
    again.has_unsaved_changes = true;
    mark_saved_at(&mut again, "/c/d.slate");
    assert_eq!(again.file_path.as_deref(), Some("/c/d.slate"));
    assert!(!again.has_unsaved_changes);
}

#[test]
fn replace_extension_swaps_the_last_suffix() {
    assert_eq!(replace_extension("photo.tar.png", "webp"), "photo.tar.webp");
    assert_eq!(replace_extension("photo", "jpg"), "photo.jpg");
    assert_eq!(replace_extension(".hidden", "png"), ".png");
}

#[test]
fn shortcut_registry_has_unique_action_entries() {
    let mut seen = HashSet::new();
    for shortcut in shortcuts().iter().filter_map(|shortcut| shortcut.action) {
        assert!(seen.insert(shortcut), "duplicate shortcut action: {shortcut}");
    }
}

#[test]
fn visible_window_actions_are_unique() {
    let mut seen = HashSet::new();
    for action in visible_window_actions() {
        assert!(seen.insert(action), "duplicate visible action: {action}");
    }
}

#[test]
fn exposed_action_inventory_is_unique() {
    let mut actions = HashSet::new();
    for action in exposed_actions() {
        assert!(actions.insert(action), "duplicate action: {action}");
    }
}

#[test]
fn registries_pass_the_distinctness_check() {
    assert!(names_are_distinct(&exposed_actions()));
    assert!(names_are_distinct(&visible_window_actions()));
    assert!(!names_are_distinct(&vec!["undo", "redo", "undo"]));
    let visible = visible_window_actions();
    let exposed = exposed_actions();
    assert!(visible.iter().all(|name| exposed.contains(name)));
}

#[test]
fn palette_filter_ignores_case() {
    assert!(palette_entry_matches("Brush Tool", "Switch to the brush tool", ""));
    assert!(palette_entry_matches("Brush Tool", "Switch to the brush tool", "BRUSH"));
    assert!(palette_entry_matches("Undo", "Undo the last action", "last"));
    assert!(!palette_entry_matches("Undo", "Undo the last action", "redo"));
    assert!(text_contains("abcabd", "abd"));
    assert!(!text_contains("ab", "abc"));
    assert_eq!(default_palette_entries().len(), 11);
}

#[test]
fn panel_labels() {
    assert_eq!(layer_kind_label(&LayerKind::Group(Vec::new())), "Group");
    assert_eq!(color_space_label(&ColorSpace::Custom("Studio".to_string())), "Studio");
    assert_eq!(color_space_label(&ColorSpace::AdobeRgb), "Adobe RGB");
    assert_eq!(bit_depth_label(BitDepth::Float16), "16-bit float");
    assert_eq!(canvas_size_label(1920, 1080), "1920 x 1080");
}

#[test]
fn tools_and_options_pages() {
    let entries = ToolKind::all();
    assert_eq!(entries.len(), 15);
    assert_eq!(entries[9], (ToolKind::Clone, "Clone Stamp", "clone-tool-symbolic"));
    assert_eq!(options_page(ToolKind::Smudge), "brush");
    assert_eq!(options_page(ToolKind::Crop), "crop");
    assert_eq!(options_page(ToolKind::Text), "move");
    let m = Modifiers::none();
    assert!(!m.shift && !m.ctrl && !m.alt);
}

#[test]
fn history_rows_start_with_open_for_files() {
    let mut doc = Document::new(1, 1);
    assert!(history_entries(&doc).is_empty());
    doc.add_layer(Layer::new_raster("Layer", 1, 1, vec![0; 4]));
    let id = doc.layers[0].id;
    execute_document_command(&mut doc, Command::AddLayerMask(AddLayerMaskCommand::new(id, Mask::new("Mask", 1, 1))));
    assert_eq!(history_entries(&doc), vec!["Add Layer Mask"]);
    doc.file_path = Some("/tmp/a.png".to_string());
    assert_eq!(history_entries(&doc), vec!["Open", "Add Layer Mask"]);
}

#[test]
fn preview_signature_tracks_export_settings() {
    let doc = Document::new(10, 20);
    let mut pipeline = EditPipeline::default();
    let params = ExportParams::default();
    let first = output_preview_signature(&doc, &pipeline, &params);
    assert_eq!((first.canvas_width, first.canvas_height), (10, 20));
    pipeline.rotation = Rotation::Clockwise180;
    assert_ne!(first, output_preview_signature(&doc, &pipeline, &params));
}

#[test]
fn single_keys_pick_tools() {
    assert_eq!(tool_for_key('v'), Some(ToolKind::Move));
    assert_eq!(tool_for_key('h'), Some(ToolKind::Move));
    assert_eq!(tool_for_key('c'), Some(ToolKind::Crop));
    assert_eq!(tool_for_key('b'), Some(ToolKind::Brush));
    assert_eq!(tool_for_key('e'), Some(ToolKind::Eraser));
    assert_eq!(tool_for_key('z'), Some(ToolKind::Zoom));
    assert_eq!(tool_for_key('i'), Some(ToolKind::ColorPicker));
    assert_eq!(tool_for_key('V'), None);
    assert_eq!(tool_for_key('x'), None);
}
