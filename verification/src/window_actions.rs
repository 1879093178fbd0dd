//! What the window's layer and image actions do to the document: the
//! command each one builds (new, delete, paste and duplicate layer, mask
//! add/remove/apply, rotate, filters, merge down), the mask toggles, and
//! undo and redo through the document's own history.

use vstd::prelude::*;

use crate::document::command::{
    apply_fits, history_after_redo, history_after_undo, undo_command, undo_fits, apply_command,
    CommandView,
};
use crate::document::edit::{document_edit_fits, edited_document, rotate_document_clockwise, LayerEdit};
use crate::document::ids::{UUID_V4_MARKER, UUID_VERSION_VARIANT_MASK};
use crate::document::layer::{new_raster_view, LayerId, LayerKindView, LayerView};
use crate::document::mask::MaskView;
use crate::document::{
    layer_position, AddLayerCommand, AddLayerMaskCommand, ApplyLayerMaskCommand, Document,
    DocumentView, Layer, LayerKind, Mask, RemoveLayerCommand, RemoveLayerMaskCommand,
    ReplaceDocumentCommand, UndoStack,
};
use crate::editor::{
    active_raster_position, apply_active_raster_filter, filter_fits, filtered_pixels,
    merge_down_position, merged_down_document, merged_down_view, raster_of,
    with_active_raster_data, PixelFilter,
};
use crate::tile::snapshot::FlattenedFrame;

verus! {

/// The position of the active layer, if there is one.
pub open spec fn active_layer_position(d: DocumentView) -> Option<int> {
    match d.active_layer_id {
        Some(id) => layer_position(d.layers, id),
        None => None,
    }
}

/// Position of the active layer.
pub fn active_layer_index(document: &Document) -> (index: Option<usize>)
    ensures
        match active_layer_position(document@) {
            Some(i) => index matches Some(k) && k as int == i,
            None => index is None,
        },
{
    match document.active_layer_id {
        Some(id) => document.layer_index(id),
        None => None,
    }
}

/// A transparent raster layer of the canvas's size, named `New Layer`, put
/// on top of the stack.
pub fn new_layer_command(document: &Document) -> (cmd: AddLayerCommand)
    requires
        document.canvas_width * document.canvas_height * 4 <= u32::MAX,
    ensures
        cmd@ matches CommandView::AddLayer { layer: Some(l), index } && index == document@.layers.len()
            && l == new_raster_view(
            l.id,
            "New Layer"@,
            document.canvas_width,
            document.canvas_height,
            Seq::new((document.canvas_width * document.canvas_height * 4) as nat, |i: int| 0u8),
        ),
{
    let w = document.canvas_width;
    let h = document.canvas_height;
    let data = vec![0u8; (w * h * 4) as usize];
    let layer = Layer::new_raster("New Layer", w, h, data);
    proof {
        assert(data@ =~= Seq::new((w * h * 4) as nat, |i: int| 0u8));
    }
    AddLayerCommand::new(layer, document.layers.len())
}

/// Removing the active layer, if there is one.
pub fn delete_layer_command(document: &Document) -> (cmd: Option<RemoveLayerCommand>)
    ensures
        match active_layer_position(document@) {
            Some(i) => cmd matches Some(c) && c@ == (CommandView::RemoveLayer { layer: None, index: i as usize }),
            None => cmd is None,
        },
{
    match active_layer_index(document) {
        Some(i) => Some(RemoveLayerCommand::new(i)),
        None => None,
    }
}

/// A copy of the active layer, if there is one (for the layer clipboard).
pub fn copy_active_layer(document: &Document) -> (copy: Option<Layer>)
    ensures
        match active_layer_position(document@) {
            Some(i) => copy matches Some(l) && l@ == document@.layers[i],
            None => copy is None,
        },
{
    match active_layer_index(document) {
        Some(i) => {
            assert(document@.layers[i as int] == document.layers@[i as int]@);
            Some(document.layers[i].clone())
        },
        None => None,
    }
}

/// The layer under a fresh identifier, with ` <suffix>` after its name.
pub open spec fn renamed_layer(l: LayerView, id: LayerId, suffix: Seq<char>) -> LayerView {
    LayerView { id, name: l.name + seq![' '] + suffix, ..l }
}

fn renamed_copy(layer: &Layer, suffix: &str) -> (copy: Layer)
    ensures
        copy@ == renamed_layer(layer@, copy.id, suffix@),
        copy.id.value() & UUID_VERSION_VARIANT_MASK == UUID_V4_MARKER,
{
    let mut copy = layer.clone();
    let mut name = layer.name.clone();
    name.append(" ");
    name.append(suffix);
    proof {
        reveal_strlit(" ");
    }
    copy.id = LayerId::new();
    copy.name = name;
    assert(copy@.name =~= layer@.name + seq![' '] + suffix@);
    copy
}

/// Pasting the clipboard's layer on top of the stack, under a fresh
/// identifier and named `<name> paste`.
pub fn paste_layer_command(document: &Document, clipboard: &Layer) -> (cmd: AddLayerCommand)
    ensures
        cmd@ matches CommandView::AddLayer { layer: Some(l), index } && index == document@.layers.len()
            && l == renamed_layer(clipboard@, l.id, "paste"@) && l.id.value() & UUID_VERSION_VARIANT_MASK
            == UUID_V4_MARKER,
{
    let layer = renamed_copy(clipboard, "paste");
    AddLayerCommand::new(layer, document.layers.len())
}

/// Duplicating the active layer on top of the stack, under a fresh
/// identifier and named `<name> copy`.
pub fn duplicate_layer_command(document: &Document) -> (cmd: Option<AddLayerCommand>)
    ensures
        match active_layer_position(document@) {
            Some(i) => cmd matches Some(c) && c@ matches CommandView::AddLayer { layer: Some(l), index }
                && index == document@.layers.len() && l == renamed_layer(document@.layers[i], l.id, "copy"@)
                && l.id.value() & UUID_VERSION_VARIANT_MASK == UUID_V4_MARKER,
            None => cmd is None,
        },
{
    match active_layer_index(document) {
        Some(i) => {
            assert(document@.layers[i as int] == document.layers@[i as int]@);
            let layer = renamed_copy(&document.layers[i], "copy");
            Some(AddLayerCommand::new(layer, document.layers.len()))
        },
        None => None,
    }
}

/// The size a new mask of the layer takes: the raster's, else the canvas's.
pub open spec fn mask_size_for(l: LayerView, d: DocumentView) -> (u32, u32) {
    match l.kind {
        LayerKindView::Raster(r) => (r.width, r.height),
        _ => (d.canvas_width, d.canvas_height),
    }
}

/// A new mask fits in `u32` bytes.
pub open spec fn mask_size_fits(size: (u32, u32)) -> bool {
    size.0 * size.1 <= u32::MAX
}

/// Adding a fully opaque mask named `Layer Mask` to the active layer, when
/// it has none.
pub fn add_mask_command(document: &Document) -> (cmd: Option<AddLayerMaskCommand>)
    requires
        active_layer_position(document@) matches Some(i) ==> mask_size_fits(
            mask_size_for(document@.layers[i], document@),
        ),
    ensures
        match active_layer_position(document@) {
            Some(i) => if document@.layers[i].mask is None {
                let size = mask_size_for(document@.layers[i], document@);
                cmd matches Some(c) && c@ matches CommandView::AddLayerMask { layer_id, new_mask: Some(m), old_mask: None }
                    && layer_id == document@.layers[i].id && m.name == "Layer Mask"@ && m.width == size.0
                    && m.height == size.1 && m.data == Seq::new((size.0 * size.1) as nat, |k: int| 255u8)
                    && m.enabled && !m.editing
            } else {
                cmd is None
            },
            None => cmd is None,
        },
{
    let i = match active_layer_index(document) {
        Some(i) => i,
        None => return None,
    };
    let layer = &document.layers[i];
    assert(document@.layers[i as int] == layer@);
    if layer.mask.is_some() {
        return None;
    }
    let (width, height) = match &layer.kind {
        LayerKind::Raster(raster) => (raster.width, raster.height),
        _ => (document.canvas_width, document.canvas_height),
    };
    let mask = Mask::new("Layer Mask", width, height);
    Some(AddLayerMaskCommand::new(layer.id, mask))
}

/// The active layer's identifier when that layer has a mask.
pub open spec fn masked_active_layer(d: DocumentView) -> Option<LayerId> {
    match active_layer_position(d) {
        Some(i) => if d.layers[i].mask is Some {
            Some(d.layers[i].id)
        } else {
            None
        },
        None => None,
    }
}

fn masked_active_layer_id(document: &Document) -> (id: Option<LayerId>)
    ensures
        id == masked_active_layer(document@),
{
    let i = match active_layer_index(document) {
        Some(i) => i,
        None => return None,
    };
    assert(document@.layers[i as int] == document.layers@[i as int]@);
    if document.layers[i].mask.is_some() {
        Some(document.layers[i].id)
    } else {
        None
    }
}

/// Removing the active layer's mask, when it has one.
pub fn remove_mask_command(document: &Document) -> (cmd: Option<RemoveLayerMaskCommand>)
    ensures
        match masked_active_layer(document@) {
            Some(id) => cmd matches Some(c) && c@ == (CommandView::RemoveLayerMask { layer_id: id, mask: None }),
            None => cmd is None,
        },
{
    match masked_active_layer_id(document) {
        Some(id) => Some(RemoveLayerMaskCommand::new(id)),
        None => None,
    }
}

/// Applying the active layer's mask to its pixels, when it has one.
pub fn apply_mask_command(document: &Document) -> (cmd: Option<ApplyLayerMaskCommand>)
    ensures
        match masked_active_layer(document@) {
            Some(id) => cmd matches Some(c) && c@ == (CommandView::ApplyLayerMask { layer_id: id, old_layer: None }),
            None => cmd is None,
        },
{
    match masked_active_layer_id(document) {
        Some(id) => Some(ApplyLayerMaskCommand::new(id)),
        None => None,
    }
}

/// Which mask flag a toggle action switches.
#[derive(Clone, Copy, PartialEq, Eq, Debug, Structural)]
pub enum MaskToggle {
    Edit,
    Enabled,
    View,
}

/// The mask with the flag switched.
pub open spec fn toggled_mask(m: MaskView, toggle: MaskToggle) -> MaskView {
    match toggle {
        MaskToggle::Edit => MaskView { editing: !m.editing, ..m },
        MaskToggle::Enabled => MaskView { enabled: !m.enabled, ..m },
        MaskToggle::View => MaskView { show_on_canvas: !m.show_on_canvas, ..m },
    }
}

/// Switches a flag of the active layer's mask. Looking the active layer up
/// for editing counts a revision; switching the flag counts another and
/// marks the document changed. Returns whether a mask was toggled.
pub fn toggle_active_mask(document: &mut Document, toggle: MaskToggle) -> (toggled: bool)
    requires
        old(document).revision + 2 <= u64::MAX,
    ensures
        final(document).undo_stack@ == old(document).undo_stack@,
        match active_layer_position(old(document)@) {
            Some(i) => match old(document)@.layers[i].mask {
                Some(m) => toggled && final(document)@ == (DocumentView {
                    layers: old(document)@.layers.update(
                        i,
                        LayerView { mask: Some(toggled_mask(m, toggle)), ..old(document)@.layers[i] },
                    ),
                    revision: (old(document).revision + 2) as u64,
                    has_unsaved_changes: true,
                    ..old(document)@
                }),
                None => !toggled && final(document)@ == (DocumentView {
                    revision: (old(document).revision + 1) as u64,
                    ..old(document)@
                }),
            },
            None => !toggled && final(document)@ == old(document)@,
        },
{
    let id = match document.active_layer_id {
        Some(id) => id,
        None => return false,
    };
    let i = match document.layer_index(id) {
        Some(i) => i,
        None => return false,
    };
    document.revision += 1;
    assert(document@.layers[i as int] == document.layers@[i as int]@);
    if document.layers[i].mask.is_none() {
        return false;
    }
    let layer = document.layers.remove(i);
    let Layer { id, name, visible, opacity_bits, blend_mode, mask, kind, locked } = layer;
    let mask = match mask {
        Some(mut m) => {
            match toggle {
                MaskToggle::Edit => m.editing = !m.editing,
                MaskToggle::Enabled => m.enabled = !m.enabled,
                MaskToggle::View => m.show_on_canvas = !m.show_on_canvas,
            }
            Some(m)
        },
        None => None,
    };
    let ghost changed = Layer { id, name, visible, opacity_bits, blend_mode, mask, kind, locked }@;
    document.layers.insert(i, Layer { id, name, visible, opacity_bits, blend_mode, mask, kind, locked });
    document.revision += 1;
    document.has_unsaved_changes = true;
    assert(document@.layers =~= old(document)@.layers.update(i as int, changed));
    true
}

/// Undoes the document's most recent command through its own history.
pub fn undo_document(document: &mut Document)
    requires
        old(document).undo_stack@.done.len() > 0 ==> undo_fits(old(document).undo_stack@.done.last(), old(document)@),
    ensures
        if old(document).undo_stack@.done.len() == 0 {
            final(document)@ == old(document)@ && final(document).undo_stack@ == old(document).undo_stack@
        } else {
            let (c, d) = undo_command(old(document).undo_stack@.done.last(), old(document)@);
            &&& final(document)@ == d
            &&& final(document).undo_stack@ == history_after_undo(old(document).undo_stack@, c)
        },
{
    let mut undo_stack = UndoStack::new();
    std::mem::swap(&mut undo_stack, &mut document.undo_stack);
    undo_stack.undo(document);
    document.undo_stack = undo_stack;
}

/// Re-applies the document's most recently undone command.
pub fn redo_document(document: &mut Document)
    requires
        old(document).undo_stack@.undone.len() > 0 ==> apply_fits(old(document).undo_stack@.undone.last(), old(document)@),
    ensures
        if old(document).undo_stack@.undone.len() == 0 {
            final(document)@ == old(document)@ && final(document).undo_stack@ == old(document).undo_stack@
        } else {
            let (c, d) = apply_command(old(document).undo_stack@.undone.last(), old(document)@);
            &&& final(document)@ == d
            &&& final(document).undo_stack@ == history_after_redo(old(document).undo_stack@, c)
        },
{
    let mut undo_stack = UndoStack::new();
    std::mem::swap(&mut undo_stack, &mut document.undo_stack);
    undo_stack.redo(document);
    document.undo_stack = undo_stack;
}

/// Replacing the document by its quarter turn clockwise, as one undoable
/// step named `Rotate Image`.
pub fn rotate_command(document: &Document) -> (cmd: ReplaceDocumentCommand)
    requires
        document_edit_fits(LayerEdit::RotateClockwise, document@),
        document.revision < u64::MAX,
    ensures
        cmd@ == (CommandView::ReplaceDocument {
            name: "Rotate Image"@,
            old_state: None,
            new_state: edited_document(LayerEdit::RotateClockwise, document@, document.canvas_height, document.canvas_width),
        }),
{
    let mut next = document.clone();
    rotate_document_clockwise(&mut next);
    ReplaceDocumentCommand::new("Rotate Image", next)
}

/// Replacing the document by one whose active raster layer went through
/// the filter, as one undoable step named `Apply Filter`; none when the
/// active layer is not a raster layer.
pub fn filter_command(document: &Document, filter: PixelFilter) -> (cmd: Option<ReplaceDocumentCommand>)
    requires
        document.revision < u64::MAX,
        active_raster_position(document@) matches Some(i) ==> filter_fits(filter, raster_of(document@.layers[i])),
    ensures
        match active_raster_position(document@) {
            Some(i) => cmd matches Some(c) && c@ == (CommandView::ReplaceDocument {
                name: "Apply Filter"@,
                old_state: None,
                new_state: with_active_raster_data(document@, i, filtered_pixels(filter, raster_of(document@.layers[i]))),
            }),
            None => cmd is None,
        },
{
    let mut next = document.clone();
    if apply_active_raster_filter(&mut next, filter) {
        Some(ReplaceDocumentCommand::new("Apply Filter", next))
    } else {
        None
    }
}

/// Replacing the document by its merge of the active layer into the one
/// below, as one undoable step named `Merge Down`; `flattened` is the
/// composite of the two layers.
pub fn merge_down_command(document: &Document, flattened: &FlattenedFrame) -> (cmd: Option<ReplaceDocumentCommand>)
    requires
        document.revision < u64::MAX,
    ensures
        match merge_down_position(document@) {
            Some(i) => cmd matches Some(c) && c@ matches CommandView::ReplaceDocument { name, old_state: None, new_state }
                && name == "Merge Down"@ && new_state == merged_down_view(
                document@,
                i,
                flattened@,
                new_state.layers[i - 1].id,
            ),
            None => cmd is None,
        },
{
    match merged_down_document(document, flattened) {
        Some(next) => Some(ReplaceDocumentCommand::new("Merge Down", next)),
        None => None,
    }
}

} // verus!
