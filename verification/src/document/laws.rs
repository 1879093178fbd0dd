//! What the history promises: undoing an edit gives back the document it was
//! made on, redoing it gives back the edited document, and the history never
//! holds more commands than its depth.

use vstd::prelude::*;

use crate::document::command::apply_command;
use crate::document::command::masked_alpha;
use crate::document::command::history_after_execute;
use crate::document::command::history_after_redo;
use crate::document::command::history_after_undo;
use crate::document::command::history_bounded;
use crate::document::command::history_kept;
use crate::document::command::HISTORY_DEPTH;
use crate::document::command::undo_command;
use crate::document::command::CommandView;
use crate::document::command::UndoStackView;
use crate::document::is_first_layer_with_id;
use crate::document::last_layer_id;
use crate::document::layer::LayerKindView;
use crate::document::layer::LayerView;
use crate::document::layer_position;
use crate::document::lemma_layer_position_is;
use crate::document::touched;
use crate::document::DocumentView;
use crate::document::LayerId;

verus! {

/// Two documents hold the same content: everything but the revision counter
/// and the unsaved-changes flag is equal.
pub open spec fn same_content(a: DocumentView, b: DocumentView) -> bool {
    &&& a.canvas_width == b.canvas_width
    &&& a.canvas_height == b.canvas_height
    &&& a.layers == b.layers
    &&& a.active_layer_id == b.active_layer_id
    &&& a.color_config == b.color_config
    &&& a.file_path == b.file_path
    &&& a.selection == b.selection
}

/// A command in the state its constructor gives it.
pub open spec fn is_new_command(c: CommandView) -> bool {
    match c {
        CommandView::AddLayer { layer, .. } => layer is Some,
        CommandView::RemoveLayer { layer, .. } => layer is None,
        CommandView::ModifyLayer { old_state, .. } => old_state is None,
        CommandView::ReplaceDocument { old_state, .. } => old_state is None,
        CommandView::AddLayerMask { new_mask, old_mask, .. } => new_mask is Some && old_mask is None,
        CommandView::RemoveLayerMask { mask, .. } => mask is None,
        CommandView::ApplyLayerMask { old_layer, .. } => old_layer is None,
    }
}

/// The document undo gives back. Adding and removing a layer change which
/// layer is active: undoing an added layer makes the topmost layer active,
/// undoing a removal makes the re-inserted layer active.
pub open spec fn document_after_undo(c: CommandView, d: DocumentView) -> DocumentView {
    match c {
        CommandView::AddLayer { .. } => DocumentView { active_layer_id: last_layer_id(d.layers), ..d },
        CommandView::RemoveLayer { index, .. } => if index < d.layers.len() {
            DocumentView { active_layer_id: Some(d.layers[index as int].id), ..d }
        } else {
            d
        },
        _ => d,
    }
}

/// The document redo gives back, given the one the command first made.
/// Redoing a removal makes the topmost remaining layer active.
pub open spec fn document_after_redo(c: CommandView, d: DocumentView, applied: DocumentView) -> DocumentView {
    match c {
        CommandView::RemoveLayer { index, .. } => if index < d.layers.len() {
            DocumentView { active_layer_id: last_layer_id(applied.layers), ..applied }
        } else {
            applied
        },
        _ => applied,
    }
}

proof fn lemma_position_kept(layers: Seq<LayerView>, id: crate::document::LayerId, i: int, x: LayerView)
    requires
        is_first_layer_with_id(layers, id, i),
        x.id == id,
    ensures
        layer_position(layers.update(i, x), id) == Some(i),
        is_first_layer_with_id(layers.update(i, x), id, i),
{
    assert(is_first_layer_with_id(layers.update(i, x), id, i));
    lemma_layer_position_is(layers.update(i, x), id, i);
}

proof fn lemma_position_found(layers: Seq<LayerView>, id: crate::document::LayerId)
    requires
        layer_position(layers, id) is Some,
    ensures
        is_first_layer_with_id(layers, id, layer_position(layers, id)->0),
{
}

/// Undoing a command right after applying it gives back the document it was
/// applied to, up to the revision counter, the unsaved flag and the active
/// layer choice described by `document_after_undo`.
pub proof fn law_undo_restores(c: CommandView, d: DocumentView)
    requires
        is_new_command(c),
    ensures
        same_content(
            undo_command(apply_command(c, d).0, apply_command(c, d).1).1,
            document_after_undo(c, d),
        ),
{
    let (c1, d1) = apply_command(c, d);
    let (c2, d2) = undo_command(c1, d1);
    match c {
        CommandView::AddLayer { layer, index } => {
            let idx = c1->AddLayer_index;
            assert(idx <= d.layers.len());
            assert(d1.layers[idx as int] == layer->Some_0);
            assert(d1.layers.remove(idx as int) =~= d.layers);
            assert(idx < d1.layers.len());
            assert(d1.active_layer_id == Some(d1.layers[idx as int].id));
        },
        CommandView::RemoveLayer { layer, index } => {
            if index < d.layers.len() {
                assert(d1.layers.insert(index as int, d.layers[index as int]) =~= d.layers);
            }
        },
        CommandView::ModifyLayer { layer_id, .. } => {
            if let Some(i) = layer_position(d.layers, layer_id) {
                lemma_position_found(d.layers, layer_id);
                assert(d1.layers.update(i, d.layers[i]) =~= d.layers);
            }
        },
        CommandView::ReplaceDocument { .. } => {},
        CommandView::AddLayerMask { layer_id, new_mask, old_mask } => {
            if let Some(i) = layer_position(d.layers, layer_id) {
                lemma_position_found(d.layers, layer_id);
                let x = LayerView { mask: new_mask, ..d.layers[i] };
                lemma_position_kept(d.layers, layer_id, i, x);
                assert(d2.layers =~= d.layers);
            }
        },
        CommandView::RemoveLayerMask { layer_id, mask } => {
            if let Some(i) = layer_position(d.layers, layer_id) {
                lemma_position_found(d.layers, layer_id);
                let x = LayerView { mask: None, ..d.layers[i] };
                lemma_position_kept(d.layers, layer_id, i, x);
                assert(d2.layers =~= d.layers);
            }
        },
        CommandView::ApplyLayerMask { layer_id, old_layer } => {
            if let Some(i) = layer_position(d.layers, layer_id) {
                lemma_position_found(d.layers, layer_id);
                if c1 != c {
                    let x = d1.layers[i];
                    assert(x.id == layer_id);
                    lemma_position_kept(d.layers, layer_id, i, x);
                    assert(d2.layers =~= d.layers);
                }
            }
        },
    }
}

/// The document a command gives when it is applied and then undone.
pub open spec fn applied_then_undone(c: CommandView, d: DocumentView) -> DocumentView {
    undo_command(apply_command(c, d).0, apply_command(c, d).1).1
}

/// The document after two counted changes (the apply and the undo): one
/// revision more each time, marked changed, every other field as it was.
pub open spec fn touched_twice(d: DocumentView) -> DocumentView {
    touched(touched(d))
}

/// Adding a layer at any position and undoing it gives back the layer
/// stack exactly, with the topmost layer active and the document marked
/// changed; an index past the top adds the layer at the top, and undo
/// removes it from there.
pub proof fn law_undo_add_layer(d: DocumentView, layer: LayerView, index: usize)
    ensures
        applied_then_undone(CommandView::AddLayer { layer: Some(layer), index }, d) == (DocumentView {
            active_layer_id: last_layer_id(d.layers),
            ..touched_twice(d)
        }),
{
    let c = CommandView::AddLayer { layer: Some(layer), index };
    let (c1, d1) = apply_command(c, d);
    let idx = c1->AddLayer_index;
    assert(d1.layers[idx as int] == layer);
    assert(d1.layers.remove(idx as int) =~= d.layers);
}

/// Removing the layer at a position and undoing it puts the layer back at
/// that position and makes it active, marking the document changed; a
/// position past the top removes nothing, and undo then changes nothing.
pub proof fn law_undo_remove_layer(d: DocumentView, index: usize)
    ensures
        index < d.layers.len() ==> applied_then_undone(CommandView::RemoveLayer { layer: None, index }, d) == (
        DocumentView { active_layer_id: Some(d.layers[index as int].id), ..touched_twice(d) }),
        index >= d.layers.len() ==> applied_then_undone(CommandView::RemoveLayer { layer: None, index }, d) == d,
{
    if index < d.layers.len() {
        let d1 = apply_command(CommandView::RemoveLayer { layer: None, index }, d).1;
        assert(d1.layers.insert(index as int, d.layers[index as int]) =~= d.layers);
    }
}

/// Modifying a layer (whatever identifier its new state carries) and undoing
/// it gives back the exact layer stack, marking the document changed; when
/// no layer has the identifier, neither step changes anything.
pub proof fn law_undo_modify_layer(d: DocumentView, layer_id: LayerId, new_state: LayerView)
    ensures
        layer_position(d.layers, layer_id) is Some ==> applied_then_undone(
            CommandView::ModifyLayer { layer_id, position: 0, old_state: None, new_state },
            d,
        ) == touched_twice(d),
        layer_position(d.layers, layer_id) is None ==> applied_then_undone(
            CommandView::ModifyLayer { layer_id, position: 0, old_state: None, new_state },
            d,
        ) == d,
{
    if let Some(i) = layer_position(d.layers, layer_id) {
        lemma_position_found(d.layers, layer_id);
        let d1 = apply_command(CommandView::ModifyLayer { layer_id, position: 0, old_state: None, new_state }, d).1;
        assert(d1.layers.update(i, d.layers[i]) =~= d.layers);
    }
}

/// Replacing the whole document and undoing it gives back every field of the
/// document it replaced, one revision later and marked changed.
pub proof fn law_undo_replace_document(d: DocumentView, name: Seq<char>, next: DocumentView)
    ensures
        applied_then_undone(CommandView::ReplaceDocument { name, old_state: None, new_state: next }, d) == touched(d),
{
}

/// Redoing a command right after undoing it gives back the document the
/// command first made, up to the revision counter, the unsaved flag and the
/// active layer choice described by `document_after_redo`.
pub proof fn law_redo_reapplies(c: CommandView, d: DocumentView)
    requires
        is_new_command(c),
    ensures
        same_content(
            apply_command(
                undo_command(apply_command(c, d).0, apply_command(c, d).1).0,
                undo_command(apply_command(c, d).0, apply_command(c, d).1).1,
            ).1,
            document_after_redo(c, d, apply_command(c, d).1),
        ),
{
    let (c1, d1) = apply_command(c, d);
    let (c2, d2) = undo_command(c1, d1);
    let (c3, d3) = apply_command(c2, d2);
    law_undo_restores(c, d);
    match c {
        CommandView::AddLayer { layer, index } => {
            let idx = c1->AddLayer_index;
            assert(d1.layers.remove(idx as int) =~= d.layers);
        },
        CommandView::RemoveLayer { layer, index } => {
            if index < d.layers.len() {
                assert(d1.layers.insert(index as int, d.layers[index as int]) =~= d.layers);
                assert(d3.layers =~= d1.layers);
            }
        },
        CommandView::ModifyLayer { layer_id, .. } => {
            if let Some(i) = layer_position(d.layers, layer_id) {
                lemma_position_found(d.layers, layer_id);
                assert(d1.layers.update(i, d.layers[i]) =~= d.layers);
                assert(d3.layers =~= d1.layers);
            }
        },
        CommandView::ReplaceDocument { .. } => {},
        CommandView::AddLayerMask { layer_id, new_mask, old_mask } => {
            if let Some(i) = layer_position(d.layers, layer_id) {
                lemma_position_found(d.layers, layer_id);
                let x = LayerView { mask: new_mask, ..d.layers[i] };
                lemma_position_kept(d.layers, layer_id, i, x);
                assert(d2.layers =~= d.layers);
                assert(d3.layers =~= d1.layers);
            }
        },
        CommandView::RemoveLayerMask { layer_id, mask } => {
            if let Some(i) = layer_position(d.layers, layer_id) {
                lemma_position_found(d.layers, layer_id);
                let x = LayerView { mask: None, ..d.layers[i] };
                lemma_position_kept(d.layers, layer_id, i, x);
                assert(d2.layers =~= d.layers);
                assert(d3.layers =~= d1.layers);
            }
        },
        CommandView::ApplyLayerMask { layer_id, old_layer } => {
            if let Some(i) = layer_position(d.layers, layer_id) {
                lemma_position_found(d.layers, layer_id);
                if c1 != c {
                    let x = d1.layers[i];
                    lemma_position_kept(d.layers, layer_id, i, x);
                    assert(d2.layers =~= d.layers);
                    assert(d3.layers =~= d1.layers);
                }
            }
        },
    }
}

/// After `execute`, `undo` undoes the command just executed and `redo` has
/// nothing to redo (as long as the history keeps at least one command).
pub proof fn law_execute_then_undo_targets_it(h: UndoStackView, applied: CommandView)
    requires
        h.max_depth > 0,
    ensures
        history_after_execute(h, applied).done.len() > 0,
        history_after_execute(h, applied).done.last() == applied,
        history_after_execute(h, applied).undone.len() == 0,
{
}

/// `execute` on a history as every history is kept appends the command and,
/// when the history already held `HISTORY_DEPTH` executed commands, drops
/// the oldest; nothing is left to redo.
pub proof fn law_execute_appends_within_depth(h: UndoStackView, applied: CommandView)
    requires
        history_kept(h),
    ensures
        history_after_execute(h, applied).done == if h.done.len() == HISTORY_DEPTH {
            h.done.drop_first().push(applied)
        } else {
            h.done.push(applied)
        },
        history_after_execute(h, applied).done.len() <= HISTORY_DEPTH,
        history_after_execute(h, applied).undone.len() == 0,
        history_kept(history_after_execute(h, applied)),
{
    if h.done.len() == HISTORY_DEPTH {
        assert(h.done.push(applied).drop_first() =~= h.done.drop_first().push(applied));
    }
}

/// After `undo`, `redo` re-applies the command just undone, and the
/// executed list is as it was before that command ran.
pub proof fn law_undo_then_redo_targets_it(h: UndoStackView, undone: CommandView)
    requires
        h.done.len() > 0,
    ensures
        history_after_undo(h, undone).undone.last() == undone,
        history_after_redo(history_after_undo(h, undone), undone).done == h.done.drop_last().push(undone),
        history_after_redo(history_after_undo(h, undone), undone).undone == h.undone,
{
    assert(history_after_undo(h, undone).undone.drop_last() =~= h.undone);
}

/// The history never holds more commands (executed plus undone) than its
/// depth: `execute`, `undo` and `redo` keep that bound.
pub proof fn law_history_stays_bounded(h: UndoStackView, c: CommandView)
    requires
        history_bounded(h),
        h.max_depth > 0,
    ensures
        history_bounded(history_after_execute(h, c)),
        h.done.len() > 0 ==> history_bounded(history_after_undo(h, c)),
        h.undone.len() > 0 ==> history_bounded(history_after_redo(h, c)),
{
}

/// Applying a mask multiplies the alpha byte of every pixel `p` below
/// `width * height` that has a mask byte by `mask[p] / 255`, whatever row the
/// pixel is on; the colour bytes, and the alpha of pixels without a mask
/// byte or beyond the image, stay as they were.
pub proof fn law_mask_multiplies_alpha(data: Seq<u8>, mask: Seq<u8>, width: u32, height: u32, p: int)
    requires
        0 <= p,
        4 * p + 3 < data.len(),
    ensures
        masked_alpha(data, mask, width, height).len() == data.len(),
        p < width * height && p < mask.len() ==> masked_alpha(data, mask, width, height)[4 * p + 3] == (
        (data[4 * p + 3] * mask[p]) / 255) as u8,
        !(p < width * height && p < mask.len()) ==> masked_alpha(data, mask, width, height)[4 * p + 3] == data[4
            * p + 3],
        masked_alpha(data, mask, width, height)[4 * p] == data[4 * p],
        masked_alpha(data, mask, width, height)[4 * p + 1] == data[4 * p + 1],
        masked_alpha(data, mask, width, height)[4 * p + 2] == data[4 * p + 2],
{
    assert((4 * p) % 4 == 0 && (4 * p + 1) % 4 == 1 && (4 * p + 2) % 4 == 2 && (4 * p + 3) % 4 == 3)
        by (nonlinear_arith)
        requires
            0 <= p,
    ;
    assert((4 * p + 3) / 4 == p) by (nonlinear_arith)
        requires
            0 <= p,
    ;
}

/// Applying a layer's mask (same size as its raster) replaces the layer, at
/// its place in the stack, by the same layer without a mask whose alpha byte
/// of every pixel is the old alpha times the mask byte over 255.
pub proof fn law_apply_mask_command(d: DocumentView, layer_id: LayerId, p: int)
    requires
        layer_position(d.layers, layer_id) is Some,
    ensures
        ({
            let i = layer_position(d.layers, layer_id)->0;
            let after = apply_command(CommandView::ApplyLayerMask { layer_id, old_layer: None }, d).1;
            match (d.layers[i].mask, d.layers[i].kind) {
                (Some(m), LayerKindView::Raster(r)) => m.width == r.width && m.height == r.height ==> {
                    &&& after.layers.len() == d.layers.len()
                    &&& after.layers[i].mask is None
                    &&& after.layers[i].id == d.layers[i].id
                    &&& after.layers[i].kind matches LayerKindView::Raster(q) && q.width == r.width
                        && q.height == r.height && q.data.len() == r.data.len() && (0 <= p < r.width
                        * r.height && 4 * p + 3 < r.data.len() && p < m.data.len() ==> q.data[4 * p + 3] == (
                    (r.data[4 * p + 3] * m.data[p]) / 255) as u8)
                    &&& forall|k: int| 0 <= k < d.layers.len() && k != i ==> after.layers[k] == d.layers[k]
                },
                _ => true,
            }
        }),
{
    let i = layer_position(d.layers, layer_id)->0;
    match (d.layers[i].mask, d.layers[i].kind) {
        (Some(m), LayerKindView::Raster(r)) => {
            if m.width == r.width && m.height == r.height && 0 <= p && 4 * p + 3 < r.data.len() {
                law_mask_multiplies_alpha(r.data, m.data, r.width, r.height, p);
            }
        },
        _ => {},
    }
}

} // verus!
