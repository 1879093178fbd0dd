//! What the editor window does to the open document: filters on the
//! active raster layer, mask toggles, running commands through the
//! history, recording a brush stroke as one undoable change, and merging
//! a layer into the one below.

use vstd::prelude::*;

use crate::document::command::{
    apply_command, apply_fits, history_after_execute, undo_command, CommandView, UndoStackView,
};
use crate::document::command::empty_history;
use crate::document::ids::{UUID_V4_MARKER, UUID_VERSION_VARIANT_MASK};
use crate::document::layer::{BlendMode, LayerId, LayerKindView, LayerView, RasterView, OPAQUE_BITS};
use crate::document::{
    layer_position, new_document_view, touched, Command, Document, DocumentView, Layer, LayerKind, Mask,
    ModifyLayerCommand, RasterLayer, UndoStack,
};
use crate::tile::snapshot::{FlattenedFrame, FlattenedView};
use crate::image::adjust::{
    filter_grayscale, filter_invert, filter_noise, grey_fits, greyed, inverted, noise_fits, noised,
};

verus! {

/// A filter the editor runs on the active raster layer's pixels.
#[derive(Clone, Copy, PartialEq, Eq, Debug)]
pub enum PixelFilter {
    Noise,
    Invert,
    Grayscale,
}

/// The pixels after the filter.
pub open spec fn filtered_pixels(filter: PixelFilter, r: RasterView) -> Seq<u8> {
    match filter {
        PixelFilter::Noise => noised(r.data, r.width, r.height),
        PixelFilter::Invert => inverted(r.data),
        PixelFilter::Grayscale => greyed(r.data),
    }
}

/// The filter can read every byte it needs from the raster.
pub open spec fn filter_fits(filter: PixelFilter, r: RasterView) -> bool {
    match filter {
        PixelFilter::Noise => noise_fits(r.data.len() as int, r.width, r.height),
        PixelFilter::Invert => true,
        PixelFilter::Grayscale => grey_fits(r.data.len() as int),
    }
}

/// The position of the active layer when it is a raster layer.
pub open spec fn active_raster_position(d: DocumentView) -> Option<int> {
    match d.active_layer_id {
        Some(id) => match layer_position(d.layers, id) {
            Some(i) => if d.layers[i].kind is Raster {
                Some(i)
            } else {
                None
            },
            None => None,
        },
        None => None,
    }
}

/// The raster content of a layer (meaningful for raster layers).
pub open spec fn raster_of(l: LayerView) -> RasterView {
    match l.kind {
        LayerKindView::Raster(r) => r,
        _ => arbitrary(),
    }
}

/// The layer with its raster pixels replaced.
pub open spec fn with_raster_data(l: LayerView, data: Seq<u8>) -> LayerView {
    LayerView { kind: LayerKindView::Raster(RasterView { data, ..raster_of(l) }), ..l }
}

/// The document with the active raster layer's pixels replaced, one
/// revision later and marked as changed.
pub open spec fn with_active_raster_data(d: DocumentView, i: int, data: Seq<u8>) -> DocumentView {
    touched(DocumentView { layers: d.layers.update(i, with_raster_data(d.layers[i], data)), ..d })
}

/// Replaces the pixels of the raster layer at `index`.
fn replace_raster_data(document: &mut Document, index: usize, data: Vec<u8>)
    requires
        index < old(document).layers@.len(),
        old(document)@.layers[index as int].kind is Raster,
    ensures
        final(document).undo_stack@ == old(document).undo_stack@,
        final(document)@ == (DocumentView {
            layers: old(document)@.layers.update(
                index as int,
                with_raster_data(old(document)@.layers[index as int], data@),
            ),
            ..old(document)@
        }),
{
    let layer = document.layers.remove(index);
    let Layer { id, name, visible, opacity_bits, blend_mode, mask, kind, locked } = layer;
    let kind = match kind {
        LayerKind::Raster(r) => LayerKind::Raster(
            RasterLayer { width: r.width, height: r.height, data, offset_x: r.offset_x, offset_y: r.offset_y },
        ),
        other => other,
    };
    document.layers.insert(index, Layer { id, name, visible, opacity_bits, blend_mode, mask, kind, locked });
    assert(document@.layers =~= old(document)@.layers.update(
        index as int,
        with_raster_data(old(document)@.layers[index as int], data@),
    ));
}

/// Position of the active layer when it is a raster layer.
fn active_raster_index(document: &Document) -> (index: Option<usize>)
    ensures
        match active_raster_position(document@) {
            Some(i) => index matches Some(k) && k as int == i,
            None => index is None,
        },
{
    let active_id = match document.active_layer_id {
        Some(id) => id,
        None => return None,
    };
    let index = match document.layer_index(active_id) {
        Some(i) => i,
        None => return None,
    };
    assert(document@.layers[index as int] == document.layers@[index as int]@);
    match &document.layers[index].kind {
        LayerKind::Raster(_) => Some(index),
        _ => None,
    }
}

/// Whether the filter can read every byte it needs from the active raster
/// layer (true when the active layer is not a raster layer).
pub fn active_filter_fits(document: &Document, filter: PixelFilter) -> (fits: bool)
    ensures
        fits == (active_raster_position(document@) matches Some(i) ==> filter_fits(
            filter,
            raster_of(document@.layers[i]),
        )),
{
    let index = match active_raster_index(document) {
        Some(i) => i,
        None => return true,
    };
    assert(document@.layers[index as int] == document.layers@[index as int]@);
    match &document.layers[index].kind {
        LayerKind::Raster(r) => match filter {
            PixelFilter::Noise => {
                let w = r.width as u128;
                let h = r.height as u128;
                assert(w * h <= 0x1_0000_0000 * 0x1_0000_0000 && w * h * 4 <= 0x4_0000_0000_0000_0000)
                    by (nonlinear_arith)
                    requires
                        w <= u32::MAX,
                        h <= u32::MAX,
                ;
                w * h * 4 <= r.data.len() as u128 + 1
            },
            PixelFilter::Invert => true,
            PixelFilter::Grayscale => r.data.len() % 4 == 0 || r.data.len() % 4 == 3,
        },
        _ => true,
    }
}

/// Runs the filter on the active layer's pixels when the active layer is a
/// raster layer; then counts a revision and marks the document changed.
/// Returns whether it ran.
pub fn apply_active_raster_filter(document: &mut Document, filter: PixelFilter) -> (applied: bool)
    requires
        old(document).revision < u64::MAX,
        active_raster_position(old(document)@) matches Some(i) ==> filter_fits(
            filter,
            raster_of(old(document)@.layers[i]),
        ),
    ensures
        final(document).undo_stack@ == old(document).undo_stack@,
        match active_raster_position(old(document)@) {
            Some(i) => applied && final(document)@ == with_active_raster_data(
                old(document)@,
                i,
                filtered_pixels(filter, raster_of(old(document)@.layers[i])),
            ),
            None => !applied && final(document)@ == old(document)@,
        },
{
    let index = match active_raster_index(document) {
        Some(i) => i,
        None => return false,
    };
    assert(document@.layers[index as int] == document.layers@[index as int]@);
    let (mut data, width, height) = match &document.layers[index].kind {
        LayerKind::Raster(r) => (r.data.clone(), r.width, r.height),
        _ => return false,
    };
    match filter {
        PixelFilter::Noise => filter_noise(&mut data, width, height),
        PixelFilter::Invert => filter_invert(&mut data),
        PixelFilter::Grayscale => filter_grayscale(&mut data),
    }
    replace_raster_data(document, index, data);
    document.revision += 1;
    document.has_unsaved_changes = true;
    true
}

/// Takes the outcome of a filter computed elsewhere on the active layer's
/// pixels: when the active layer is a raster layer, its pixels become
/// `pixels` (if the filter produced any), a revision is counted and the
/// document is marked changed. Returns whether the active layer was a
/// raster layer.
pub fn apply_active_raster_pixels(document: &mut Document, pixels: Option<Vec<u8>>) -> (applied: bool)
    requires
        old(document).revision < u64::MAX,
        active_raster_position(old(document)@) matches Some(i) ==> (pixels matches Some(p) ==> p@.len()
            == raster_of(old(document)@.layers[i]).data.len()),
    ensures
        final(document).undo_stack@ == old(document).undo_stack@,
        match active_raster_position(old(document)@) {
            Some(i) => applied && final(document)@ == with_active_raster_data(
                old(document)@,
                i,
                match pixels {
                    Some(p) => p@,
                    None => raster_of(old(document)@.layers[i]).data,
                },
            ),
            None => !applied && final(document)@ == old(document)@,
        },
{
    let index = match active_raster_index(document) {
        Some(i) => i,
        None => return false,
    };
    assert(document@.layers[index as int] == document.layers@[index as int]@);
    match pixels {
        Some(p) => replace_raster_data(document, index, p),
        None => {
            assert(with_raster_data(document@.layers[index as int], raster_of(document@.layers[index as int]).data)
                == document@.layers[index as int]);
            assert(document@.layers.update(index as int, document@.layers[index as int]) =~= document@.layers);
        },
    }
    document.revision += 1;
    document.has_unsaved_changes = true;
    true
}

/// Switches whether brush strokes paint into the mask.
pub fn toggle_mask_edit(mask: &mut Mask)
    ensures
        final(mask)@ == (crate::document::mask::MaskView { editing: !old(mask).editing, ..old(mask)@ }),
{
    mask.editing = !mask.editing;
}

/// Switches whether the mask takes effect.
pub fn toggle_mask_enabled(mask: &mut Mask)
    ensures
        final(mask)@ == (crate::document::mask::MaskView { enabled: !old(mask).enabled, ..old(mask)@ }),
{
    mask.enabled = !mask.enabled;
}

/// Switches whether the mask is drawn over the canvas.
pub fn toggle_mask_view(mask: &mut Mask)
    ensures
        final(mask)@ == (crate::document::mask::MaskView {
            show_on_canvas: !old(mask).show_on_canvas,
            ..old(mask)@
        }),
{
    mask.show_on_canvas = !mask.show_on_canvas;
}

/// Applies the command to the document and records it in the document's
/// own history (which a command replacing the whole document does not
/// reset).
pub fn execute_document_command(document: &mut Document, command: Command)
    requires
        apply_fits(command@, old(document)@),
    ensures
        final(document)@ == apply_command(command@, old(document)@).1,
        final(document).undo_stack@ == history_after_execute(
            old(document).undo_stack@,
            apply_command(command@, old(document)@).0,
        ),
{
    let mut undo_stack = UndoStack::new();
    std::mem::swap(&mut undo_stack, &mut document.undo_stack);
    undo_stack.execute(command, document);
    document.undo_stack = undo_stack;
}

/// Whether a brush stroke changed the layer: its mask bytes (or whether it
/// has a mask) or, for a raster layer that stayed raster, its pixel bytes.
pub open spec fn paint_state_changed(before: LayerView, after: LayerView) -> bool {
    let mask_changed = match (before.mask, after.mask) {
        (Some(m), Some(n)) => m.data != n.data,
        (None, None) => false,
        _ => true,
    };
    let pixels_changed = match (before.kind, after.kind) {
        (LayerKindView::Raster(r), LayerKindView::Raster(s)) => r.data != s.data,
        _ => false,
    };
    mask_changed || pixels_changed
}

/// Whether two byte buffers hold the same bytes.
fn bytes_equal(a: &Vec<u8>, b: &Vec<u8>) -> (same: bool)
    ensures
        same == (a@ == b@),
{
    if a.len() != b.len() {
        return false;
    }
    let mut i: usize = 0;
    while i < a.len()
        invariant
            a@.len() == b@.len(),
            i <= a@.len(),
            forall|j: int| 0 <= j < i ==> a@[j] == b@[j],
        decreases a@.len() - i,
    {
        if a[i] != b[i] {
            return false;
        }
        i += 1;
    }
    assert(a@ =~= b@);
    true
}

/// Whether a brush stroke changed the layer (see `paint_state_changed`).
pub fn layer_paint_state_changed(before: &Layer, after: &Layer) -> (changed: bool)
    ensures
        changed == paint_state_changed(before@, after@),
{
    let mask_changed = match (&before.mask, &after.mask) {
        (Some(m), Some(n)) => !bytes_equal(&m.data, &n.data),
        (None, None) => false,
        _ => true,
    };
    let pixels_changed = match (&before.kind, &after.kind) {
        (LayerKind::Raster(r), LayerKind::Raster(s)) => !bytes_equal(&r.data, &s.data),
        _ => false,
    };
    mask_changed || pixels_changed
}

/// What committing a stroke records: the layer as it was before the stroke
/// is the old state (at its position in the stack), the painted layer the
/// new one.
pub open spec fn stroke_command(before: LayerView, after: LayerView, position: int) -> CommandView {
    CommandView::ModifyLayer { layer_id: before.id, position, old_state: Some(before), new_state: after }
}

/// Records a finished brush stroke as one undoable change. `before` is the
/// layer as it was when the stroke began; the stroke has already painted
/// the document's layer with the same identifier. When that layer changed,
/// the stroke is recorded in the history (the document keeps the painted
/// layer, one revision later and marked changed); otherwise nothing
/// happens.
pub fn commit_prepaint_layer_state(document: &mut Document, before: Layer)
    requires
        old(document).revision + 2 <= u64::MAX,
    ensures
        match layer_position(old(document)@.layers, before.id) {
            Some(i) => if paint_state_changed(before@, old(document)@.layers[i]) {
                &&& final(document)@ == touched(old(document)@)
                &&& final(document).undo_stack@ == history_after_execute(
                    old(document).undo_stack@,
                    stroke_command(before@, old(document)@.layers[i], i),
                )
            } else {
                &&& final(document)@ == old(document)@
                &&& final(document).undo_stack@ == old(document).undo_stack@
            },
            None => {
                &&& final(document)@ == old(document)@
                &&& final(document).undo_stack@ == old(document).undo_stack@
            },
        },
{
    let layer_id = before.id;
    let index = match document.layer_index(layer_id) {
        Some(i) => i,
        None => return,
    };
    let after = document.layers[index].clone();
    if !layer_paint_state_changed(&before, &after) {
        return;
    }
    let ghost painted = document@;
    let ghost before_view = before@;
    let mut previous = before;
    std::mem::swap(&mut document.layers[index], &mut previous);
    proof {
        assert(document@.layers =~= painted.layers.update(index as int, before_view));
        assert(crate::document::is_first_layer_with_id(document@.layers, layer_id, index as int));
        crate::document::lemma_layer_position_is(document@.layers, layer_id, index as int);
    }
    execute_document_command(document, Command::ModifyLayer(ModifyLayerCommand::new(layer_id, after)));
    proof {
        assert(document@.layers =~= painted.layers);
    }
}

/// The position of the active layer when there is a layer below it to
/// merge into.
pub open spec fn merge_down_position(d: DocumentView) -> Option<int> {
    match d.active_layer_id {
        Some(id) => match layer_position(d.layers, id) {
            Some(i) => if i > 0 {
                Some(i)
            } else {
                None
            },
            None => None,
        },
        None => None,
    }
}

fn merge_down_index(document: &Document) -> (index: Option<usize>)
    ensures
        match merge_down_position(document@) {
            Some(i) => index matches Some(k) && k as int == i,
            None => index is None,
        },
{
    let active_id = match document.active_layer_id {
        Some(id) => id,
        None => return None,
    };
    match document.layer_index(active_id) {
        Some(i) => if i > 0 {
            Some(i)
        } else {
            None
        },
        None => None,
    }
}

/// What merging the active layer down composites: a new document with the
/// same canvas holding only the layer below the active one and the active
/// layer, in that order.
pub fn merge_down_pair(document: &Document) -> (pair: Option<Document>)
    ensures
        match merge_down_position(document@) {
            Some(i) => pair matches Some(t) && t@ == (DocumentView {
                layers: seq![document@.layers[i - 1], document@.layers[i]],
                ..new_document_view(document.canvas_width, document.canvas_height)
            }) && t.undo_stack@ == empty_history(),
            None => pair is None,
        },
{
    let index = match merge_down_index(document) {
        Some(i) => i,
        None => return None,
    };
    let mut temp = Document::new(document.canvas_width, document.canvas_height);
    let bottom = document.layers[index - 1].clone();
    let top = document.layers[index].clone();
    temp.layers = vec![bottom, top];
    assert(temp@.layers =~= seq![document@.layers[index - 1], document@.layers[index as int]]);
    Some(temp)
}

/// Where channel `c` of an RGBA pixel sits in a BGRA pixel.
pub open spec fn bgra_channel(c: int) -> int {
    if c == 0 {
        2
    } else if c == 2 {
        0
    } else {
        c
    }
}

/// The whole BGRA pixels of `pixels` reordered as RGBA; a trailing partial
/// pixel is dropped.
pub open spec fn bgra_as_rgba(pixels: Seq<u8>) -> Seq<u8> {
    Seq::new(((pixels.len() / 4) * 4) as nat, |k: int| pixels[(k / 4) * 4 + bgra_channel(k % 4)])
}

/// Reorders whole BGRA pixels as RGBA.
pub fn bgra_to_rgba(pixels: &[u8]) -> (rgba: Vec<u8>)
    ensures
        rgba@ == bgra_as_rgba(pixels@),
{
    let len = pixels.len();
    let count = len / 4;
    let mut rgba: Vec<u8> = Vec::new();
    let mut q: usize = 0;
    while q < count
        invariant
            len == pixels@.len(),
            count == len / 4,
            q <= count,
            rgba@.len() == 4 * q,
            forall|j: int| 0 <= j < 4 * q ==> rgba@[j] == bgra_as_rgba(pixels@)[j],
        decreases count - q,
    {
        let i = 4 * q;
        rgba.push(pixels[i + 2]);
        rgba.push(pixels[i + 1]);
        rgba.push(pixels[i]);
        rgba.push(pixels[i + 3]);
        proof {
            assert forall|j: int| 4 * q <= j < 4 * q + 4 implies rgba@[j] == bgra_as_rgba(pixels@)[j] by {
                crate::image::transform::lemma_index_split(j, 4, q as int, j - 4 * q);
            }
        }
        q += 1;
    }
    assert(rgba@ =~= bgra_as_rgba(pixels@));
    rgba
}

/// The layer a merge produces: a visible, opaque, unlocked raster layer at
/// offset (0, 0) without a mask.
pub open spec fn merged_layer(id: LayerId, name: Seq<char>, frame: FlattenedView) -> LayerView {
    LayerView {
        id,
        name,
        visible: true,
        opacity_bits: OPAQUE_BITS,
        blend_mode: BlendMode::Normal,
        mask: None,
        kind: LayerKindView::Raster(
            RasterView {
                width: frame.width,
                height: frame.height,
                data: bgra_as_rgba(frame.pixels_bgra),
                offset_x: 0,
                offset_y: 0,
            },
        ),
        locked: false,
    }
}

/// The name of a merge of `top` into `bottom`: "bottom + top".
pub open spec fn merged_name(bottom: Seq<char>, top: Seq<char>) -> Seq<char> {
    bottom + seq![' ', '+', ' '] + top
}

/// The document after merging the layer at `i` into the one below: the
/// merged layer (identifier `id`) takes the lower one's place and becomes
/// active, the upper one goes; one revision later, marked changed.
pub open spec fn merged_down_view(d: DocumentView, i: int, frame: FlattenedView, id: LayerId) -> DocumentView {
    DocumentView {
        layers: d.layers.update(
            i - 1,
            merged_layer(id, merged_name(d.layers[i - 1].name, d.layers[i].name), frame),
        ).remove(i),
        active_layer_id: Some(id),
        revision: (d.revision + 1) as u64,
        has_unsaved_changes: true,
        ..d
    }
}

/// Merges the active layer into the layer below it, given `flattened`, the
/// composite of the two (as `merge_down_pair` lays them out). The result is
/// a new document whose merged layer has a fresh identifier; `None` when
/// there is no active layer or nothing below it.
pub fn merged_down_document(document: &Document, flattened: &FlattenedFrame) -> (next: Option<Document>)
    requires
        document.revision < u64::MAX,
    ensures
        match merge_down_position(document@) {
            Some(i) => next matches Some(n) && n@ == merged_down_view(
                document@,
                i,
                flattened@,
                n@.layers[i - 1].id,
            ) && n.undo_stack@ == empty_history() && n@.layers[i - 1].id.value() & UUID_VERSION_VARIANT_MASK
                == UUID_V4_MARKER,
            None => next is None,
        },
{
    let index = match merge_down_index(document) {
        Some(i) => i,
        None => return None,
    };
    let bottom = index - 1;
    let rgba = bgra_to_rgba(flattened.pixels_bgra.as_slice());
    let mut name = document.layers[bottom].name.clone();
    name.append(" + ");
    name.append(document.layers[index].name.as_str());
    proof {
        reveal_strlit(" + ");
        assert(name@ =~= merged_name(document@.layers[bottom as int].name, document@.layers[index as int].name));
    }
    let mut merged = Layer::new_raster(name.as_str(), flattened.width, flattened.height, rgba);
    let merged_id = merged.id;
    let mut next = document.clone();
    std::mem::swap(&mut next.layers[bottom], &mut merged);
    next.layers.remove(index);
    next.active_layer_id = Some(merged_id);
    next.revision += 1;
    next.has_unsaved_changes = true;
    proof {
        let expected = merged_down_view(document@, index as int, flattened@, merged_id);
        assert(next@.layers =~= expected.layers);
    }
    Some(next)
}

/// Undoing a committed stroke puts the painted layer back as it was before
/// the stroke; apart from the revision count (one for the commit, one for
/// the undo) nothing else changes.
pub proof fn law_undoing_a_stroke_restores_the_layer(d: DocumentView, before: LayerView, i: int)
    requires
        layer_position(d.layers, before.id) == Some(i),
    ensures
        undo_command(stroke_command(before, d.layers[i], i), touched(d)).1 == (DocumentView {
            layers: d.layers.update(i, before),
            revision: ((d.revision + 1) as u64 + 1) as u64,
            has_unsaved_changes: true,
            ..d
        }),
{
    let committed = touched(d);
    assert(committed.layers == d.layers);
}

/// Merging down at position `i` takes exactly the two layers at `i - 1` and
/// `i` out and puts the merged layer where the lower one was: the layers
/// below stay in place, every layer above moves down one position in the
/// same order, and the merged layer is a visible, opaque, normal raster of
/// the flattened pair named "lower + upper", which becomes active.
pub proof fn law_merge_down_keeps_other_layers(d: DocumentView, i: int, frame: FlattenedView, id: LayerId)
    requires
        1 <= i < d.layers.len(),
    ensures
        merged_down_view(d, i, frame, id).layers.len() == d.layers.len() - 1,
        forall|k: int| 0 <= k < i - 1 ==> #[trigger] merged_down_view(d, i, frame, id).layers[k] == d.layers[k],
        forall|k: int|
            i <= k < d.layers.len() - 1 ==> #[trigger] merged_down_view(d, i, frame, id).layers[k] == d.layers[k
                + 1],
        merged_down_view(d, i, frame, id).layers[i - 1].id == id,
        merged_down_view(d, i, frame, id).layers[i - 1].name == d.layers[i - 1].name + seq![' ', '+', ' ']
            + d.layers[i].name,
        merged_down_view(d, i, frame, id).layers[i - 1].visible,
        merged_down_view(d, i, frame, id).layers[i - 1].mask is None,
        merged_down_view(d, i, frame, id).layers[i - 1].kind matches LayerKindView::Raster(r) && r.width
            == frame.width && r.height == frame.height && r.offset_x == 0 && r.offset_y == 0 && r.data
            == bgra_as_rgba(frame.pixels_bgra),
        merged_down_view(d, i, frame, id).active_layer_id == Some(id),
        merged_down_view(d, i, frame, id).canvas_width == d.canvas_width,
        merged_down_view(d, i, frame, id).canvas_height == d.canvas_height,
{
}

/// Reordering BGRA as RGBA swaps the first and third byte of every whole
/// pixel and keeps the second and the alpha byte, pixel by pixel.
pub proof fn law_bgra_as_rgba_per_pixel(pixels: Seq<u8>, p: int)
    requires
        0 <= p,
        4 * p + 3 < pixels.len(),
    ensures
        4 * p + 3 < bgra_as_rgba(pixels).len(),
        bgra_as_rgba(pixels)[4 * p] == pixels[4 * p + 2],
        bgra_as_rgba(pixels)[4 * p + 1] == pixels[4 * p + 1],
        bgra_as_rgba(pixels)[4 * p + 2] == pixels[4 * p],
        bgra_as_rgba(pixels)[4 * p + 3] == pixels[4 * p + 3],
{
    let n = pixels.len() as int;
    assert(4 * p + 3 < (n / 4) * 4) by (nonlinear_arith)
        requires
            0 <= p,
            4 * p + 3 < n,
    ;
    assert((4 * p) / 4 == p && (4 * p + 1) / 4 == p && (4 * p + 2) / 4 == p && (4 * p + 3) / 4 == p)
        by (nonlinear_arith)
        requires
            0 <= p,
    ;
    assert((4 * p) % 4 == 0 && (4 * p + 1) % 4 == 1 && (4 * p + 2) % 4 == 2 && (4 * p + 3) % 4 == 3)
        by (nonlinear_arith)
        requires
            0 <= p,
    ;
}

} // verus!
