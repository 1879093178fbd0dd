//! Whole-document geometry edits: image resize, canvas resize, quarter
//! turn and mirroring. Each applies one pixel transform to every raster
//! layer and every layer mask, and counts one revision.

use vstd::prelude::*;

use crate::document::layer::{LayerKindView, LayerView, RasterView};
use crate::document::mask::MaskView;
use crate::document::{Document, DocumentView, Layer, LayerKind, Mask, RasterLayer};
use crate::image::transform::{
    fit_fits, fit_mask_to_canvas, fit_rgba_to_canvas, fitted_to_canvas, flip_mask_horizontal,
    flip_mask_vertical, flip_rgba_horizontal, flip_rgba_vertical, flipped_horizontal,
    flipped_vertical, grid_fits, resize_fits, resize_mask_nearest, resize_rgba_nearest,
    resized_nearest, rotate_mask_clockwise, rotate_rgba_clockwise, rotated_clockwise,
};

verus! {

/// One geometry edit, applied alike to every raster layer and mask.
#[derive(Clone, Copy, PartialEq, Eq, Debug)]
pub enum LayerEdit {
    /// Nearest-neighbour scaling of the pixels to the given size.
    ResizePixels { width: u32, height: u32 },
    /// Placing the pixels on a canvas of the given size, anchored top-left.
    FitCanvas { width: u32, height: u32 },
    /// A quarter turn clockwise.
    RotateClockwise,
    /// Mirroring left to right.
    FlipHorizontal,
    /// Mirroring top to bottom.
    FlipVertical,
}

/// Pixel bytes and size of a buffer with `channels` bytes per pixel after
/// the edit; `fill` stands for pixels the edit has no source for.
pub open spec fn edited_pixels(
    edit: LayerEdit,
    data: Seq<u8>,
    width: u32,
    height: u32,
    channels: int,
    fill: u8,
) -> (Seq<u8>, u32, u32) {
    match edit {
        LayerEdit::ResizePixels { width: w, height: h } => (
            resized_nearest(data, width, height, w, h, channels, fill),
            w,
            h,
        ),
        LayerEdit::FitCanvas { width: w, height: h } => (
            fitted_to_canvas(data, width, height, w, h, channels, fill),
            w,
            h,
        ),
        LayerEdit::RotateClockwise => (rotated_clockwise(data, width, height, channels, fill), height, width),
        LayerEdit::FlipHorizontal => (flipped_horizontal(data, width, height, channels), width, height),
        LayerEdit::FlipVertical => (flipped_vertical(data, width, height, channels), width, height),
    }
}

/// The edit can run on a buffer of this size without leaving the integer
/// ranges it computes in, and (for mirroring) the buffer holds every pixel.
pub open spec fn edit_fits(edit: LayerEdit, data: Seq<u8>, width: u32, height: u32, channels: int) -> bool {
    match edit {
        LayerEdit::ResizePixels { width: w, height: h } => resize_fits(width, height, w, h, channels),
        LayerEdit::FitCanvas { width: w, height: h } => fit_fits(width, height, w, h, channels),
        LayerEdit::RotateClockwise => grid_fits(width, height, channels),
        LayerEdit::FlipHorizontal | LayerEdit::FlipVertical => width * height * channels <= data.len(),
    }
}

/// A raster layer after the edit; transparent black stands for missing pixels.
pub open spec fn edited_raster(edit: LayerEdit, r: RasterView) -> RasterView {
    let e = edited_pixels(edit, r.data, r.width, r.height, 4, 0u8);
    RasterView { data: e.0, width: e.1, height: e.2, ..r }
}

/// A mask after the edit; 255 (kept) stands for missing pixels.
pub open spec fn edited_mask(edit: LayerEdit, m: MaskView) -> MaskView {
    let e = edited_pixels(edit, m.data, m.width, m.height, 1, 255u8);
    MaskView { data: e.0, width: e.1, height: e.2, ..m }
}

/// A layer after the edit: its raster content and its mask change, nothing
/// else does.
pub open spec fn edited_layer(edit: LayerEdit, l: LayerView) -> LayerView {
    LayerView {
        kind: match l.kind {
            LayerKindView::Raster(r) => LayerKindView::Raster(edited_raster(edit, r)),
            other => other,
        },
        mask: match l.mask {
            Some(m) => Some(edited_mask(edit, m)),
            None => None,
        },
        ..l
    }
}

/// The edit fits the layer's raster content and its mask.
pub open spec fn layer_edit_fits(edit: LayerEdit, l: LayerView) -> bool {
    &&& (l.kind matches LayerKindView::Raster(r) ==> edit_fits(edit, r.data, r.width, r.height, 4))
    &&& (l.mask matches Some(m) ==> edit_fits(edit, m.data, m.width, m.height, 1))
}

/// The edit fits every layer of the document.
pub open spec fn document_edit_fits(edit: LayerEdit, d: DocumentView) -> bool {
    forall|i: int| 0 <= i < d.layers.len() ==> layer_edit_fits(edit, #[trigger] d.layers[i])
}

/// The document after the edit on every layer: one revision later, with
/// the canvas size given.
pub open spec fn edited_document(edit: LayerEdit, d: DocumentView, width: u32, height: u32) -> DocumentView {
    DocumentView {
        canvas_width: width,
        canvas_height: height,
        layers: d.layers.map_values(|l: LayerView| edited_layer(edit, l)),
        revision: (d.revision + 1) as u64,
        ..d
    }
}

fn edit_buffer(edit: LayerEdit, data: &[u8], width: u32, height: u32, mask: bool) -> (out: (Vec<u8>, u32, u32))
    requires
        edit_fits(edit, data@, width, height, if mask { 1 } else { 4 }),
    ensures
        (out.0@, out.1, out.2) == edited_pixels(
            edit,
            data@,
            width,
            height,
            if mask { 1 } else { 4 },
            if mask { 255u8 } else { 0u8 },
        ),
{
    match edit {
        LayerEdit::ResizePixels { width: w, height: h } => {
            let out = if mask {
                resize_mask_nearest(data, width, height, w, h)
            } else {
                resize_rgba_nearest(data, width, height, w, h)
            };
            (out, w, h)
        },
        LayerEdit::FitCanvas { width: w, height: h } => {
            let out = if mask {
                fit_mask_to_canvas(data, width, height, w, h)
            } else {
                fit_rgba_to_canvas(data, width, height, w, h)
            };
            (out, w, h)
        },
        LayerEdit::RotateClockwise => {
            let out = if mask {
                rotate_mask_clockwise(data, width, height)
            } else {
                rotate_rgba_clockwise(data, width, height)
            };
            (out, height, width)
        },
        LayerEdit::FlipHorizontal => {
            let out = if mask {
                flip_mask_horizontal(data, width, height)
            } else {
                flip_rgba_horizontal(data, width, height)
            };
            (out, width, height)
        },
        LayerEdit::FlipVertical => {
            let out = if mask {
                flip_mask_vertical(data, width, height)
            } else {
                flip_rgba_vertical(data, width, height)
            };
            (out, width, height)
        },
    }
}

/// The layer with the edit applied to its raster content and its mask.
pub fn edit_layer(edit: LayerEdit, layer: Layer) -> (out: Layer)
    requires
        layer_edit_fits(edit, layer@),
    ensures
        out@ == edited_layer(edit, layer@),
{
    let Layer { id, name, visible, opacity_bits, blend_mode, mask, kind, locked } = layer;
    let kind = match kind {
        LayerKind::Raster(r) => {
            let (data, width, height) = edit_buffer(edit, r.data.as_slice(), r.width, r.height, false);
            LayerKind::Raster(RasterLayer { width, height, data, offset_x: r.offset_x, offset_y: r.offset_y })
        },
        other => other,
    };
    let mask = match mask {
        Some(m) => {
            let (data, width, height) = edit_buffer(edit, m.data.as_slice(), m.width, m.height, true);
            Some(
                Mask {
                    id: m.id,
                    name: m.name,
                    visible: m.visible,
                    data,
                    width,
                    height,
                    kind: m.kind,
                    linked: m.linked,
                    enabled: m.enabled,
                    editing: m.editing,
                    show_on_canvas: m.show_on_canvas,
                },
            )
        },
        None => None,
    };
    Layer { id, name, visible, opacity_bits, blend_mode, mask, kind, locked }
}

/// Applies the edit to every layer in place, sets the canvas size and
/// counts one revision.
fn edit_document(document: &mut Document, edit: LayerEdit, width: u32, height: u32)
    requires
        document_edit_fits(edit, old(document)@),
        old(document).revision < u64::MAX,
    ensures
        final(document).undo_stack@ == old(document).undo_stack@,
        final(document)@ == edited_document(edit, old(document)@, width, height),
{
    let ghost start = document@.layers;
    let n = document.layers.len();
    let mut i: usize = 0;
    while i < n
        invariant
            n == start.len(),
            document.layers@.len() == n,
            i <= n,
            document_edit_fits(edit, old(document)@),
            start == old(document)@.layers,
            document.undo_stack@ == old(document).undo_stack@,
            document.revision == old(document).revision,
            document.revision < u64::MAX,
            document@ == (DocumentView { layers: document@.layers, ..old(document)@ }),
            forall|j: int| 0 <= j < i ==> document.layers@[j]@ == edited_layer(edit, start[j]),
            forall|j: int| i <= j < n ==> document.layers@[j]@ == start[j],
        decreases n - i,
    {
        let layer = document.layers.remove(i);
        assert(layer@ == start[i as int]);
        let edited = edit_layer(edit, layer);
        document.layers.insert(i, edited);
        proof {
            assert forall|j: int| 0 <= j < i + 1 implies document.layers@[j]@ == edited_layer(edit, start[j]) by {
            }
            assert forall|j: int| i + 1 <= j < n implies document.layers@[j]@ == start[j] by {
            }
        }
        i += 1;
    }
    document.canvas_width = width;
    document.canvas_height = height;
    document.revision += 1;
    assert(document@.layers =~= start.map_values(|l: LayerView| edited_layer(edit, l)));
}

/// Scales every raster layer and mask to `width` x `height` (nearest
/// neighbour); the canvas takes that size, each side at least 1.
pub fn resize_document_pixels(document: &mut Document, width: u32, height: u32)
    requires
        document_edit_fits(LayerEdit::ResizePixels { width, height }, old(document)@),
        old(document).revision < u64::MAX,
    ensures
        final(document).undo_stack@ == old(document).undo_stack@,
        final(document)@ == edited_document(
            LayerEdit::ResizePixels { width, height },
            old(document)@,
            if width == 0 { 1 } else { width },
            if height == 0 { 1 } else { height },
        ),
{
    let canvas_w = if width == 0 { 1 } else { width };
    let canvas_h = if height == 0 { 1 } else { height };
    edit_document(document, LayerEdit::ResizePixels { width, height }, canvas_w, canvas_h);
}

/// Puts every raster layer and mask on a canvas of `width` x `height`
/// (each side at least 1), anchored top-left.
pub fn resize_document_canvas(document: &mut Document, width: u32, height: u32)
    requires
        document_edit_fits(
            LayerEdit::FitCanvas {
                width: if width == 0 { 1 } else { width },
                height: if height == 0 { 1 } else { height },
            },
            old(document)@,
        ),
        old(document).revision < u64::MAX,
    ensures
        final(document).undo_stack@ == old(document).undo_stack@,
        final(document)@ == edited_document(
            LayerEdit::FitCanvas {
                width: if width == 0 { 1 } else { width },
                height: if height == 0 { 1 } else { height },
            },
            old(document)@,
            if width == 0 { 1 } else { width },
            if height == 0 { 1 } else { height },
        ),
{
    let width = if width == 0 { 1 } else { width };
    let height = if height == 0 { 1 } else { height };
    edit_document(document, LayerEdit::FitCanvas { width, height }, width, height);
}

/// Turns every raster layer and mask, and the canvas, a quarter clockwise.
pub fn rotate_document_clockwise(document: &mut Document)
    requires
        document_edit_fits(LayerEdit::RotateClockwise, old(document)@),
        old(document).revision < u64::MAX,
    ensures
        final(document).undo_stack@ == old(document).undo_stack@,
        final(document)@ == edited_document(
            LayerEdit::RotateClockwise,
            old(document)@,
            old(document).canvas_height,
            old(document).canvas_width,
        ),
{
    let width = document.canvas_height;
    let height = document.canvas_width;
    edit_document(document, LayerEdit::RotateClockwise, width, height);
}

/// Mirrors every raster layer and mask left to right.
pub fn flip_document_horizontal(document: &mut Document)
    requires
        document_edit_fits(LayerEdit::FlipHorizontal, old(document)@),
        old(document).revision < u64::MAX,
    ensures
        final(document).undo_stack@ == old(document).undo_stack@,
        final(document)@ == edited_document(
            LayerEdit::FlipHorizontal,
            old(document)@,
            old(document).canvas_width,
            old(document).canvas_height,
        ),
{
    let width = document.canvas_width;
    let height = document.canvas_height;
    edit_document(document, LayerEdit::FlipHorizontal, width, height);
}

/// Mirrors every raster layer and mask top to bottom.
pub fn flip_document_vertical(document: &mut Document)
    requires
        document_edit_fits(LayerEdit::FlipVertical, old(document)@),
        old(document).revision < u64::MAX,
    ensures
        final(document).undo_stack@ == old(document).undo_stack@,
        final(document)@ == edited_document(
            LayerEdit::FlipVertical,
            old(document)@,
            old(document).canvas_width,
            old(document).canvas_height,
        ),
{
    let width = document.canvas_width;
    let height = document.canvas_height;
    edit_document(document, LayerEdit::FlipVertical, width, height);
}

fn at_least_one_u128(v: u32) -> (r: u128)
    ensures
        r == crate::image::transform::at_least_one(v),
{
    if v == 0 {
        1
    } else {
        v as u128
    }
}

/// `a * b * c` for values of at most 32 bits each.
fn product3(a: u128, b: u128, c: u128) -> (p: u128)
    requires
        a <= 0x1_0000_0000,
        b <= 0x1_0000_0000,
        c <= 4,
    ensures
        p == a * b * c,
{
    assert(a * b <= 0x1_0000_0000 * 0x1_0000_0000 && a * b * c <= 0x1_0000_0000 * 0x1_0000_0000 * 4) by (nonlinear_arith)
        requires
            a <= 0x1_0000_0000,
            b <= 0x1_0000_0000,
            c <= 4,
    ;
    let ab = a * b;
    ab * c
}

/// Whether the edit fits a buffer of this size (see `edit_fits`).
fn buffer_edit_fits(edit: LayerEdit, data_len: usize, width: u32, height: u32, channels: u128) -> (fits: bool)
    requires
        channels == 1 || channels == 4,
    ensures
        fits == edit_fits(edit, Seq::new(data_len as nat, |i: int| 0u8), width, height, channels as int),
{
    let u32_max = u32::MAX as u128;
    let usize_max = usize::MAX as u128;
    match edit {
        LayerEdit::ResizePixels { width: w, height: h } => {
            let old_bytes = product3(at_least_one_u128(width), at_least_one_u128(height), channels);
            let new_bytes = product3(at_least_one_u128(w), at_least_one_u128(h), channels);
            old_bytes <= u32_max + channels && new_bytes <= u32_max + channels && new_bytes <= usize_max
        },
        LayerEdit::FitCanvas { width: w, height: h } => {
            let copy_w = if width <= w { width } else { w } as u128;
            let copy_h = if height <= h { height } else { h } as u128;
            let canvas = product3(w as u128, h as u128, channels);
            let rows_ok = if copy_h > 0 {
                product3(copy_h - 1, width as u128, channels) <= u32_max && product3(copy_h - 1, w as u128, channels)
                    <= u32_max
            } else {
                true
            };
            canvas <= usize_max && copy_w * channels <= u32_max && rows_ok
        },
        LayerEdit::RotateClockwise => {
            let bytes = product3(width as u128, height as u128, channels);
            bytes <= u32_max + channels && bytes <= usize_max
        },
        LayerEdit::FlipHorizontal | LayerEdit::FlipVertical => {
            product3(width as u128, height as u128, channels) <= data_len as u128
        },
    }
}

/// Whether the edit fits every layer of the document, so that it can run.
pub fn edit_fits_document(document: &Document, edit: LayerEdit) -> (fits: bool)
    ensures
        fits == document_edit_fits(edit, document@),
{
    let mut i: usize = 0;
    while i < document.layers.len()
        invariant
            i <= document.layers@.len(),
            forall|j: int| 0 <= j < i ==> layer_edit_fits(edit, #[trigger] document@.layers[j]),
        decreases document.layers@.len() - i,
    {
        let layer = &document.layers[i];
        assert(document@.layers[i as int] == layer@);
        let raster_ok = match &layer.kind {
            LayerKind::Raster(r) => buffer_edit_fits(edit, r.data.len(), r.width, r.height, 4),
            _ => true,
        };
        let mask_ok = match &layer.mask {
            Some(m) => buffer_edit_fits(edit, m.data.len(), m.width, m.height, 1),
            None => true,
        };
        if !(raster_ok && mask_ok) {
            return false;
        }
        i += 1;
    }
    true
}

/// The layer's raster and mask hold exactly their pixels.
pub open spec fn layer_buffers_whole(l: LayerView) -> bool {
    &&& (l.kind matches LayerKindView::Raster(r) ==> r.data.len() == r.width * r.height * 4)
    &&& (l.mask matches Some(m) ==> m.data.len() == m.width * m.height)
}

/// Every raster and mask of the document holds exactly its pixels (as a
/// validated project's do).
pub open spec fn document_buffers_whole(d: DocumentView) -> bool {
    forall|i: int| 0 <= i < d.layers.len() ==> layer_buffers_whole(#[trigger] d.layers[i])
}

proof fn lemma_flip_layer_twice(l: LayerView, edit: LayerEdit)
    requires
        edit == LayerEdit::FlipHorizontal || edit == LayerEdit::FlipVertical,
        layer_edit_fits(edit, l),
    ensures
        edited_layer(edit, edited_layer(edit, l)) == l,
{
    if let LayerKindView::Raster(r) = l.kind {
        if edit == LayerEdit::FlipHorizontal {
            crate::image::transform::law_flip_horizontal_twice(r.data, r.width, r.height, 4);
        } else {
            crate::image::transform::law_flip_vertical_twice(r.data, r.width, r.height, 4);
        }
        assert(edited_raster(edit, edited_raster(edit, r)) == r);
    }
    if let Some(m) = l.mask {
        if edit == LayerEdit::FlipHorizontal {
            crate::image::transform::law_flip_horizontal_twice(m.data, m.width, m.height, 1);
        } else {
            crate::image::transform::law_flip_vertical_twice(m.data, m.width, m.height, 1);
        }
        assert(edited_mask(edit, edited_mask(edit, m)) == m);
    }
}

/// Mirroring a document twice (either way) gives its layers back; only the
/// revision count moves on.
pub proof fn law_flip_document_twice(d: DocumentView, edit: LayerEdit)
    requires
        edit == LayerEdit::FlipHorizontal || edit == LayerEdit::FlipVertical,
        document_edit_fits(edit, d),
    ensures
        edited_document(edit, edited_document(edit, d, d.canvas_width, d.canvas_height), d.canvas_width, d.canvas_height)
            == (DocumentView { revision: ((d.revision + 1) as u64 + 1) as u64, ..d }),
{
    let once = edited_document(edit, d, d.canvas_width, d.canvas_height);
    let twice = edited_document(edit, once, d.canvas_width, d.canvas_height);
    assert forall|i: int| 0 <= i < d.layers.len() implies twice.layers[i] == d.layers[i] by {
        lemma_flip_layer_twice(d.layers[i], edit);
    }
    assert(twice.layers =~= d.layers);
}

proof fn lemma_rotate_layer_four_times(l: LayerView)
    requires
        layer_buffers_whole(l),
    ensures
        edited_layer(
            LayerEdit::RotateClockwise,
            edited_layer(
                LayerEdit::RotateClockwise,
                edited_layer(LayerEdit::RotateClockwise, edited_layer(LayerEdit::RotateClockwise, l)),
            ),
        ) == l,
{
    let e = LayerEdit::RotateClockwise;
    if let LayerKindView::Raster(r) = l.kind {
        crate::image::transform::law_rotate_four_times(r.data, r.width, r.height, 4, 0u8);
        assert(edited_raster(e, edited_raster(e, edited_raster(e, edited_raster(e, r)))) == r);
    }
    if let Some(m) = l.mask {
        crate::image::transform::law_rotate_four_times(m.data, m.width, m.height, 1, 255u8);
        assert(edited_mask(e, edited_mask(e, edited_mask(e, edited_mask(e, m)))) == m);
    }
}

/// Turning a document whose buffers hold exactly their pixels a quarter
/// clockwise four times gives it back, canvas size included; only the
/// revision count moves on.
pub proof fn law_rotate_document_four_times(d: DocumentView)
    requires
        document_buffers_whole(d),
    ensures
        ({
            let e = LayerEdit::RotateClockwise;
            let r1 = edited_document(e, d, d.canvas_height, d.canvas_width);
            let r2 = edited_document(e, r1, r1.canvas_height, r1.canvas_width);
            let r3 = edited_document(e, r2, r2.canvas_height, r2.canvas_width);
            let r4 = edited_document(e, r3, r3.canvas_height, r3.canvas_width);
            r4 == DocumentView { revision: ((((d.revision + 1) as u64 + 1) as u64 + 1) as u64 + 1) as u64, ..d }
        }),
{
    let e = LayerEdit::RotateClockwise;
    let r1 = edited_document(e, d, d.canvas_height, d.canvas_width);
    let r2 = edited_document(e, r1, r1.canvas_height, r1.canvas_width);
    let r3 = edited_document(e, r2, r2.canvas_height, r2.canvas_width);
    let r4 = edited_document(e, r3, r3.canvas_height, r3.canvas_width);
    assert forall|i: int| 0 <= i < d.layers.len() implies r4.layers[i] == d.layers[i] by {
        lemma_rotate_layer_four_times(d.layers[i]);
    }
    assert(r4.layers =~= d.layers);
}

} // verus!
