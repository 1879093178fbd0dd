use vstd::prelude::*;

use crate::document::layer::LayerKindView;
use crate::document::layer::LayerView;
use crate::document::layer::RasterView;
use crate::document::mask::MaskView;
use crate::document::BlendMode;
use crate::document::Document;
use crate::document::DocumentView;
use crate::document::Layer;
use crate::document::LayerKind;

verus! {

/// The composited canvas in Cairo's byte order (B, G, R, A per pixel).
#[derive(Debug)]
pub struct FlattenedFrame {
    pub width: u32,
    pub height: u32,
    pub pixels_bgra: Vec<u8>,
}

/// One layer ready to composite: BGRA pixels with the mask already in the
/// alpha channel. The opacity is the `f32` bit pattern of the layer's.
#[derive(Debug)]
pub struct RenderLayerSnapshot {
    pub width: u32,
    pub height: u32,
    pub opacity_bits: u32,
    pub blend_mode: BlendMode,
    pub pixels_bgra: Vec<u8>,
}

/// The layers to composite, bottom first, and the canvas they go on.
#[derive(Debug)]
pub struct RenderFrameSnapshot {
    pub revision: u64,
    pub canvas_width: u32,
    pub canvas_height: u32,
    pub layers: Vec<RenderLayerSnapshot>,
}

/// A rectangle of canvas pixels.
#[derive(Debug, Clone, Copy, PartialEq, Eq, Structural)]
pub struct PixelRect {
    pub x: u32,
    pub y: u32,
    pub width: u32,
    pub height: u32,
}

pub struct FlattenedView {
    pub width: u32,
    pub height: u32,
    pub pixels_bgra: Seq<u8>,
}

impl View for FlattenedFrame {
    type V = FlattenedView;

    open spec fn view(&self) -> FlattenedView {
        FlattenedView { width: self.width, height: self.height, pixels_bgra: self.pixels_bgra@ }
    }
}

pub struct RenderLayerView {
    pub width: u32,
    pub height: u32,
    pub opacity_bits: u32,
    pub blend_mode: BlendMode,
    pub pixels_bgra: Seq<u8>,
}

impl View for RenderLayerSnapshot {
    type V = RenderLayerView;

    open spec fn view(&self) -> RenderLayerView {
        RenderLayerView {
            width: self.width,
            height: self.height,
            opacity_bits: self.opacity_bits,
            blend_mode: self.blend_mode,
            pixels_bgra: self.pixels_bgra@,
        }
    }
}

pub struct RenderFrameView {
    pub revision: u64,
    pub canvas_width: u32,
    pub canvas_height: u32,
    pub layers: Seq<RenderLayerView>,
}

impl View for RenderFrameSnapshot {
    type V = RenderFrameView;

    open spec fn view(&self) -> RenderFrameView {
        RenderFrameView {
            revision: self.revision,
            canvas_width: self.canvas_width,
            canvas_height: self.canvas_height,
            layers: self.layers@.map_values(|l: RenderLayerSnapshot| l@),
        }
    }
}

/// The smallest rectangle covering both, with right and bottom edges
/// computed with saturation at `u32::MAX`.
pub open spec fn rect_union(a: PixelRect, b: PixelRect) -> PixelRect {
    let left = if a.x <= b.x { a.x } else { b.x };
    let top = if a.y <= b.y { a.y } else { b.y };
    let ar = if a.x + a.width > u32::MAX { u32::MAX as int } else { a.x + a.width };
    let br = if b.x + b.width > u32::MAX { u32::MAX as int } else { b.x + b.width };
    let ab = if a.y + a.height > u32::MAX { u32::MAX as int } else { a.y + a.height };
    let bb = if b.y + b.height > u32::MAX { u32::MAX as int } else { b.y + b.height };
    let right = if ar >= br { ar } else { br };
    let bottom = if ab >= bb { ab } else { bb };
    PixelRect { x: left, y: top, width: (right - left) as u32, height: (bottom - top) as u32 }
}

impl PixelRect {
    pub fn new(x: u32, y: u32, width: u32, height: u32) -> (rect: Self)
        ensures
            rect == (PixelRect { x, y, width, height }),
    {
        PixelRect { x, y, width, height }
    }

    /// The smallest rectangle covering both.
    pub fn union(self, other: Self) -> (covered: Self)
        ensures
            covered == rect_union(self, other),
    {
        let left = if self.x <= other.x { self.x } else { other.x };
        let top = if self.y <= other.y { self.y } else { other.y };
        let ar = self.x.saturating_add(self.width);
        let br = other.x.saturating_add(other.width);
        let ab = self.y.saturating_add(self.height);
        let bb = other.y.saturating_add(other.height);
        let right = if ar >= br { ar } else { br };
        let bottom = if ab >= bb { ab } else { bb };
        Self::new(left, top, right - left, bottom - top)
    }
}

/// The union covers both rectangles (up to the saturated edge), and does not
/// depend on the order.
pub proof fn law_union_covers_both(a: PixelRect, b: PixelRect)
    ensures
        rect_union(a, b) == rect_union(b, a),
        rect_union(a, b).x <= a.x && rect_union(a, b).y <= a.y,
        rect_union(a, b).x <= b.x && rect_union(a, b).y <= b.y,
        a.x + a.width <= u32::MAX ==> a.x + a.width <= rect_union(a, b).x + rect_union(a, b).width,
        b.x + b.width <= u32::MAX ==> b.x + b.width <= rect_union(a, b).x + rect_union(a, b).width,
        a.y + a.height <= u32::MAX ==> a.y + a.height <= rect_union(a, b).y + rect_union(a, b).height,
        b.y + b.height <= u32::MAX ==> b.y + b.height <= rect_union(a, b).y + rect_union(a, b).height,
{
}

/// The `f32` with these bits compares below 0.01 (bits `0x3C23_D70A`):
/// positive values below it, and every negative value down to -infinity;
/// NaN compares below nothing.
pub open spec fn opacity_bits_below_hundredth(bits: u32) -> bool {
    bits < 0x3C23_D70Au32 || (0x8000_0000u32 <= bits && bits <= 0xFF80_0000u32)
}

/// The mask byte that scales pixel `p`: the mask's own byte when the mask is
/// enabled, has the raster's size and has that byte; otherwise 255.
pub open spec fn mask_coverage(r: RasterView, mask: Option<MaskView>, p: int) -> u8 {
    match mask {
        Some(m) => if m.enabled && m.width == r.width && m.height == r.height && p < m.data.len() {
            m.data[p]
        } else {
            255u8
        },
        None => 255u8,
    }
}

/// The layer's pixels in BGRA order with the mask multiplied into alpha
/// (`alpha * coverage / 255`); pixels the data does not fully hold are 0.
pub open spec fn snapshot_pixels(r: RasterView, mask: Option<MaskView>) -> Seq<u8> {
    Seq::new(
        (r.width * r.height * 4) as nat,
        |k: int|
            {
                let p = k / 4;
                if p * 4 + 3 < r.data.len() {
                    if k % 4 == 0 {
                        r.data[p * 4 + 2]
                    } else if k % 4 == 1 {
                        r.data[p * 4 + 1]
                    } else if k % 4 == 2 {
                        r.data[p * 4]
                    } else {
                        ((r.data[p * 4 + 3] * mask_coverage(r, mask, p)) / 255) as u8
                    }
                } else {
                    0u8
                }
            },
    )
}

/// The snapshot of a layer: visible raster layers with an opacity of at
/// least 0.01 only.
pub open spec fn layer_snapshot(layer: LayerView) -> Option<RenderLayerView> {
    if !layer.visible || opacity_bits_below_hundredth(layer.opacity_bits) {
        None
    } else {
        match layer.kind {
            LayerKindView::Raster(r) => Some(
                RenderLayerView {
                    width: r.width,
                    height: r.height,
                    opacity_bits: layer.opacity_bits,
                    blend_mode: layer.blend_mode,
                    pixels_bgra: snapshot_pixels(r, layer.mask),
                },
            ),
            _ => None,
        }
    }
}

/// Building the layer's snapshot stays within `usize` (its byte count fits).
pub open spec fn snapshot_fits(layer: LayerView) -> bool {
    layer_snapshot(layer) is Some ==> (layer.kind matches LayerKindView::Raster(r) && r.width * r.height * 4 <= usize::MAX)
}

/// The snapshots of the layers that have one, bottom first.
pub open spec fn frame_layers(layers: Seq<LayerView>) -> Seq<RenderLayerView>
    decreases layers.len(),
{
    if layers.len() == 0 {
        Seq::empty()
    } else {
        let rest = frame_layers(layers.drop_last());
        match layer_snapshot(layers.last()) {
            Some(s) => rest.push(s),
            None => rest,
        }
    }
}

/// The snapshots a single layer contributes: its own, if it has one.
pub open spec fn own_snapshot(layer: LayerView) -> Seq<RenderLayerView> {
    match layer_snapshot(layer) {
        Some(s) => seq![s],
        None => Seq::empty(),
    }
}

/// The frame keeps the stack's order: the snapshots of a stack split in two
/// are those of the lower part followed by those of the upper part, and a
/// single layer contributes its own snapshot. So the snapshots come bottom
/// first, each after every snapshot of the layers below it.
pub proof fn law_frame_keeps_stack_order(below: Seq<LayerView>, above: Seq<LayerView>)
    ensures
        frame_layers(below + above) == frame_layers(below) + frame_layers(above),
    decreases above.len(),
{
    if above.len() == 0 {
        assert(below + above =~= below);
        assert(frame_layers(below) + frame_layers(above) =~= frame_layers(below));
    } else {
        let rest = above.drop_last();
        law_frame_keeps_stack_order(below, rest);
        assert((below + above).drop_last() =~= below + rest);
        assert((below + above).last() == above.last());
        match layer_snapshot(above.last()) {
            Some(s) => {
                assert(frame_layers(below + rest).push(s) =~= frame_layers(below) + frame_layers(rest).push(s));
            },
            None => {},
        }
    }
}

/// A single layer contributes exactly its own snapshot to the frame.
pub proof fn law_frame_of_one_layer(layer: LayerView)
    ensures
        frame_layers(seq![layer]) == own_snapshot(layer),
{
    assert(seq![layer].drop_last() =~= Seq::<LayerView>::empty());
    assert(frame_layers(Seq::<LayerView>::empty()) == Seq::<RenderLayerView>::empty());
    assert(seq![layer].last() == layer);
    match layer_snapshot(layer) {
        Some(s) => {
            assert(Seq::<RenderLayerView>::empty().push(s) =~= seq![s]);
        },
        None => {},
    }
}

/// Of two stacked layers, the lower one's snapshot comes first, so the
/// upper one is composited over it.
pub proof fn law_frame_lower_layer_first(lower: LayerView, upper: LayerView)
    ensures
        frame_layers(seq![lower, upper]) == own_snapshot(lower) + own_snapshot(upper),
{
    law_frame_keeps_stack_order(seq![lower], seq![upper]);
    law_frame_of_one_layer(lower);
    law_frame_of_one_layer(upper);
    assert(seq![lower] + seq![upper] =~= seq![lower, upper]);
}

/// A layer is composited only when it is a visible raster layer whose
/// opacity is at least 0.01; its snapshot has the raster's size, opacity and
/// blend mode, and `width * height * 4` pixel bytes.
pub proof fn law_which_layers_are_snapshotted(layer: LayerView)
    ensures
        !layer.visible ==> layer_snapshot(layer) is None,
        opacity_bits_below_hundredth(layer.opacity_bits) ==> layer_snapshot(layer) is None,
        !(layer.kind is Raster) ==> layer_snapshot(layer) is None,
        layer.visible && !opacity_bits_below_hundredth(layer.opacity_bits) ==> match layer.kind {
            LayerKindView::Raster(r) => layer_snapshot(layer) matches Some(s) && s.width == r.width && s.height
                == r.height && s.opacity_bits == layer.opacity_bits && s.blend_mode == layer.blend_mode
                && s.pixels_bgra.len() == r.width * r.height * 4,
            _ => true,
        },
{
}

/// Each whole pixel `p` of a raster goes into its snapshot in BGRA order, at
/// the same place, with its alpha multiplied by its own mask byte over 255
/// (the mask counts when it is enabled, has the raster's size and has that
/// byte; otherwise the alpha is kept).
pub proof fn law_snapshot_pixel(r: RasterView, mask: Option<MaskView>, p: int)
    requires
        0 <= p < r.width * r.height,
        4 * p + 3 < r.data.len(),
    ensures
        snapshot_pixels(r, mask)[4 * p] == r.data[4 * p + 2],
        snapshot_pixels(r, mask)[4 * p + 1] == r.data[4 * p + 1],
        snapshot_pixels(r, mask)[4 * p + 2] == r.data[4 * p],
        match mask {
            Some(m) => if m.enabled && m.width == r.width && m.height == r.height && p < m.data.len() {
                snapshot_pixels(r, mask)[4 * p + 3] == ((r.data[4 * p + 3] * m.data[p]) / 255) as u8
            } else {
                snapshot_pixels(r, mask)[4 * p + 3] == r.data[4 * p + 3]
            },
            None => snapshot_pixels(r, mask)[4 * p + 3] == r.data[4 * p + 3],
        },
{
    assert((4 * p) / 4 == p && (4 * p + 1) / 4 == p && (4 * p + 2) / 4 == p && (4 * p + 3) / 4 == p)
        by (nonlinear_arith)
        requires
            0 <= p,
    ;
    assert((4 * p) % 4 == 0 && (4 * p + 1) % 4 == 1 && (4 * p + 2) % 4 == 2 && (4 * p + 3) % 4 == 3)
        by (nonlinear_arith)
        requires
            0 <= p,
    ;
    assert(4 * p + 3 < r.width * r.height * 4) by (nonlinear_arith)
        requires
            0 <= p < r.width * r.height,
    ;
    let a = r.data[4 * p + 3] as int;
    assert((a * 255) / 255 == a) by (nonlinear_arith);
}

/// The render frame of a document.
pub open spec fn render_frame(d: DocumentView) -> RenderFrameView {
    RenderFrameView {
        revision: d.revision,
        canvas_width: d.canvas_width,
        canvas_height: d.canvas_height,
        layers: frame_layers(d.layers),
    }
}

fn build_layer_snapshot(layer: &Layer) -> (snapshot: Option<RenderLayerSnapshot>)
    requires
        snapshot_fits(layer@),
    ensures
        match layer_snapshot(layer@) {
            Some(s) => snapshot matches Some(t) && t@ == s,
            None => snapshot is None,
        },
{
    let opacity = layer.opacity_bits;
    if !layer.visible || opacity < 0x3C23_D70Au32 || (0x8000_0000u32 <= opacity && opacity <= 0xFF80_0000u32) {
        return None;
    }
    let raster = match &layer.kind {
        LayerKind::Raster(raster) => raster,
        _ => {
            return None;
        },
    };
    let ghost r = raster@;
    let ghost mask = layer@.mask;
    let total = raster.width as usize * raster.height as usize;
    let mut pixels_bgra = vec![0u8; total * 4];
    let mut p: usize = 0;
    while p < total
        invariant
            r == raster@,
            mask == layer@.mask,
            total == r.width * r.height,
            total * 4 <= usize::MAX,
            p <= total,
            pixels_bgra@.len() == total * 4,
            forall|k: int| 0 <= k < total * 4 ==> pixels_bgra@[k] == (
                if k / 4 < p { snapshot_pixels(r, mask)[k] } else { 0u8 }),
        decreases total - p,
    {
        let src = p * 4;
        if src + 3 < raster.data.len() {
            let coverage: u8 = match &layer.mask {
                Some(m) => if m.enabled && m.width == raster.width && m.height == raster.height && p < m.data.len() {
                    m.data[p]
                } else {
                    255u8
                },
                None => 255u8,
            };
            let alpha = raster.data[src + 3] as u16;
            let scale = coverage as u16;
            assert(alpha * scale <= 255 * 255) by (nonlinear_arith)
                requires
                    alpha <= 255,
                    scale <= 255,
            ;
            pixels_bgra.set(src, raster.data[src + 2]);
            pixels_bgra.set(src + 1, raster.data[src + 1]);
            pixels_bgra.set(src + 2, raster.data[src]);
            pixels_bgra.set(src + 3, ((alpha * scale) / 255) as u8);
        }
        p += 1;
    }
    assert(pixels_bgra@ =~= snapshot_pixels(r, mask));
    Some(RenderLayerSnapshot {
        width: raster.width,
        height: raster.height,
        opacity_bits: layer.opacity_bits,
        blend_mode: layer.blend_mode,
        pixels_bgra,
    })
}

/// The immutable render frame of the document: the snapshots of its visible
/// raster layers (opacity at least 0.01), bottom first.
pub fn build_render_frame(document: &Document) -> (frame: RenderFrameSnapshot)
    requires
        forall|i: int| 0 <= i < document@.layers.len() ==> snapshot_fits(#[trigger] document@.layers[i]),
    ensures
        frame@ == render_frame(document@),
{
    let ghost views = document@.layers;
    let mut layers: Vec<RenderLayerSnapshot> = Vec::new();
    let mut i: usize = 0;
    while i < document.layers.len()
        invariant
            i <= document.layers@.len(),
            views == document@.layers,
            forall|j: int| 0 <= j < views.len() ==> snapshot_fits(#[trigger] views[j]),
            layers@.map_values(|l: RenderLayerSnapshot| l@) == frame_layers(views.take(i as int)),
        decreases document.layers@.len() - i,
    {
        proof {
            assert(views.take(i + 1).drop_last() =~= views.take(i as int));
            assert(views[i as int] == document.layers@[i as int]@);
        }
        match build_layer_snapshot(&document.layers[i]) {
            Some(s) => {
                layers.push(s);
                assert(layers@.map_values(|l: RenderLayerSnapshot| l@) =~= frame_layers(views.take(i + 1)));
            },
            None => {
                assert(layers@.map_values(|l: RenderLayerSnapshot| l@) =~= frame_layers(views.take(i + 1)));
            },
        }
        i += 1;
    }
    assert(views.take(views.len() as int) =~= views);
    RenderFrameSnapshot {
        revision: document.revision,
        canvas_width: document.canvas_width,
        canvas_height: document.canvas_height,
        layers,
    }
}


/// IEEE-754 bit pattern of the `f32` value 1.0.
pub const FULL_OPACITY_BITS: u32 = 0x3F80_0000u32;

/// The frame holds exactly one layer, fully opaque (opacity exactly 1.0) and
/// in Normal mode: flattening it is a copy.
pub open spec fn is_single_normal_layer(f: RenderFrameView) -> bool {
    f.layers.len() == 1 && f.layers[0].opacity_bits == FULL_OPACITY_BITS && f.layers[0].blend_mode
        == BlendMode::Normal
}

/// The canvas bytes when the single layer is copied onto a transparent
/// canvas: the overlapping rows and columns come from the layer.
pub open spec fn copied_layer_pixels(f: RenderFrameView) -> Seq<u8> {
    let layer = f.layers[0];
    let copy_w = if layer.width <= f.canvas_width { layer.width } else { f.canvas_width };
    let copy_h = if layer.height <= f.canvas_height { layer.height } else { f.canvas_height };
    Seq::new(
        (f.canvas_width * f.canvas_height * 4) as nat,
        |k: int|
            {
                let row = k / (f.canvas_width * 4);
                let byte = k % (f.canvas_width * 4);
                if row < copy_h && byte < copy_w * 4 {
                    layer.pixels_bgra[row * layer.width * 4 + byte]
                } else {
                    0u8
                }
            },
    )
}

/// The flattened canvas when the frame is a single normal layer.
pub open spec fn single_layer_flattened(f: RenderFrameView) -> Option<FlattenedView> {
    if !is_single_normal_layer(f) {
        None
    } else if f.layers[0].width == f.canvas_width && f.layers[0].height == f.canvas_height {
        Some(FlattenedView { width: f.canvas_width, height: f.canvas_height, pixels_bgra: f.layers[0].pixels_bgra })
    } else {
        Some(FlattenedView { width: f.canvas_width, height: f.canvas_height, pixels_bgra: copied_layer_pixels(f) })
    }
}

/// Copying the single layer stays within the integer ranges and the layer's
/// bytes: the canvas byte count fits a `usize` and every copied row lies in
/// the layer's buffer.
pub open spec fn single_layer_copy_fits(f: RenderFrameView) -> bool {
    is_single_normal_layer(f) && !(f.layers[0].width == f.canvas_width && f.layers[0].height == f.canvas_height)
        ==> {
        let layer = f.layers[0];
        let copy_w = if layer.width <= f.canvas_width { layer.width } else { f.canvas_width };
        let copy_h = if layer.height <= f.canvas_height { layer.height } else { f.canvas_height };
        &&& f.canvas_width * f.canvas_height * 4 <= usize::MAX
        &&& copy_h > 0 ==> (copy_h - 1) * layer.width * 4 + copy_w * 4 <= layer.pixels_bgra.len()
    }
}

/// Flattening without blending: a frame that is one opaque Normal layer is
/// its pixels, copied onto a transparent canvas of the frame's size.
pub fn flatten_single_normal_layer(frame: &RenderFrameSnapshot) -> (flattened: Option<FlattenedFrame>)
    requires
        single_layer_copy_fits(frame@),
    ensures
        match single_layer_flattened(frame@) {
            Some(v) => flattened matches Some(f) && f@ == v,
            None => flattened is None,
        },
{
    if frame.layers.len() != 1 {
        return None;
    }
    let layer = &frame.layers[0];
    if layer.opacity_bits != FULL_OPACITY_BITS || layer.blend_mode != BlendMode::Normal {
        return None;
    }
    if layer.width == frame.canvas_width && layer.height == frame.canvas_height {
        let pixels_bgra = layer.pixels_bgra.clone();
        assert(pixels_bgra@ == layer.pixels_bgra@);
        return Some(FlattenedFrame { width: frame.canvas_width, height: frame.canvas_height, pixels_bgra });
    }
    let ghost f = frame@;
    let canvas_w = frame.canvas_width as usize;
    let canvas_h = frame.canvas_height as usize;
    let copy_w: usize = if layer.width <= frame.canvas_width { layer.width as usize } else { canvas_w };
    let copy_h: usize = if layer.height <= frame.canvas_height { layer.height as usize } else { canvas_h };
    let layer_w = layer.width as usize;
    let layer_len = layer.pixels_bgra.len();
    assert(copy_h > 0 ==> (copy_h - 1) * layer_w * 4 + copy_w * 4 <= layer.pixels_bgra@.len());
    let mut pixels_bgra = vec![0u8; canvas_w * canvas_h * 4];
    proof {
        if canvas_w > 0 {
            assert forall|k: int| 0 <= k < pixels_bgra@.len() implies pixels_bgra@[k] == (
                if k / (canvas_w * 4) < 0 { copied_layer_pixels(f)[k] } else { 0u8 }) by {
                vstd::arithmetic::div_mod::lemma_div_pos_is_pos(k, (canvas_w * 4) as int);
            }
        } else {
            assert(canvas_w * canvas_h * 4 == 0) by (nonlinear_arith)
                requires
                    canvas_w == 0,
            ;
        }
    }
    let mut row: usize = 0;
    while row < copy_h
        invariant
            f == frame@,
            layer@ == f.layers[0],
            single_layer_copy_fits(f),
            is_single_normal_layer(f),
            !(layer.width == f.canvas_width && layer.height == f.canvas_height),
            canvas_w > 0 || pixels_bgra@.len() == 0,
            canvas_w == f.canvas_width,
            canvas_h == f.canvas_height,
            layer_w == layer.width,
            copy_w == (if layer.width <= f.canvas_width { layer.width } else { f.canvas_width }),
            copy_h == (if layer.height <= f.canvas_height { layer.height } else { f.canvas_height }),
            canvas_w * canvas_h * 4 <= usize::MAX,
            layer_len == layer.pixels_bgra@.len(),
            row <= copy_h,
            pixels_bgra@.len() == canvas_w * canvas_h * 4,
            forall|k: int| 0 <= k < pixels_bgra@.len() ==> pixels_bgra@[k] == (
                if k / (canvas_w * 4) < row { copied_layer_pixels(f)[k] } else { 0u8 }),
        decreases copy_h - row,
    {
        assert(row * layer_w * 4 + copy_w * 4 <= layer.pixels_bgra@.len()) by (nonlinear_arith)
            requires
                row < copy_h,
                (copy_h - 1) * layer_w * 4 + copy_w * 4 <= layer.pixels_bgra@.len(),
        ;
        assert(row * canvas_w * 4 + copy_w * 4 <= canvas_w * canvas_h * 4) by (nonlinear_arith)
            requires
                row < copy_h,
                copy_h <= canvas_h,
                copy_w <= canvas_w,
        ;
        assert(row * layer_w <= row * layer_w * 4) by (nonlinear_arith);
        let src_start = row * layer_w * 4;
        let dst_start = row * canvas_w * 4;
        let mut byte: usize = 0;
        while byte < copy_w * 4
            invariant
                f == frame@,
                is_single_normal_layer(f),
                layer@ == f.layers[0],
                canvas_w == f.canvas_width,
                canvas_h == f.canvas_height,
                layer_w == layer.width,
                copy_w == (if layer.width <= f.canvas_width { layer.width } else { f.canvas_width }),
                copy_h == (if layer.height <= f.canvas_height { layer.height } else { f.canvas_height }),
                canvas_w * canvas_h * 4 <= usize::MAX,
                layer_len == layer.pixels_bgra@.len(),
                row < copy_h,
                src_start == row * layer_w * 4,
                dst_start == row * canvas_w * 4,
                src_start + copy_w * 4 <= layer.pixels_bgra@.len(),
                dst_start + copy_w * 4 <= canvas_w * canvas_h * 4,
                byte <= copy_w * 4,
                pixels_bgra@.len() == canvas_w * canvas_h * 4,
                forall|k: int| 0 <= k < pixels_bgra@.len() ==> pixels_bgra@[k] == (
                    if k / (canvas_w * 4) < row || (k / (canvas_w * 4) == row && k % (canvas_w * 4) < byte) {
                        copied_layer_pixels(f)[k]
                    } else {
                        0u8
                    }),
            decreases copy_w * 4 - byte,
        {
            proof {
                assert(row * canvas_w * 4 == row * (canvas_w * 4)) by (nonlinear_arith);
                lemma_row_byte((dst_start + byte) as int, row as int, byte as int, canvas_w as int);
            }
            let ghost before = pixels_bgra@;
            pixels_bgra.set(dst_start + byte, layer.pixels_bgra[src_start + byte]);
            proof {
                let d = (canvas_w * 4) as int;
                assert forall|k: int| 0 <= k < pixels_bgra@.len() implies pixels_bgra@[k] == (
                    if k / d < row || (k / d == row && k % d < byte + 1) {
                        copied_layer_pixels(f)[k]
                    } else {
                        0u8
                    }) by {
                    vstd::arithmetic::div_mod::lemma_fundamental_div_mod(k, d);
                    if k / d == row && k % d == byte {
                        assert(k == row * d + byte) by (nonlinear_arith)
                            requires
                                k == d * (k / d) + k % d,
                                k / d == row,
                                k % d == byte,
                        ;
                    }
                }
            }
            byte += 1;
        }
        proof {
            assert forall|k: int| 0 <= k < pixels_bgra@.len() && k / (canvas_w * 4) == row && k % (canvas_w * 4) >= copy_w * 4
                implies copied_layer_pixels(f)[k] == 0u8 by {
            }
        }
        row += 1;
    }
    proof {
        assert forall|k: int| 0 <= k < pixels_bgra@.len() && k / (canvas_w * 4) >= copy_h
            implies copied_layer_pixels(f)[k] == 0u8 by {
        }
    }
    assert(pixels_bgra@ =~= copied_layer_pixels(f));
    Some(FlattenedFrame { width: frame.canvas_width, height: frame.canvas_height, pixels_bgra })
}

proof fn lemma_row_byte(k: int, row: int, byte: int, canvas_w: int)
    requires
        canvas_w > 0,
        0 <= byte < canvas_w * 4,
        0 <= row,
        k == row * (canvas_w * 4) + byte,
    ensures
        k / (canvas_w * 4) == row,
        k % (canvas_w * 4) == byte,
{
    vstd::arithmetic::div_mod::lemma_fundamental_div_mod_converse(k, canvas_w * 4, row, byte);
}

} // verus!
