//! What the side panels show of the document (layer kinds, colour profile,
//! bit depth, canvas size), the fingerprint that tells the layers panel
//! when to rebuild, and which buffer a brush stroke paints into.

use vstd::prelude::*;

use crate::document::command::{command_name, CommandView};
use crate::document::layer::{BlendMode, LayerId, LayerKindView, LayerView};
use crate::document::{
    layer_position, BitDepth, ColorSpace, Document, DocumentView, Layer, LayerKind,
};
use crate::text::{append_decimal, decimal};

verus! {

/// The kind of a layer as the layers panel labels it.
pub open spec fn layer_kind_label_text(kind: LayerKindView) -> Seq<char> {
    match kind {
        LayerKindView::Raster(_) => "Raster"@,
        LayerKindView::Text(_) => "Text"@,
        LayerKindView::Fill(_) => "Fill"@,
        LayerKindView::Group(_) => "Group"@,
        LayerKindView::Adjustment(_) => "Adjustment"@,
    }
}

pub fn layer_kind_label(kind: &LayerKind) -> (label: &'static str)
    ensures
        label@ == layer_kind_label_text(kind@),
{
    match kind {
        LayerKind::Raster(_) => "Raster",
        LayerKind::Text(_) => "Text",
        LayerKind::Fill(_) => "Fill",
        LayerKind::Group(_) => "Group",
        LayerKind::Adjustment(_) => "Adjustment",
    }
}

/// The kind of a layer as the fingerprint records it.
pub open spec fn layer_kind_tag_text(kind: LayerKindView) -> Seq<char> {
    match kind {
        LayerKindView::Raster(_) => "raster"@,
        LayerKindView::Text(_) => "text"@,
        LayerKindView::Fill(_) => "fill"@,
        LayerKindView::Group(_) => "group"@,
        LayerKindView::Adjustment(_) => "adjustment"@,
    }
}

pub fn layer_kind_tag(kind: &LayerKind) -> (tag: &'static str)
    ensures
        tag@ == layer_kind_tag_text(kind@),
{
    match kind {
        LayerKind::Raster(_) => "raster",
        LayerKind::Text(_) => "text",
        LayerKind::Fill(_) => "fill",
        LayerKind::Group(_) => "group",
        LayerKind::Adjustment(_) => "adjustment",
    }
}

/// The colour profile as the properties panel shows it; a custom profile
/// shows its own name.
pub open spec fn color_space_label_text(space: ColorSpace) -> Seq<char> {
    match space {
        ColorSpace::Srgb => "sRGB"@,
        ColorSpace::AdobeRgb => "Adobe RGB"@,
        ColorSpace::ProPhotoRgb => "ProPhoto RGB"@,
        ColorSpace::Linear => "Linear"@,
        ColorSpace::Custom(name) => name@,
    }
}

pub fn color_space_label(space: &ColorSpace) -> (label: &str)
    ensures
        label@ == color_space_label_text(*space),
{
    match space {
        ColorSpace::Srgb => "sRGB",
        ColorSpace::AdobeRgb => "Adobe RGB",
        ColorSpace::ProPhotoRgb => "ProPhoto RGB",
        ColorSpace::Linear => "Linear",
        ColorSpace::Custom(name) => name.as_str(),
    }
}

/// The bit depth as the properties panel shows it.
pub open spec fn bit_depth_label_text(depth: BitDepth) -> Seq<char> {
    match depth {
        BitDepth::U8 => "8-bit"@,
        BitDepth::U16 => "16-bit"@,
        BitDepth::Float16 => "16-bit float"@,
        BitDepth::Float32 => "32-bit float"@,
    }
}

pub fn bit_depth_label(depth: BitDepth) -> (label: &'static str)
    ensures
        label@ == bit_depth_label_text(depth),
{
    match depth {
        BitDepth::U8 => "8-bit",
        BitDepth::U16 => "16-bit",
        BitDepth::Float16 => "16-bit float",
        BitDepth::Float32 => "32-bit float",
    }
}

/// The canvas size as the properties panel shows it: `<width> x <height>`.
pub fn canvas_size_label(width: u32, height: u32) -> (label: String)
    ensures
        label@ == decimal(width as nat) + " x "@ + decimal(height as nat),
{
    let mut label = String::from_str("");
    proof {
        reveal_strlit("");
    }
    append_decimal(&mut label, width as u64);
    label.append(" x ");
    append_decimal(&mut label, height as u64);
    label
}

/// The mask state the layers panel shows.
#[derive(Clone, Copy, PartialEq, Eq, Debug, Structural)]
pub struct MaskUiFingerprint {
    pub visible: bool,
    pub linked: bool,
    pub enabled: bool,
    pub editing: bool,
    pub show_on_canvas: bool,
}

/// The layer state the layers panel shows.
#[derive(Clone, PartialEq, Eq, Debug)]
pub struct LayerUiFingerprint {
    pub id: LayerId,
    pub name: String,
    pub visible: bool,
    pub locked: bool,
    pub opacity_bits: u32,
    pub blend_mode: BlendMode,
    pub kind: &'static str,
    pub mask: Option<MaskUiFingerprint>,
}

/// Everything the layers panel shows: when two fingerprints differ, the
/// panel is rebuilt.
#[derive(Clone, PartialEq, Eq, Debug)]
pub struct LayerPanelFingerprint {
    pub active_layer: Option<LayerId>,
    pub layers: Vec<LayerUiFingerprint>,
}

/// The fingerprint records the layer's panel state.
pub open spec fn fingerprints_layer(f: LayerUiFingerprint, l: LayerView) -> bool {
    &&& f.id == l.id
    &&& f.name@ == l.name
    &&& f.visible == l.visible
    &&& f.locked == l.locked
    &&& f.opacity_bits == l.opacity_bits
    &&& f.blend_mode == l.blend_mode
    &&& f.kind@ == layer_kind_tag_text(l.kind)
    &&& match (f.mask, l.mask) {
        (Some(fm), Some(m)) => fm == (MaskUiFingerprint {
            visible: m.visible,
            linked: m.linked,
            enabled: m.enabled,
            editing: m.editing,
            show_on_canvas: m.show_on_canvas,
        }),
        (None, None) => true,
        _ => false,
    }
}

fn layer_fingerprint(layer: &Layer) -> (f: LayerUiFingerprint)
    ensures
        fingerprints_layer(f, layer@),
{
    let mask = match &layer.mask {
        Some(m) => Some(
            MaskUiFingerprint {
                visible: m.visible,
                linked: m.linked,
                enabled: m.enabled,
                editing: m.editing,
                show_on_canvas: m.show_on_canvas,
            },
        ),
        None => None,
    };
    LayerUiFingerprint {
        id: layer.id,
        name: layer.name.clone(),
        visible: layer.visible,
        locked: layer.locked,
        opacity_bits: layer.opacity_bits,
        blend_mode: layer.blend_mode,
        kind: layer_kind_tag(&layer.kind),
        mask,
    }
}

/// The layers panel's fingerprint of the document: the active layer and,
/// layer by layer, what the panel shows of it.
pub fn layer_panel_fingerprint(document: &Document) -> (f: LayerPanelFingerprint)
    ensures
        f.active_layer == document.active_layer_id,
        f.layers@.len() == document@.layers.len(),
        forall|i: int| 0 <= i < f.layers@.len() ==> fingerprints_layer(#[trigger] f.layers@[i], document@.layers[i]),
{
    let mut layers: Vec<LayerUiFingerprint> = Vec::new();
    let mut i: usize = 0;
    while i < document.layers.len()
        invariant
            i <= document.layers@.len(),
            layers@.len() == i,
            forall|j: int| 0 <= j < i ==> fingerprints_layer(#[trigger] layers@[j], document@.layers[j]),
        decreases document.layers@.len() - i,
    {
        let f = layer_fingerprint(&document.layers[i]);
        layers.push(f);
        i += 1;
    }
    LayerPanelFingerprint { active_layer: document.active_layer_id, layers }
}

/// Where a brush stroke on the canvas goes.
#[derive(Clone, Copy, PartialEq, Eq, Debug, Structural)]
pub enum BrushTarget {
    /// There is no active layer (or it is gone): nothing is painted.
    NoLayer,
    /// The active layer is locked: nothing is painted.
    Locked,
    /// The active layer's mask is being edited: the stroke paints the mask.
    Mask,
    /// The stroke paints the active raster layer's pixels.
    Pixels,
    /// The active layer has no pixels to paint: nothing changes, though the
    /// stroke's area is still redrawn.
    Unpaintable,
}

/// Where a brush stroke goes on the document.
pub open spec fn brush_target_of(d: DocumentView) -> BrushTarget {
    match d.active_layer_id {
        Some(id) => match layer_position(d.layers, id) {
            Some(i) => {
                let l = d.layers[i];
                if l.locked {
                    BrushTarget::Locked
                } else if l.mask matches Some(m) && m.editing {
                    BrushTarget::Mask
                } else if l.kind is Raster {
                    BrushTarget::Pixels
                } else {
                    BrushTarget::Unpaintable
                }
            },
            None => BrushTarget::NoLayer,
        },
        None => BrushTarget::NoLayer,
    }
}

pub fn brush_target(document: &Document) -> (target: BrushTarget)
    ensures
        target == brush_target_of(document@),
{
    let id = match document.active_layer_id {
        Some(id) => id,
        None => return BrushTarget::NoLayer,
    };
    let index = match document.layer_index(id) {
        Some(i) => i,
        None => return BrushTarget::NoLayer,
    };
    let layer = &document.layers[index];
    assert(document@.layers[index as int] == layer@);
    if layer.locked {
        return BrushTarget::Locked;
    }
    let editing_mask = match &layer.mask {
        Some(m) => m.editing,
        None => false,
    };
    if editing_mask {
        return BrushTarget::Mask;
    }
    match &layer.kind {
        LayerKind::Raster(_) => BrushTarget::Pixels,
        _ => BrushTarget::Unpaintable,
    }
}

/// The history panel's rows: `Open` first when the document came from a
/// file, then the name of every command that can be undone, oldest first.
pub open spec fn history_entries_text(d: DocumentView, done: Seq<CommandView>) -> Seq<Seq<char>> {
    let names = Seq::new(done.len(), |i: int| command_name(done[i]));
    if d.file_path is Some {
        seq!["Open"@] + names
    } else {
        names
    }
}

/// The history panel's rows for the document (none means no edits yet).
pub fn history_entries(document: &Document) -> (entries: Vec<&'static str>)
    ensures
        entries@.map_values(|e: &'static str| e@) == history_entries_text(document@, document.undo_stack@.done),
{
    let names = document.undo_stack.history_names();
    let mut entries: Vec<&'static str> = Vec::new();
    if document.file_path.is_some() {
        entries.push("Open");
    }
    let ghost offset = entries@.len();
    let mut i: usize = 0;
    while i < names.len()
        invariant
            i <= names@.len(),
            offset == (if document.file_path is Some { 1int } else { 0int }),
            entries@.len() == offset + i,
            offset == 1 ==> entries@[0]@ == "Open"@,
            names@.len() == document.undo_stack@.done.len(),
            forall|j: int| 0 <= j < names@.len() ==> names@[j]@ == command_name(#[trigger] document.undo_stack@.done[j]),
            forall|j: int| 0 <= j < i ==> entries@[offset + j]@ == command_name(#[trigger] document.undo_stack@.done[j]),
        decreases names@.len() - i,
    {
        entries.push(names[i]);
        i += 1;
    }
    let ghost expected = history_entries_text(document@, document.undo_stack@.done);
    assert(entries@.map_values(|e: &'static str| e@) =~= expected) by {
        assert forall|k: int| 0 <= k < entries@.len() implies entries@[k]@ == expected[k] by {
            if offset == 1 && k == 0 {
            } else {
                assert(entries@[offset + (k - offset)]@ == command_name(document.undo_stack@.done[k - offset]));
            }
        }
    }
    entries
}

} // verus!
