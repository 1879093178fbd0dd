use vstd::prelude::*;
use vstd::string::*;

use crate::document::filter::FilterNodeView;
use crate::document::filter::FilterStack;
use crate::document::ids::random_uuid_v4;
use crate::document::ids::UUID_V4_MARKER;
use crate::document::ids::UUID_VERSION_VARIANT_MASK;
use crate::document::mask::Mask;
use crate::document::mask::MaskView;

verus! {

/// IEEE-754 bit pattern of the `f32` value 1.0, the opacity of a new layer.
pub const OPAQUE_BITS: u32 = 0x3F80_0000u32;

/// Identifier of a layer: a random version-4 UUID, held as its 128-bit value.
#[derive(Debug, Clone, Copy, PartialEq, Eq, Hash, Structural)]
pub struct LayerId(u128);

impl LayerId {
    pub closed spec fn value(self) -> u128 {
        self.0
    }

    /// A fresh random identifier.
    pub fn new() -> (id: Self)
        ensures
            id.value() & UUID_VERSION_VARIANT_MASK == UUID_V4_MARKER,
    {
        LayerId(random_uuid_v4())
    }

    /// The identifier with the given 128-bit UUID value.
    pub fn from_u128(value: u128) -> (id: Self)
        ensures
            id.value() == value,
    {
        LayerId(value)
    }

    /// The 128-bit UUID value of the identifier.
    pub fn as_u128(&self) -> (value: u128)
        ensures
            value == self.value(),
    {
        self.0
    }
}

/// Identifiers are equal exactly when their UUID values are.
pub proof fn lemma_layer_id_value(a: LayerId, b: LayerId)
    ensures
        (a.value() == b.value()) == (a == b),
{
}

impl Default for LayerId {
    fn default() -> (id: Self)
        ensures
            id.value() & UUID_VERSION_VARIANT_MASK == UUID_V4_MARKER,
    {
        Self::new()
    }
}


/// How a layer's colour is combined with the pixels below it.
#[derive(Debug, Clone, Copy, PartialEq, Eq, Structural)]
pub enum BlendMode {
    Normal,
    Multiply,
    Screen,
    Overlay,
    Darken,
    Lighten,
    ColorDodge,
    ColorBurn,
    HardLight,
    SoftLight,
    Difference,
    Exclusion,
    Hue,
    Saturation,
    Color,
    Luminosity,
}

/// The label shown for each blend mode.
pub open spec fn blend_mode_label(mode: BlendMode) -> Seq<char> {
    match mode {
        BlendMode::Normal => "Normal"@,
        BlendMode::Multiply => "Multiply"@,
        BlendMode::Screen => "Screen"@,
        BlendMode::Overlay => "Overlay"@,
        BlendMode::Darken => "Darken"@,
        BlendMode::Lighten => "Lighten"@,
        BlendMode::ColorDodge => "Color Dodge"@,
        BlendMode::ColorBurn => "Color Burn"@,
        BlendMode::HardLight => "Hard Light"@,
        BlendMode::SoftLight => "Soft Light"@,
        BlendMode::Difference => "Difference"@,
        BlendMode::Exclusion => "Exclusion"@,
        BlendMode::Hue => "Hue"@,
        BlendMode::Saturation => "Saturation"@,
        BlendMode::Color => "Color"@,
        BlendMode::Luminosity => "Luminosity"@,
    }
}

impl BlendMode {
    pub fn as_str(&self) -> (label: &'static str)
        ensures
            label@ == blend_mode_label(*self),
    {
        match self {
            BlendMode::Normal => "Normal",
            BlendMode::Multiply => "Multiply",
            BlendMode::Screen => "Screen",
            BlendMode::Overlay => "Overlay",
            BlendMode::Darken => "Darken",
            BlendMode::Lighten => "Lighten",
            BlendMode::ColorDodge => "Color Dodge",
            BlendMode::ColorBurn => "Color Burn",
            BlendMode::HardLight => "Hard Light",
            BlendMode::SoftLight => "Soft Light",
            BlendMode::Difference => "Difference",
            BlendMode::Exclusion => "Exclusion",
            BlendMode::Hue => "Hue",
            BlendMode::Saturation => "Saturation",
            BlendMode::Color => "Color",
            BlendMode::Luminosity => "Luminosity",
        }
    }
}

impl Default for BlendMode {
    fn default() -> (mode: Self)
        ensures
            mode == BlendMode::Normal,
    {
        BlendMode::Normal
    }
}

/// A layer of the document. Opacity is held as the IEEE-754 bit pattern of
/// the `f32` value it stands for (`f32::to_bits`); the library carries it and
/// reads it only by comparison against exact constants.
#[derive(Debug)]
pub struct Layer {
    pub id: LayerId,
    pub name: String,
    pub visible: bool,
    pub opacity_bits: u32,
    pub blend_mode: BlendMode,
    pub mask: Option<Mask>,
    pub kind: LayerKind,
    pub locked: bool,
}

/// What a layer holds.
#[derive(Debug)]
pub enum LayerKind {
    Raster(RasterLayer),
    Text(TextLayer),
    Fill(FillLayer),
    Group(Vec<LayerId>),
    Adjustment(FilterStack),
}

/// RGBA pixels, four bytes per pixel, rows top to bottom.
#[derive(Debug)]
pub struct RasterLayer {
    pub width: u32,
    pub height: u32,
    pub data: Vec<u8>,
    pub offset_x: i32,
    pub offset_y: i32,
}

/// Structured text. Sizes, colours and the box are IEEE-754 bit patterns of
/// the `f32`/`f64` values they stand for.
#[derive(Debug)]
pub struct TextLayer {
    pub text: String,
    pub font_family: String,
    pub font_size_bits: u32,
    pub color_bits: [u32; 4],
    pub box_rect_bits: (u64, u64, u64, u64),
    pub alignment: TextAlign,
    pub line_spacing_bits: u32,
}

#[derive(Debug, Clone, Copy, PartialEq, Eq, Structural)]
pub enum TextAlign {
    Left,
    Center,
    Right,
    Justify,
}

/// A solid fill; the colour channels are `f32` bit patterns.
#[derive(Debug)]
pub struct FillLayer {
    pub color_bits: [u32; 4],
}

/// A raster layer as a value: its pixel bytes as a sequence.
pub struct RasterView {
    pub width: u32,
    pub height: u32,
    pub data: Seq<u8>,
    pub offset_x: i32,
    pub offset_y: i32,
}

impl View for RasterLayer {
    type V = RasterView;

    open spec fn view(&self) -> RasterView {
        RasterView {
            width: self.width,
            height: self.height,
            data: self.data@,
            offset_x: self.offset_x,
            offset_y: self.offset_y,
        }
    }
}

impl Clone for RasterLayer {
    fn clone(&self) -> (copy: Self)
        ensures
            copy@ == self@,
    {
        let data = self.data.clone();
        assert(data@ == self.data@);
        RasterLayer {
            width: self.width,
            height: self.height,
            data,
            offset_x: self.offset_x,
            offset_y: self.offset_y,
        }
    }
}

impl Clone for TextLayer {
    fn clone(&self) -> (copy: Self)
        ensures
            copy == *self,
    {
        TextLayer {
            text: self.text.clone(),
            font_family: self.font_family.clone(),
            font_size_bits: self.font_size_bits,
            color_bits: self.color_bits,
            box_rect_bits: self.box_rect_bits,
            alignment: self.alignment,
            line_spacing_bits: self.line_spacing_bits,
        }
    }
}

impl Clone for FillLayer {
    fn clone(&self) -> (copy: Self)
        ensures
            copy == *self,
    {
        FillLayer { color_bits: self.color_bits }
    }
}

/// The content of a layer as a value.
pub enum LayerKindView {
    Raster(RasterView),
    Text(TextLayer),
    Fill(FillLayer),
    Group(Seq<LayerId>),
    Adjustment(Seq<FilterNodeView>),
}

impl View for LayerKind {
    type V = LayerKindView;

    open spec fn view(&self) -> LayerKindView {
        match self {
            LayerKind::Raster(r) => LayerKindView::Raster(r@),
            LayerKind::Text(t) => LayerKindView::Text(*t),
            LayerKind::Fill(f) => LayerKindView::Fill(*f),
            LayerKind::Group(children) => LayerKindView::Group(children@),
            LayerKind::Adjustment(stack) => LayerKindView::Adjustment(stack@),
        }
    }
}

impl Clone for LayerKind {
    fn clone(&self) -> (copy: Self)
        ensures
            copy@ == self@,
    {
        match self {
            LayerKind::Raster(r) => LayerKind::Raster(r.clone()),
            LayerKind::Text(t) => LayerKind::Text(t.clone()),
            LayerKind::Fill(f) => LayerKind::Fill(f.clone()),
            LayerKind::Group(children) => {
                let copy = children.clone();
                assert(copy@ == children@);
                LayerKind::Group(copy)
            },
            LayerKind::Adjustment(stack) => LayerKind::Adjustment(stack.clone()),
        }
    }
}

/// A layer as a value: vectors seen as sequences.
pub struct LayerView {
    pub id: LayerId,
    pub name: Seq<char>,
    pub visible: bool,
    pub opacity_bits: u32,
    pub blend_mode: BlendMode,
    pub mask: Option<MaskView>,
    pub kind: LayerKindView,
    pub locked: bool,
}

/// The view of an optional mask.
pub open spec fn mask_option_view(mask: Option<Mask>) -> Option<MaskView> {
    match mask {
        Some(m) => Some(m@),
        None => None,
    }
}

impl View for Layer {
    type V = LayerView;

    open spec fn view(&self) -> LayerView {
        LayerView {
            id: self.id,
            name: self.name@,
            visible: self.visible,
            opacity_bits: self.opacity_bits,
            blend_mode: self.blend_mode,
            mask: mask_option_view(self.mask),
            kind: self.kind@,
            locked: self.locked,
        }
    }
}

impl Clone for Layer {
    fn clone(&self) -> (copy: Self)
        ensures
            copy@ == self@,
    {
        let mask = match &self.mask {
            Some(m) => Some(m.clone()),
            None => None,
        };
        Layer {
            id: self.id,
            name: self.name.clone(),
            visible: self.visible,
            opacity_bits: self.opacity_bits,
            blend_mode: self.blend_mode,
            mask,
            kind: self.kind.clone(),
            locked: self.locked,
        }
    }
}

/// A visible, opaque, unlocked raster layer at offset (0, 0) without a mask.
pub open spec fn new_raster_view(id: LayerId, name: Seq<char>, width: u32, height: u32, data: Seq<u8>) -> LayerView {
    LayerView {
        id,
        name,
        visible: true,
        opacity_bits: OPAQUE_BITS,
        blend_mode: BlendMode::Normal,
        mask: None,
        kind: LayerKindView::Raster(RasterView { width, height, data, offset_x: 0, offset_y: 0 }),
        locked: false,
    }
}

/// A layer as `new_raster` builds it.
pub open spec fn fresh_raster_layer(
    id: LayerId,
    name: Seq<char>,
    width: u32,
    height: u32,
    data: Seq<u8>,
    layer: Layer,
) -> bool {
    &&& layer.id == id
    &&& layer.name@ == name
    &&& layer.visible
    &&& layer.opacity_bits == OPAQUE_BITS
    &&& layer.blend_mode == BlendMode::Normal
    &&& layer.mask is None
    &&& !layer.locked
    &&& layer.kind matches LayerKind::Raster(r) && r.width == width && r.height == height
        && r.data@ == data && r.offset_x == 0 && r.offset_y == 0
}

impl Layer {
    /// A visible, opaque, unlocked raster layer at offset (0, 0) with a fresh
    /// identifier.
    pub fn new_raster(name: &str, width: u32, height: u32, data: Vec<u8>) -> (layer: Self)
        ensures
            fresh_raster_layer(layer.id, name@, width, height, data@, layer),
            layer@ == new_raster_view(layer.id, name@, width, height, data@),
            layer.id.value() & UUID_VERSION_VARIANT_MASK == UUID_V4_MARKER,
    {
        Layer {
            id: LayerId::new(),
            name: String::from_str(name),
            visible: true,
            opacity_bits: OPAQUE_BITS,
            blend_mode: BlendMode::Normal,
            mask: None,
            kind: LayerKind::Raster(RasterLayer { width, height, data, offset_x: 0, offset_y: 0 }),
            locked: false,
        }
    }

    /// An empty text layer: "Sans" at 24, black, box (100, 100, 400, 200),
    /// left aligned, line spacing 1.2.
    pub fn new_text(name: &str) -> (layer: Self)
        ensures
            layer.name@ == name@,
            layer.visible,
            layer.opacity_bits == OPAQUE_BITS,
            layer.blend_mode == BlendMode::Normal,
            layer.mask is None,
            !layer.locked,
            layer.id.value() & UUID_VERSION_VARIANT_MASK == UUID_V4_MARKER,
            layer.kind matches LayerKind::Text(t) && t.text@ == Seq::<char>::empty()
                && t.font_family@ == "Sans"@ && t.font_size_bits == 0x41C0_0000u32
                && t.color_bits == [0u32, 0u32, 0u32, OPAQUE_BITS]
                && t.box_rect_bits == (0x4059_0000_0000_0000u64, 0x4059_0000_0000_0000u64,
                    0x4079_0000_0000_0000u64, 0x4069_0000_0000_0000u64)
                && t.alignment == TextAlign::Left && t.line_spacing_bits == 0x3F99_999Au32,
    {
        Layer {
            id: LayerId::new(),
            name: String::from_str(name),
            visible: true,
            opacity_bits: OPAQUE_BITS,
            blend_mode: BlendMode::Normal,
            mask: None,
            kind: LayerKind::Text(
                TextLayer {
                    text: String::new(),
                    font_family: String::from_str("Sans"),
                    font_size_bits: 0x41C0_0000u32,
                    color_bits: [0u32, 0u32, 0u32, OPAQUE_BITS],
                    box_rect_bits: (
                        0x4059_0000_0000_0000u64,
                        0x4059_0000_0000_0000u64,
                        0x4079_0000_0000_0000u64,
                        0x4069_0000_0000_0000u64,
                    ),
                    alignment: TextAlign::Left,
                    line_spacing_bits: 0x3F99_999Au32,
                },
            ),
            locked: false,
        }
    }

    /// An empty group layer.
    pub fn new_group(name: &str) -> (layer: Self)
        ensures
            layer.name@ == name@,
            layer.visible,
            layer.opacity_bits == OPAQUE_BITS,
            layer.blend_mode == BlendMode::Normal,
            layer.mask is None,
            !layer.locked,
            layer.id.value() & UUID_VERSION_VARIANT_MASK == UUID_V4_MARKER,
            layer.kind matches LayerKind::Group(children) && children@.len() == 0,
    {
        Layer {
            id: LayerId::new(),
            name: String::from_str(name),
            visible: true,
            opacity_bits: OPAQUE_BITS,
            blend_mode: BlendMode::Normal,
            mask: None,
            kind: LayerKind::Group(Vec::new()),
            locked: false,
        }
    }
}

} // verus!
