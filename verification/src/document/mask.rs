use vstd::prelude::*;
use vstd::string::*;

use crate::document::ids::random_uuid_v4;
use crate::document::ids::UUID_V4_MARKER;
use crate::document::ids::UUID_VERSION_VARIANT_MASK;

verus! {

/// Identifier of a mask: a random version-4 UUID, held as its 128-bit value.
#[derive(Debug, Clone, Copy, PartialEq, Eq, Hash, Structural)]
pub struct MaskId(u128);

impl MaskId {
    pub closed spec fn value(self) -> u128 {
        self.0
    }

    /// A fresh random identifier.
    pub fn new() -> (id: Self)
        ensures
            id.value() & UUID_VERSION_VARIANT_MASK == UUID_V4_MARKER,
    {
        MaskId(random_uuid_v4())
    }

    /// The identifier with the given 128-bit UUID value.
    pub fn from_u128(value: u128) -> (id: Self)
        ensures
            id.value() == value,
    {
        MaskId(value)
    }

    /// The 128-bit UUID value of the identifier.
    pub fn as_u128(&self) -> (value: u128)
        ensures
            value == self.value(),
    {
        self.0
    }
}

impl Default for MaskId {
    fn default() -> (id: Self)
        ensures
            id.value() & UUID_VERSION_VARIANT_MASK == UUID_V4_MARKER,
    {
        Self::new()
    }
}

/// A grayscale mask, one byte per pixel (255 keeps, 0 hides).
#[derive(Debug)]
pub struct Mask {
    pub id: MaskId,
    pub name: String,
    pub visible: bool,
    pub data: Vec<u8>,
    pub width: u32,
    pub height: u32,
    pub kind: MaskKind,
    pub linked: bool,
    pub enabled: bool,
    pub editing: bool,
    pub show_on_canvas: bool,
}

#[derive(Debug, Clone, Copy, PartialEq, Eq, Structural)]
pub enum MaskKind {
    Transparency,
    Filter,
    Selection,
}

/// A mask as a value: its bytes as a sequence.
pub struct MaskView {
    pub id: MaskId,
    pub name: Seq<char>,
    pub visible: bool,
    pub data: Seq<u8>,
    pub width: u32,
    pub height: u32,
    pub kind: MaskKind,
    pub linked: bool,
    pub enabled: bool,
    pub editing: bool,
    pub show_on_canvas: bool,
}

impl View for Mask {
    type V = MaskView;

    open spec fn view(&self) -> MaskView {
        MaskView {
            id: self.id,
            name: self.name@,
            visible: self.visible,
            data: self.data@,
            width: self.width,
            height: self.height,
            kind: self.kind,
            linked: self.linked,
            enabled: self.enabled,
            editing: self.editing,
            show_on_canvas: self.show_on_canvas,
        }
    }
}

impl Clone for Mask {
    fn clone(&self) -> (copy: Self)
        ensures
            copy@ == self@,
    {
        let data = self.data.clone();
        assert(data@ == self.data@);
        Mask {
            id: self.id,
            name: self.name.clone(),
            visible: self.visible,
            data,
            width: self.width,
            height: self.height,
            kind: self.kind,
            linked: self.linked,
            enabled: self.enabled,
            editing: self.editing,
            show_on_canvas: self.show_on_canvas,
        }
    }
}

impl Mask {
    /// A fully opaque (all 255) transparency mask, enabled, linked, visible,
    /// not being edited and not shown on the canvas.
    pub fn new(name: &str, width: u32, height: u32) -> (mask: Self)
        requires
            width * height <= u32::MAX,
        ensures
            mask.name@ == name@,
            mask.width == width,
            mask.height == height,
            mask.data@ == Seq::new((width * height) as nat, |i: int| 255u8),
            mask.visible,
            mask.kind == MaskKind::Transparency,
            mask.linked,
            mask.enabled,
            !mask.editing,
            !mask.show_on_canvas,
            mask.id.value() & UUID_VERSION_VARIANT_MASK == UUID_V4_MARKER,
    {
        let count = (width * height) as usize;
        let data = vec![255u8; count];
        assert(data@ == Seq::new((width * height) as nat, |i: int| 255u8));
        Mask {
            id: MaskId::new(),
            name: String::from_str(name),
            visible: true,
            data,
            width,
            height,
            kind: MaskKind::Transparency,
            linked: true,
            enabled: true,
            editing: false,
            show_on_canvas: false,
        }
    }
}

} // verus!
