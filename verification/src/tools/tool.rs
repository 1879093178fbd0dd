//! Tool identities and the input state a tool sees.

use vstd::prelude::*;

verus! {

/// The identifier a tool is registered under.
pub type ToolId = &'static str;

/// The mouse or stylus button of a pointer event.
#[derive(Debug, Clone, Copy, PartialEq, Eq, Structural)]
pub enum PointerButton {
    Left,
    Right,
    Middle,
}

/// Keyboard modifiers held during a pointer event.
#[derive(Debug, Clone, Copy, PartialEq, Eq, Structural)]
pub struct Modifiers {
    pub shift: bool,
    pub ctrl: bool,
    pub alt: bool,
}

impl Modifiers {
    /// No modifier held.
    pub fn none() -> (m: Self)
        ensures
            !m.shift && !m.ctrl && !m.alt,
    {
        Modifiers { shift: false, ctrl: false, alt: false }
    }
}

/// Every tool the editor knows.
#[derive(Debug, Clone, Copy, PartialEq, Eq, Structural)]
pub enum ToolKind {
    Brush,
    Eraser,
    Crop,
    Move,
    Zoom,
    Text,
    ColorPicker,
    Fill,
    Clone,
    Heal,
    Blur,
    Sharpen,
    Smudge,
    Path,
    Lasso,
}

/// The toolbar's entries, in order: tool, label and icon name.
pub open spec fn toolbar_entries() -> Seq<(ToolKind, Seq<char>, Seq<char>)> {
    seq![
        (ToolKind::Brush, "Brush"@, "brush-tool-symbolic"@),
        (ToolKind::Eraser, "Eraser"@, "eraser-tool-symbolic"@),
        (ToolKind::Move, "Move"@, "move-tool-symbolic"@),
        (ToolKind::Crop, "Crop"@, "crop-tool-symbolic"@),
        (ToolKind::Lasso, "Lasso"@, "lasso-tool-symbolic"@),
        (ToolKind::Zoom, "Zoom"@, "zoom-tool-symbolic"@),
        (ToolKind::Text, "Text"@, "text-tool-symbolic"@),
        (ToolKind::ColorPicker, "Color Picker"@, "color-picker-tool-symbolic"@),
        (ToolKind::Fill, "Fill"@, "fill-tool-symbolic"@),
        (ToolKind::Clone, "Clone Stamp"@, "clone-tool-symbolic"@),
        (ToolKind::Heal, "Heal"@, "heal-tool-symbolic"@),
        (ToolKind::Blur, "Blur"@, "blur-tool-symbolic"@),
        (ToolKind::Sharpen, "Sharpen"@, "sharpen-tool-symbolic"@),
        (ToolKind::Smudge, "Smudge"@, "smudge-tool-symbolic"@),
        (ToolKind::Path, "Path"@, "path-tool-symbolic"@),
    ]
}

impl ToolKind {
    /// The toolbar's entries: each tool with its label and icon name.
    pub fn all() -> (entries: Vec<(ToolKind, &'static str, &'static str)>)
        ensures
            entries@.len() == toolbar_entries().len(),
            forall|i: int|
                0 <= i < entries@.len() ==> (#[trigger] entries@[i]).0 == toolbar_entries()[i].0
                    && entries@[i].1@ == toolbar_entries()[i].1 && entries@[i].2@ == toolbar_entries()[i].2,
    {
        let entries = vec![
            (ToolKind::Brush, "Brush", "brush-tool-symbolic"),
            (ToolKind::Eraser, "Eraser", "eraser-tool-symbolic"),
            (ToolKind::Move, "Move", "move-tool-symbolic"),
            (ToolKind::Crop, "Crop", "crop-tool-symbolic"),
            (ToolKind::Lasso, "Lasso", "lasso-tool-symbolic"),
            (ToolKind::Zoom, "Zoom", "zoom-tool-symbolic"),
            (ToolKind::Text, "Text", "text-tool-symbolic"),
            (ToolKind::ColorPicker, "Color Picker", "color-picker-tool-symbolic"),
            (ToolKind::Fill, "Fill", "fill-tool-symbolic"),
            (ToolKind::Clone, "Clone Stamp", "clone-tool-symbolic"),
            (ToolKind::Heal, "Heal", "heal-tool-symbolic"),
            (ToolKind::Blur, "Blur", "blur-tool-symbolic"),
            (ToolKind::Sharpen, "Sharpen", "sharpen-tool-symbolic"),
            (ToolKind::Smudge, "Smudge", "smudge-tool-symbolic"),
            (ToolKind::Path, "Path", "path-tool-symbolic"),
        ];
        entries
    }
}

/// The tool a single unmodified key selects: V and H the move tool, C crop,
/// B brush, E eraser, Z zoom and I the colour picker (lower-case keys only).
pub open spec fn key_tool(key: char) -> Option<ToolKind> {
    if key == 'v' || key == 'h' {
        Some(ToolKind::Move)
    } else if key == 'c' {
        Some(ToolKind::Crop)
    } else if key == 'b' {
        Some(ToolKind::Brush)
    } else if key == 'e' {
        Some(ToolKind::Eraser)
    } else if key == 'z' {
        Some(ToolKind::Zoom)
    } else if key == 'i' {
        Some(ToolKind::ColorPicker)
    } else {
        None
    }
}

/// The tool a key selects, if any (see `key_tool`).
pub fn tool_for_key(key: char) -> (tool: Option<ToolKind>)
    ensures
        tool == key_tool(key),
{
    match key {
        'v' | 'h' => Some(ToolKind::Move),
        'c' => Some(ToolKind::Crop),
        'b' => Some(ToolKind::Brush),
        'e' => Some(ToolKind::Eraser),
        'z' => Some(ToolKind::Zoom),
        'i' => Some(ToolKind::ColorPicker),
        _ => None,
    }
}

/// The page of the options bar a tool shows: brush settings for the
/// painting tools, crop settings for the crop tool, move settings else.
pub open spec fn options_page_name(tool: ToolKind) -> Seq<char> {
    match tool {
        ToolKind::Brush | ToolKind::Eraser | ToolKind::Clone | ToolKind::Heal | ToolKind::Blur
        | ToolKind::Sharpen | ToolKind::Smudge => "brush"@,
        ToolKind::Crop => "crop"@,
        _ => "move"@,
    }
}

pub fn options_page(tool: ToolKind) -> (page: &'static str)
    ensures
        page@ == options_page_name(tool),
{
    match tool {
        ToolKind::Brush | ToolKind::Eraser | ToolKind::Clone | ToolKind::Heal | ToolKind::Blur
        | ToolKind::Sharpen | ToolKind::Smudge => "brush",
        ToolKind::Crop => "crop",
        _ => "move",
    }
}

} // verus!
