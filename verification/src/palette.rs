//! The command palette: its entries and the filter that picks the ones
//! matching what the user typed.

use vstd::prelude::*;
use vstd::string::*;

verus! {

/// What `str::to_lowercase` gives for the text (Unicode lower case).
pub uninterp spec fn lowercase_of(text: Seq<char>) -> Seq<char>;

/// Calls `str::to_lowercase`. Its result is named, not described: Unicode
/// case mapping is defined by tables in std.
#[verifier::external_body]
fn to_lowercase(text: &str) -> (lower: String)
    ensures
        lower@ == lowercase_of(text@),
{
    text.to_lowercase()
}

/// `needle` occurs in `hay` starting at `i`.
pub open spec fn occurs_at(hay: Seq<char>, needle: Seq<char>, i: int) -> bool {
    0 <= i && i + needle.len() <= hay.len() && hay.subrange(i, i + needle.len()) == needle
}

/// `needle` occurs somewhere in `hay`.
pub open spec fn contains_text(hay: Seq<char>, needle: Seq<char>) -> bool {
    exists|i: int| occurs_at(hay, needle, i)
}

/// Whether `needle` occurs in `hay`.
pub fn text_contains(hay: &str, needle: &str) -> (found: bool)
    ensures
        found == contains_text(hay@, needle@),
{
    let n = hay.unicode_len();
    let m = needle.unicode_len();
    if m > n {
        assert forall|i: int| !occurs_at(hay@, needle@, i) by {}
        return false;
    }
    let mut i: usize = 0;
    while i <= n - m
        invariant
            n == hay@.len(),
            m == needle@.len(),
            m <= n,
            i <= n - m + 1,
            forall|k: int| 0 <= k < i ==> !occurs_at(hay@, needle@, k),
        decreases n - m + 1 - i,
    {
        let mut j: usize = 0;
        let mut same = true;
        while j < m && same
            invariant
                n == hay@.len(),
                m == needle@.len(),
                i + m <= n,
                j <= m,
                same ==> forall|t: int| 0 <= t < j ==> hay@[i + t] == needle@[t],
                !same ==> j > 0 && hay@[i + j - 1] != needle@[j - 1],
            decreases m - j,
        {
            if hay.get_char(i + j) != needle.get_char(j) {
                same = false;
            }
            j += 1;
        }
        if same {
            assert(hay@.subrange(i as int, i + m) =~= needle@);
            assert(occurs_at(hay@, needle@, i as int));
            return true;
        }
        assert(hay@.subrange(i as int, i + m)[j - 1] != needle@[j - 1]);
        i += 1;
    }
    assert forall|k: int| !occurs_at(hay@, needle@, k) by {
        if 0 <= k && k + m <= n {
            assert(k < i);
        }
    }
    false
}

/// A palette entry is listed for the filter when the filter is empty or,
/// ignoring case, occurs in the entry's name or description.
pub open spec fn palette_entry_listed(name: Seq<char>, description: Seq<char>, filter: Seq<char>) -> bool {
    let f = lowercase_of(filter);
    f.len() == 0 || contains_text(lowercase_of(name), f) || contains_text(lowercase_of(description), f)
}

/// Whether the palette lists the entry for the filter.
pub fn palette_entry_matches(name: &str, description: &str, filter: &str) -> (listed: bool)
    ensures
        listed == palette_entry_listed(name@, description@, filter@),
{
    let f = to_lowercase(filter);
    if f.as_str().unicode_len() == 0 {
        return true;
    }
    let lower_name = to_lowercase(name);
    if text_contains(lower_name.as_str(), f.as_str()) {
        return true;
    }
    let lower_description = to_lowercase(description);
    text_contains(lower_description.as_str(), f.as_str())
}

/// One command of the palette: its name, description, shortcut (if any)
/// and the window action it runs.
pub struct PaletteEntry {
    pub name: &'static str,
    pub description: &'static str,
    pub shortcut: Option<&'static str>,
    pub action: &'static str,
}

/// The palette's commands as text: name, description, shortcut, action.
pub open spec fn palette_entries_text() -> Seq<(Seq<char>, Seq<char>, Option<Seq<char>>, Seq<char>)> {
    seq![
        ("Open Image"@, "Open an image file from disk"@, Some("Ctrl+O"@), "open"@),
        ("Export"@, "Export the current image"@, Some("Ctrl+Shift+E"@), "export"@),
        ("Crop Tool"@, "Switch to the crop tool"@, Some("C"@), "crop"@),
        ("Brush Tool"@, "Switch to the brush tool"@, Some("B"@), "tool-brush"@),
        ("Move Tool"@, "Switch to the move tool"@, Some("V"@), "tool-move"@),
        ("Eraser Tool"@, "Switch to the eraser tool"@, Some("E"@), "tool-eraser"@),
        ("Zoom Tool"@, "Switch to the zoom tool"@, Some("Z"@), "tool-zoom"@),
        ("Undo"@, "Undo the last action"@, Some("Ctrl+Z"@), "undo"@),
        ("Redo"@, "Redo the last undone action"@, Some("Ctrl+Shift+Z"@), "redo"@),
        ("Canvas Only Mode"@, "Toggle canvas-only view, hiding side panels"@, None, "workspace-canvas-only"@),
        ("Keyboard Shortcuts"@, "Show the configured keyboard shortcuts"@, Some("Ctrl+Shift+K"@), "keyboard-shortcuts"@),
    ]
}

pub open spec fn entry_text(e: PaletteEntry) -> (Seq<char>, Seq<char>, Option<Seq<char>>, Seq<char>) {
    (e.name@, e.description@, match e.shortcut {
        Some(k) => Some(k@),
        None => None,
    }, e.action@)
}

/// The palette's commands, in order.
pub fn default_palette_entries() -> (entries: Vec<PaletteEntry>)
    ensures
        entries@.len() == palette_entries_text().len(),
        forall|i: int| 0 <= i < entries@.len() ==> entry_text(#[trigger] entries@[i]) == palette_entries_text()[i],
{
    let entries = vec![
        PaletteEntry { name: "Open Image", description: "Open an image file from disk", shortcut: Some("Ctrl+O"), action: "open" },
        PaletteEntry { name: "Export", description: "Export the current image", shortcut: Some("Ctrl+Shift+E"), action: "export" },
        PaletteEntry { name: "Crop Tool", description: "Switch to the crop tool", shortcut: Some("C"), action: "crop" },
        PaletteEntry { name: "Brush Tool", description: "Switch to the brush tool", shortcut: Some("B"), action: "tool-brush" },
        PaletteEntry { name: "Move Tool", description: "Switch to the move tool", shortcut: Some("V"), action: "tool-move" },
        PaletteEntry { name: "Eraser Tool", description: "Switch to the eraser tool", shortcut: Some("E"), action: "tool-eraser" },
        PaletteEntry { name: "Zoom Tool", description: "Switch to the zoom tool", shortcut: Some("Z"), action: "tool-zoom" },
        PaletteEntry { name: "Undo", description: "Undo the last action", shortcut: Some("Ctrl+Z"), action: "undo" },
        PaletteEntry { name: "Redo", description: "Redo the last undone action", shortcut: Some("Ctrl+Shift+Z"), action: "redo" },
        PaletteEntry { name: "Canvas Only Mode", description: "Toggle canvas-only view, hiding side panels", shortcut: None, action: "workspace-canvas-only" },
        PaletteEntry { name: "Keyboard Shortcuts", description: "Show the configured keyboard shortcuts", shortcut: Some("Ctrl+Shift+K"), action: "keyboard-shortcuts" },
    ];
    assert(entries@.len() == palette_entries_text().len());
    entries
}

} // verus!
