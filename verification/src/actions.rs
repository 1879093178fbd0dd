//! The window's action inventory: the keyboard shortcut registry, the
//! actions the menus show and every action the window exposes.

use vstd::prelude::*;

verus! {

/// One row of the keyboard shortcut registry: the window action it runs
/// (none for gestures handled on the canvas), the command's name, how the
/// shortcut is shown and the accelerators bound to it.
pub struct ShortcutSpec {
    pub action: Option<&'static str>,
    pub command: &'static str,
    pub display: &'static str,
    pub accels: Vec<&'static str>,
}

/// The views of a list of names.
pub open spec fn names_view(names: Seq<&'static str>) -> Seq<Seq<char>> {
    names.map_values(|n: &'static str| n@)
}

/// The registry's commands, in order.
pub open spec fn shortcut_commands() -> Seq<Seq<char>> {
    seq!["New"@, "Open"@, "Save"@, "Save As"@, "Export"@, "Undo"@, "Redo"@, "Cut Layer"@, "Copy Layer"@, "Paste Layer"@, "New Layer"@, "Duplicate Layer"@, "Delete Layer"@, "Toggle Mask Edit"@, "Lasso Tool"@, "Move Tool"@, "Crop Tool"@, "Brush Tool"@, "Eraser Tool"@, "Zoom Tool"@, "Zoom In"@, "Zoom Out"@, "Fit to Screen"@, "Keyboard Shortcuts"@, "Quit"@, "Temporary Pan"@, "Brush Size"@, "Brush Hardness"@]
}

/// How the registry shows each shortcut, in order.
pub open spec fn shortcut_displays() -> Seq<Seq<char>> {
    seq!["Ctrl+N"@, "Ctrl+O"@, "Ctrl+S"@, "Ctrl+Shift+S"@, "Ctrl+Shift+E"@, "Ctrl+Z"@, "Ctrl+Shift+Z / Ctrl+Y"@, "Ctrl+X"@, "Ctrl+C"@, "Ctrl+V"@, "Ctrl+Shift+N"@, "Ctrl+J"@, "Delete"@, "Ctrl+M"@, "L"@, "V"@, "C"@, "B"@, "E"@, "Z"@, "Ctrl++"@, "Ctrl+-"@, "Ctrl+0"@, "Ctrl+Shift+K"@, "Ctrl+Q"@, "Space"@, "[ / ]"@, "Shift+[ / Shift+]"@]
}

/// The accelerators bound for each shortcut, in order.
pub open spec fn shortcut_accels() -> Seq<Seq<Seq<char>>> {
    seq![seq!["<Control>N"@], seq!["<Control>O"@], seq!["<Control>S"@], seq!["<Control><Shift>S"@], seq!["<Control><Shift>E"@], seq!["<Control>Z"@], seq!["<Control><Shift>Z"@, "<Control>Y"@], seq!["<Control>X"@], seq!["<Control>C"@], seq!["<Control>V"@], seq!["<Control><Shift>N"@], seq!["<Control>J"@], seq!["Delete"@], seq!["<Control>M"@], seq!["L"@], seq!["V"@], seq!["C"@], seq!["B"@], seq!["E"@], seq!["Z"@], seq!["<Control>plus"@, "<Control>equal"@], seq!["<Control>minus"@], seq!["<Control>0"@], seq!["<Control><Shift>K"@], seq!["<Control>Q"@], seq![], seq![], seq![]]
}

/// The registry's actions, in order (`None` for canvas gestures).
pub open spec fn shortcut_actions() -> Seq<Option<Seq<char>>> {
    seq![Some("win.new"@), Some("win.open"@), Some("win.save"@), Some("win.save-as"@), Some("win.export"@), Some("win.undo"@), Some("win.redo"@), Some("win.cut"@), Some("win.copy"@), Some("win.paste"@), Some("win.new-layer"@), Some("win.duplicate-layer"@), Some("win.delete-layer"@), Some("win.toggle-mask-edit"@), Some("win.tool-lasso"@), Some("win.tool-move"@), Some("win.crop"@), Some("win.tool-brush"@), Some("win.tool-eraser"@), Some("win.tool-zoom"@), Some("win.zoom-in"@), Some("win.zoom-out"@), Some("win.fit-to-screen"@), Some("win.keyboard-shortcuts"@), Some("win.quit"@), None, None, None] 
}

pub open spec fn action_view(action: Option<&'static str>) -> Option<Seq<char>> {
    match action {
        Some(a) => Some(a@),
        None => None,
    }
}

/// The keyboard shortcut registry, in the order the shortcuts window lists it.
pub fn shortcuts() -> (registry: Vec<ShortcutSpec>)
    ensures
        registry@.len() == shortcut_commands().len(),
        forall|i: int| 0 <= i < registry@.len() ==> (#[trigger] registry@[i]).command@ == shortcut_commands()[i]
            && action_view(registry@[i].action) == shortcut_actions()[i] && registry@[i].display@
            == shortcut_displays()[i] && names_view(registry@[i].accels@) == shortcut_accels()[i],
{
    let registry = vec![
        ShortcutSpec { action: Some("win.new"), command: "New", display: "Ctrl+N", accels: vec!["<Control>N"] },
        ShortcutSpec { action: Some("win.open"), command: "Open", display: "Ctrl+O", accels: vec!["<Control>O"] },
        ShortcutSpec { action: Some("win.save"), command: "Save", display: "Ctrl+S", accels: vec!["<Control>S"] },
        ShortcutSpec { action: Some("win.save-as"), command: "Save As", display: "Ctrl+Shift+S", accels: vec!["<Control><Shift>S"] },
        ShortcutSpec { action: Some("win.export"), command: "Export", display: "Ctrl+Shift+E", accels: vec!["<Control><Shift>E"] },
        ShortcutSpec { action: Some("win.undo"), command: "Undo", display: "Ctrl+Z", accels: vec!["<Control>Z"] },
        ShortcutSpec { action: Some("win.redo"), command: "Redo", display: "Ctrl+Shift+Z / Ctrl+Y", accels: vec!["<Control><Shift>Z", "<Control>Y"] },
        ShortcutSpec { action: Some("win.cut"), command: "Cut Layer", display: "Ctrl+X", accels: vec!["<Control>X"] },
        ShortcutSpec { action: Some("win.copy"), command: "Copy Layer", display: "Ctrl+C", accels: vec!["<Control>C"] },
        ShortcutSpec { action: Some("win.paste"), command: "Paste Layer", display: "Ctrl+V", accels: vec!["<Control>V"] },
        ShortcutSpec { action: Some("win.new-layer"), command: "New Layer", display: "Ctrl+Shift+N", accels: vec!["<Control><Shift>N"] },
        ShortcutSpec { action: Some("win.duplicate-layer"), command: "Duplicate Layer", display: "Ctrl+J", accels: vec!["<Control>J"] },
        ShortcutSpec { action: Some("win.delete-layer"), command: "Delete Layer", display: "Delete", accels: vec!["Delete"] },
        ShortcutSpec { action: Some("win.toggle-mask-edit"), command: "Toggle Mask Edit", display: "Ctrl+M", accels: vec!["<Control>M"] },
        ShortcutSpec { action: Some("win.tool-lasso"), command: "Lasso Tool", display: "L", accels: vec!["L"] },
        ShortcutSpec { action: Some("win.tool-move"), command: "Move Tool", display: "V", accels: vec!["V"] },
        ShortcutSpec { action: Some("win.crop"), command: "Crop Tool", display: "C", accels: vec!["C"] },
        ShortcutSpec { action: Some("win.tool-brush"), command: "Brush Tool", display: "B", accels: vec!["B"] },
        ShortcutSpec { action: Some("win.tool-eraser"), command: "Eraser Tool", display: "E", accels: vec!["E"] },
        ShortcutSpec { action: Some("win.tool-zoom"), command: "Zoom Tool", display: "Z", accels: vec!["Z"] },
        ShortcutSpec { action: Some("win.zoom-in"), command: "Zoom In", display: "Ctrl++", accels: vec!["<Control>plus", "<Control>equal"] },
        ShortcutSpec { action: Some("win.zoom-out"), command: "Zoom Out", display: "Ctrl+-", accels: vec!["<Control>minus"] },
        ShortcutSpec { action: Some("win.fit-to-screen"), command: "Fit to Screen", display: "Ctrl+0", accels: vec!["<Control>0"] },
        ShortcutSpec { action: Some("win.keyboard-shortcuts"), command: "Keyboard Shortcuts", display: "Ctrl+Shift+K", accels: vec!["<Control><Shift>K"] },
        ShortcutSpec { action: Some("win.quit"), command: "Quit", display: "Ctrl+Q", accels: vec!["<Control>Q"] },
        ShortcutSpec { action: None, command: "Temporary Pan", display: "Space", accels: vec![] },
        ShortcutSpec { action: None, command: "Brush Size", display: "[ / ]", accels: vec![] },
        ShortcutSpec { action: None, command: "Brush Hardness", display: "Shift+[ / Shift+]", accels: vec![] },
    ];
    assert(registry@.len() == shortcut_commands().len());
    registry
}

/// The actions the menus and header show, in order.
pub open spec fn visible_window_action_names() -> Seq<Seq<char>> {
    seq!["new"@, "open"@, "save"@, "save-as"@, "export"@, "quit"@, "undo"@, "redo"@, "cut"@, "copy"@, "paste"@, "image-size"@, "canvas-size"@, "crop"@, "rotate"@, "new-layer"@, "duplicate-layer"@, "delete-layer"@, "add-mask"@, "remove-mask"@, "apply-mask"@, "toggle-mask-edit"@, "toggle-mask-enabled"@, "toggle-mask-view"@, "merge-down"@, "blur"@, "sharpen"@, "noise"@, "workspace-quick"@, "workspace-full"@, "workspace-canvas-only"@, "tool-move"@, "tool-brush"@, "tool-eraser"@, "tool-zoom"@, "zoom-in"@, "zoom-out"@, "fit-to-screen"@, "keyboard-shortcuts"@, "about"@]
}

pub fn visible_window_actions() -> (names: Vec<&'static str>)
    ensures
        names_view(names@) == visible_window_action_names(),
{
    let names = vec!["new", "open", "save", "save-as", "export", "quit", "undo", "redo", "cut", "copy", "paste", "image-size", "canvas-size", "crop", "rotate", "new-layer", "duplicate-layer", "delete-layer", "add-mask", "remove-mask", "apply-mask", "toggle-mask-edit", "toggle-mask-enabled", "toggle-mask-view", "merge-down", "blur", "sharpen", "noise", "workspace-quick", "workspace-full", "workspace-canvas-only", "tool-move", "tool-brush", "tool-eraser", "tool-zoom", "zoom-in", "zoom-out", "fit-to-screen", "keyboard-shortcuts", "about"];
    assert(names_view(names@) =~= visible_window_action_names());
    names
}

/// Every action the window exposes, in order.
pub open spec fn exposed_action_names() -> Seq<Seq<char>> {
    seq!["new"@, "open"@, "save"@, "save-as"@, "export"@, "quit"@, "undo"@, "redo"@, "cut"@, "copy"@, "paste"@, "image-size"@, "canvas-size"@, "upscale"@, "crop"@, "rotate"@, "flip-h"@, "flip-v"@, "new-layer"@, "duplicate-layer"@, "delete-layer"@, "add-mask"@, "remove-mask"@, "apply-mask"@, "toggle-mask-edit"@, "toggle-mask-enabled"@, "toggle-mask-view"@, "merge-down"@, "blur"@, "sharpen"@, "noise"@, "invert"@, "grayscale"@, "workspace-quick"@, "workspace-full"@, "workspace-canvas-only"@, "tool-move"@, "tool-lasso"@, "tool-brush"@, "tool-eraser"@, "tool-zoom"@, "zoom-in"@, "zoom-out"@, "fit-to-screen"@, "keyboard-shortcuts"@, "about"@]
}

pub fn exposed_actions() -> (names: Vec<&'static str>)
    ensures
        names_view(names@) == exposed_action_names(),
{
    let names = vec!["new", "open", "save", "save-as", "export", "quit", "undo", "redo", "cut", "copy", "paste", "image-size", "canvas-size", "upscale", "crop", "rotate", "flip-h", "flip-v", "new-layer", "duplicate-layer", "delete-layer", "add-mask", "remove-mask", "apply-mask", "toggle-mask-edit", "toggle-mask-enabled", "toggle-mask-view", "merge-down", "blur", "sharpen", "noise", "invert", "grayscale", "workspace-quick", "workspace-full", "workspace-canvas-only", "tool-move", "tool-lasso", "tool-brush", "tool-eraser", "tool-zoom", "zoom-in", "zoom-out", "fit-to-screen", "keyboard-shortcuts", "about"];
    assert(names_view(names@) =~= exposed_action_names());
    names
}

/// No two of the names are the same text.
pub open spec fn all_distinct(names: Seq<Seq<char>>) -> bool {
    forall|i: int, j: int| 0 <= i < j < names.len() ==> names[i] != names[j]
}

/// Whether no two of the names are the same text.
pub fn names_are_distinct(names: &Vec<&'static str>) -> (distinct: bool)
    ensures
        distinct == all_distinct(names_view(names@)),
{
    let n = names.len();
    let mut i: usize = 0;
    while i < n
        invariant
            n == names@.len(),
            i <= n,
            forall|a: int, b: int| 0 <= a < i && a < b < n ==> names@[a]@ != names@[b]@,
        decreases n - i,
    {
        let mut j: usize = i + 1;
        while j < n
            invariant
                n == names@.len(),
                i < n,
                i + 1 <= j <= n,
                forall|a: int, b: int| 0 <= a < i && a < b < n ==> names@[a]@ != names@[b]@,
                forall|b: int| i < b < j ==> names@[i as int]@ != names@[b]@,
            decreases n - j,
        {
            if crate::text::equal_strings(names[i], names[j]) {
                assert(names_view(names@)[i as int] == names_view(names@)[j as int]);
                return false;
            }
            j += 1;
        }
        i += 1;
    }
    true
}

} // verus!
