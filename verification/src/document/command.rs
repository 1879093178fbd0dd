//! Undoable edits and the bounded history that runs them.

use vstd::prelude::*;

use crate::document::layer::LayerKindView;
use crate::document::layer::LayerView;
use crate::document::layer::RasterView;
use crate::document::layer_position;
use crate::document::last_layer_id;
use crate::document::mask::MaskView;
use crate::document::touched;
use crate::document::Document;
use crate::document::DocumentView;
use crate::document::Layer;
use crate::document::LayerId;
use crate::document::LayerKind;
use crate::document::Mask;

verus! {

/// How many executed commands the history keeps.
pub const HISTORY_DEPTH: usize = 64;

/// A command as a value: what it holds between being applied and undone.
#[allow(inconsistent_fields)]
pub enum CommandView {
    AddLayer { layer: Option<LayerView>, index: usize },
    RemoveLayer { layer: Option<LayerView>, index: usize },
    ModifyLayer { layer_id: LayerId, position: int, old_state: Option<LayerView>, new_state: LayerView },
    ReplaceDocument { name: Seq<char>, old_state: Option<DocumentView>, new_state: DocumentView },
    AddLayerMask { layer_id: LayerId, new_mask: Option<MaskView>, old_mask: Option<MaskView> },
    RemoveLayerMask { layer_id: LayerId, mask: Option<MaskView> },
    ApplyLayerMask { layer_id: LayerId, old_layer: Option<LayerView> },
}

/// The history as a value: executed commands (oldest first), undone commands
/// (the next one to redo last) and the number of commands kept.
pub struct UndoStackView {
    pub done: Seq<CommandView>,
    pub undone: Seq<CommandView>,
    pub max_depth: usize,
}

/// The history of a new document.
pub open spec fn empty_history() -> UndoStackView {
    UndoStackView { done: Seq::empty(), undone: Seq::empty(), max_depth: HISTORY_DEPTH }
}

pub open spec fn layer_option_view(layer: Option<Layer>) -> Option<LayerView> {
    match layer {
        Some(l) => Some(l@),
        None => None,
    }
}

pub open spec fn document_option_view(doc: Option<Document>) -> Option<DocumentView> {
    match doc {
        Some(d) => Some(d@),
        None => None,
    }
}

/// The label shown in the history for a command.
pub open spec fn command_name(c: CommandView) -> Seq<char> {
    match c {
        CommandView::AddLayer { .. } => "Add Layer"@,
        CommandView::RemoveLayer { .. } => "Remove Layer"@,
        CommandView::ModifyLayer { .. } => "Modify Layer"@,
        CommandView::ReplaceDocument { name, .. } => name,
        CommandView::AddLayerMask { .. } => "Add Layer Mask"@,
        CommandView::RemoveLayerMask { .. } => "Remove Layer Mask"@,
        CommandView::ApplyLayerMask { .. } => "Apply Layer Mask"@,
    }
}

/// The document with one more revision counted (looking a layer up for
/// change counts one).
pub open spec fn counted(d: DocumentView) -> DocumentView {
    DocumentView { revision: (d.revision + 1) as u64, ..d }
}

pub open spec fn with_layers(d: DocumentView, layers: Seq<LayerView>) -> DocumentView {
    DocumentView { layers, ..d }
}

pub open spec fn with_mask(layer: LayerView, mask: Option<MaskView>) -> LayerView {
    LayerView { mask, ..layer }
}

/// Alpha bytes (every fourth byte) of the first `width * height` pixels
/// multiplied by the mask byte of the same pixel and divided by 255, where
/// both exist; every other byte unchanged.
pub open spec fn masked_alpha(data: Seq<u8>, mask: Seq<u8>, width: u32, height: u32) -> Seq<u8> {
    Seq::new(
        data.len(),
        |k: int|
            if k % 4 == 3 && k / 4 < width * height && k / 4 < mask.len() {
                ((data[k] * mask[k / 4]) / 255) as u8
            } else {
                data[k]
            },
    )
}

/// The layer with its mask multiplied into the alpha channel and removed.
pub open spec fn layer_with_mask_applied(layer: LayerView, r: RasterView, m: MaskView) -> LayerView {
    LayerView {
        mask: None,
        kind: LayerKindView::Raster(RasterView { data: masked_alpha(r.data, m.data, r.width, r.height), ..r }),
        ..layer
    }
}

/// What applying a command does: the command's new state and the new document.
pub open spec fn apply_command(c: CommandView, d: DocumentView) -> (CommandView, DocumentView) {
    match c {
        CommandView::AddLayer { layer, index } => match layer {
            Some(l) => {
                let idx = if index < d.layers.len() { index } else { d.layers.len() as usize };
                (
                    CommandView::AddLayer { layer: None, index: idx },
                    touched(DocumentView { layers: d.layers.insert(idx as int, l), active_layer_id: Some(l.id), ..d }),
                )
            },
            None => (c, d),
        },
        CommandView::RemoveLayer { layer, index } => take_layer_at(c, d, index, true),
        CommandView::ModifyLayer { layer_id, position, old_state, new_state } => match layer_position(d.layers, layer_id) {
            Some(i) => (
                CommandView::ModifyLayer { layer_id, position: i, old_state: Some(d.layers[i]), new_state },
                touched(with_layers(d, d.layers.update(i, new_state))),
            ),
            None => (c, d),
        },
        CommandView::ReplaceDocument { name, old_state, new_state } => (
            CommandView::ReplaceDocument { name, old_state: Some(d), new_state },
            touched(new_state),
        ),
        CommandView::AddLayerMask { layer_id, new_mask, old_mask } => match (new_mask, layer_position(d.layers, layer_id)) {
            (Some(m), Some(i)) => (
                CommandView::AddLayerMask { layer_id, new_mask: None, old_mask: d.layers[i].mask },
                touched(counted(with_layers(d, d.layers.update(i, with_mask(d.layers[i], Some(m)))))),
            ),
            _ => (CommandView::AddLayerMask { layer_id, new_mask: None, old_mask }, counted(d)),
        },
        CommandView::RemoveLayerMask { layer_id, mask } => match layer_position(d.layers, layer_id) {
            Some(i) => (
                CommandView::RemoveLayerMask { layer_id, mask: d.layers[i].mask },
                touched(counted(with_layers(d, d.layers.update(i, with_mask(d.layers[i], None))))),
            ),
            None => (c, counted(d)),
        },
        CommandView::ApplyLayerMask { layer_id, old_layer } => match layer_position(d.layers, layer_id) {
            Some(i) => match (d.layers[i].mask, d.layers[i].kind) {
                (Some(m), LayerKindView::Raster(r)) => if m.width == r.width && m.height == r.height {
                    (
                        CommandView::ApplyLayerMask { layer_id, old_layer: Some(d.layers[i]) },
                        touched(counted(with_layers(d, d.layers.update(i, layer_with_mask_applied(d.layers[i], r, m))))),
                    )
                } else {
                    (c, counted(d))
                },
                _ => (c, counted(d)),
            },
            None => (c, counted(d)),
        },
    }
}

/// Removing the layer at `index` (when there is one) into the command; the
/// topmost remaining layer becomes active if the removed one was.
pub open spec fn take_layer_at(c: CommandView, d: DocumentView, index: usize, removing: bool) -> (CommandView, DocumentView) {
    if index < d.layers.len() {
        let removed = d.layers[index as int];
        let layers = d.layers.remove(index as int);
        let active = if d.active_layer_id == Some(removed.id) { last_layer_id(layers) } else { d.active_layer_id };
        (
            if removing {
                CommandView::RemoveLayer { layer: Some(removed), index }
            } else {
                CommandView::AddLayer { layer: Some(removed), index }
            },
            touched(DocumentView { layers, active_layer_id: active, ..d }),
        )
    } else {
        (c, d)
    }
}

/// What undoing a command does: the command's new state and the new document.
pub open spec fn undo_command(c: CommandView, d: DocumentView) -> (CommandView, DocumentView) {
    match c {
        CommandView::AddLayer { layer, index } => take_layer_at(c, d, index, false),
        CommandView::RemoveLayer { layer, index } => match layer {
            Some(l) => (
                CommandView::RemoveLayer { layer: None, index },
                touched(DocumentView { layers: d.layers.insert(index as int, l), active_layer_id: Some(l.id), ..d }),
            ),
            None => (c, d),
        },
        CommandView::ModifyLayer { layer_id, position, old_state, new_state } => match old_state {
            Some(o) => if 0 <= position < d.layers.len() {
                (
                    CommandView::ModifyLayer { layer_id, position, old_state: None, new_state: d.layers[position] },
                    touched(with_layers(d, d.layers.update(position, o))),
                )
            } else {
                (CommandView::ModifyLayer { layer_id, position, old_state: None, new_state }, d)
            },
            None => (c, d),
        },
        CommandView::ReplaceDocument { name, old_state, new_state } => match old_state {
            Some(o) => (CommandView::ReplaceDocument { name, old_state: None, new_state: d }, touched(o)),
            None => (c, d),
        },
        CommandView::AddLayerMask { layer_id, new_mask, old_mask } => match layer_position(d.layers, layer_id) {
            Some(i) => (
                CommandView::AddLayerMask { layer_id, new_mask: d.layers[i].mask, old_mask: None },
                touched(counted(with_layers(d, d.layers.update(i, with_mask(d.layers[i], old_mask))))),
            ),
            None => (c, counted(d)),
        },
        CommandView::RemoveLayerMask { layer_id, mask } => match (mask, layer_position(d.layers, layer_id)) {
            (Some(m), Some(i)) => (
                CommandView::RemoveLayerMask { layer_id, mask: None },
                touched(counted(with_layers(d, d.layers.update(i, with_mask(d.layers[i], Some(m)))))),
            ),
            _ => (CommandView::RemoveLayerMask { layer_id, mask: None }, counted(d)),
        },
        CommandView::ApplyLayerMask { layer_id, old_layer } => match old_layer {
            Some(o) => match layer_position(d.layers, layer_id) {
                Some(i) => (
                    CommandView::ApplyLayerMask { layer_id, old_layer: None },
                    touched(with_layers(d, d.layers.update(i, o))),
                ),
                None => (CommandView::ApplyLayerMask { layer_id, old_layer: None }, d),
            },
            None => (c, d),
        },
    }
}

/// The history a document has after the command is applied: replacing the
/// whole document starts an empty one, every other command leaves it alone.
pub open spec fn history_after_applying(c: CommandView, current: UndoStackView) -> UndoStackView {
    if c is ReplaceDocument {
        empty_history()
    } else {
        current
    }
}

/// Applying the command stays within the machine's integer ranges (the
/// revision counter, and the byte index of the last pixel a mask is applied to).
pub open spec fn apply_fits(c: CommandView, d: DocumentView) -> bool {
    &&& d.revision + 2 <= u64::MAX
    &&& match c {
        CommandView::ReplaceDocument { new_state, .. } => new_state.revision + 1 <= u64::MAX,
        CommandView::ApplyLayerMask { layer_id, .. } => match layer_position(d.layers, layer_id) {
            Some(i) => match d.layers[i].kind {
                LayerKindView::Raster(r) => r.width * r.height * 4 <= usize::MAX + 1,
                _ => true,
            },
            None => true,
        },
        _ => true,
    }
}

/// Undoing the command stays within the machine's integer ranges, and a
/// removed layer goes back to a position that exists.
pub open spec fn undo_fits(c: CommandView, d: DocumentView) -> bool {
    &&& d.revision + 2 <= u64::MAX
    &&& match c {
        CommandView::ReplaceDocument { old_state, .. } => match old_state {
            Some(o) => o.revision + 1 <= u64::MAX,
            None => true,
        },
        CommandView::RemoveLayer { layer, index } => layer is Some ==> index <= d.layers.len(),
        _ => true,
    }
}


/// Inserts a layer at a position (clamped to the top of the stack) and makes
/// it active; it remembers where the layer went, and undo removes it from
/// there.
#[derive(Debug)]
pub struct AddLayerCommand {
    layer: Option<Layer>,
    index: usize,
}

/// Removes the layer at a position.
#[derive(Debug)]
pub struct RemoveLayerCommand {
    layer: Option<Layer>,
    index: usize,
}

/// Replaces the first layer with an identifier by a new state of it; it
/// remembers the position it replaced, and undo puts the old state back there.
#[derive(Debug)]
pub struct ModifyLayerCommand {
    layer_id: LayerId,
    position: usize,
    old_state: Option<Layer>,
    new_state: Layer,
}

/// Replaces the whole document (a copy of the new state, without history).
#[derive(Debug)]
pub struct ReplaceDocumentCommand {
    name: &'static str,
    old_state: Option<Document>,
    new_state: Document,
}

/// Gives a layer a mask, keeping the one it replaces for undo.
#[derive(Debug)]
pub struct AddLayerMaskCommand {
    layer_id: LayerId,
    new_mask: Option<Mask>,
    old_mask: Option<Mask>,
}

/// Takes a layer's mask away.
#[derive(Debug)]
pub struct RemoveLayerMaskCommand {
    layer_id: LayerId,
    mask: Option<Mask>,
}

/// Multiplies a raster layer's mask into its alpha channel and drops the mask.
#[derive(Debug)]
pub struct ApplyLayerMaskCommand {
    layer_id: LayerId,
    old_layer: Option<Layer>,
}

impl View for AddLayerCommand {
    type V = CommandView;

    closed spec fn view(&self) -> CommandView {
        CommandView::AddLayer { layer: layer_option_view(self.layer), index: self.index }
    }
}

impl View for RemoveLayerCommand {
    type V = CommandView;

    closed spec fn view(&self) -> CommandView {
        CommandView::RemoveLayer { layer: layer_option_view(self.layer), index: self.index }
    }
}

impl View for ModifyLayerCommand {
    type V = CommandView;

    closed spec fn view(&self) -> CommandView {
        CommandView::ModifyLayer {
            layer_id: self.layer_id,
            position: self.position as int,
            old_state: layer_option_view(self.old_state),
            new_state: self.new_state@,
        }
    }
}

impl View for ReplaceDocumentCommand {
    type V = CommandView;

    closed spec fn view(&self) -> CommandView {
        CommandView::ReplaceDocument {
            name: self.name@,
            old_state: document_option_view(self.old_state),
            new_state: self.new_state@,
        }
    }
}

impl View for AddLayerMaskCommand {
    type V = CommandView;

    closed spec fn view(&self) -> CommandView {
        CommandView::AddLayerMask {
            layer_id: self.layer_id,
            new_mask: crate::document::layer::mask_option_view(self.new_mask),
            old_mask: crate::document::layer::mask_option_view(self.old_mask),
        }
    }
}

impl View for RemoveLayerMaskCommand {
    type V = CommandView;

    closed spec fn view(&self) -> CommandView {
        CommandView::RemoveLayerMask {
            layer_id: self.layer_id,
            mask: crate::document::layer::mask_option_view(self.mask),
        }
    }
}

impl View for ApplyLayerMaskCommand {
    type V = CommandView;

    closed spec fn view(&self) -> CommandView {
        CommandView::ApplyLayerMask { layer_id: self.layer_id, old_layer: layer_option_view(self.old_layer) }
    }
}

impl AddLayerCommand {
    pub fn new(layer: Layer, index: usize) -> (cmd: Self)
        ensures
            cmd@ == (CommandView::AddLayer { layer: Some(layer@), index }),
    {
        AddLayerCommand { layer: Some(layer), index }
    }

    pub fn name(&self) -> (name: &'static str)
        ensures
            name@ == command_name(self@),
    {
        "Add Layer"
    }

    pub fn apply(&mut self, doc: &mut Document)
        requires
            apply_fits(old(self)@, old(doc)@),
        ensures
            (final(self)@, final(doc)@) == apply_command(old(self)@, old(doc)@),
            final(doc).undo_stack@ == old(doc).undo_stack@,
    {
        if let Some(layer) = self.layer.take() {
            let idx = if self.index < doc.layers.len() { self.index } else { doc.layers.len() };
            let id = layer.id;
            doc.layers.insert(idx, layer);
            self.index = idx;
            doc.active_layer_id = Some(id);
            doc.revision += 1;
            doc.has_unsaved_changes = true;
            assert(doc@.layers =~= old(doc)@.layers.insert(idx as int, old(self)@->AddLayer_layer->Some_0));
        }
    }

    pub fn undo(&mut self, doc: &mut Document)
        requires
            undo_fits(old(self)@, old(doc)@),
        ensures
            (final(self)@, final(doc)@) == undo_command(old(self)@, old(doc)@),
            final(doc).undo_stack@ == old(doc).undo_stack@,
    {
        if self.index < doc.layers.len() {
            let removed_id = doc.layers[self.index].id;
            let removed = doc.layers.remove(self.index);
            self.layer = Some(removed);
            let was_active = match doc.active_layer_id {
                Some(active) => active == removed_id,
                None => false,
            };
            if was_active {
                doc.active_layer_id = last_id(&doc.layers);
            }
            doc.revision += 1;
            doc.has_unsaved_changes = true;
            assert(doc@.layers =~= old(doc)@.layers.remove(self.index as int));
        }
    }
}

/// The identifier of the topmost layer.
fn last_id(layers: &Vec<Layer>) -> (id: Option<LayerId>)
    ensures
        id == last_layer_id(layers@.map_values(|l: Layer| l@)),
{
    if layers.len() > 0 {
        Some(layers[layers.len() - 1].id)
    } else {
        None
    }
}


impl RemoveLayerCommand {
    pub fn new(index: usize) -> (cmd: Self)
        ensures
            cmd@ == (CommandView::RemoveLayer { layer: None, index }),
    {
        RemoveLayerCommand { layer: None, index }
    }

    pub fn name(&self) -> (name: &'static str)
        ensures
            name@ == command_name(self@),
    {
        "Remove Layer"
    }

    pub fn apply(&mut self, doc: &mut Document)
        requires
            apply_fits(old(self)@, old(doc)@),
        ensures
            (final(self)@, final(doc)@) == apply_command(old(self)@, old(doc)@),
            final(doc).undo_stack@ == old(doc).undo_stack@,
    {
        if self.index < doc.layers.len() {
            let removed_id = doc.layers[self.index].id;
            let removed = doc.layers.remove(self.index);
            self.layer = Some(removed);
            let was_active = match doc.active_layer_id {
                Some(active) => active == removed_id,
                None => false,
            };
            if was_active {
                doc.active_layer_id = last_id(&doc.layers);
            }
            doc.revision += 1;
            doc.has_unsaved_changes = true;
            assert(doc@.layers =~= old(doc)@.layers.remove(self.index as int));
        }
    }

    pub fn undo(&mut self, doc: &mut Document)
        requires
            undo_fits(old(self)@, old(doc)@),
        ensures
            (final(self)@, final(doc)@) == undo_command(old(self)@, old(doc)@),
            final(doc).undo_stack@ == old(doc).undo_stack@,
    {
        if let Some(layer) = self.layer.take() {
            let id = layer.id;
            doc.layers.insert(self.index, layer);
            doc.active_layer_id = Some(id);
            doc.revision += 1;
            doc.has_unsaved_changes = true;
            assert(doc@.layers =~= old(doc)@.layers.insert(self.index as int, old(self)@->RemoveLayer_layer->Some_0));
        }
    }
}

impl ModifyLayerCommand {
    pub fn new(layer_id: LayerId, new_state: Layer) -> (cmd: Self)
        ensures
            cmd@ == (CommandView::ModifyLayer { layer_id, position: 0, old_state: None, new_state: new_state@ }),
    {
        ModifyLayerCommand { layer_id, position: 0, old_state: None, new_state }
    }

    pub fn name(&self) -> (name: &'static str)
        ensures
            name@ == command_name(self@),
    {
        "Modify Layer"
    }

    pub fn apply(&mut self, doc: &mut Document)
        requires
            apply_fits(old(self)@, old(doc)@),
        ensures
            (final(self)@, final(doc)@) == apply_command(old(self)@, old(doc)@),
            final(doc).undo_stack@ == old(doc).undo_stack@,
    {
        if let Some(idx) = doc.layer_index(self.layer_id) {
            let mut replaced = self.new_state.clone();
            std::mem::swap(&mut doc.layers[idx], &mut replaced);
            self.old_state = Some(replaced);
            self.position = idx;
            doc.revision += 1;
            doc.has_unsaved_changes = true;
            assert(doc@.layers =~= old(doc)@.layers.update(idx as int, self.new_state@));
        }
    }

    pub fn undo(&mut self, doc: &mut Document)
        requires
            undo_fits(old(self)@, old(doc)@),
        ensures
            (final(self)@, final(doc)@) == undo_command(old(self)@, old(doc)@),
            final(doc).undo_stack@ == old(doc).undo_stack@,
    {
        if let Some(mut previous) = self.old_state.take() {
            let idx = self.position;
            if idx < doc.layers.len() {
                std::mem::swap(&mut doc.layers[idx], &mut previous);
                self.new_state = previous;
                doc.revision += 1;
                doc.has_unsaved_changes = true;
                assert(doc@.layers =~= old(doc)@.layers.update(idx as int, old(self)@->ModifyLayer_old_state->Some_0));
            }
        }
    }
}

impl ReplaceDocumentCommand {
    pub fn new(name: &'static str, new_state: Document) -> (cmd: Self)
        ensures
            cmd@ == (CommandView::ReplaceDocument { name: name@, old_state: None, new_state: new_state@ }),
    {
        ReplaceDocumentCommand { name, old_state: None, new_state }
    }

    /// The history a document has after this command is undone: that of the
    /// document it restores, if it holds one.
    pub closed spec fn restored_history(&self, current: UndoStackView) -> UndoStackView {
        match self.old_state {
            Some(o) => o.undo_stack@,
            None => current,
        }
    }

    pub fn name(&self) -> (name: &'static str)
        ensures
            name@ == command_name(self@),
    {
        self.name
    }

    pub fn apply(&mut self, doc: &mut Document)
        requires
            apply_fits(old(self)@, old(doc)@),
        ensures
            (final(self)@, final(doc)@) == apply_command(old(self)@, old(doc)@),
            final(doc).undo_stack@ == empty_history(),
    {
        let mut previous = self.new_state.clone();
        std::mem::swap(doc, &mut previous);
        self.old_state = Some(previous);
        doc.revision += 1;
        doc.has_unsaved_changes = true;
    }

    pub fn undo(&mut self, doc: &mut Document)
        requires
            undo_fits(old(self)@, old(doc)@),
        ensures
            (final(self)@, final(doc)@) == undo_command(old(self)@, old(doc)@),
            final(doc).undo_stack@ == old(self).restored_history(old(doc).undo_stack@),
    {
        if let Some(mut old_state) = self.old_state.take() {
            std::mem::swap(doc, &mut old_state);
            self.new_state = old_state;
            doc.revision += 1;
            doc.has_unsaved_changes = true;
        }
    }
}

impl AddLayerMaskCommand {
    pub fn new(layer_id: LayerId, mask: Mask) -> (cmd: Self)
        ensures
            cmd@ == (CommandView::AddLayerMask { layer_id, new_mask: Some(mask@), old_mask: None }),
    {
        AddLayerMaskCommand { layer_id, new_mask: Some(mask), old_mask: None }
    }

    pub fn name(&self) -> (name: &'static str)
        ensures
            name@ == command_name(self@),
    {
        "Add Layer Mask"
    }

    pub fn apply(&mut self, doc: &mut Document)
        requires
            apply_fits(old(self)@, old(doc)@),
        ensures
            (final(self)@, final(doc)@) == apply_command(old(self)@, old(doc)@),
            final(doc).undo_stack@ == old(doc).undo_stack@,
    {
        let new_mask = self.new_mask.take();
        doc.revision += 1;
        let position = doc.layer_index(self.layer_id);
        if let (Some(mask), Some(idx)) = (new_mask, position) {
            let mut previous = Some(mask);
            std::mem::swap(&mut doc.layers[idx].mask, &mut previous);
            self.old_mask = previous;
            doc.revision += 1;
            doc.has_unsaved_changes = true;
            assert(doc@.layers =~= old(doc)@.layers.update(
                idx as int,
                with_mask(old(doc)@.layers[idx as int], old(self)@->AddLayerMask_new_mask),
            ));
        }
    }

    pub fn undo(&mut self, doc: &mut Document)
        requires
            undo_fits(old(self)@, old(doc)@),
        ensures
            (final(self)@, final(doc)@) == undo_command(old(self)@, old(doc)@),
            final(doc).undo_stack@ == old(doc).undo_stack@,
    {
        doc.revision += 1;
        if let Some(idx) = doc.layer_index(self.layer_id) {
            let mut restored = self.old_mask.take();
            std::mem::swap(&mut doc.layers[idx].mask, &mut restored);
            self.new_mask = restored;
            doc.revision += 1;
            doc.has_unsaved_changes = true;
            assert(doc@.layers =~= old(doc)@.layers.update(
                idx as int,
                with_mask(old(doc)@.layers[idx as int], old(self)@->AddLayerMask_old_mask),
            ));
        }
    }
}

impl RemoveLayerMaskCommand {
    pub fn new(layer_id: LayerId) -> (cmd: Self)
        ensures
            cmd@ == (CommandView::RemoveLayerMask { layer_id, mask: None }),
    {
        RemoveLayerMaskCommand { layer_id, mask: None }
    }

    pub fn name(&self) -> (name: &'static str)
        ensures
            name@ == command_name(self@),
    {
        "Remove Layer Mask"
    }

    pub fn apply(&mut self, doc: &mut Document)
        requires
            apply_fits(old(self)@, old(doc)@),
        ensures
            (final(self)@, final(doc)@) == apply_command(old(self)@, old(doc)@),
            final(doc).undo_stack@ == old(doc).undo_stack@,
    {
        doc.revision += 1;
        if let Some(idx) = doc.layer_index(self.layer_id) {
            let mut taken: Option<Mask> = None;
            std::mem::swap(&mut doc.layers[idx].mask, &mut taken);
            self.mask = taken;
            doc.revision += 1;
            doc.has_unsaved_changes = true;
            assert(doc@.layers =~= old(doc)@.layers.update(idx as int, with_mask(old(doc)@.layers[idx as int], None)));
        }
    }

    pub fn undo(&mut self, doc: &mut Document)
        requires
            undo_fits(old(self)@, old(doc)@),
        ensures
            (final(self)@, final(doc)@) == undo_command(old(self)@, old(doc)@),
            final(doc).undo_stack@ == old(doc).undo_stack@,
    {
        let mask = self.mask.take();
        doc.revision += 1;
        let position = doc.layer_index(self.layer_id);
        if let (Some(mask), Some(idx)) = (mask, position) {
            doc.layers[idx].mask = Some(mask);
            doc.revision += 1;
            doc.has_unsaved_changes = true;
            assert(doc@.layers =~= old(doc)@.layers.update(
                idx as int,
                with_mask(old(doc)@.layers[idx as int], old(self)@->RemoveLayerMask_mask),
            ));
        }
    }
}

/// Multiplies the alpha byte of each of the first `width * height` pixels by
/// the mask byte of that pixel, divided by 255, where both bytes exist.
fn multiply_alpha(data: &mut Vec<u8>, mask: &Vec<u8>, width: u32, height: u32)
    requires
        width * height * 4 <= usize::MAX + 1,
    ensures
        final(data)@ == masked_alpha(old(data)@, mask@, width, height),
{
    let total = width as usize * height as usize;
    let mut p: usize = 0;
    while p < total
        invariant
            total == width * height,
            total * 4 <= usize::MAX + 1,
            p <= total,
            data@.len() == old(data)@.len(),
            forall|k: int| 0 <= k < data@.len() ==> data@[k] == (
                if k % 4 == 3 && k / 4 < p && k / 4 < mask@.len() {
                    ((old(data)@[k] * mask@[k / 4]) / 255) as u8
                } else {
                    old(data)@[k]
                }),
        decreases total - p,
    {
        let pixel = p * 4 + 3;
        if pixel < data.len() && p < mask.len() {
            let alpha = data[pixel] as u16;
            let coverage = mask[p] as u16;
            assert(alpha * coverage <= 255 * 255) by (nonlinear_arith)
                requires
                    alpha <= 255,
                    coverage <= 255,
            ;
            let value = ((alpha * coverage) / 255) as u8;
            data.set(pixel, value);
        }
        p += 1;
    }
    assert(data@ =~= masked_alpha(old(data)@, mask@, width, height));
}

impl ApplyLayerMaskCommand {
    pub fn new(layer_id: LayerId) -> (cmd: Self)
        ensures
            cmd@ == (CommandView::ApplyLayerMask { layer_id, old_layer: None }),
    {
        ApplyLayerMaskCommand { layer_id, old_layer: None }
    }

    pub fn name(&self) -> (name: &'static str)
        ensures
            name@ == command_name(self@),
    {
        "Apply Layer Mask"
    }

    pub fn apply(&mut self, doc: &mut Document)
        requires
            apply_fits(old(self)@, old(doc)@),
        ensures
            (final(self)@, final(doc)@) == apply_command(old(self)@, old(doc)@),
            final(doc).undo_stack@ == old(doc).undo_stack@,
    {
        doc.revision += 1;
        if let Some(idx) = doc.layer_index(self.layer_id) {
            let old_layer = doc.layers[idx].clone();
            let fits = match (&doc.layers[idx].mask, &doc.layers[idx].kind) {
                (Some(mask), LayerKind::Raster(raster)) => mask.width == raster.width && mask.height == raster.height,
                _ => false,
            };
            if !fits {
                return;
            }
            let mut taken: Option<Mask> = None;
            std::mem::swap(&mut doc.layers[idx].mask, &mut taken);
            self.old_layer = Some(old_layer);
            if let Some(mask) = taken {
                apply_mask_to_raster(&mut doc.layers[idx].kind, &mask);
            }
            doc.revision += 1;
            doc.has_unsaved_changes = true;
            proof {
                let l = old(doc)@.layers[idx as int];
                let r = l.kind->Raster_0;
                let m = l.mask->Some_0;
                assert(doc@.layers =~= old(doc)@.layers.update(idx as int, layer_with_mask_applied(l, r, m)));
            }
        }
    }

    pub fn undo(&mut self, doc: &mut Document)
        requires
            undo_fits(old(self)@, old(doc)@),
        ensures
            (final(self)@, final(doc)@) == undo_command(old(self)@, old(doc)@),
            final(doc).undo_stack@ == old(doc).undo_stack@,
    {
        if let Some(mut old_layer) = self.old_layer.take() {
            if let Some(idx) = doc.layer_index(self.layer_id) {
                std::mem::swap(&mut doc.layers[idx], &mut old_layer);
                doc.revision += 1;
                doc.has_unsaved_changes = true;
                assert(doc@.layers =~= old(doc)@.layers.update(idx as int, old(self)@->ApplyLayerMask_old_layer->Some_0));
            }
        }
    }
}

/// Multiplies the mask into the alpha channel of a raster kind.
fn apply_mask_to_raster(kind: &mut LayerKind, mask: &Mask)
    requires
        *old(kind) matches LayerKind::Raster(r) && r.width * r.height * 4 <= usize::MAX + 1,
    ensures
        *old(kind) matches LayerKind::Raster(r) && final(kind)@ == LayerKindView::Raster(
            RasterView { data: masked_alpha(r.data@, mask.data@, r.width, r.height), ..r@ },
        ),
{
    match kind {
        LayerKind::Raster(raster) => {
            multiply_alpha(&mut raster.data, &mask.data, raster.width, raster.height);
        },
        _ => {},
    }
}

/// An undoable edit of the document.
#[derive(Debug)]
pub enum Command {
    AddLayer(AddLayerCommand),
    RemoveLayer(RemoveLayerCommand),
    ModifyLayer(ModifyLayerCommand),
    ReplaceDocument(ReplaceDocumentCommand),
    AddLayerMask(AddLayerMaskCommand),
    RemoveLayerMask(RemoveLayerMaskCommand),
    ApplyLayerMask(ApplyLayerMaskCommand),
}

impl View for Command {
    type V = CommandView;

    open spec fn view(&self) -> CommandView {
        match self {
            Command::AddLayer(c) => c@,
            Command::RemoveLayer(c) => c@,
            Command::ModifyLayer(c) => c@,
            Command::ReplaceDocument(c) => c@,
            Command::AddLayerMask(c) => c@,
            Command::RemoveLayerMask(c) => c@,
            Command::ApplyLayerMask(c) => c@,
        }
    }
}

impl Command {
    /// The history a document has after this command is undone: a restored
    /// whole document brings its own, every other command leaves it alone.
    pub closed spec fn history_after_undoing(&self, current: UndoStackView) -> UndoStackView {
        match self {
            Command::ReplaceDocument(c) => c.restored_history(current),
            _ => current,
        }
    }

    /// Whether applying the command to the document stays within the
    /// integer ranges it computes in.
    pub fn fits_apply(&self, doc: &Document) -> (fits: bool)
        ensures
            fits == apply_fits(self@, doc@),
    {
        if doc.revision > u64::MAX - 2 {
            return false;
        }
        match self {
            Command::ReplaceDocument(c) => c.new_state.revision < u64::MAX,
            Command::ApplyLayerMask(c) => match doc.layer_index(c.layer_id) {
                Some(i) => {
                    assert(doc@.layers[i as int] == doc.layers@[i as int]@);
                    match &doc.layers[i].kind {
                        LayerKind::Raster(r) => {
                            let w = r.width as u128;
                            let h = r.height as u128;
                            assert(w * h * 4 <= 0x4_0000_0000_0000_0000) by (nonlinear_arith)
                                requires
                                    w <= u32::MAX,
                                    h <= u32::MAX,
                            ;
                            w * h * 4 <= (usize::MAX as u128) + 1
                        },
                        _ => true,
                    }
                },
                None => true,
            },
            _ => true,
        }
    }

    /// Whether undoing the command on the document stays within the
    /// integer ranges it computes in and puts a removed layer back at a
    /// position that exists.
    pub fn fits_undo(&self, doc: &Document) -> (fits: bool)
        ensures
            fits == undo_fits(self@, doc@),
    {
        if doc.revision > u64::MAX - 2 {
            return false;
        }
        match self {
            Command::ReplaceDocument(c) => match &c.old_state {
                Some(o) => o.revision < u64::MAX,
                None => true,
            },
            Command::RemoveLayer(c) => c.layer.is_none() || c.index <= doc.layers.len(),
            _ => true,
        }
    }

    /// The label shown in the history.
    pub fn name(&self) -> (name: &'static str)
        ensures
            name@ == command_name(self@),
    {
        match self {
            Command::AddLayer(c) => c.name(),
            Command::RemoveLayer(c) => c.name(),
            Command::ModifyLayer(c) => c.name(),
            Command::ReplaceDocument(c) => c.name(),
            Command::AddLayerMask(c) => c.name(),
            Command::RemoveLayerMask(c) => c.name(),
            Command::ApplyLayerMask(c) => c.name(),
        }
    }

    pub fn apply(&mut self, doc: &mut Document)
        requires
            apply_fits(old(self)@, old(doc)@),
        ensures
            (final(self)@, final(doc)@) == apply_command(old(self)@, old(doc)@),
            final(doc).undo_stack@ == history_after_applying(old(self)@, old(doc).undo_stack@),
    {
        match self {
            Command::AddLayer(c) => c.apply(doc),
            Command::RemoveLayer(c) => c.apply(doc),
            Command::ModifyLayer(c) => c.apply(doc),
            Command::ReplaceDocument(c) => c.apply(doc),
            Command::AddLayerMask(c) => c.apply(doc),
            Command::RemoveLayerMask(c) => c.apply(doc),
            Command::ApplyLayerMask(c) => c.apply(doc),
        }
    }

    pub fn undo(&mut self, doc: &mut Document)
        requires
            undo_fits(old(self)@, old(doc)@),
        ensures
            (final(self)@, final(doc)@) == undo_command(old(self)@, old(doc)@),
            final(doc).undo_stack@ == old(self).history_after_undoing(old(doc).undo_stack@),
    {
        match self {
            Command::AddLayer(c) => c.undo(doc),
            Command::RemoveLayer(c) => c.undo(doc),
            Command::ModifyLayer(c) => c.undo(doc),
            Command::ReplaceDocument(c) => c.undo(doc),
            Command::AddLayerMask(c) => c.undo(doc),
            Command::RemoveLayerMask(c) => c.undo(doc),
            Command::ApplyLayerMask(c) => c.undo(doc),
        }
    }
}


/// The history: executed commands (oldest first, at most `max_depth` kept)
/// and undone commands waiting to be redone.
#[derive(Debug)]
pub struct UndoStack {
    undone: Vec<Command>,
    done: Vec<Command>,
    max_depth: usize,
}

pub open spec fn command_views(commands: Seq<Command>) -> Seq<CommandView> {
    commands.map_values(|c: Command| c@)
}

impl View for UndoStack {
    type V = UndoStackView;

    closed spec fn view(&self) -> UndoStackView {
        UndoStackView {
            done: command_views(self.done@),
            undone: command_views(self.undone@),
            max_depth: self.max_depth,
        }
    }
}

/// The executed commands after one more, dropping the oldest when there are
/// more than the history keeps.
pub open spec fn keep_recent(done: Seq<CommandView>, max_depth: usize) -> Seq<CommandView> {
    if done.len() > max_depth {
        done.drop_first()
    } else {
        done
    }
}

/// What `execute` does to the history.
pub open spec fn history_after_execute(h: UndoStackView, applied: CommandView) -> UndoStackView {
    UndoStackView { done: keep_recent(h.done.push(applied), h.max_depth), undone: Seq::empty(), max_depth: h.max_depth }
}

/// What `undo` does to the history, given the undone command's new state.
pub open spec fn history_after_undo(h: UndoStackView, undone: CommandView) -> UndoStackView {
    UndoStackView { done: h.done.drop_last(), undone: h.undone.push(undone), max_depth: h.max_depth }
}

/// What `redo` does to the history, given the redone command's new state.
pub open spec fn history_after_redo(h: UndoStackView, redone: CommandView) -> UndoStackView {
    UndoStackView { done: h.done.push(redone), undone: h.undone.drop_last(), max_depth: h.max_depth }
}

/// The commands a history holds never exceed its depth.
pub open spec fn history_bounded(h: UndoStackView) -> bool {
    h.done.len() + h.undone.len() <= h.max_depth
}

/// What every history keeps: its depth is `HISTORY_DEPTH` and it holds no
/// more commands, executed and undone together, than that.
pub open spec fn history_kept(h: UndoStackView) -> bool {
    &&& h.max_depth == HISTORY_DEPTH
    &&& history_bounded(h)
}

impl UndoStack {
    #[verifier::type_invariant]
    spec fn keeps_depth(self) -> bool {
        &&& self.max_depth == HISTORY_DEPTH
        &&& self.done@.len() + self.undone@.len() <= self.max_depth
    }

    /// The history a document has after the most recent command is undone.
    pub closed spec fn history_after_undo_of_last(&self, current: UndoStackView) -> UndoStackView {
        self.done@.last().history_after_undoing(current)
    }

    /// An empty history keeping 64 commands.
    pub fn new() -> (stack: Self)
        ensures
            stack@ == empty_history(),
            history_kept(stack@),
    {
        let stack = UndoStack { undone: Vec::new(), done: Vec::new(), max_depth: HISTORY_DEPTH };
        assert(stack@.done =~= Seq::<CommandView>::empty());
        assert(stack@.undone =~= Seq::<CommandView>::empty());
        stack
    }

    /// Applies the command to the document and records it; the redo list is
    /// cleared and the oldest command dropped beyond the depth.
    pub fn execute(&mut self, cmd: Command, doc: &mut Document)
        requires
            apply_fits(cmd@, old(doc)@),
        ensures
            final(doc)@ == apply_command(cmd@, old(doc)@).1,
            final(doc).undo_stack@ == history_after_applying(cmd@, old(doc).undo_stack@),
            final(self)@ == history_after_execute(old(self)@, apply_command(cmd@, old(doc)@).0),
            history_kept(old(self)@),
            history_kept(final(self)@),
    {
        proof {
            use_type_invariant(&*self);
        }
        let ghost applied = apply_command(cmd@, doc@).0;
        let mut cmd = cmd;
        cmd.apply(doc);
        let mut done: Vec<Command> = Vec::new();
        std::mem::swap(&mut done, &mut self.done);
        let mut undone: Vec<Command> = Vec::new();
        std::mem::swap(&mut undone, &mut self.undone);
        done.push(cmd);
        if done.len() > self.max_depth {
            done.remove(0);
        }
        self.done = done;
        assert(self@.done =~= keep_recent(old(self)@.done.push(applied), old(self)@.max_depth));
        assert(self@.undone =~= Seq::<CommandView>::empty());
    }

    /// Undoes the most recent command, if any, and moves it to the redo list.
    pub fn undo(&mut self, doc: &mut Document)
        requires
            old(self)@.done.len() > 0 ==> undo_fits(old(self)@.done.last(), old(doc)@),
        ensures
            if old(self)@.done.len() == 0 {
                final(self)@ == old(self)@ && final(doc)@ == old(doc)@
            } else {
                let (c, d) = undo_command(old(self)@.done.last(), old(doc)@);
                &&& final(doc)@ == d
                &&& final(self)@ == history_after_undo(old(self)@, c)
                &&& final(doc).undo_stack@ == old(self).history_after_undo_of_last(old(doc).undo_stack@)
            },
            history_kept(old(self)@),
            history_kept(final(self)@),
    {
        proof {
            use_type_invariant(&*self);
        }
        let mut done: Vec<Command> = Vec::new();
        std::mem::swap(&mut done, &mut self.done);
        let mut undone: Vec<Command> = Vec::new();
        std::mem::swap(&mut undone, &mut self.undone);
        if let Some(mut cmd) = done.pop() {
            cmd.undo(doc);
            undone.push(cmd);
        }
        self.done = done;
        self.undone = undone;
        proof {
            if old(self)@.done.len() > 0 {
                assert(self@.done =~= old(self)@.done.drop_last());
                assert(self@.undone =~= old(self)@.undone.push(self.undone@.last()@));
            } else {
                assert(self@.done =~= old(self)@.done);
                assert(self@.undone =~= old(self)@.undone);
            }
        }
    }

    /// Re-applies the most recently undone command, if any.
    pub fn redo(&mut self, doc: &mut Document)
        requires
            old(self)@.undone.len() > 0 ==> apply_fits(old(self)@.undone.last(), old(doc)@),
        ensures
            if old(self)@.undone.len() == 0 {
                final(self)@ == old(self)@ && final(doc)@ == old(doc)@
            } else {
                let (c, d) = apply_command(old(self)@.undone.last(), old(doc)@);
                &&& final(doc)@ == d
                &&& final(self)@ == history_after_redo(old(self)@, c)
                &&& final(doc).undo_stack@ == history_after_applying(old(self)@.undone.last(), old(doc).undo_stack@)
            },
            history_kept(old(self)@),
            history_kept(final(self)@),
    {
        proof {
            use_type_invariant(&*self);
        }
        let mut done: Vec<Command> = Vec::new();
        std::mem::swap(&mut done, &mut self.done);
        let mut undone: Vec<Command> = Vec::new();
        std::mem::swap(&mut undone, &mut self.undone);
        if let Some(mut cmd) = undone.pop() {
            cmd.apply(doc);
            done.push(cmd);
        }
        self.undone = undone;
        self.done = done;
        proof {
            if old(self)@.undone.len() > 0 {
                assert(self@.undone =~= old(self)@.undone.drop_last());
                assert(self@.done =~= old(self)@.done.push(self.done@.last()@));
            } else {
                assert(self@.done =~= old(self)@.done);
                assert(self@.undone =~= old(self)@.undone);
            }
        }
    }

    /// Whether `undo` can run on the document (see `Command::fits_undo`).
    pub fn undo_fits_now(&self, doc: &Document) -> (fits: bool)
        ensures
            fits == (self@.done.len() > 0 ==> undo_fits(self@.done.last(), doc@)),
    {
        let n = self.done.len();
        if n == 0 {
            return true;
        }
        assert(self@.done.last() == self.done@[n - 1]@);
        self.done[n - 1].fits_undo(doc)
    }

    /// Whether `redo` can run on the document (see `Command::fits_apply`).
    pub fn redo_fits_now(&self, doc: &Document) -> (fits: bool)
        ensures
            fits == (self@.undone.len() > 0 ==> apply_fits(self@.undone.last(), doc@)),
    {
        let n = self.undone.len();
        if n == 0 {
            return true;
        }
        assert(self@.undone.last() == self.undone@[n - 1]@);
        self.undone[n - 1].fits_apply(doc)
    }

    pub fn can_undo(&self) -> (can: bool)
        ensures
            history_kept(self@),
            can == (self@.done.len() > 0),
    {
        proof {
            use_type_invariant(self);
        }
        self.done.len() > 0
    }

    pub fn can_redo(&self) -> (can: bool)
        ensures
            history_kept(self@),
            can == (self@.undone.len() > 0),
    {
        proof {
            use_type_invariant(self);
        }
        self.undone.len() > 0
    }

    /// The name of the command `undo` would undo.
    pub fn undo_name(&self) -> (name: Option<&'static str>)
        ensures
            match name {
                Some(n) => self@.done.len() > 0 && n@ == command_name(self@.done.last()),
                None => self@.done.len() == 0,
            },
    {
        if self.done.len() > 0 {
            Some(self.done[self.done.len() - 1].name())
        } else {
            None
        }
    }

    /// The name of the command `redo` would redo.
    pub fn redo_name(&self) -> (name: Option<&'static str>)
        ensures
            match name {
                Some(n) => self@.undone.len() > 0 && n@ == command_name(self@.undone.last()),
                None => self@.undone.len() == 0,
            },
    {
        if self.undone.len() > 0 {
            Some(self.undone[self.undone.len() - 1].name())
        } else {
            None
        }
    }

    /// The names of the executed commands, oldest first.
    pub fn history_names(&self) -> (names: Vec<&'static str>)
        ensures
            names@.len() == self@.done.len(),
            forall|i: int| 0 <= i < names@.len() ==> names@[i]@ == command_name(#[trigger] self@.done[i]),
    {
        let mut names: Vec<&'static str> = Vec::new();
        let mut i: usize = 0;
        while i < self.done.len()
            invariant
                i <= self.done@.len(),
                names@.len() == i,
                forall|j: int| 0 <= j < i ==> names@[j]@ == command_name(#[trigger] command_views(self.done@)[j]),
            decreases self.done@.len() - i,
        {
            names.push(self.done[i].name());
            i += 1;
        }
        names
    }
}

impl Clone for UndoStack {
    /// An empty history with the same depth: commands are not copied.
    fn clone(&self) -> (copy: Self)
        ensures
            copy@ == (UndoStackView { done: Seq::empty(), undone: Seq::empty(), max_depth: self@.max_depth }),
            copy@ == empty_history(),
    {
        proof {
            use_type_invariant(self);
        }
        let copy = UndoStack { undone: Vec::new(), done: Vec::new(), max_depth: self.max_depth };
        assert(copy@.done =~= Seq::<CommandView>::empty());
        assert(copy@.undone =~= Seq::<CommandView>::empty());
        copy
    }
}

impl Default for UndoStack {
    fn default() -> (stack: Self)
        ensures
            stack@ == empty_history(),
            history_kept(stack@),
    {
        Self::new()
    }
}

} // verus!
