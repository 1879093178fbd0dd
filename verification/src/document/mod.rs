//! The mutable document: canvas size, ordered layer stack, active layer,
//! colour configuration, selection, edit history and save state.

pub mod command;
pub mod edit;
pub mod filter;
pub mod ids;
pub mod laws;
pub mod layer;
pub mod mask;
pub mod project;

pub use command::AddLayerCommand;
pub use command::AddLayerMaskCommand;
pub use command::ApplyLayerMaskCommand;
pub use command::Command;
pub use command::ModifyLayerCommand;
pub use command::RemoveLayerCommand;
pub use command::RemoveLayerMaskCommand;
pub use command::ReplaceDocumentCommand;
pub use command::UndoStack;
pub use layer::BlendMode;
pub use layer::FillLayer;
pub use layer::Layer;
pub use layer::LayerId;
pub use layer::LayerKind;
pub use layer::RasterLayer;
pub use layer::TextAlign;
pub use layer::TextLayer;
pub use mask::Mask;
pub use mask::MaskId;
pub use mask::MaskKind;

use vstd::prelude::*;

use crate::document::layer::LayerView;
use crate::document::mask::MaskView;

verus! {

/// The layered image being edited. The edit history is runtime state: it is
/// not saved in project files and a copy of a document starts with an empty
/// history.
#[derive(Debug)]
pub struct Document {
    pub canvas_width: u32,
    pub canvas_height: u32,
    pub layers: Vec<Layer>,
    pub active_layer_id: Option<LayerId>,
    pub color_config: ColorConfig,
    pub undo_stack: UndoStack,
    pub revision: u64,
    pub file_path: Option<String>,
    pub has_unsaved_changes: bool,
    pub selection: Option<Mask>,
}

#[derive(Debug)]
pub struct ColorConfig {
    pub working_space: ColorSpace,
    pub embedded_profile: Option<Vec<u8>>,
    pub bit_depth: BitDepth,
}

#[derive(Debug, PartialEq, Eq)]
pub enum ColorSpace {
    Srgb,
    AdobeRgb,
    ProPhotoRgb,
    Linear,
    Custom(String),
}

#[derive(Debug, Clone, Copy, PartialEq, Eq, Structural)]
pub enum BitDepth {
    U8,
    U16,
    Float16,
    Float32,
}

/// A colour configuration as a value.
pub struct ColorConfigView {
    pub working_space: ColorSpace,
    pub embedded_profile: Option<Seq<u8>>,
    pub bit_depth: BitDepth,
}

impl View for ColorConfig {
    type V = ColorConfigView;

    open spec fn view(&self) -> ColorConfigView {
        ColorConfigView {
            working_space: self.working_space,
            embedded_profile: match self.embedded_profile {
                Some(p) => Some(p@),
                None => None,
            },
            bit_depth: self.bit_depth,
        }
    }
}

/// sRGB, 8 bits per channel, no embedded profile.
pub open spec fn default_color_config() -> ColorConfigView {
    ColorConfigView { working_space: ColorSpace::Srgb, embedded_profile: None, bit_depth: BitDepth::U8 }
}

impl Clone for ColorSpace {
    fn clone(&self) -> (copy: Self)
        ensures
            copy == *self,
    {
        match self {
        ColorSpace::Srgb => ColorSpace::Srgb,
        ColorSpace::AdobeRgb => ColorSpace::AdobeRgb,
        ColorSpace::ProPhotoRgb => ColorSpace::ProPhotoRgb,
        ColorSpace::Linear => ColorSpace::Linear,
            ColorSpace::Custom(name) => ColorSpace::Custom(name.clone()),
        }
    }
}

impl Clone for ColorConfig {
    fn clone(&self) -> (copy: Self)
        ensures
            copy@ == self@,
    {
        let embedded_profile = match &self.embedded_profile {
            Some(p) => {
                let q = p.clone();
                assert(q@ == p@);
                Some(q)
            },
            None => None,
        };
        ColorConfig {
            working_space: self.working_space.clone(),
            embedded_profile,
            bit_depth: self.bit_depth,
        }
    }
}

impl Default for ColorConfig {
    fn default() -> (config: Self)
        ensures
            config@ == default_color_config(),
    {
        ColorConfig { working_space: ColorSpace::Srgb, embedded_profile: None, bit_depth: BitDepth::U8 }
    }
}

/// A document as a value: layers, masks and pixel buffers as sequences. The
/// edit history is not part of it (see `Document::undo_stack`).
pub struct DocumentView {
    pub canvas_width: u32,
    pub canvas_height: u32,
    pub layers: Seq<LayerView>,
    pub active_layer_id: Option<LayerId>,
    pub color_config: ColorConfigView,
    pub revision: u64,
    pub file_path: Option<Seq<char>>,
    pub has_unsaved_changes: bool,
    pub selection: Option<MaskView>,
}

pub open spec fn string_option_view(s: Option<String>) -> Option<Seq<char>> {
    match s {
        Some(t) => Some(t@),
        None => None,
    }
}

impl View for Document {
    type V = DocumentView;

    open spec fn view(&self) -> DocumentView {
        DocumentView {
            canvas_width: self.canvas_width,
            canvas_height: self.canvas_height,
            layers: self.layers@.map_values(|l: Layer| l@),
            active_layer_id: self.active_layer_id,
            color_config: self.color_config@,
            revision: self.revision,
            file_path: string_option_view(self.file_path),
            has_unsaved_changes: self.has_unsaved_changes,
            selection: crate::document::layer::mask_option_view(self.selection),
        }
    }
}

/// The same document, one revision later and marked as changed.
pub open spec fn touched(d: DocumentView) -> DocumentView {
    DocumentView { revision: (d.revision + 1) as u64, has_unsaved_changes: true, ..d }
}

/// The identifier of the last (topmost) layer, if any.
pub open spec fn last_layer_id(layers: Seq<LayerView>) -> Option<LayerId> {
    if layers.len() > 0 {
        Some(layers.last().id)
    } else {
        None
    }
}

/// `i` is the first position in `layers` whose identifier is `id`.
pub open spec fn is_first_layer_with_id(layers: Seq<LayerView>, id: LayerId, i: int) -> bool {
    &&& 0 <= i < layers.len()
    &&& layers[i].id == id
    &&& forall|j: int| 0 <= j < i ==> layers[j].id != id
}

/// The first position of a layer with the identifier, if there is one.
pub open spec fn layer_position(layers: Seq<LayerView>, id: LayerId) -> Option<int> {
    if exists|i: int| is_first_layer_with_id(layers, id, i) {
        Some(choose|i: int| is_first_layer_with_id(layers, id, i))
    } else {
        None
    }
}

pub proof fn lemma_first_layer_unique(layers: Seq<LayerView>, id: LayerId, i: int, k: int)
    requires
        is_first_layer_with_id(layers, id, i),
        is_first_layer_with_id(layers, id, k),
    ensures
        i == k,
{
}

/// Where the first layer with the identifier stands.
pub proof fn lemma_layer_position_is(layers: Seq<LayerView>, id: LayerId, i: int)
    requires
        is_first_layer_with_id(layers, id, i),
    ensures
        layer_position(layers, id) == Some(i),
{
    let k = choose|k: int| is_first_layer_with_id(layers, id, k);
    lemma_first_layer_unique(layers, id, i, k);
}

/// Some layer has the identifier: the first one does.
pub proof fn lemma_layer_position_some(layers: Seq<LayerView>, id: LayerId, j: int)
    requires
        0 <= j < layers.len(),
        layers[j].id == id,
    ensures
        layer_position(layers, id) matches Some(i) && is_first_layer_with_id(layers, id, i) && i <= j,
    decreases j,
{
    if exists|k: int| 0 <= k < j && layers[k].id == id {
        let k = choose|k: int| 0 <= k < j && layers[k].id == id;
        lemma_layer_position_some(layers, id, k);
    } else {
        lemma_layer_position_is(layers, id, j);
    }
}

/// The document a fresh `Document::new(width, height)` stands for.
pub open spec fn new_document_view(width: u32, height: u32) -> DocumentView {
    DocumentView {
        canvas_width: width,
        canvas_height: height,
        layers: Seq::empty(),
        active_layer_id: None,
        color_config: default_color_config(),
        revision: 0,
        file_path: None,
        has_unsaved_changes: false,
        selection: None,
    }
}

impl Clone for Document {
    /// A copy of the document with an empty edit history.
    fn clone(&self) -> (copy: Self)
        ensures
            copy@ == self@,
            copy.undo_stack@ == crate::document::command::empty_history(),
    {
        let layers = self.layers.clone();
        assert(layers@.map_values(|l: Layer| l@) =~= self.layers@.map_values(|l: Layer| l@)) by {
            assert forall|i: int| 0 <= i < layers@.len() implies layers@[i]@ == self.layers@[i]@ by {
                assert(vstd::pervasive::cloned::<Layer>(self.layers@[i], layers@[i]));
            }
        }
        let selection = match &self.selection {
            Some(m) => Some(m.clone()),
            None => None,
        };
        let file_path = match &self.file_path {
            Some(p) => Some(p.clone()),
            None => None,
        };
        Document {
            canvas_width: self.canvas_width,
            canvas_height: self.canvas_height,
            layers,
            active_layer_id: self.active_layer_id,
            color_config: self.color_config.clone(),
            undo_stack: UndoStack::new(),
            revision: self.revision,
            file_path,
            has_unsaved_changes: self.has_unsaved_changes,
            selection,
        }
    }
}

impl Document {
    pub fn new(width: u32, height: u32) -> (doc: Self)
        ensures
            doc@ == new_document_view(width, height),
            doc.undo_stack@ == crate::document::command::empty_history(),
    {
        let doc = Document {
            canvas_width: width,
            canvas_height: height,
            layers: Vec::new(),
            active_layer_id: None,
            color_config: ColorConfig::default(),
            undo_stack: UndoStack::new(),
            revision: 0,
            file_path: None,
            has_unsaved_changes: false,
            selection: None,
        };
        assert(doc@.layers =~= Seq::<LayerView>::empty());
        doc
    }

    /// Puts the layer on top of the stack and makes it the active layer.
    pub fn add_layer(&mut self, layer: Layer)
        requires
            old(self).revision < u64::MAX,
        ensures
            final(self).undo_stack@ == old(self).undo_stack@,
            final(self)@ == touched(
                DocumentView {
                    layers: old(self)@.layers.push(layer@),
                    active_layer_id: Some(layer.id),
                    ..old(self)@
                },
            ),
    {
        self.revision += 1;
        self.has_unsaved_changes = true;
        let id = layer.id;
        self.layers.push(layer);
        self.active_layer_id = Some(id);
        assert(self@.layers =~= old(self)@.layers.push(layer@));
    }

    /// The position of the first layer with the identifier.
    pub fn layer_index(&self, id: LayerId) -> (index: Option<usize>)
        ensures
            match index {
                Some(i) => layer_position(self@.layers, id) == Some(i as int),
                None => layer_position(self@.layers, id) is None,
            },
    {
        let mut i: usize = 0;
        while i < self.layers.len()
            invariant
                i <= self.layers@.len(),
                forall|j: int| 0 <= j < i ==> self@.layers[j].id != id,
            decreases self.layers@.len() - i,
        {
            if self.layers[i].id == id {
                proof {
                    lemma_layer_position_is(self@.layers, id, i as int);
                }
                return Some(i);
            }
            i += 1;
        }
        None
    }

    /// Removes the first layer with the identifier. When it was the active
    /// layer, the topmost remaining layer (if any) becomes active.
    pub fn remove_layer(&mut self, id: LayerId) -> (removed: Option<Layer>)
        requires
            old(self).revision < u64::MAX,
        ensures
            final(self).undo_stack@ == old(self).undo_stack@,
            match layer_position(old(self)@.layers, id) {
                None => removed is None && final(self)@ == old(self)@,
                Some(i) => {
                    let layers = old(self)@.layers.remove(i);
                    &&& removed matches Some(l) && l@ == old(self)@.layers[i]
                    &&& final(self)@ == touched(
                        DocumentView {
                            layers,
                            active_layer_id: if old(self)@.active_layer_id == Some(id) {
                                last_layer_id(layers)
                            } else {
                                old(self)@.active_layer_id
                            },
                            ..old(self)@
                        },
                    )
                },
            },
    {
        match self.layer_index(id) {
            Some(idx) => {
                self.revision += 1;
                self.has_unsaved_changes = true;
                let removed = self.layers.remove(idx);
                let was_active = match self.active_layer_id {
                    Some(active) => active == id,
                    None => false,
                };
                if was_active {
                    self.active_layer_id = self.last_layer_id();
                }
                assert(self@.layers =~= old(self)@.layers.remove(idx as int));
                Some(removed)
            },
            None => None,
        }
    }

    /// The identifier of the topmost layer.
    fn last_layer_id(&self) -> (id: Option<LayerId>)
        ensures
            id == last_layer_id(self@.layers),
    {
        if self.layers.len() > 0 {
            Some(self.layers[self.layers.len() - 1].id)
        } else {
            None
        }
    }

    /// Counts one revision and gives mutable access to the first layer with
    /// the identifier.
    pub fn layer_mut(&mut self, id: LayerId) -> (found: Option<&mut Layer>)
        requires
            old(self).revision < u64::MAX,
        ensures
            final(self).undo_stack@ == old(self).undo_stack@,
            match layer_position(old(self)@.layers, id) {
                None => found is None && final(self)@ == DocumentView {
                    revision: (old(self).revision + 1) as u64,
                    ..old(self)@
                },
                Some(i) => found matches Some(l) && (*l)@ == old(self)@.layers[i]
                    && final(self).layers@ == old(self).layers@.update(i, *final(l))
                    && final(self)@ == DocumentView {
                    revision: (old(self).revision + 1) as u64,
                    layers: final(self)@.layers,
                    ..old(self)@
                },
            },
    {
        self.revision += 1;
        match self.layer_index(id) {
            Some(i) => {
                let r = &mut self.layers[i];
                Some(r)
            },
            None => None,
        }
    }

    pub fn select_layer(&mut self, id: Option<LayerId>)
        ensures
            final(self).undo_stack@ == old(self).undo_stack@,
            final(self)@ == (DocumentView { active_layer_id: id, ..old(self)@ }),
    {
        self.active_layer_id = id;
    }

    /// The first layer with the identifier.
    pub fn layer(&self, id: LayerId) -> (found: Option<&Layer>)
        ensures
            match layer_position(self@.layers, id) {
                None => found is None,
                Some(i) => found matches Some(l) && l@ == self@.layers[i],
            },
    {
        match self.layer_index(id) {
            Some(i) => Some(&self.layers[i]),
            None => None,
        }
    }

    /// Moves the layer at `from` so that it ends up at `to`; does nothing
    /// unless both are positions of the stack.
    pub fn move_layer(&mut self, from: usize, to: usize)
        requires
            old(self).revision < u64::MAX,
        ensures
            final(self).undo_stack@ == old(self).undo_stack@,
            if from < old(self)@.layers.len() && to < old(self)@.layers.len() {
                final(self)@ == touched(
                    DocumentView {
                        layers: old(self)@.layers.remove(from as int).insert(
                            to as int,
                            old(self)@.layers[from as int],
                        ),
                        ..old(self)@
                    },
                )
            } else {
                final(self)@ == old(self)@
            },
    {
        if from < self.layers.len() && to < self.layers.len() {
            let layer = self.layers.remove(from);
            self.layers.insert(to, layer);
            self.revision += 1;
            self.has_unsaved_changes = true;
            assert(self@.layers =~= old(self)@.layers.remove(from as int).insert(
                to as int,
                old(self)@.layers[from as int],
            ));
        }
    }

    /// The visible layers, bottom to top.
    pub fn visible_layers(&self) -> (visible: Vec<&Layer>)
        ensures
            visible@.len() == self@.layers.filter(|l: LayerView| l.visible).len(),
            forall|k: int| 0 <= k < visible@.len() ==> (*visible@[k])@ == self@.layers.filter(|l: LayerView| l.visible)[k],
    {
        let mut visible: Vec<&Layer> = Vec::new();
        let mut i: usize = 0;
        while i < self.layers.len()
            invariant
                i <= self.layers@.len(),
                visible@.len() == self@.layers.take(i as int).filter(|l: LayerView| l.visible).len(),
                forall|k: int| 0 <= k < visible@.len() ==> (*visible@[k])@ == self@.layers.take(i as int).filter(|l: LayerView| l.visible)[k],
            decreases self.layers@.len() - i,
        {
            proof {
                assert(self@.layers.take(i + 1).drop_last() == self@.layers.take(i as int));
                reveal_with_fuel(Seq::filter, 1);
            }
            if self.layers[i].visible {
                visible.push(&self.layers[i]);
            }
            i += 1;
        }
        assert(self@.layers.take(self@.layers.len() as int) == self@.layers);
        visible
    }

    pub fn mark_saved(&mut self)
        ensures
            final(self).undo_stack@ == old(self).undo_stack@,
            final(self)@ == (DocumentView { has_unsaved_changes: false, ..old(self)@ }),
    {
        self.has_unsaved_changes = false;
    }
}

impl Default for Document {
    /// An empty 1920 x 1080 document.
    fn default() -> (doc: Self)
        ensures
            doc@ == new_document_view(1920, 1080),
            doc.undo_stack@ == crate::document::command::empty_history(),
    {
        Self::new(1920, 1080)
    }
}

} // verus!
