//! Opening a decoded image as the document: the decoder's pixel bytes are
//! copied into an RGBA buffer of the image's size, and the document's
//! content is replaced by one raster layer holding it.

use vstd::prelude::*;

use crate::document::command::empty_history;
use crate::document::layer::new_raster_view;
use crate::document::Document;
use crate::document::DocumentView;
use crate::document::Layer;
use crate::document::UndoStack;
use crate::paths::path_file_stem;
use crate::paths::path_file_stem_of;

verus! {

/// The RGBA buffer of a `width` x `height` image from the bytes the decoder
/// wrote: pixel `p` takes the four bytes at `4 * p` when all four exist, and
/// stays transparent black otherwise.
pub open spec fn rgba_from_raw_view(raw: Seq<u8>, width: u32, height: u32) -> Seq<u8> {
    Seq::new(
        (width * height * 4) as nat,
        |k: int|
            if 4 * (k / 4) + 3 < raw.len() {
                raw[k]
            } else {
                0u8
            },
    )
}

/// Copies the decoder's bytes into an RGBA buffer of the image's size (see
/// `rgba_from_raw_view`).
pub fn rgba_from_raw(raw: &[u8], width: u32, height: u32) -> (rgba: Vec<u8>)
    requires
        width * height * 4 <= u32::MAX,
    ensures
        rgba@ == rgba_from_raw_view(raw@, width, height),
        rgba@.len() == width * height * 4,
{
    let pixels: u32 = width * height;
    let mut rgba: Vec<u8> = Vec::new();
    let mut p: u32 = 0;
    while p < pixels
        invariant
            pixels == width * height,
            width * height * 4 <= u32::MAX,
            p <= pixels,
            rgba@.len() == 4 * p,
            forall|k: int| 0 <= k < 4 * p ==> rgba@[k] == #[trigger] rgba_from_raw_view(raw@, width, height)[k],
        decreases pixels - p,
    {
        let base: usize = (4 * p) as usize;
        let present = base + 3 < raw.len();
        let mut c: usize = 0;
        while c < 4
            invariant
                pixels == width * height,
                width * height * 4 <= u32::MAX,
                p < pixels,
                base == 4 * p,
                present == (base + 3 < raw@.len()),
                c <= 4,
                rgba@.len() == base + c,
                forall|k: int| 0 <= k < base + c ==> rgba@[k] == #[trigger] rgba_from_raw_view(raw@, width, height)[k],
            decreases 4 - c,
        {
            let k: usize = base + c;
            assert(k / 4 == p as int);
            if present {
                rgba.push(raw[k]);
            } else {
                rgba.push(0u8);
            }
            c += 1;
        }
        p += 1;
    }
    rgba
}

/// The name of the layer an opened image gets: the file's stem, or "Layer".
pub open spec fn opened_layer_name(path: Seq<char>) -> Seq<char> {
    match path_file_stem_of(path) {
        Some(stem) => stem,
        None => "Layer"@,
    }
}

/// `after` is `before` with a `width` x `height` image opened into it from
/// the decoder's bytes `raw`: its only layer is a fresh raster layer named
/// after the file and holding the image, active; the canvas takes the
/// image's size; the document remembers the path, counts one revision and is
/// marked saved. Colour settings and selection stay as they were.
pub open spec fn is_opened_image(
    before: DocumentView,
    after: DocumentView,
    path: Seq<char>,
    width: u32,
    height: u32,
    raw: Seq<u8>,
) -> bool {
    &&& after.layers.len() == 1
    &&& after.layers[0] == new_raster_view(
        after.layers[0].id,
        opened_layer_name(path),
        width,
        height,
        rgba_from_raw_view(raw, width, height),
    )
    &&& after == DocumentView {
        canvas_width: width,
        canvas_height: height,
        layers: after.layers,
        active_layer_id: Some(after.layers[0].id),
        revision: (before.revision + 1) as u64,
        file_path: Some(path),
        has_unsaved_changes: false,
        ..before
    }
}

/// Replaces the document's content by a decoded image (see
/// `is_opened_image`) and starts a fresh history.
pub fn open_decoded_image(document: &mut Document, path: &str, width: u32, height: u32, raw: &[u8])
    requires
        width * height * 4 <= u32::MAX,
        old(document).revision < u64::MAX,
    ensures
        is_opened_image(old(document)@, final(document)@, path@, width, height, raw@),
        final(document).undo_stack@ == empty_history(),
{
    let rgba = rgba_from_raw(raw, width, height);
    let name = match path_file_stem(path) {
        Some(stem) => stem,
        None => {
            proof {
                reveal_strlit("Layer");
            }
            String::from_str("Layer")
        },
    };
    let layer = Layer::new_raster(name.as_str(), width, height, rgba);
    document.layers.clear();
    document.add_layer(layer);
    document.canvas_width = width;
    document.canvas_height = height;
    document.file_path = Some(String::from_str(path));
    document.undo_stack = UndoStack::new();
    document.has_unsaved_changes = false;
    proof {
        assert(document@.layers =~= seq![layer@]);
    }
}

} // verus!
