//! The `.slate` project boundary: the format envelope, the version rule and
//! the validation a document passes before it is saved or after it is read.
//! Turning the envelope into JSON text and back, and the file I/O, happen
//! outside the library.

use vstd::prelude::*;
use vstd::string::*;

use crate::document::command::empty_history;
use crate::document::layer::LayerKindView;
use crate::document::layer::LayerView;
use crate::document::layer::lemma_layer_id_value;
use crate::document::mask::MaskView;
use crate::document::Document;
use crate::document::DocumentView;
use crate::document::LayerKind;
use crate::document::UndoStack;
use crate::paths::path_extension;
use crate::paths::path_extension_of;
use crate::paths::path_file_name;
use crate::paths::path_file_name_of;
use crate::paths::path_with_file_name;
use crate::paths::path_with_file_name_of;
use crate::text::append_decimal;
use crate::text::decimal;
use crate::text::eq_ignore_ascii_case;
use crate::text::equal_ignoring_ascii_case;
use crate::text::equal_strings;

verus! {

pub const PROJECT_EXTENSION: &'static str = "slate";

pub const PROJECT_FORMAT: &'static str = "com.slate.editor.project";

pub const PROJECT_VERSION: u32 = 1;

/// Project files larger than 2 GiB are refused before they are read.
pub const MAX_PROJECT_BYTES: u64 = 2147483648u64;

pub const MAX_DIMENSION: u32 = 32768u32;

pub const MAX_LAYERS: usize = 1024usize;

/// Why a project could not be saved or opened. Reading and writing files and
/// JSON happen outside the library, which keeps their errors as messages.
#[derive(Debug)]
pub enum ProjectError {
    Io(String),
    Json(String),
    UnsupportedVersion(u32),
    Invalid(String),
}

/// A project error as a value.
pub enum ProjectErrorView {
    Io(Seq<char>),
    Json(Seq<char>),
    UnsupportedVersion(u32),
    Invalid(Seq<char>),
}

impl View for ProjectError {
    type V = ProjectErrorView;

    open spec fn view(&self) -> ProjectErrorView {
        match self {
            ProjectError::Io(m) => ProjectErrorView::Io(m@),
            ProjectError::Json(m) => ProjectErrorView::Json(m@),
            ProjectError::UnsupportedVersion(v) => ProjectErrorView::UnsupportedVersion(*v),
            ProjectError::Invalid(m) => ProjectErrorView::Invalid(m@),
        }
    }
}

/// The text shown for a project error.
pub open spec fn project_error_message(e: ProjectErrorView) -> Seq<char> {
    match e {
        ProjectErrorView::Io(m) => "I/O error: "@ + m,
        ProjectErrorView::Json(m) => "Invalid project JSON: "@ + m,
        ProjectErrorView::UnsupportedVersion(v) => "Project version "@ + decimal(v as nat)
            + " is newer than this Slate build"@,
        ProjectErrorView::Invalid(m) => m,
    }
}

impl ProjectError {
    /// The text shown for the error.
    pub fn message(&self) -> (text: String)
        ensures
            text@ == project_error_message(self@),
    {
        match self {
            ProjectError::Io(m) => {
                let mut text = String::from_str("I/O error: ");
                text.append(m.as_str());
                text
            },
            ProjectError::Json(m) => {
                let mut text = String::from_str("Invalid project JSON: ");
                text.append(m.as_str());
                text
            },
            ProjectError::UnsupportedVersion(v) => {
                let mut text = String::from_str("Project version ");
                append_decimal(&mut text, *v as u64);
                text.append(" is newer than this Slate build");
                text
            },
            ProjectError::Invalid(m) => m.clone(),
        }
    }
}

/// The envelope a project file holds: a format marker, a version and the
/// document.
#[derive(Debug)]
pub struct ProjectFile {
    pub format: String,
    pub version: u32,
    pub document: Document,
}

/// The extension names a Slate project (compared ignoring ASCII case).
pub open spec fn is_project_extension_text(extension: Seq<char>) -> bool {
    eq_ignore_ascii_case(extension, "slate"@)
}

/// Whether a path's extension is `slate`, ignoring ASCII case.
pub fn is_project_extension(extension: &str) -> (yes: bool)
    ensures
        yes == is_project_extension_text(extension@),
{
    equal_ignoring_ascii_case(extension, PROJECT_EXTENSION)
}

/// Whether the path names a Slate project: its extension is `slate` in any
/// ASCII case.
pub fn is_project_path(path: &str) -> (yes: bool)
    ensures
        yes == match path_extension_of(path@) {
            Some(e) => is_project_extension_text(e),
            None => false,
        },
{
    match path_extension(path) {
        Some(extension) => is_project_extension(extension.as_str()),
        None => false,
    }
}

/// The file name a project is first written to: a hidden sibling,
/// `.<name>.tmp` (`.project.slate.tmp` when the path has no file name).
pub open spec fn temporary_file_name_text(file_name: Option<Seq<char>>) -> Seq<char> {
    "."@ + match file_name {
        Some(n) => n,
        None => "project.slate"@,
    } + ".tmp"@
}

pub fn temporary_file_name(file_name: Option<&str>) -> (name: String)
    ensures
        name@ == temporary_file_name_text(
            match file_name {
                Some(n) => Some(n@),
                None => None,
            },
        ),
{
    let mut name = String::from_str(".");
    match file_name {
        Some(n) => name.append(n),
        None => name.append("project.slate"),
    }
    name.append(".tmp");
    name
}

/// The hidden sibling path a project is written to before it is renamed
/// over the destination.
pub fn temporary_path_for(path: &str) -> (temporary: String)
    ensures
        temporary@ == path_with_file_name_of(path@, temporary_file_name_text(path_file_name_of(path@))),
        path_file_name_of(temporary@) == Some(temporary_file_name_text(path_file_name_of(path@))),
{
    let file_name = path_file_name(path);
    let name = match &file_name {
        Some(n) => temporary_file_name(Some(n.as_str())),
        None => temporary_file_name(None),
    };
    proof {
        reveal_strlit(".");
        reveal_strlit("..");
        reveal_strlit(".tmp");
        reveal_strlit("project.slate");
        let base = match file_name {
            Some(n) => n@,
            None => "project.slate"@,
        };
        assert(name@ =~= "."@ + base + ".tmp"@);
        assert(forall|i: int| 0 <= i < base.len() ==> base[i] != '/');
        assert(name@.len() == base.len() + 5);
        assert forall|i: int| 0 <= i < name@.len() implies name@[i] != '/' by {
            if 1 <= i < 1 + base.len() {
                assert(name@[i] == base[i - 1]);
            }
        }
        assert(name@ != "."@);
        assert(name@ != ".."@);
    }
    path_with_file_name(path, name.as_str())
}

/// Whether a project file of this size may be read.
pub fn check_project_size(len: u64) -> (checked: Result<(), ProjectError>)
    ensures
        len <= MAX_PROJECT_BYTES ==> checked is Ok,
        len > MAX_PROJECT_BYTES ==> (checked matches Err(e) && e@ == ProjectErrorView::Invalid(
            "Project is larger than the 2 GiB safety limit"@,
        )),
{
    if len > MAX_PROJECT_BYTES {
        Err(ProjectError::Invalid(String::from_str("Project is larger than the 2 GiB safety limit")))
    } else {
        Ok(())
    }
}

pub open spec fn dimensions_message(width: u32, height: u32) -> Seq<char> {
    "Invalid pixel dimensions "@ + decimal(width as nat) + "x"@ + decimal(height as nat)
}

/// What is wrong with a pixel buffer's dimensions, if anything: a side of
/// zero or above 32768 pixels, or a byte count that does not fit a `usize`.
pub open spec fn pixel_len_problem(width: u32, height: u32, channels: usize) -> Option<Seq<char>> {
    if width == 0 || height == 0 || width > MAX_DIMENSION || height > MAX_DIMENSION {
        Some(dimensions_message(width, height))
    } else if width * height * channels > usize::MAX {
        Some("Pixel dimensions overflow memory limits"@)
    } else {
        None
    }
}

/// The byte count of a `width` x `height` buffer with `channels` bytes per
/// pixel, after checking the dimensions.
pub fn checked_pixel_len(width: u32, height: u32, channels: usize) -> (len: Result<usize, ProjectError>)
    ensures
        match pixel_len_problem(width, height, channels) {
            Some(m) => len matches Err(e) && e@ == ProjectErrorView::Invalid(m),
            None => len == Ok::<usize, ProjectError>((width * height * channels) as usize),
        },
{
    if width == 0 || height == 0 || width > MAX_DIMENSION || height > MAX_DIMENSION {
        let mut message = String::from_str("Invalid pixel dimensions ");
        append_decimal(&mut message, width as u64);
        message.append("x");
        append_decimal(&mut message, height as u64);
        return Err(ProjectError::Invalid(message));
    }
    assert(width * height <= 32768 * 32768) by (nonlinear_arith)
        requires
            width <= 32768,
            height <= 32768,
    ;
    let pixels = (width as usize) * (height as usize);
    match pixels.checked_mul(channels) {
        Some(len) => Ok(len),
        None => Err(ProjectError::Invalid(String::from_str("Pixel dimensions overflow memory limits"))),
    }
}

/// The IEEE-754 `f32` with these bits is finite and in `0.0..=1.0`: from
/// +0.0 up to 1.0 (bits `0x3F80_0000`), or -0.0 (bits `0x8000_0000`, which
/// compares equal to 0.0).
pub open spec fn opacity_bits_valid(bits: u32) -> bool {
    bits <= 0x3F80_0000u32 || bits == 0x8000_0000u32
}

pub open spec fn bytes_message(prefix: Seq<char>, name: Seq<char>, got: nat, expected: nat) -> Seq<char> {
    prefix + name + "' has "@ + decimal(got) + " bytes but "@ + decimal(expected) + " were expected"@
}

pub open spec fn raster_problem(layer: LayerView) -> Option<Seq<char>> {
    match layer.kind {
        LayerKindView::Raster(r) => match pixel_len_problem(r.width, r.height, 4) {
            Some(m) => Some(m),
            None => if r.data.len() != r.width * r.height * 4 {
                Some(bytes_message("Layer '"@, layer.name, r.data.len(), (r.width * r.height * 4) as nat))
            } else {
                None
            },
        },
        _ => None,
    }
}

pub open spec fn mask_problem(layer: LayerView) -> Option<Seq<char>> {
    match layer.mask {
        Some(m) => match pixel_len_problem(m.width, m.height, 1) {
            Some(p) => Some(p),
            None => if m.data.len() != m.width * m.height {
                Some(bytes_message("Mask '"@, m.name, m.data.len(), (m.width * m.height) as nat))
            } else {
                None
            },
        },
        None => None,
    }
}

/// What is wrong with layer `i`, given the layers before it.
pub open spec fn layer_problem(layers: Seq<LayerView>, i: int) -> Option<Seq<char>> {
    let layer = layers[i];
    if exists|j: int| 0 <= j < i && layers[j].id == layer.id {
        Some("Project contains duplicate layer identifiers"@)
    } else if !opacity_bits_valid(layer.opacity_bits) {
        Some("Layer '"@ + layer.name + "' has an invalid opacity"@)
    } else {
        match raster_problem(layer) {
            Some(m) => Some(m),
            None => mask_problem(layer),
        }
    }
}

/// The problem of the first of the first `n` layers that has one.
pub open spec fn first_layer_problem(layers: Seq<LayerView>, n: nat) -> Option<Seq<char>>
    decreases n,
{
    if n == 0 {
        None
    } else {
        match first_layer_problem(layers, (n - 1) as nat) {
            Some(m) => Some(m),
            None => layer_problem(layers, n - 1),
        }
    }
}

/// Once a layer has a problem, it stays the first one found.
pub proof fn lemma_first_layer_problem_stays(layers: Seq<LayerView>, n: nat, m: nat)
    requires
        n <= m,
        first_layer_problem(layers, n) is Some,
    ensures
        first_layer_problem(layers, m) == first_layer_problem(layers, n),
    decreases m - n,
{
    if n < m {
        lemma_first_layer_problem_stays(layers, n, (m - 1) as nat);
    }
}

/// No problem among the first `n` layers means none of them has one.
proof fn lemma_no_problem_among_first(layers: Seq<LayerView>, n: nat, j: int)
    requires
        first_layer_problem(layers, n) is None,
        0 <= j < n,
    ensures
        layer_problem(layers, j) is None,
    decreases n,
{
    if j < n - 1 {
        lemma_no_problem_among_first(layers, (n - 1) as nat, j);
    }
}

/// A pixel buffer's sides are valid: each from 1 to 32768.
pub open spec fn valid_sides(width: u32, height: u32) -> bool {
    1 <= width <= 32768 && 1 <= height <= 32768
}

/// What every document that passes validation satisfies (and hence every
/// saved or opened project): the canvas has valid sides, there are at most
/// 1024 layers with distinct identifiers and opacities in 0..=1, every
/// raster layer holds exactly `width * height * 4` bytes and every mask and
/// the selection exactly `width * height` bytes, all with valid sides, and
/// the active layer, if any, is in the stack. A raster layer with too many
/// bytes is refused as well as one with too few.
pub proof fn law_valid_document_is_well_formed(d: DocumentView)
    requires
        validation_problem(d) is None,
    ensures
        valid_sides(d.canvas_width, d.canvas_height),
        d.layers.len() <= 1024,
        forall|j: int, k: int| 0 <= j < k < d.layers.len() ==> #[trigger] d.layers[j].id != #[trigger] d.layers[k].id,
        forall|j: int| 0 <= j < d.layers.len() ==> opacity_bits_valid(#[trigger] d.layers[j].opacity_bits),
        forall|j: int|
            0 <= j < d.layers.len() ==> (#[trigger] d.layers[j].kind matches LayerKindView::Raster(r) ==> valid_sides(
                r.width,
                r.height,
            ) && r.data.len() == r.width * r.height * 4),
        forall|j: int|
            0 <= j < d.layers.len() ==> (#[trigger] d.layers[j].mask matches Some(m) ==> valid_sides(
                m.width,
                m.height,
            ) && m.data.len() == m.width * m.height),
        d.active_layer_id matches Some(a) ==> exists|j: int| 0 <= j < d.layers.len() && d.layers[j].id == a,
        d.selection matches Some(s) ==> valid_sides(s.width, s.height) && s.data.len() == s.width * s.height,
{
    assert forall|j: int| 0 <= j < d.layers.len() implies layer_problem(d.layers, j) is None by {
        lemma_no_problem_among_first(d.layers, d.layers.len(), j);
    }
    assert forall|j: int, k: int| 0 <= j < k < d.layers.len() implies #[trigger] d.layers[j].id
        != #[trigger] d.layers[k].id by {
        assert(layer_problem(d.layers, k) is None);
    }
    assert forall|j: int| 0 <= j < d.layers.len() implies opacity_bits_valid(#[trigger] d.layers[j].opacity_bits) by {
        assert(layer_problem(d.layers, j) is None);
    }
    assert forall|j: int| 0 <= j < d.layers.len() implies (#[trigger] d.layers[j].kind matches LayerKindView::Raster(
        r,
    ) ==> valid_sides(r.width, r.height) && r.data.len() == r.width * r.height * 4) by {
        assert(layer_problem(d.layers, j) is None);
    }
    assert forall|j: int| 0 <= j < d.layers.len() implies (#[trigger] d.layers[j].mask matches Some(m)
        ==> valid_sides(m.width, m.height) && m.data.len() == m.width * m.height) by {
        assert(layer_problem(d.layers, j) is None);
    }
}

/// No layer among the first `n` has a problem, so none is found.
proof fn lemma_no_problem_found(layers: Seq<LayerView>, n: nat)
    requires
        n <= layers.len(),
        forall|j: int| 0 <= j < n ==> layer_problem(layers, j) is None,
    ensures
        first_layer_problem(layers, n) is None,
    decreases n,
{
    if n > 0 {
        lemma_no_problem_found(layers, (n - 1) as nat);
    }
}

/// Sides from 1 to 32768 never overflow a one-byte-per-pixel buffer.
proof fn lemma_single_channel_fits(width: u32, height: u32)
    requires
        valid_sides(width, height),
    ensures
        pixel_len_problem(width, height, 1) is None,
{
    assert(width * height * 1 <= 0x4000_0000) by (nonlinear_arith)
        requires
            1 <= width <= 32768,
            1 <= height <= 32768,
    ;
}

/// Conversely, a document that satisfies all of this passes validation:
/// valid sides everywhere, raster byte counts that fit memory and match
/// `width * height * 4`, masks and selection of `width * height` bytes, at
/// most 1024 layers with distinct identifiers and valid opacities, and an
/// active layer that is in the stack.
pub proof fn law_well_formed_document_is_valid(d: DocumentView)
    requires
        valid_sides(d.canvas_width, d.canvas_height),
        d.layers.len() <= 1024,
        forall|j: int, k: int| 0 <= j < k < d.layers.len() ==> #[trigger] d.layers[j].id != #[trigger] d.layers[k].id,
        forall|j: int| 0 <= j < d.layers.len() ==> opacity_bits_valid(#[trigger] d.layers[j].opacity_bits),
        forall|j: int|
            0 <= j < d.layers.len() ==> (#[trigger] d.layers[j].kind matches LayerKindView::Raster(r) ==> valid_sides(
                r.width,
                r.height,
            ) && r.width * r.height * 4 <= usize::MAX && r.data.len() == r.width * r.height * 4),
        forall|j: int|
            0 <= j < d.layers.len() ==> (#[trigger] d.layers[j].mask matches Some(m) ==> valid_sides(
                m.width,
                m.height,
            ) && m.data.len() == m.width * m.height),
        d.active_layer_id matches Some(a) ==> exists|j: int| 0 <= j < d.layers.len() && d.layers[j].id == a,
        d.selection matches Some(s) ==> valid_sides(s.width, s.height) && s.data.len() == s.width * s.height,
    ensures
        validation_problem(d) is None,
{
    lemma_single_channel_fits(d.canvas_width, d.canvas_height);
    assert forall|j: int| 0 <= j < d.layers.len() implies layer_problem(d.layers, j) is None by {
        let layer = d.layers[j];
        assert(!(exists|i: int| 0 <= i < j && d.layers[i].id == layer.id)) by {
            if exists|i: int| 0 <= i < j && d.layers[i].id == layer.id {
                let i = choose|i: int| 0 <= i < j && d.layers[i].id == layer.id;
                assert(d.layers[i].id != d.layers[j].id);
            }
        }
        assert(opacity_bits_valid(d.layers[j].opacity_bits));
        match layer.kind {
            LayerKindView::Raster(r) => {
                assert(d.layers[j].kind matches LayerKindView::Raster(q) ==> valid_sides(q.width, q.height)
                    && q.width * q.height * 4 <= usize::MAX && q.data.len() == q.width * q.height * 4);
            },
            _ => {},
        }
        match layer.mask {
            Some(m) => {
                assert(d.layers[j].mask matches Some(n) ==> valid_sides(n.width, n.height) && n.data.len()
                    == n.width * n.height);
                lemma_single_channel_fits(m.width, m.height);
            },
            None => {},
        }
    }
    lemma_no_problem_found(d.layers, d.layers.len());
    match d.selection {
        Some(s) => lemma_single_channel_fits(s.width, s.height),
        None => {},
    }
}

/// A raster layer whose byte count is not exactly `width * height * 4`,
/// too many bytes as well as too few, makes the document invalid.
pub proof fn law_wrong_raster_size_is_refused(d: DocumentView, j: int)
    requires
        0 <= j < d.layers.len(),
        d.layers[j].kind matches LayerKindView::Raster(r) && r.data.len() != r.width * r.height * 4,
    ensures
        validation_problem(d) is Some,
{
    if validation_problem(d) is None {
        law_valid_document_is_well_formed(d);
        assert(d.layers[j].kind matches LayerKindView::Raster(r) ==> r.data.len() == r.width * r.height * 4);
    }
}

pub open spec fn selection_problem(selection: Option<MaskView>) -> Option<Seq<char>> {
    match selection {
        Some(s) => match pixel_len_problem(s.width, s.height, 1) {
            Some(p) => Some(p),
            None => if s.data.len() != s.width * s.height {
                Some("The document selection has invalid pixel data"@)
            } else {
                None
            },
        },
        None => None,
    }
}

/// The first thing wrong with a document, in the order it is checked:
/// canvas size, layer count, each layer in turn (unique identifier, opacity,
/// pixel bytes, mask bytes), the active layer reference, the selection.
pub open spec fn validation_problem(d: DocumentView) -> Option<Seq<char>> {
    match pixel_len_problem(d.canvas_width, d.canvas_height, 1) {
        Some(m) => Some(m),
        None => if d.layers.len() > MAX_LAYERS {
            Some("Project contains more than 1024 layers"@)
        } else {
            match first_layer_problem(d.layers, d.layers.len()) {
                Some(m) => Some(m),
                None => if d.active_layer_id matches Some(a) && !(exists|j: int|
                    0 <= j < d.layers.len() && d.layers[j].id == a) {
                    Some("The active layer identifier does not exist in the layer stack"@)
                } else {
                    selection_problem(d.selection)
                },
            }
        },
    }
}


/// The message for a buffer whose byte count is wrong.
fn bytes_error(prefix: &str, name: &str, got: usize, expected: usize) -> (e: ProjectError)
    ensures
        e@ == ProjectErrorView::Invalid(bytes_message(prefix@, name@, got as nat, expected as nat)),
{
    let mut message = String::from_str(prefix);
    message.append(name);
    message.append("' has ");
    append_decimal(&mut message, got as u64);
    message.append(" bytes but ");
    append_decimal(&mut message, expected as u64);
    message.append(" were expected");
    ProjectError::Invalid(message)
}

/// Checks one layer (all earlier ones having passed, with their identifiers
/// in `seen`) and records its identifier.
fn check_layer(
    layers: &Vec<crate::document::Layer>,
    i: usize,
    seen: &mut std::collections::HashSet<u128>,
) -> (checked: Result<(), ProjectError>)
    requires
        i < layers@.len(),
        forall|k: u128| old(seen)@.contains(k) <==> exists|j: int| 0 <= j < i && layers@[j].id.value() == k,
    ensures
        match layer_problem(layers@.map_values(|l: crate::document::Layer| l@), i as int) {
            Some(m) => checked matches Err(e) && e@ == ProjectErrorView::Invalid(m),
            None => checked is Ok && forall|k: u128| final(seen)@.contains(k) <==> exists|j: int|
                0 <= j <= i && layers@[j].id.value() == k,
        },
{
    broadcast use vstd::std_specs::hash::group_hash_axioms;

    let ghost views = layers@.map_values(|l: crate::document::Layer| l@);
    let layer = &layers[i];
    if !seen.insert(layer.id.as_u128()) {
        proof {
            let j = choose|j: int| 0 <= j < i && layers@[j].id.value() == layer.id.value();
            lemma_layer_id_value(layers@[j].id, layer.id);
            assert(views[j].id == views[i as int].id);
        }
        return Err(ProjectError::Invalid(String::from_str("Project contains duplicate layer identifiers")));
    }
    proof {
        assert forall|j: int| 0 <= j < i implies views[j].id != views[i as int].id by {
            lemma_layer_id_value(layers@[j].id, layer.id);
        }
    }
    if !(layer.opacity_bits <= 0x3F80_0000u32 || layer.opacity_bits == 0x8000_0000u32) {
        let mut message = String::from_str("Layer '");
        message.append(layer.name.as_str());
        message.append("' has an invalid opacity");
        return Err(ProjectError::Invalid(message));
    }
    if let LayerKind::Raster(raster) = &layer.kind {
        let expected = checked_pixel_len(raster.width, raster.height, 4)?;
        if raster.data.len() != expected {
            return Err(bytes_error("Layer '", layer.name.as_str(), raster.data.len(), expected));
        }
    }
    if let Some(mask) = &layer.mask {
        let expected = checked_pixel_len(mask.width, mask.height, 1)?;
        if mask.data.len() != expected {
            return Err(bytes_error("Mask '", mask.name.as_str(), mask.data.len(), expected));
        }
    }
    proof {
        assert forall|k: u128| seen@.contains(k) <==> exists|j: int| 0 <= j <= i && layers@[j].id.value() == k by {
            if seen@.contains(k) && k != layer.id.value() {
                let j = choose|j: int| 0 <= j < i && layers@[j].id.value() == k;
                assert(0 <= j <= i && layers@[j].id.value() == k);
            }
            if exists|j: int| 0 <= j <= i && layers@[j].id.value() == k {
                let j = choose|j: int| 0 <= j <= i && layers@[j].id.value() == k;
                if j < i {
                    assert(old(seen)@.contains(k));
                }
            }
        }
    }
    Ok(())
}

/// Checks everything a document must satisfy to be saved or opened, and
/// reports the first problem found.
pub fn validate_document(document: &Document) -> (checked: Result<(), ProjectError>)
    ensures
        match validation_problem(document@) {
            Some(m) => checked matches Err(e) && e@ == ProjectErrorView::Invalid(m),
            None => checked is Ok,
        },
{
    broadcast use vstd::std_specs::hash::group_hash_axioms;

    let ghost views = document@.layers;
    checked_pixel_len(document.canvas_width, document.canvas_height, 1)?;
    if document.layers.len() > MAX_LAYERS {
        return Err(ProjectError::Invalid(String::from_str("Project contains more than 1024 layers")));
    }
    let mut seen: std::collections::HashSet<u128> = std::collections::HashSet::with_capacity(document.layers.len());
    let mut i: usize = 0;
    while i < document.layers.len()
        invariant
            i <= document.layers@.len(),
            views == document.layers@.map_values(|l: crate::document::Layer| l@),
            first_layer_problem(views, i as nat) is None,
            pixel_len_problem(document.canvas_width, document.canvas_height, 1) is None,
            document.layers@.len() <= MAX_LAYERS,
            forall|k: u128| seen@.contains(k) <==> exists|j: int| 0 <= j < i && document.layers@[j].id.value() == k,
        decreases document.layers@.len() - i,
    {
        match check_layer(&document.layers, i, &mut seen) {
            Ok(()) => {},
            Err(e) => {
                proof {
                    assert(first_layer_problem(views, (i + 1) as nat) is Some);
                    lemma_first_layer_problem_stays(views, (i + 1) as nat, views.len());
                }
                return Err(e);
            },
        }
        i += 1;
    }
    if let Some(active) = document.active_layer_id {
        if !seen.contains(&active.as_u128()) {
            proof {
                assert forall|j: int| 0 <= j < views.len() implies views[j].id != active by {
                    lemma_layer_id_value(document.layers@[j].id, active);
                }
            }
            return Err(ProjectError::Invalid(
                String::from_str("The active layer identifier does not exist in the layer stack"),
            ));
        }
        proof {
            let j = choose|j: int| 0 <= j < i && document.layers@[j].id.value() == active.value();
            lemma_layer_id_value(document.layers@[j].id, active);
            assert(views[j].id == active);
        }
    }
    if let Some(selection) = &document.selection {
        let expected = checked_pixel_len(selection.width, selection.height, 1)?;
        if selection.data.len() != expected {
            return Err(ProjectError::Invalid(String::from_str("The document selection has invalid pixel data")));
        }
    }
    Ok(())
}

/// The envelope around a valid document, ready to be written as JSON.
pub fn encode_project(document: &Document) -> (project: Result<ProjectFile, ProjectError>)
    ensures
        match validation_problem(document@) {
            Some(m) => project matches Err(e) && e@ == ProjectErrorView::Invalid(m),
            None => project matches Ok(p) && p.format@ == PROJECT_FORMAT@ && p.version == PROJECT_VERSION
                && p.document@ == document@ && p.document.undo_stack@ == empty_history(),
        },
{
    validate_document(document)?;
    Ok(ProjectFile {
        format: String::from_str(PROJECT_FORMAT),
        version: PROJECT_VERSION,
        document: document.clone(),
    })
}

/// What opening a project envelope gives: the document, marked saved and with
/// a fresh history, or why it is refused.
pub open spec fn decode_outcome(format: Seq<char>, version: u32, d: DocumentView) -> Result<DocumentView, ProjectErrorView> {
    if format != PROJECT_FORMAT@ {
        Err(ProjectErrorView::Invalid("The selected file is not a Slate project"@))
    } else if version > PROJECT_VERSION {
        Err(ProjectErrorView::UnsupportedVersion(version))
    } else if version == 0 {
        Err(ProjectErrorView::Invalid("Project version 0 is not supported"@))
    } else {
        match validation_problem(d) {
            Some(m) => Err(ProjectErrorView::Invalid(m)),
            None => Ok(DocumentView { has_unsaved_changes: false, ..d }),
        }
    }
}

/// Opens a parsed project envelope: checks the format marker and version,
/// validates the document, starts a fresh history and marks it saved.
pub fn decode_project(project: ProjectFile) -> (document: Result<Document, ProjectError>)
    ensures
        match decode_outcome(project.format@, project.version, project.document@) {
            Ok(d) => document matches Ok(doc) && doc@ == d && doc.undo_stack@ == empty_history(),
            Err(e) => document matches Err(err) && err@ == e,
        },
{
    if !equal_strings(project.format.as_str(), PROJECT_FORMAT) {
        return Err(ProjectError::Invalid(String::from_str("The selected file is not a Slate project")));
    }
    if project.version > PROJECT_VERSION {
        return Err(ProjectError::UnsupportedVersion(project.version));
    }
    if project.version == 0 {
        return Err(ProjectError::Invalid(String::from_str("Project version 0 is not supported")));
    }
    validate_document(&project.document)?;
    let mut document = project.document;
    document.undo_stack = UndoStack::new();
    document.has_unsaved_changes = false;
    Ok(document)
}

/// Saving then opening gives back the document (marked saved, with a fresh
/// history), and only valid documents are saved or opened.
pub proof fn law_project_round_trip(d: DocumentView)
    requires
        validation_problem(d) is None,
    ensures
        decode_outcome(PROJECT_FORMAT@, PROJECT_VERSION, d) == Ok::<DocumentView, ProjectErrorView>(
            DocumentView { has_unsaved_changes: false, ..d },
        ),
{
}

/// A project written by a newer version is refused with its version number.
pub proof fn law_future_versions_refused(d: DocumentView, version: u32)
    requires
        version > PROJECT_VERSION,
    ensures
        decode_outcome(PROJECT_FORMAT@, version, d) == Err::<DocumentView, ProjectErrorView>(
            ProjectErrorView::UnsupportedVersion(version),
        ),
{
}

} // verus!
