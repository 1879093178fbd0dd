//! The open file as the editor presents it: window title, default project
//! name, documents made from opened files, saved state, and export file
//! names, formats and encoder targets.

use vstd::prelude::*;
use vstd::string::*;

use crate::document::project::PROJECT_EXTENSION;
use crate::document::{
    new_document_view, touched, string_option_view, Document, DocumentView, Layer,
};
use crate::document::layer::new_raster_view;
use crate::float_bits::{f64_bits_as_u32, f64_bits_to_u32};
use crate::image::pipeline::{CropRect, EditPipeline, ExportFormat, ExportParams, ResizeTarget, Rotation};
use crate::paths::{path_file_name, path_file_name_of, path_file_stem, path_file_stem_of};
use crate::text::{append_decimal, decimal};

verus! {

/// The stem a project is named after: the file stem of the document's path
/// when it has a non-empty one, else `untitled`.
pub open spec fn project_stem(file_path: Option<Seq<char>>) -> Seq<char> {
    match file_path {
        Some(p) => match path_file_stem_of(p) {
            Some(stem) => if stem.len() > 0 {
                stem
            } else {
                "untitled"@
            },
            None => "untitled"@,
        },
        None => "untitled"@,
    }
}

/// The file name offered when the document is first saved as a project:
/// its stem with the project extension.
pub fn default_project_name(document: &Document) -> (name: String)
    ensures
        name@ == project_stem(document@.file_path) + "."@ + "slate"@,
{
    let stem = match &document.file_path {
        Some(path) => path_file_stem(path.as_str()),
        None => None,
    };
    let mut name = match stem {
        Some(s) => if s.as_str().unicode_len() > 0 {
            s
        } else {
            String::from_str("untitled")
        },
        None => String::from_str("untitled"),
    };
    proof {
        reveal_strlit("slate");
    }
    name.append(".");
    name.append(PROJECT_EXTENSION);
    name
}

/// The window title: a dot while there are unsaved changes, the file name
/// (or `Untitled`), and the application name.
pub open spec fn window_title_text(file_path: Option<Seq<char>>, unsaved: bool) -> Seq<char> {
    let name = match file_path {
        Some(p) => match path_file_name_of(p) {
            Some(n) => n,
            None => "Untitled"@,
        },
        None => "Untitled"@,
    };
    (if unsaved {
        "● "@
    } else {
        ""@
    }) + name + " — Slate"@
}

/// The window title for the document.
pub fn window_title(document: &Document) -> (title: String)
    ensures
        title@ == window_title_text(document@.file_path, document.has_unsaved_changes),
{
    let name = match &document.file_path {
        Some(path) => path_file_name(path.as_str()),
        None => None,
    };
    let mut title = if document.has_unsaved_changes {
        String::from_str("● ")
    } else {
        String::from_str("")
    };
    match &name {
        Some(n) => title.append(n.as_str()),
        None => title.append("Untitled"),
    }
    title.append(" — Slate");
    title
}

/// The error an opened image with a zero side gives.
pub open spec fn zero_size_message() -> Seq<char> {
    "The image has invalid zero-sized dimensions."@
}

/// The name of the layer an opened image becomes: the file stem, else
/// `Image`.
pub open spec fn image_layer_name(path: Seq<char>) -> Seq<char> {
    match path_file_stem_of(path) {
        Some(stem) => stem,
        None => "Image"@,
    }
}

/// A new document holding an opened image, as decoded RGBA pixels, in one
/// raster layer named after the file; it counts as saved.
pub fn image_document(path: &str, width: u32, height: u32, rgba: Vec<u8>) -> (document: Result<Document, String>)
    ensures
        match document {
            Ok(d) => width != 0 && height != 0 && d@.layers.len() == 1 && d@ == (DocumentView {
                layers: seq![new_raster_view(d@.layers[0].id, image_layer_name(path@), width, height, rgba@)],
                active_layer_id: Some(d@.layers[0].id),
                revision: 1,
                ..new_document_view(width, height)
            }) && d.undo_stack@ == crate::document::command::empty_history(),
            Err(message) => (width == 0 || height == 0) && message@ == zero_size_message(),
        },
{
    if width == 0 || height == 0 {
        return Err(String::from_str("The image has invalid zero-sized dimensions."));
    }
    let stem = path_file_stem(path);
    let name = match stem {
        Some(s) => s,
        None => String::from_str("Image"),
    };
    let mut document = Document::new(width, height);
    let layer = Layer::new_raster(name.as_str(), width, height, rgba);
    let ghost added = layer@;
    document.add_layer(layer);
    document.mark_saved();
    proof {
        assert(document@.layers =~= seq![added]);
    }
    Ok(document)
}

/// A document read from `path` as it replaces the open one: it is the
/// revision after `previous_revision` (wrapping), remembers the path and
/// counts as saved.
pub fn opened_document(next: Document, previous_revision: u64, path: &str) -> (document: Document)
    ensures
        document@ == (DocumentView {
            revision: previous_revision.wrapping_add(1),
            file_path: Some(path@),
            has_unsaved_changes: false,
            ..next@
        }),
        document.undo_stack@ == next.undo_stack@,
{
    let mut document = next;
    document.revision = previous_revision.wrapping_add(1);
    document.file_path = Some(String::from_str(path));
    document.mark_saved();
    document
}

/// Records that the document was saved to `path`.
pub fn mark_saved_at(document: &mut Document, path: &str)
    ensures
        final(document)@ == (DocumentView {
            file_path: Some(path@),
            has_unsaved_changes: false,
            ..old(document)@
        }),
        final(document).undo_stack@ == old(document).undo_stack@,
{
    document.file_path = Some(String::from_str(path));
    document.mark_saved();
}

/// The file extension of an export format.
pub open spec fn export_extension_text(format: ExportFormat) -> Seq<char> {
    match format {
        ExportFormat::Png => "png"@,
        ExportFormat::Jpeg => "jpg"@,
        ExportFormat::WebP => "webp"@,
    }
}

pub fn export_extension(format: ExportFormat) -> (ext: &'static str)
    ensures
        ext@ == export_extension_text(format),
{
    match format {
        ExportFormat::Png => "png",
        ExportFormat::Jpeg => "jpg",
        ExportFormat::WebP => "webp",
    }
}

/// The MIME type of an export format.
pub open spec fn export_mime_type_text(format: ExportFormat) -> Seq<char> {
    match format {
        ExportFormat::Png => "image/png"@,
        ExportFormat::Jpeg => "image/jpeg"@,
        ExportFormat::WebP => "image/webp"@,
    }
}

pub fn export_mime_type(format: ExportFormat) -> (mime: &'static str)
    ensures
        mime@ == export_mime_type_text(format),
{
    match format {
        ExportFormat::Png => "image/png",
        ExportFormat::Jpeg => "image/jpeg",
        ExportFormat::WebP => "image/webp",
    }
}

/// The file-dialog filter name of an export format.
pub open spec fn export_filter_name_text(format: ExportFormat) -> Seq<char> {
    match format {
        ExportFormat::Png => "PNG Image"@,
        ExportFormat::Jpeg => "JPEG Image"@,
        ExportFormat::WebP => "WebP Image"@,
    }
}

pub fn export_filter_name(format: ExportFormat) -> (name: &'static str)
    ensures
        name@ == export_filter_name_text(format),
{
    match format {
        ExportFormat::Png => "PNG Image",
        ExportFormat::Jpeg => "JPEG Image",
        ExportFormat::WebP => "WebP Image",
    }
}

/// The encoder quality used: the requested one held within 1..=100.
pub open spec fn clamped_quality(quality: u8) -> u8 {
    if quality > 100 {
        100
    } else if quality < 1 {
        1
    } else {
        quality
    }
}

/// The target name the encoder writes an export to: `slate_export`, the
/// format's extension and, for lossy formats, the quality option.
pub open spec fn export_save_target_text(params: ExportParams) -> Seq<char> {
    "slate_export."@ + export_extension_text(params.format) + match params.format {
        ExportFormat::Png => ""@,
        _ => "[Q="@ + decimal(clamped_quality(params.quality) as nat) + "]"@,
    }
}

pub fn export_save_target(params: &ExportParams) -> (target: String)
    ensures
        target@ == export_save_target_text(*params),
{
    let mut target = String::from_str("slate_export.");
    target.append(export_extension(params.format));
    match params.format {
        ExportFormat::Png => {
            proof {
                reveal_strlit("");
            }
        },
        _ => {
            let q = if params.quality > 100 {
                100
            } else if params.quality < 1 {
                1
            } else {
                params.quality
            };
            let ghost head = target@;
            target.append("[Q=");
            append_decimal(&mut target, q as u64);
            target.append("]");
            assert(target@ =~= head + ("[Q="@ + decimal(clamped_quality(params.quality) as nat) + "]"@));
        },
    }
    assert(target@ =~= export_save_target_text(*params));
    target
}

/// What an export produced: the encoded bytes and the output size, or an
/// error message.
pub enum PipelineResult {
    Success(Vec<u8>, u32, u32),
    Error(String),
}

/// The output size of an export: the resize target when there is one, else
/// the crop's size (its sides rounded toward zero), else the canvas turned
/// by the rotation.
pub open spec fn output_size(canvas_width: u32, canvas_height: u32, pipeline: EditPipeline) -> (u32, u32) {
    match pipeline.resize {
        Some(target) => (target.width, target.height),
        None => match pipeline.crop {
            Some(crop) => (f64_bits_as_u32(crop.width_bits), f64_bits_as_u32(crop.height_bits)),
            None => match pipeline.rotation {
                Rotation::Clockwise90 | Rotation::Clockwise270 => (canvas_height, canvas_width),
                _ => (canvas_width, canvas_height),
            },
        },
    }
}

/// The base of an export's file name: the document's file stem, else
/// `image`.
pub open spec fn output_base(file_path: Option<Seq<char>>) -> Seq<char> {
    match file_path {
        Some(p) => match path_file_stem_of(p) {
            Some(stem) => stem,
            None => "image"@,
        },
        None => "image"@,
    }
}

/// `<base>_<width>x<height>.<extension>` for an export.
pub open spec fn output_filename_text(d: DocumentView, pipeline: EditPipeline, params: ExportParams) -> Seq<char> {
    let size = output_size(d.canvas_width, d.canvas_height, pipeline);
    output_base(d.file_path) + "_"@ + decimal(size.0 as nat) + "x"@ + decimal(size.1 as nat) + "."@
        + export_extension_text(params.format)
}

/// The file name an export is offered under.
pub fn output_filename(document: &Document, pipeline: &EditPipeline, export_params: &ExportParams) -> (name: String)
    ensures
        name@ == output_filename_text(document@, *pipeline, *export_params),
{
    let (out_w, out_h) = match &pipeline.resize {
        Some(target) => (target.width, target.height),
        None => match &pipeline.crop {
            Some(crop) => (f64_bits_to_u32(crop.width_bits), f64_bits_to_u32(crop.height_bits)),
            None => match pipeline.rotation {
                Rotation::Clockwise90 | Rotation::Clockwise270 => (document.canvas_height, document.canvas_width),
                _ => (document.canvas_width, document.canvas_height),
            },
        },
    };
    let stem = match &document.file_path {
        Some(path) => path_file_stem(path.as_str()),
        None => None,
    };
    let mut name = match stem {
        Some(s) => s,
        None => String::from_str("image"),
    };
    name.append("_");
    append_decimal(&mut name, out_w as u64);
    name.append("x");
    append_decimal(&mut name, out_h as u64);
    name.append(".");
    name.append(export_extension(export_params.format));
    name
}

/// What the export file name and preview depend on: when two signatures
/// differ, the quick-edit panel refreshes them.
#[derive(Debug, Clone, PartialEq, Eq)]
pub struct OutputPreviewSignature {
    pub canvas_width: u32,
    pub canvas_height: u32,
    pub file_path: Option<String>,
    pub crop: Option<CropRect>,
    pub resize: Option<ResizeTarget>,
    pub rotation: Rotation,
    pub format: ExportFormat,
}

/// The signature of the document's export settings.
pub fn output_preview_signature(
    document: &Document,
    pipeline: &EditPipeline,
    export_params: &ExportParams,
) -> (signature: OutputPreviewSignature)
    ensures
        signature.canvas_width == document.canvas_width,
        signature.canvas_height == document.canvas_height,
        string_option_view(signature.file_path) == document@.file_path,
        signature.crop == pipeline.crop,
        signature.resize == pipeline.resize,
        signature.rotation == pipeline.rotation,
        signature.format == export_params.format,
{
    let file_path = match &document.file_path {
        Some(p) => Some(p.clone()),
        None => None,
    };
    OutputPreviewSignature {
        canvas_width: document.canvas_width,
        canvas_height: document.canvas_height,
        file_path,
        crop: pipeline.crop,
        resize: pipeline.resize,
        rotation: pipeline.rotation,
        format: export_params.format,
    }
}

/// The position of the last `.` in the text, if any.
pub open spec fn last_dot(s: Seq<char>) -> Option<int> {
    if exists|i: int| 0 <= i < s.len() && s[i] == '.' {
        Some(choose|i: int| 0 <= i < s.len() && s[i] == '.' && forall|j: int| i < j < s.len() ==> s[j] != '.')
    } else {
        None
    }
}

/// The file name with everything after its last `.` replaced by the new
/// extension (added after a `.` when there is none).
pub open spec fn replaced_extension(filename: Seq<char>, new_ext: Seq<char>) -> Seq<char> {
    match last_dot(filename) {
        Some(i) => filename.subrange(0, i) + "."@ + new_ext,
        None => filename + "."@ + new_ext,
    }
}

pub fn replace_extension(filename: &str, new_ext: &str) -> (replaced: String)
    ensures
        replaced@ == replaced_extension(filename@, new_ext@),
{
    let n = filename.unicode_len();
    let mut i = n;
    while i > 0 && filename.get_char(i - 1) != '.'
        invariant
            i <= n,
            n == filename@.len(),
            forall|j: int| i <= j < n ==> filename@[j] != '.',
        decreases i,
    {
        i -= 1;
    }
    let mut out = if i > 0 {
        let pos = i - 1;
        proof {
            let k = choose|k: int| 0 <= k < filename@.len() && filename@[k] == '.' && forall|j: int|
                k < j < filename@.len() ==> filename@[j] != '.';
            assert(filename@[pos as int] == '.');
            if k < pos {
                assert(filename@[pos as int] != '.');
            }
            if k > pos {
                assert(filename@[k] != '.');
            }
            assert(last_dot(filename@) == Some(pos as int));
        }
        String::from_str(filename.substring_char(0, pos))
    } else {
        proof {
            assert(last_dot(filename@) is None);
        }
        String::from_str(filename)
    };
    let ghost base = out@;
    out.append(".");
    out.append(new_ext);
    assert(out@ =~= base + "."@ + new_ext@);
    out
}

} // verus!
