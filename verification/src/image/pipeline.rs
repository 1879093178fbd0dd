//! Settings of the quick-edit export pipeline: output format and quality,
//! rotation, crop, resize target and kernel, and the size presets.

use vstd::prelude::*;

verus! {

/// The encoded file format of an export.
#[derive(Debug, Clone, Copy, PartialEq, Eq, Structural)]
pub enum ExportFormat {
    Png,
    Jpeg,
    WebP,
}

pub open spec fn export_format_label(format: ExportFormat) -> Seq<char> {
    match format {
        ExportFormat::Png => "PNG"@,
        ExportFormat::Jpeg => "JPEG"@,
        ExportFormat::WebP => "WebP"@,
    }
}

impl ExportFormat {
    /// The format's display name.
    pub fn as_str(&self) -> (label: &'static str)
        ensures
            label@ == export_format_label(*self),
    {
        match self {
            ExportFormat::Png => "PNG",
            ExportFormat::Jpeg => "JPEG",
            ExportFormat::WebP => "WebP",
        }
    }

    /// The file extensions exports are written with, one per format.
    pub fn extensions() -> (exts: Vec<&'static str>)
        ensures
            exts@.len() == 3,
            exts@[0]@ == "png"@,
            exts@[1]@ == "jpg"@,
            exts@[2]@ == "webp"@,
    {
        vec!["png", "jpg", "webp"]
    }
}

/// Format and encoder settings of an export.
#[derive(Debug, Clone, Copy, PartialEq, Eq, Structural)]
pub struct ExportParams {
    pub format: ExportFormat,
    pub quality: u8,
    pub strip_metadata: bool,
}

impl Default for ExportParams {
    /// PNG, quality 90, metadata stripped.
    fn default() -> (params: Self)
        ensures
            params == (ExportParams { format: ExportFormat::Png, quality: 90, strip_metadata: true }),
    {
        ExportParams { format: ExportFormat::Png, quality: 90, strip_metadata: true }
    }
}

/// The interpolation used when resizing.
#[derive(Debug, Clone, Copy, PartialEq, Eq, Structural)]
pub enum ResizeKernel {
    Nearest,
    Linear,
    Cubic,
    Lanczos3,
}

pub open spec fn resize_kernel_label(kernel: ResizeKernel) -> Seq<char> {
    match kernel {
        ResizeKernel::Nearest => "Nearest"@,
        ResizeKernel::Linear => "Linear"@,
        ResizeKernel::Cubic => "Cubic"@,
        ResizeKernel::Lanczos3 => "Lanczos3"@,
    }
}

impl ResizeKernel {
    /// The kernel's display name.
    pub fn as_str(&self) -> (label: &'static str)
        ensures
            label@ == resize_kernel_label(*self),
    {
        match self {
            ResizeKernel::Nearest => "Nearest",
            ResizeKernel::Linear => "Linear",
            ResizeKernel::Cubic => "Cubic",
            ResizeKernel::Lanczos3 => "Lanczos3",
        }
    }

    /// Every kernel, in menu order.
    pub fn all() -> (kernels: Vec<ResizeKernel>)
        ensures
            kernels@ == seq![ResizeKernel::Nearest, ResizeKernel::Linear, ResizeKernel::Cubic, ResizeKernel::Lanczos3],
    {
        vec![ResizeKernel::Nearest, ResizeKernel::Linear, ResizeKernel::Cubic, ResizeKernel::Lanczos3]
    }
}

impl Default for ResizeKernel {
    fn default() -> (kernel: Self)
        ensures
            kernel == ResizeKernel::Lanczos3,
    {
        ResizeKernel::Lanczos3
    }
}

/// How a resize treats a target of another aspect ratio.
#[derive(Debug, Clone, Copy, PartialEq, Eq, Structural)]
pub enum ResizeMode {
    Fit,
    FillCrop,
    Stretch,
}

pub open spec fn resize_mode_label(mode: ResizeMode) -> Seq<char> {
    match mode {
        ResizeMode::Fit => "Fit inside"@,
        ResizeMode::FillCrop => "Fill crop"@,
        ResizeMode::Stretch => "Stretch"@,
    }
}

impl ResizeMode {
    /// The mode's display name.
    pub fn as_str(&self) -> (label: &'static str)
        ensures
            label@ == resize_mode_label(*self),
    {
        match self {
            ResizeMode::Fit => "Fit inside",
            ResizeMode::FillCrop => "Fill crop",
            ResizeMode::Stretch => "Stretch",
        }
    }

    /// Every mode, in menu order.
    pub fn all() -> (modes: Vec<ResizeMode>)
        ensures
            modes@ == seq![ResizeMode::Fit, ResizeMode::FillCrop, ResizeMode::Stretch],
    {
        vec![ResizeMode::Fit, ResizeMode::FillCrop, ResizeMode::Stretch]
    }
}

impl Default for ResizeMode {
    fn default() -> (mode: Self)
        ensures
            mode == ResizeMode::FillCrop,
    {
        ResizeMode::FillCrop
    }
}

/// A crop rectangle in image pixels. Its coordinates are `f64` values,
/// held as their bit patterns.
#[derive(Debug, Clone, Copy, PartialEq, Eq, Structural)]
pub struct CropRect {
    pub x_bits: u64,
    pub y_bits: u64,
    pub width_bits: u64,
    pub height_bits: u64,
}

/// The size a resize produces, and how it treats the aspect ratio.
#[derive(Debug, Clone, Copy, PartialEq, Eq, Structural)]
pub struct ResizeTarget {
    pub width: u32,
    pub height: u32,
    pub mode: ResizeMode,
}

impl ResizeTarget {
    /// A target of the given size that fills it and crops the overflow.
    pub fn new(width: u32, height: u32) -> (target: Self)
        ensures
            target == (ResizeTarget { width, height, mode: ResizeMode::FillCrop }),
    {
        ResizeTarget { width, height, mode: ResizeMode::FillCrop }
    }
}

/// The size preset picked in the resize section.
#[derive(Debug, Clone, Copy, PartialEq, Eq, Structural)]
pub enum PresetTarget {
    Original,
    Custom(u32, u32),
}

impl PresetTarget {
    /// The offered presets: width, height and label.
    pub fn presets() -> (presets: Vec<(u32, u32, &'static str)>)
        ensures
            presets@.len() == 5,
            presets@[0].0 == 1920 && presets@[0].1 == 1080 && presets@[0].2@ == "1920 x 1080"@,
            presets@[1].0 == 1280 && presets@[1].1 == 720 && presets@[1].2@ == "1280 x 720"@,
            presets@[2].0 == 1080 && presets@[2].1 == 1080 && presets@[2].2@ == "1080 x 1080"@,
            presets@[3].0 == 3840 && presets@[3].1 == 2160 && presets@[3].2@ == "3840 x 2160"@,
            presets@[4].0 == 800 && presets@[4].1 == 600 && presets@[4].2@ == "800 x 600"@,
    {
        vec![
            (1920, 1080, "1920 x 1080"),
            (1280, 720, "1280 x 720"),
            (1080, 1080, "1080 x 1080"),
            (3840, 2160, "3840 x 2160"),
            (800, 600, "800 x 600"),
        ]
    }
}

/// A quarter-turn rotation applied before export.
#[derive(Debug, Clone, Copy, PartialEq, Eq, Structural)]
pub enum Rotation {
    Unrotated,
    Clockwise90,
    Clockwise180,
    Clockwise270,
}

pub open spec fn rotation_label(rotation: Rotation) -> Seq<char> {
    match rotation {
        Rotation::Unrotated => "0 deg"@,
        Rotation::Clockwise90 => "90 deg"@,
        Rotation::Clockwise180 => "180 deg"@,
        Rotation::Clockwise270 => "270 deg"@,
    }
}

impl Rotation {
    /// The rotation's display name.
    pub fn as_str(&self) -> (label: &'static str)
        ensures
            label@ == rotation_label(*self),
    {
        match self {
            Rotation::Unrotated => "0 deg",
            Rotation::Clockwise90 => "90 deg",
            Rotation::Clockwise180 => "180 deg",
            Rotation::Clockwise270 => "270 deg",
        }
    }

    /// Every rotation, in menu order.
    pub fn all() -> (rotations: Vec<Rotation>)
        ensures
            rotations@ == seq![Rotation::Unrotated, Rotation::Clockwise90, Rotation::Clockwise180, Rotation::Clockwise270],
    {
        vec![Rotation::Unrotated, Rotation::Clockwise90, Rotation::Clockwise180, Rotation::Clockwise270]
    }
}

impl Default for Rotation {
    fn default() -> (rotation: Self)
        ensures
            rotation == Rotation::Unrotated,
    {
        Rotation::Unrotated
    }
}

/// The quick-edit steps applied on export, in order: rotation, crop, resize.
#[derive(Debug, Clone, Copy, PartialEq, Eq, Structural)]
pub struct EditPipeline {
    pub rotation: Rotation,
    pub crop: Option<CropRect>,
    pub resize: Option<ResizeTarget>,
    pub kernel: ResizeKernel,
    pub preset: PresetTarget,
}

impl Default for EditPipeline {
    /// No rotation, crop or resize; Lanczos3; the 1920 x 1080 preset.
    fn default() -> (pipeline: Self)
        ensures
            pipeline == (EditPipeline {
                rotation: Rotation::Unrotated,
                crop: None,
                resize: None,
                kernel: ResizeKernel::Lanczos3,
                preset: PresetTarget::Custom(1920, 1080),
            }),
    {
        EditPipeline {
            rotation: Rotation::Unrotated,
            crop: None,
            resize: None,
            kernel: ResizeKernel::Lanczos3,
            preset: PresetTarget::Custom(1920, 1080),
        }
    }
}

} // verus!
