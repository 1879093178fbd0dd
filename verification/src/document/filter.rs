use vstd::prelude::*;
use vstd::string::*;

verus! {

pub type FilterId = usize;

/// A non-destructive filter. Opacity and all real-valued parameters are the
/// IEEE-754 bit patterns of the `f32` values they stand for.
#[derive(Debug)]
pub struct FilterNode {
    pub id: FilterId,
    pub name: String,
    pub kind: FilterKind,
    pub enabled: bool,
    pub opacity_bits: u32,
}

#[derive(Debug)]
pub enum FilterKind {
    Blur(BlurParams),
    BrightnessContrast(BrightnessContrastParams),
    Levels(LevelsParams),
    Curves(CurvesParams),
    HueSaturation(HueSaturationParams),
    ColorBalance(ColorBalanceParams),
    Sharpen(SharpenParams),
    Invert,
    Grayscale,
    Threshold(ThresholdParams),
}

#[derive(Debug, Clone, Copy, PartialEq, Eq, Structural)]
pub struct BlurParams {
    pub radius_bits: u32,
    pub kind: BlurKind,
}

#[derive(Debug, Clone, Copy, PartialEq, Eq, Structural)]
pub enum BlurKind {
    Gaussian,
    Box,
    Median,
}

#[derive(Debug, Clone, Copy, PartialEq, Eq, Structural)]
pub struct BrightnessContrastParams {
    pub brightness_bits: u32,
    pub contrast_bits: u32,
}

#[derive(Debug, Clone, Copy, PartialEq, Eq, Structural)]
pub struct LevelsParams {
    pub shadows_bits: u32,
    pub midtones_bits: u32,
    pub highlights_bits: u32,
    pub output_min_bits: u32,
    pub output_max_bits: u32,
}

/// Curve control points as pairs of `f32` bit patterns.
#[derive(Debug)]
pub struct CurvesParams {
    pub points_bits: Vec<(u32, u32)>,
}

#[derive(Debug, Clone, Copy, PartialEq, Eq, Structural)]
pub struct HueSaturationParams {
    pub hue_bits: u32,
    pub saturation_bits: u32,
    pub lightness_bits: u32,
}

#[derive(Debug, Clone, Copy, PartialEq, Eq)]
pub struct ColorBalanceParams {
    pub shadows_bits: [u32; 3],
    pub midtones_bits: [u32; 3],
    pub highlights_bits: [u32; 3],
}

#[derive(Debug, Clone, Copy, PartialEq, Eq, Structural)]
pub struct SharpenParams {
    pub radius_bits: u32,
    pub amount_bits: u32,
    pub threshold_bits: u32,
}

#[derive(Debug, Clone, Copy, PartialEq, Eq, Structural)]
pub struct ThresholdParams {
    pub level: u8,
}

impl Clone for CurvesParams {
    fn clone(&self) -> (copy: Self)
        ensures
            copy.points_bits@ == self.points_bits@,
    {
        let mut points_bits: Vec<(u32, u32)> = Vec::new();
        let mut i: usize = 0;
        while i < self.points_bits.len()
            invariant
                i <= self.points_bits@.len(),
                points_bits@ == self.points_bits@.take(i as int),
            decreases self.points_bits@.len() - i,
        {
            points_bits.push(self.points_bits[i]);
            i += 1;
        }
        assert(self.points_bits@.take(self.points_bits@.len() as int) == self.points_bits@);
        CurvesParams { points_bits }
    }
}

/// A filter's kind and parameters as a value.
pub enum FilterKindView {
    Blur(BlurParams),
    BrightnessContrast(BrightnessContrastParams),
    Levels(LevelsParams),
    Curves(Seq<(u32, u32)>),
    HueSaturation(HueSaturationParams),
    ColorBalance(ColorBalanceParams),
    Sharpen(SharpenParams),
    Invert,
    Grayscale,
    Threshold(ThresholdParams),
}

impl View for FilterKind {
    type V = FilterKindView;

    open spec fn view(&self) -> FilterKindView {
        match self {
            FilterKind::Blur(p) => FilterKindView::Blur(*p),
            FilterKind::BrightnessContrast(p) => FilterKindView::BrightnessContrast(*p),
            FilterKind::Levels(p) => FilterKindView::Levels(*p),
            FilterKind::Curves(p) => FilterKindView::Curves(p.points_bits@),
            FilterKind::HueSaturation(p) => FilterKindView::HueSaturation(*p),
            FilterKind::ColorBalance(p) => FilterKindView::ColorBalance(*p),
            FilterKind::Sharpen(p) => FilterKindView::Sharpen(*p),
            FilterKind::Invert => FilterKindView::Invert,
            FilterKind::Grayscale => FilterKindView::Grayscale,
            FilterKind::Threshold(p) => FilterKindView::Threshold(*p),
        }
    }
}

impl Clone for FilterKind {
    fn clone(&self) -> (copy: Self)
        ensures
            copy@ == self@,
    {
        match self {
            FilterKind::Blur(p) => FilterKind::Blur(*p),
            FilterKind::BrightnessContrast(p) => FilterKind::BrightnessContrast(*p),
            FilterKind::Levels(p) => FilterKind::Levels(*p),
            FilterKind::Curves(p) => FilterKind::Curves(p.clone()),
            FilterKind::HueSaturation(p) => FilterKind::HueSaturation(*p),
            FilterKind::ColorBalance(p) => FilterKind::ColorBalance(*p),
            FilterKind::Sharpen(p) => FilterKind::Sharpen(*p),
            FilterKind::Invert => FilterKind::Invert,
            FilterKind::Grayscale => FilterKind::Grayscale,
            FilterKind::Threshold(p) => FilterKind::Threshold(*p),
        }
    }
}

/// A filter as a value.
pub struct FilterNodeView {
    pub id: FilterId,
    pub name: Seq<char>,
    pub kind: FilterKindView,
    pub enabled: bool,
    pub opacity_bits: u32,
}

impl View for FilterNode {
    type V = FilterNodeView;

    open spec fn view(&self) -> FilterNodeView {
        FilterNodeView {
            id: self.id,
            name: self.name@,
            kind: self.kind@,
            enabled: self.enabled,
            opacity_bits: self.opacity_bits,
        }
    }
}

impl Clone for FilterNode {
    fn clone(&self) -> (copy: Self)
        ensures
            copy@ == self@,
    {
        FilterNode {
            id: self.id,
            name: self.name.clone(),
            kind: self.kind.clone(),
            enabled: self.enabled,
            opacity_bits: self.opacity_bits,
        }
    }
}

/// The ordered list of filters of an adjustment layer.
#[derive(Debug)]
pub struct FilterStack {
    pub filters: Vec<FilterNode>,
}

impl View for FilterStack {
    type V = Seq<FilterNodeView>;

    open spec fn view(&self) -> Seq<FilterNodeView> {
        self.filters@.map_values(|f: FilterNode| f@)
    }
}

impl Clone for FilterStack {
    fn clone(&self) -> (copy: Self)
        ensures
            copy@ == self@,
    {
        let filters = self.filters.clone();
        assert(filters@.map_values(|f: FilterNode| f@) =~= self.filters@.map_values(|f: FilterNode| f@));
        FilterStack { filters }
    }
}

/// `i` is the first position in `filters` whose identifier is `id`.
pub open spec fn is_first_filter_with_id(filters: Seq<FilterNode>, id: FilterId, i: int) -> bool {
    &&& 0 <= i < filters.len()
    &&& filters[i].id == id
    &&& forall|j: int| 0 <= j < i ==> filters[j].id != id
}

pub open spec fn has_filter_with_id(filters: Seq<FilterNode>, id: FilterId) -> bool {
    exists|i: int| 0 <= i < filters.len() && filters[i].id == id
}

/// The enabled filters, in order.
pub open spec fn enabled_only(filters: Seq<FilterNode>) -> Seq<FilterNode> {
    filters.filter(|f: FilterNode| f.enabled)
}

impl FilterStack {
    pub fn new() -> (stack: Self)
        ensures
            stack.filters@.len() == 0,
    {
        FilterStack { filters: Vec::new() }
    }

    /// Appends a filter at the end.
    pub fn add(&mut self, filter: FilterNode)
        ensures
            final(self).filters@ == old(self).filters@.push(filter),
    {
        self.filters.push(filter);
    }

    /// Removes and returns the first filter with the identifier, if any.
    pub fn remove(&mut self, id: FilterId) -> (removed: Option<FilterNode>)
        ensures
            has_filter_with_id(old(self).filters@, id) <==> removed is Some,
            removed matches Some(f) ==> exists|i: int|
                is_first_filter_with_id(old(self).filters@, id, i) && f == old(self).filters@[i]
                    && final(self).filters@ == old(self).filters@.remove(i),
            removed is None ==> final(self).filters@ == old(self).filters@,
    {
        let mut i: usize = 0;
        while i < self.filters.len()
            invariant
                i <= self.filters@.len(),
                self.filters@ == old(self).filters@,
                forall|j: int| 0 <= j < i ==> self.filters@[j].id != id,
            decreases self.filters@.len() - i,
        {
            if self.filters[i].id == id {
                let removed = self.filters.remove(i);
                assert(is_first_filter_with_id(old(self).filters@, id, i as int));
                return Some(removed);
            }
            i += 1;
        }
        None
    }

    /// The enabled filters, in stack order.
    pub fn enabled_filters(&self) -> (enabled: Vec<&FilterNode>)
        ensures
            enabled@.len() == enabled_only(self.filters@).len(),
            forall|k: int| 0 <= k < enabled@.len() ==> *enabled@[k] == enabled_only(self.filters@)[k],
    {
        let mut enabled: Vec<&FilterNode> = Vec::new();
        let mut i: usize = 0;
        while i < self.filters.len()
            invariant
                i <= self.filters@.len(),
                enabled@.len() == enabled_only(self.filters@.take(i as int)).len(),
                forall|k: int| 0 <= k < enabled@.len() ==> *enabled@[k] == enabled_only(self.filters@.take(i as int))[k],
            decreases self.filters@.len() - i,
        {
            proof {
                assert(self.filters@.take(i + 1).drop_last() == self.filters@.take(i as int));
                reveal_with_fuel(Seq::filter, 1);
            }
            if self.filters[i].enabled {
                enabled.push(&self.filters[i]);
            }
            i += 1;
        }
        assert(self.filters@.take(self.filters@.len() as int) == self.filters@);
        enabled
    }
}

impl Default for FilterStack {
    fn default() -> (stack: Self)
        ensures
            stack.filters@.len() == 0,
    {
        Self::new()
    }
}

/// The source of filter identifiers: hands out consecutive numbers starting
/// at 1 and wraps around at the end of the `usize` range. The identifiers
/// are distinct among those one source hands out (until it wraps); two
/// sources hand out the same numbers, so a program that needs identifiers
/// distinct everywhere keeps a single source.
#[derive(Debug)]
pub struct FilterIdSource {
    next: usize,
}

impl FilterIdSource {
    pub closed spec fn upcoming(self) -> usize {
        self.next
    }

    pub fn new() -> (ids: Self)
        ensures
            ids.upcoming() == 1,
    {
        FilterIdSource { next: 1 }
    }
}

/// The next identifier of the source.
pub fn next_filter_id(ids: &mut FilterIdSource) -> (id: FilterId)
    ensures
        id == old(ids).upcoming(),
        final(ids).upcoming() == (if old(ids).upcoming() == usize::MAX { 0 } else { old(ids).upcoming() + 1 }),
{
    let id = ids.next;
    ids.next = ids.next.wrapping_add(1);
    id
}

/// IEEE-754 bit pattern of the `f32` value 1.0.
pub const FULL_OPACITY_BITS: u32 = 0x3F80_0000u32;

impl FilterNode {
    /// An enabled, fully opaque Gaussian blur.
    pub fn new_blur(ids: &mut FilterIdSource, radius_bits: u32) -> (node: Self)
        ensures
            node.id == old(ids).upcoming(),
            final(ids).upcoming() == (if old(ids).upcoming() == usize::MAX { 0 } else { old(ids).upcoming() + 1 }),
            node.name@ == "Blur"@,
            node.kind == FilterKind::Blur(BlurParams { radius_bits, kind: BlurKind::Gaussian }),
            node.enabled,
            node.opacity_bits == FULL_OPACITY_BITS,
    {
        FilterNode {
            id: next_filter_id(ids),
            name: String::from_str("Blur"),
            kind: FilterKind::Blur(BlurParams { radius_bits, kind: BlurKind::Gaussian }),
            enabled: true,
            opacity_bits: FULL_OPACITY_BITS,
        }
    }

    /// An enabled, fully opaque brightness/contrast adjustment.
    pub fn new_brightness_contrast(ids: &mut FilterIdSource, brightness_bits: u32, contrast_bits: u32) -> (node: Self)
        ensures
            node.id == old(ids).upcoming(),
            final(ids).upcoming() == (if old(ids).upcoming() == usize::MAX { 0 } else { old(ids).upcoming() + 1 }),
            node.name@ == "Brightness/Contrast"@,
            node.kind == FilterKind::BrightnessContrast(BrightnessContrastParams { brightness_bits, contrast_bits }),
            node.enabled,
            node.opacity_bits == FULL_OPACITY_BITS,
    {
        FilterNode {
            id: next_filter_id(ids),
            name: String::from_str("Brightness/Contrast"),
            kind: FilterKind::BrightnessContrast(BrightnessContrastParams { brightness_bits, contrast_bits }),
            enabled: true,
            opacity_bits: FULL_OPACITY_BITS,
        }
    }

    /// An enabled, fully opaque colour inversion.
    pub fn new_invert(ids: &mut FilterIdSource) -> (node: Self)
        ensures
            node.id == old(ids).upcoming(),
            final(ids).upcoming() == (if old(ids).upcoming() == usize::MAX { 0 } else { old(ids).upcoming() + 1 }),
            node.name@ == "Invert"@,
            node.kind == FilterKind::Invert,
            node.enabled,
            node.opacity_bits == FULL_OPACITY_BITS,
    {
        FilterNode {
            id: next_filter_id(ids),
            name: String::from_str("Invert"),
            kind: FilterKind::Invert,
            enabled: true,
            opacity_bits: FULL_OPACITY_BITS,
        }
    }

    /// An enabled, fully opaque grayscale conversion.
    pub fn new_grayscale(ids: &mut FilterIdSource) -> (node: Self)
        ensures
            node.id == old(ids).upcoming(),
            final(ids).upcoming() == (if old(ids).upcoming() == usize::MAX { 0 } else { old(ids).upcoming() + 1 }),
            node.name@ == "Grayscale"@,
            node.kind == FilterKind::Grayscale,
            node.enabled,
            node.opacity_bits == FULL_OPACITY_BITS,
    {
        FilterNode {
            id: next_filter_id(ids),
            name: String::from_str("Grayscale"),
            kind: FilterKind::Grayscale,
            enabled: true,
            opacity_bits: FULL_OPACITY_BITS,
        }
    }
}

} // verus!
