//! Colour management of the document's pixels.

use vstd::prelude::*;

use crate::document::{default_color_config, ColorConfig, ColorConfigView};

verus! {

/// Converts pixels between colour profiles under a colour configuration.
pub struct ColorManager {
    pub config: ColorConfig,
}

impl ColorManager {
    /// A manager with the default configuration (sRGB, 8 bits, no profile).
    pub fn new() -> (manager: Self)
        ensures
            manager.config@ == default_color_config(),
    {
        ColorManager { config: ColorConfig::default() }
    }

    /// A manager with the given configuration.
    pub fn new_with_config(config: ColorConfig) -> (manager: Self)
        ensures
            manager.config@ == config@,
    {
        ColorManager { config }
    }

    /// Converts `data` from `src_profile` into the working space. No
    /// profile conversion is implemented: the pixels are left as they are.
    pub fn transform_pixels(&self, data: &mut [u8], src_profile: Option<&[u8]>)
        ensures
            final(data)@ == old(data)@,
    {
    }
}

impl Default for ColorManager {
    fn default() -> (manager: Self)
        ensures
            manager.config@ == default_color_config(),
    {
        ColorManager::new()
    }
}

} // verus!
