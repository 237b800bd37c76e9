//! The settings that control how the sky is rendered.

use vstd::prelude::*;

verus! {

/// Size of the compute workgroups in the x and y axis.
///
/// The complete workgroup size is (8, 8, 1), dispatched over six cube faces.
pub const WORKGROUP_SIZE: u32 = 8;

/// Resolution of a cubemap face when no settings are given.
pub const DEFAULT_RESOLUTION: u32 = 512;

/// Settings for how the sky is rendered.
#[derive(Debug, Clone, Copy, PartialEq, Eq, Structural)]
pub struct AtmosphereSettings {
    /// Resolution of a face of the skybox (default: `512`).
    ///
    /// It should be a multiple of 8; any other value leaves part of a
    /// workgroup hanging over the edge of a face.
    pub resolution: u32,
    /// Whether dithering is applied (default: `true`).
    ///
    /// Dithering prevents noticeable color banding in some models.
    pub dithering: bool,
}

impl AtmosphereSettings {
    /// The settings used whenever none are given.
    pub open spec fn spec_default() -> AtmosphereSettings {
        AtmosphereSettings { resolution: DEFAULT_RESOLUTION, dithering: true }
    }

    /// Whether the resolution is a whole number of workgroups.
    pub open spec fn spec_is_aligned(&self) -> bool {
        self.resolution as int % WORKGROUP_SIZE as int == 0
    }

    /// Tells whether the resolution is a multiple of the workgroup size.
    #[verifier::when_used_as_spec(spec_is_aligned)]
    pub fn is_aligned(&self) -> (aligned: bool)
        ensures
            aligned == self.spec_is_aligned(),
    {
        self.resolution % WORKGROUP_SIZE == 0
    }
}

impl Default for AtmosphereSettings {
    fn default() -> (settings: AtmosphereSettings)
        ensures
            settings == AtmosphereSettings::spec_default(),
    {
        AtmosphereSettings { resolution: DEFAULT_RESOLUTION, dithering: true }
    }
}

} // verus!
