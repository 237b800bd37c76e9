//! The material that presents the cubemap on a skybox.

use vstd::prelude::*;
use crate::pipeline::AtmosphereImage;
use crate::settings::AtmosphereSettings;

verus! {

/// A definition that is handed to the shader preprocessor.
#[derive(Debug)]
pub enum ShaderDefVal {
    Bool(String, bool),
}

/// The fragment stage of a render pipeline, as far as the material shapes it.
#[derive(Debug)]
pub struct FragmentState {
    pub shader_defs: Vec<ShaderDefVal>,
}

/// A render pipeline, as far as the material shapes it.
#[derive(Debug)]
pub struct RenderPipelineDescriptor {
    pub fragment: Option<FragmentState>,
}

/// The material that renders skyboxes.
#[derive(Debug, Clone, Copy, PartialEq, Eq, Structural)]
pub struct SkyBoxMaterial {
    /// Handle of the image of the [`AtmosphereImage`].
    pub sky_texture: u64,
    /// Whether the shader dithers what it samples.
    pub dithering: bool,
}

/// What of a [`SkyBoxMaterial`] selects the variant of its pipeline.
#[derive(Debug, Clone, Copy, PartialEq, Eq, Structural, Hash)]
pub struct SkyBoxMaterialKey {
    pub dithering: bool,
}

impl<'a> From<&'a SkyBoxMaterial> for SkyBoxMaterialKey {
    fn from(material: &'a SkyBoxMaterial) -> (key: SkyBoxMaterialKey) {
        SkyBoxMaterialKey { dithering: material.dithering }
    }
}

impl<'a> vstd::std_specs::convert::FromSpecImpl<&'a SkyBoxMaterial> for SkyBoxMaterialKey {
    open spec fn obeys_from_spec() -> bool {
        true
    }

    open spec fn from_spec(material: &'a SkyBoxMaterial) -> SkyBoxMaterialKey {
        SkyBoxMaterialKey { dithering: material.dithering }
    }
}

/// Whether `definition` switches dithering on.
pub open spec fn is_dither_definition(definition: ShaderDefVal) -> bool {
    definition matches ShaderDefVal::Bool(name, value) && name@ == "DITHER"@ && value
}

/// The definitions of a fragment stage after [`SkyBoxMaterial::specialize`]:
/// those it had, followed by one more if the key asks for dithering.
pub open spec fn specialized_definitions(
    before: Seq<ShaderDefVal>,
    after: Seq<ShaderDefVal>,
    key: SkyBoxMaterialKey,
) -> bool {
    if key.dithering {
        &&& after.len() == before.len() + 1
        &&& after.take(before.len() as int) == before
        &&& is_dither_definition(after.last())
    } else {
        after == before
    }
}

impl SkyBoxMaterial {
    /// The material that samples `image`, dithered as `settings` say, or as
    /// the default settings say if there are none.
    pub fn new(image: &AtmosphereImage, settings: Option<AtmosphereSettings>) -> (material:
        SkyBoxMaterial)
        ensures
            material.sky_texture == image.handle,
            material.dithering == (match settings {
                Some(settings) => settings.dithering,
                None => AtmosphereSettings::spec_default().dithering,
            }),
    {
        let settings = match settings {
            Some(settings) => settings,
            None => AtmosphereSettings::default(),
        };
        SkyBoxMaterial { sky_texture: image.handle, dithering: settings.dithering }
    }

    /// Shapes the render pipeline for the variant that `key` selects.
    ///
    /// If the key asks for dithering and the pipeline has a fragment stage,
    /// the stage is given the definition `DITHER`, set to true, after those it
    /// has. Nothing else changes; a pipeline without fragment stage is left as
    /// it is.
    pub fn specialize(descriptor: &mut RenderPipelineDescriptor, key: SkyBoxMaterialKey)
        ensures
            final(descriptor).fragment is Some <==> old(descriptor).fragment is Some,
            final(descriptor).fragment is Some ==> specialized_definitions(
                old(descriptor).fragment.unwrap().shader_defs@,
                final(descriptor).fragment.unwrap().shader_defs@,
                key,
            ),
    {
        if key.dithering {
            match &mut descriptor.fragment {
                Some(fragment) => {
                    let name = "DITHER".to_owned();
                    fragment.shader_defs.push(ShaderDefVal::Bool(name, true));
                    assert(fragment.shader_defs@.take(
                        old(descriptor).fragment.unwrap().shader_defs@.len() as int,
                    ) == old(descriptor).fragment.unwrap().shader_defs@);
                },
                None => {},
            }
        }
    }
}

} // verus!
