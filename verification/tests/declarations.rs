use bevy_atmosphere::layout::{
    atmosphere_image_layout_entry, sampler_layout_entry, texture_layout_entry,
    uniform_layout_entry, BindGroupLayoutEntry, BindingLayoutType, get_sampler_attrs, get_sampler_binding_type_value, get_texture_attrs,
    get_texture_dimension_value, get_texture_sample_type_value, get_visibility_flag_value,
    AttributeError, BindingDeclarations, BindingError, BindingTextureDimension,
    BindingTextureSampleType, FieldBinding, Lit, Meta, SamplerAttrs, SamplerBindingType,
    ShaderPathError, ShaderPathType, ShaderStageVisibility, ShaderStages, TextureAttrs,
    VisibilityFlags, STAGE_COMPUTE, STAGE_FRAGMENT, STAGE_VERTEX,
};
use bevy_atmosphere::model::BindingType;
use bevy_atmosphere::pipeline::AtmosphereImage;
use bevy_atmosphere::render_resource::{TextureFormat, TextureViewDimension};
use bevy_atmosphere::settings::AtmosphereSettings;
use bevy_atmosphere::skybox::{
    FragmentState, RenderPipelineDescriptor, ShaderDefVal, SkyBoxMaterial, SkyBoxMaterialKey,
};

fn path(name: &str) -> Meta {
    Meta::Path(name.to_string())
}

fn string(name: &str, value: &str) -> Meta {
    Meta::NameValue(name.to_string(), Lit::Str(value.to_string()))
}

fn boolean(name: &str, value: bool) -> Meta {
    Meta::NameValue(name.to_string(), Lit::Bool(value))
}

fn visibility(names: &[&str]) -> Meta {
    Meta::List("visibility".to_string(), names.iter().map(|name| path(name)).collect())
}

fn flags(vertex: bool, fragment: bool, compute: bool) -> ShaderStageVisibility {
    ShaderStageVisibility::Flags(VisibilityFlags { vertex, fragment, compute })
}

#[test]
fn vertex_fragment_is_the_default_visibility_of_a_binding() {
    assert_eq!(
        VisibilityFlags::vertex_fragment(),
        VisibilityFlags { vertex: true, fragment: true, compute: false }
    );
    assert_eq!(ShaderStageVisibility::vertex_fragment(), flags(true, true, false));
    assert_eq!(ShaderStageVisibility::default(), ShaderStageVisibility::All);
}

#[test]
fn stages_are_the_bits_of_the_visible_stages() {
    assert_eq!((STAGE_VERTEX, STAGE_FRAGMENT, STAGE_COMPUTE), (1, 2, 4));
    assert_eq!(ShaderStageVisibility::All.stages(), ShaderStages(7));
    assert_eq!(ShaderStageVisibility::Hidden.stages(), ShaderStages(0));
    assert_eq!(ShaderStageVisibility::vertex_fragment().stages(), ShaderStages(3));
    assert_eq!(flags(false, false, true).stages(), ShaderStages(4));
    assert_eq!(flags(true, false, true).stages(), ShaderStages(5));
    assert_eq!(flags(false, true, false).stages(), ShaderStages(2));
    assert_eq!(flags(true, true, true).stages(), ShaderStages(7));
    assert_eq!(flags(false, false, false).stages(), ShaderStages(0));
    assert_eq!(VisibilityFlags::vertex_fragment().stages(), ShaderStages(3));
}

#[test]
fn visibility_reads_its_stages_in_order() {
    assert_eq!(get_visibility_flag_value(&vec![]), Ok(flags(true, true, false)));
    assert_eq!(get_visibility_flag_value(&vec![path("compute")]), Ok(flags(true, true, true)));
    assert_eq!(
        get_visibility_flag_value(&vec![path("vertex"), path("fragment")]),
        Ok(flags(true, true, false))
    );
    assert_eq!(get_visibility_flag_value(&vec![path("all")]), Ok(ShaderStageVisibility::All));
    assert_eq!(get_visibility_flag_value(&vec![path("none")]), Ok(ShaderStageVisibility::Hidden));
    assert_eq!(
        get_visibility_flag_value(&vec![path("compute"), path("none"), path("bogus")]),
        Ok(ShaderStageVisibility::Hidden)
    );
    assert_eq!(
        get_visibility_flag_value(&vec![path("compute"), path("all"), string("a", "b")]),
        Ok(ShaderStageVisibility::All)
    );
}

#[test]
fn visibility_refuses_what_is_not_a_stage() {
    assert_eq!(
        get_visibility_flag_value(&vec![path("vertex"), path("geometry")]),
        Err(AttributeError::InvalidVisibilityFlag)
    );
    assert_eq!(
        get_visibility_flag_value(&vec![path("Vertex")]),
        Err(AttributeError::InvalidVisibilityFlag)
    );
    assert_eq!(
        get_visibility_flag_value(&vec![string("vertex", "yes")]),
        Err(AttributeError::InvalidVisibilityFormat)
    );
    assert_eq!(
        get_visibility_flag_value(&vec![path("compute"), visibility(&["all"])]),
        Err(AttributeError::InvalidVisibilityFormat)
    );
    assert_eq!(
        get_visibility_flag_value(&vec![path("bogus"), string("a", "b")]),
        Err(AttributeError::InvalidVisibilityFlag)
    );
}

#[test]
fn dimension_values() {
    let read = |value: &str| get_texture_dimension_value(&value.to_string());
    assert_eq!(read("1d"), Ok(BindingTextureDimension::D1));
    assert_eq!(read("2d"), Ok(BindingTextureDimension::D2));
    assert_eq!(read("2d_array"), Ok(BindingTextureDimension::D2Array));
    assert_eq!(read("3d"), Ok(BindingTextureDimension::D3));
    assert_eq!(read("cube"), Ok(BindingTextureDimension::Cube));
    assert_eq!(read("cube_array"), Ok(BindingTextureDimension::CubeArray));
    assert_eq!(read("4d"), Err(AttributeError::InvalidDimension));
    assert_eq!(read(""), Err(AttributeError::InvalidDimension));
    assert_eq!(read("Cube"), Err(AttributeError::InvalidDimension));
}

#[test]
fn sample_type_values() {
    let read = |value: &str| get_texture_sample_type_value(&value.to_string());
    assert_eq!(read("float"), Ok(BindingTextureSampleType::Float { filterable: true }));
    assert_eq!(read("depth"), Ok(BindingTextureSampleType::Depth));
    assert_eq!(read("s_int"), Ok(BindingTextureSampleType::Sint));
    assert_eq!(read("u_int"), Ok(BindingTextureSampleType::Uint));
    assert_eq!(read("int"), Err(AttributeError::InvalidSampleType));
}

#[test]
fn sampler_type_values() {
    let read = |value: &str| get_sampler_binding_type_value(&value.to_string());
    assert_eq!(read("filtering"), Ok(SamplerBindingType::Filtering));
    assert_eq!(read("non_filtering"), Ok(SamplerBindingType::NonFiltering));
    assert_eq!(read("comparison"), Ok(SamplerBindingType::Comparison));
    assert_eq!(read("nearest"), Err(AttributeError::InvalidSamplerType));
}

#[test]
fn texture_without_options() {
    assert_eq!(
        get_texture_attrs(&vec![]),
        Ok(TextureAttrs {
            dimension: BindingTextureDimension::D2,
            sample_type: BindingTextureSampleType::Float { filterable: true },
            multisampled: false,
            visibility: flags(true, true, false),
        })
    );
}

#[test]
fn texture_with_every_option() {
    let metas = vec![
        string("dimension", "cube"),
        string("sample_type", "float"),
        boolean("multisampled", true),
        boolean("filterable", false),
        visibility(&["compute"]),
    ];
    assert_eq!(
        get_texture_attrs(&metas),
        Ok(TextureAttrs {
            dimension: BindingTextureDimension::Cube,
            sample_type: BindingTextureSampleType::Float { filterable: false },
            multisampled: true,
            visibility: flags(true, true, true),
        })
    );
}

#[test]
fn texture_options_override_earlier_ones() {
    let metas = vec![
        string("dimension", "cube"),
        visibility(&["none"]),
        string("dimension", "3d"),
        boolean("filterable", false),
        boolean("filterable", true),
        visibility(&["all"]),
        string("sample_type", "depth"),
        string("sample_type", "float"),
    ];
    assert_eq!(
        get_texture_attrs(&metas),
        Ok(TextureAttrs {
            dimension: BindingTextureDimension::D3,
            sample_type: BindingTextureSampleType::Float { filterable: true },
            multisampled: false,
            visibility: ShaderStageVisibility::All,
        })
    );
}

#[test]
fn texture_filterable_needs_float() {
    assert_eq!(
        get_texture_attrs(&vec![string("sample_type", "depth"), boolean("filterable", true)]),
        Err(AttributeError::FilterableWithoutFloat)
    );
    assert_eq!(
        get_texture_attrs(&vec![boolean("filterable", false), string("sample_type", "u_int")]),
        Err(AttributeError::FilterableWithoutFloat)
    );
    assert_eq!(
        get_texture_attrs(&vec![string("sample_type", "s_int")]).map(|attrs| attrs.sample_type),
        Ok(BindingTextureSampleType::Sint)
    );
}

#[test]
fn texture_refuses_bad_options() {
    assert_eq!(
        get_texture_attrs(&vec![string("dimension", "5d")]),
        Err(AttributeError::InvalidDimension)
    );
    assert_eq!(
        get_texture_attrs(&vec![string("sample_type", "double")]),
        Err(AttributeError::InvalidSampleType)
    );
    assert_eq!(
        get_texture_attrs(&vec![boolean("dimension", true)]),
        Err(AttributeError::ExpectedString)
    );
    assert_eq!(
        get_texture_attrs(&vec![Meta::NameValue("sample_type".to_string(), Lit::Int(3))]),
        Err(AttributeError::ExpectedString)
    );
    assert_eq!(
        get_texture_attrs(&vec![string("multisampled", "true")]),
        Err(AttributeError::ExpectedBool)
    );
    assert_eq!(
        get_texture_attrs(&vec![Meta::NameValue("multisampled".to_string(), Lit::Other)]),
        Err(AttributeError::ExpectedBool)
    );
    assert_eq!(
        get_texture_attrs(&vec![Meta::NameValue("dimension".to_string(), Lit::Other)]),
        Err(AttributeError::ExpectedString)
    );
    assert_eq!(
        get_texture_attrs(&vec![Meta::NameValue("filterable".to_string(), Lit::Int(1))]),
        Err(AttributeError::ExpectedBool)
    );
    assert_eq!(
        get_texture_attrs(&vec![string("sampler_type", "filtering")]),
        Err(AttributeError::InvalidTextureOption)
    );
    assert_eq!(get_texture_attrs(&vec![path("dimension")]), Err(AttributeError::NotNameValue));
    assert_eq!(
        get_texture_attrs(&vec![Meta::List("stages".to_string(), vec![])]),
        Err(AttributeError::NotNameValue)
    );
    assert_eq!(
        get_texture_attrs(&vec![visibility(&["pixel"])]),
        Err(AttributeError::InvalidVisibilityFlag)
    );
    // The first option that is refused decides.
    assert_eq!(
        get_texture_attrs(&vec![string("dimension", "5d"), path("oops")]),
        Err(AttributeError::InvalidDimension)
    );
    assert_eq!(
        get_texture_attrs(&vec![
            string("sample_type", "depth"),
            boolean("filterable", true),
            path("oops"),
        ]),
        Err(AttributeError::NotNameValue)
    );
}

#[test]
fn sampler_without_options() {
    assert_eq!(
        get_sampler_attrs(&vec![]),
        Ok(SamplerAttrs {
            sampler_binding_type: SamplerBindingType::Filtering,
            visibility: flags(true, true, false),
        })
    );
}

#[test]
fn sampler_with_options() {
    assert_eq!(
        get_sampler_attrs(&vec![string("sampler_type", "comparison"), visibility(&["none"])]),
        Ok(SamplerAttrs {
            sampler_binding_type: SamplerBindingType::Comparison,
            visibility: ShaderStageVisibility::Hidden,
        })
    );
    assert_eq!(
        get_sampler_attrs(&vec![
            string("sampler_type", "comparison"),
            string("sampler_type", "non_filtering"),
        ]),
        Ok(SamplerAttrs {
            sampler_binding_type: SamplerBindingType::NonFiltering,
            visibility: flags(true, true, false),
        })
    );
}

#[test]
fn sampler_refuses_bad_options() {
    assert_eq!(
        get_sampler_attrs(&vec![string("sampler_type", "linear")]),
        Err(AttributeError::InvalidSamplerType)
    );
    assert_eq!(
        get_sampler_attrs(&vec![boolean("sampler_type", true)]),
        Err(AttributeError::ExpectedString)
    );
    assert_eq!(
        get_sampler_attrs(&vec![string("dimension", "2d")]),
        Err(AttributeError::InvalidSamplerOption)
    );
    assert_eq!(get_sampler_attrs(&vec![path("filtering")]), Err(AttributeError::NotNameValue));
    assert_eq!(
        get_sampler_attrs(&vec![Meta::List("stages".to_string(), vec![])]),
        Err(AttributeError::NotNameValue)
    );
    assert_eq!(
        get_sampler_attrs(&vec![Meta::List("visibility".to_string(), vec![boolean("a", true)])]),
        Err(AttributeError::InvalidVisibilityFormat)
    );
}

fn field(binding: u32, binding_type: BindingType, field: usize) -> FieldBinding {
    FieldBinding { binding, binding_type, field }
}

#[test]
fn bindings_take_free_slots() {
    let mut declarations = BindingDeclarations::new(vec![]);
    assert!(declarations.field_bindings().is_empty());
    assert_eq!(declarations.declare_field(field(0, BindingType::Uniform, 0)), Ok(()));
    assert_eq!(declarations.declare_field(field(1, BindingType::Texture, 1)), Ok(()));
    assert_eq!(declarations.declare_field(field(2, BindingType::Sampler, 1)), Ok(()));
    assert_eq!(
        declarations.field_bindings(),
        &vec![
            field(0, BindingType::Uniform, 0),
            field(1, BindingType::Texture, 1),
            field(2, BindingType::Sampler, 1),
        ]
    );
}

#[test]
fn uniform_bindings_of_fields_merge() {
    let mut declarations = BindingDeclarations::new(vec![]);
    assert_eq!(declarations.declare_field(field(0, BindingType::Uniform, 0)), Ok(()));
    assert_eq!(declarations.declare_field(field(0, BindingType::Uniform, 1)), Ok(()));
    assert_eq!(declarations.declare_field(field(0, BindingType::Uniform, 2)), Ok(()));
    assert_eq!(declarations.field_bindings().len(), 3);
    assert_eq!(
        declarations.declare_field(field(0, BindingType::Texture, 3)),
        Err(BindingError::OccupiedByUniform)
    );
    assert_eq!(
        declarations.declare_field(field(0, BindingType::Sampler, 3)),
        Err(BindingError::OccupiedByUniform)
    );
    assert_eq!(declarations.field_bindings().len(), 3);
}

#[test]
fn taken_slots_refuse_other_bindings() {
    let mut declarations = BindingDeclarations::new(vec![]);
    assert_eq!(declarations.declare_field(field(1, BindingType::Texture, 4)), Ok(()));
    assert_eq!(
        declarations.declare_field(field(1, BindingType::Sampler, 5)),
        Err(BindingError::Occupied { field: 4, binding_type: BindingType::Texture })
    );
    assert_eq!(
        declarations.declare_field(field(1, BindingType::Uniform, 6)),
        Err(BindingError::Occupied { field: 4, binding_type: BindingType::Texture })
    );
    assert_eq!(
        declarations.declare_field(field(1, BindingType::Texture, 7)),
        Err(BindingError::Occupied { field: 4, binding_type: BindingType::Texture })
    );
    assert_eq!(declarations.field_bindings(), &vec![field(1, BindingType::Texture, 4)]);
}

#[test]
fn uniform_of_the_whole_model_keeps_its_slot() {
    let mut declarations = BindingDeclarations::new(vec![0, 3]);
    assert_eq!(
        declarations.declare_field(field(0, BindingType::Uniform, 0)),
        Err(BindingError::OccupiedByStructUniform)
    );
    assert_eq!(
        declarations.declare_field(field(3, BindingType::Texture, 1)),
        Err(BindingError::OccupiedByStructUniform)
    );
    assert_eq!(declarations.declare_field(field(1, BindingType::Texture, 1)), Ok(()));
    assert_eq!(declarations.declare_field(field(2, BindingType::Sampler, 1)), Ok(()));
    assert_eq!(declarations.field_bindings().len(), 2);
}

#[test]
fn a_model_has_one_shader() {
    let mut shader = ShaderPathType::Unset;
    assert_eq!(shader.declare("shaders/sky.wgsl".to_string(), true), Ok(()));
    assert!(matches!(&shader, ShaderPathType::Internal(path) if path == "shaders/sky.wgsl"));
    assert_eq!(shader.declare("other.wgsl".to_string(), false), Err(ShaderPathError::AlreadySet));
    assert_eq!(shader.declare("other.wgsl".to_string(), true), Err(ShaderPathError::AlreadySet));
    assert!(matches!(&shader, ShaderPathType::Internal(path) if path == "shaders/sky.wgsl"));

    let mut shader = ShaderPathType::Unset;
    assert_eq!(shader.declare("sky.wgsl".to_string(), false), Ok(()));
    assert!(matches!(&shader, ShaderPathType::External(path) if path == "sky.wgsl"));
    assert_eq!(shader.declare("sky.wgsl".to_string(), false), Err(ShaderPathError::AlreadySet));
}

#[test]
fn material_samples_the_image_and_dithers_as_set() {
    let image = AtmosphereImage { handle: 17, array_view: None };
    assert_eq!(
        SkyBoxMaterial::new(&image, None),
        SkyBoxMaterial { sky_texture: 17, dithering: true }
    );
    assert_eq!(
        SkyBoxMaterial::new(&image, Some(AtmosphereSettings { resolution: 8, dithering: false })),
        SkyBoxMaterial { sky_texture: 17, dithering: false }
    );
    assert_eq!(
        SkyBoxMaterial::new(&image, Some(AtmosphereSettings { resolution: 8, dithering: true })),
        SkyBoxMaterial { sky_texture: 17, dithering: true }
    );
}

#[test]
fn material_key_holds_the_dithering() {
    let dithered = SkyBoxMaterial { sky_texture: 1, dithering: true };
    let plain = SkyBoxMaterial { sky_texture: 1, dithering: false };
    assert_eq!(SkyBoxMaterialKey::from(&dithered), SkyBoxMaterialKey { dithering: true });
    assert_eq!(SkyBoxMaterialKey::from(&plain), SkyBoxMaterialKey { dithering: false });
}

#[test]
fn material_defines_dither_for_the_fragment_stage() {
    let mut descriptor = RenderPipelineDescriptor {
        fragment: Some(FragmentState {
            shader_defs: vec![ShaderDefVal::Bool("FOG".to_string(), false)],
        }),
    };
    SkyBoxMaterial::specialize(&mut descriptor, SkyBoxMaterialKey { dithering: true });
    let definitions = &descriptor.fragment.as_ref().unwrap().shader_defs;
    assert_eq!(definitions.len(), 2);
    assert!(matches!(&definitions[0], ShaderDefVal::Bool(name, false) if name == "FOG"));
    assert!(matches!(&definitions[1], ShaderDefVal::Bool(name, true) if name == "DITHER"));
}

#[test]
fn material_without_dithering_defines_nothing() {
    let mut descriptor = RenderPipelineDescriptor {
        fragment: Some(FragmentState { shader_defs: vec![] }),
    };
    SkyBoxMaterial::specialize(&mut descriptor, SkyBoxMaterialKey { dithering: false });
    assert!(descriptor.fragment.unwrap().shader_defs.is_empty());

    let mut descriptor = RenderPipelineDescriptor { fragment: None };
    SkyBoxMaterial::specialize(&mut descriptor, SkyBoxMaterialKey { dithering: true });
    assert!(descriptor.fragment.is_none());
}

#[test]
fn layout_entries_follow_the_declarations() {
    assert_eq!(
        uniform_layout_entry(0, 80),
        BindGroupLayoutEntry {
            binding: 0,
            visibility: ShaderStages(7),
            ty: BindingLayoutType::Buffer { min_binding_size: 80 },
        }
    );
    let texture = get_texture_attrs(&vec![string("dimension", "cube"), visibility(&["compute"])])
        .unwrap();
    assert_eq!(
        texture_layout_entry(3, texture),
        BindGroupLayoutEntry {
            binding: 3,
            visibility: ShaderStages(7),
            ty: BindingLayoutType::Texture {
                multisampled: false,
                sample_type: BindingTextureSampleType::Float { filterable: true },
                view_dimension: BindingTextureDimension::Cube,
            },
        }
    );
    let sampler = get_sampler_attrs(&vec![string("sampler_type", "comparison")]).unwrap();
    assert_eq!(
        sampler_layout_entry(4, sampler),
        BindGroupLayoutEntry {
            binding: 4,
            visibility: ShaderStages(3),
            ty: BindingLayoutType::Sampler(SamplerBindingType::Comparison),
        }
    );
    let hidden = get_sampler_attrs(&vec![visibility(&["none"])]).unwrap();
    assert_eq!(sampler_layout_entry(5, hidden).visibility, ShaderStages(0));
}

#[test]
fn cubemap_is_bound_for_writing_by_the_compute_stage() {
    assert_eq!(
        atmosphere_image_layout_entry(),
        BindGroupLayoutEntry {
            binding: 0,
            visibility: ShaderStages(4),
            ty: BindingLayoutType::StorageTexture {
                format: TextureFormat::Rgba16Float,
                view_dimension: TextureViewDimension::D2Array,
            },
        }
    );
}
