//! The vocabulary in which a model declares its bindings.
//!
//! A model type declares each binding with an attribute: a slot, and options
//! such as the dimension of a texture or the shader stages that see it. This
//! module reads such declarations, given as plain values, and decides what
//! they mean or why they are refused.

use vstd::prelude::*;
use crate::model::BindingType;
use crate::render_resource::{TextureFormat, TextureViewDimension};

verus! {

/// The shader stages that a binding is visible to, as a set of bits.
#[derive(Debug, Clone, Copy, PartialEq, Eq, Structural)]
pub struct ShaderStages(pub u32);

/// Bit of the vertex stage.
pub const STAGE_VERTEX: u32 = 1;

/// Bit of the fragment stage.
pub const STAGE_FRAGMENT: u32 = 2;

/// Bit of the compute stage.
pub const STAGE_COMPUTE: u32 = 4;

/// The stages that a binding lists one by one.
#[derive(Debug, Clone, Copy, PartialEq, Eq, Structural)]
pub struct VisibilityFlags {
    pub vertex: bool,
    pub fragment: bool,
    pub compute: bool,
}

impl VisibilityFlags {
    /// Visible to the vertex and the fragment stage.
    pub open spec fn spec_vertex_fragment() -> VisibilityFlags {
        VisibilityFlags { vertex: true, fragment: true, compute: false }
    }

    /// Visible to the vertex and the fragment stage, and not to the compute
    /// stage.
    #[verifier::when_used_as_spec(spec_vertex_fragment)]
    pub fn vertex_fragment() -> (flags: VisibilityFlags)
        ensures
            flags == VisibilityFlags::spec_vertex_fragment(),
    {
        VisibilityFlags { vertex: true, fragment: true, compute: false }
    }

    /// The bits of the listed stages.
    pub open spec fn spec_stages(&self) -> ShaderStages {
        ShaderStages(
            ((if self.vertex {
                STAGE_VERTEX as int
            } else {
                0
            }) + (if self.fragment {
                STAGE_FRAGMENT as int
            } else {
                0
            }) + (if self.compute {
                STAGE_COMPUTE as int
            } else {
                0
            })) as u32,
        )
    }

    /// The bits of the listed stages.
    #[verifier::when_used_as_spec(spec_stages)]
    pub fn stages(&self) -> (stages: ShaderStages)
        ensures
            stages == self.spec_stages(),
    {
        let mut bits: u32 = 0;
        if self.vertex {
            bits = bits + STAGE_VERTEX;
        }
        if self.fragment {
            bits = bits + STAGE_FRAGMENT;
        }
        if self.compute {
            bits = bits + STAGE_COMPUTE;
        }
        ShaderStages(bits)
    }
}

/// The shader stages that a binding is visible to, as declared.
#[derive(Debug, Clone, Copy, PartialEq, Eq, Structural)]
pub enum ShaderStageVisibility {
    /// Every stage.
    All,
    /// No stage.
    Hidden,
    /// The listed stages.
    Flags(VisibilityFlags),
}

impl ShaderStageVisibility {
    /// Visible to the vertex and the fragment stage.
    pub open spec fn spec_vertex_fragment() -> ShaderStageVisibility {
        ShaderStageVisibility::Flags(VisibilityFlags::spec_vertex_fragment())
    }

    /// Visible to the vertex and the fragment stage: what a binding gets that
    /// declares no visibility.
    #[verifier::when_used_as_spec(spec_vertex_fragment)]
    pub fn vertex_fragment() -> (visibility: ShaderStageVisibility)
        ensures
            visibility == ShaderStageVisibility::spec_vertex_fragment(),
    {
        ShaderStageVisibility::Flags(VisibilityFlags::vertex_fragment())
    }

    /// The bits of the stages that the binding is visible to.
    pub open spec fn spec_stages(&self) -> ShaderStages {
        match self {
            ShaderStageVisibility::All => ShaderStages(7),
            ShaderStageVisibility::Hidden => ShaderStages(0),
            ShaderStageVisibility::Flags(flags) => flags.spec_stages(),
        }
    }

    /// The bits of the stages that the binding is visible to: all three for
    /// every stage, none for no stage, else those of the listed stages.
    #[verifier::when_used_as_spec(spec_stages)]
    pub fn stages(&self) -> (stages: ShaderStages)
        ensures
            stages == self.spec_stages(),
    {
        match self {
            ShaderStageVisibility::All => ShaderStages(
                STAGE_VERTEX + STAGE_FRAGMENT + STAGE_COMPUTE,
            ),
            ShaderStageVisibility::Hidden => ShaderStages(0),
            ShaderStageVisibility::Flags(flags) => flags.stages(),
        }
    }
}

impl Default for ShaderStageVisibility {
    fn default() -> (visibility: ShaderStageVisibility)
        ensures
            visibility is All,
    {
        ShaderStageVisibility::All
    }
}

/// The value that an attribute gives a name.
#[derive(Debug)]
pub enum Lit {
    Str(String),
    Bool(bool),
    Int(u64),
    /// Anything but a string, a boolean or an integer.
    Other,
}

/// An item of an attribute: a bare name, a name with a value, or a name with
/// a list of items.
#[derive(Debug)]
pub enum Meta {
    /// `name`
    Path(String),
    /// `name = value`
    NameValue(String, Lit),
    /// `name(item, ...)`
    List(String, Vec<Meta>),
}

/// Why a declaration is refused.
#[derive(Debug, Clone, Copy, PartialEq, Eq, Structural)]
pub enum AttributeError {
    /// A visibility names something other than `all`, `none`, `vertex`,
    /// `fragment` or `compute`.
    InvalidVisibilityFlag,
    /// A visibility holds an item that is not a bare name.
    InvalidVisibilityFormat,
    /// A dimension is none of `1d`, `2d`, `2d_array`, `3d`, `cube` and
    /// `cube_array`.
    InvalidDimension,
    /// A sample type is none of `float`, `depth`, `s_int` and `u_int`.
    InvalidSampleType,
    /// A sampler type is none of `filtering`, `non_filtering` and
    /// `comparison`.
    InvalidSamplerType,
    /// A texture option other than `dimension`, `sample_type`, `multisampled`
    /// and `filterable` is given a value.
    InvalidTextureOption,
    /// A sampler option other than `sampler_type` is given a value.
    InvalidSamplerOption,
    /// An option is neither a name with a value nor a visibility.
    NotNameValue,
    /// An option that takes a string is given another literal.
    ExpectedString,
    /// An option that takes `true` or `false` is given another literal.
    ExpectedBool,
    /// `filterable` is given for a sample type other than `float`.
    FilterableWithoutFloat,
}

fn is_str(name: &String, literal: &str) -> (same: bool)
    ensures
        same == (name@ == literal@),
{
    let owned = literal.to_owned();
    *name == owned
}

/// The visibility that the items `metas[i..]` declare, where the stages
/// listed so far are `flags`.
pub open spec fn visibility_from(metas: Seq<Meta>, i: int, flags: VisibilityFlags) -> Result<
    ShaderStageVisibility,
    AttributeError,
>
    decreases metas.len() - i,
{
    if i < 0 || i >= metas.len() {
        Ok(ShaderStageVisibility::Flags(flags))
    } else {
        match metas[i] {
            Meta::Path(name) => if name@ == "all"@ {
                Ok(ShaderStageVisibility::All)
            } else if name@ == "none"@ {
                Ok(ShaderStageVisibility::Hidden)
            } else if name@ == "vertex"@ {
                visibility_from(metas, i + 1, VisibilityFlags { vertex: true, ..flags })
            } else if name@ == "fragment"@ {
                visibility_from(metas, i + 1, VisibilityFlags { fragment: true, ..flags })
            } else if name@ == "compute"@ {
                visibility_from(metas, i + 1, VisibilityFlags { compute: true, ..flags })
            } else {
                Err(AttributeError::InvalidVisibilityFlag)
            },
            _ => Err(AttributeError::InvalidVisibilityFormat),
        }
    }
}

/// The visibility that the items of a `visibility(...)` declare.
pub open spec fn visibility_flag_value(metas: Seq<Meta>) -> Result<
    ShaderStageVisibility,
    AttributeError,
> {
    visibility_from(metas, 0, VisibilityFlags::spec_vertex_fragment())
}

/// Reads the items of a `visibility(...)`.
///
/// The items are read in order, starting from the vertex and the fragment
/// stage. `all` and `none` end the reading with every stage or no stage.
/// `vertex`, `fragment` and `compute` add their stage. Any other name, and
/// any item that is not a bare name, is refused.
pub fn get_visibility_flag_value(metas: &Vec<Meta>) -> (result: Result<
    ShaderStageVisibility,
    AttributeError,
>)
    ensures
        result == visibility_flag_value(metas@),
{
    let mut visibility = VisibilityFlags::vertex_fragment();
    let mut i: usize = 0;
    while i < metas.len()
        invariant
            i <= metas.len(),
            visibility_flag_value(metas@) == visibility_from(metas@, i as int, visibility),
        decreases metas.len() - i,
    {
        match &metas[i] {
            Meta::Path(name) => {
                if is_str(name, "all") {
                    return Ok(ShaderStageVisibility::All);
                } else if is_str(name, "none") {
                    return Ok(ShaderStageVisibility::Hidden);
                } else if is_str(name, "vertex") {
                    visibility.vertex = true;
                } else if is_str(name, "fragment") {
                    visibility.fragment = true;
                } else if is_str(name, "compute") {
                    visibility.compute = true;
                } else {
                    return Err(AttributeError::InvalidVisibilityFlag);
                }
            },
            _ => {
                return Err(AttributeError::InvalidVisibilityFormat);
            },
        }
        i += 1;
    }
    Ok(ShaderStageVisibility::Flags(visibility))
}

/// Dimension of the view that a texture binding expects.
#[derive(Debug, Clone, Copy, PartialEq, Eq, Structural)]
pub enum BindingTextureDimension {
    D1,
    D2,
    D2Array,
    Cube,
    CubeArray,
    D3,
}

/// What sampling a texture binding yields.
#[derive(Debug, Clone, Copy, PartialEq, Eq, Structural)]
pub enum BindingTextureSampleType {
    Float { filterable: bool },
    Depth,
    Sint,
    Uint,
}

/// Kind of sampler that a sampler binding expects.
#[derive(Debug, Clone, Copy, PartialEq, Eq, Structural)]
pub enum SamplerBindingType {
    Filtering,
    NonFiltering,
    Comparison,
}

/// The dimension that `value` names.
pub open spec fn texture_dimension_value(value: Seq<char>) -> Result<
    BindingTextureDimension,
    AttributeError,
> {
    if value == "1d"@ {
        Ok(BindingTextureDimension::D1)
    } else if value == "2d"@ {
        Ok(BindingTextureDimension::D2)
    } else if value == "2d_array"@ {
        Ok(BindingTextureDimension::D2Array)
    } else if value == "3d"@ {
        Ok(BindingTextureDimension::D3)
    } else if value == "cube"@ {
        Ok(BindingTextureDimension::Cube)
    } else if value == "cube_array"@ {
        Ok(BindingTextureDimension::CubeArray)
    } else {
        Err(AttributeError::InvalidDimension)
    }
}

/// Reads the value of a `dimension`: one of `1d`, `2d`, `2d_array`, `3d`,
/// `cube` and `cube_array`.
pub fn get_texture_dimension_value(value: &String) -> (result: Result<
    BindingTextureDimension,
    AttributeError,
>)
    ensures
        result == texture_dimension_value(value@),
{
    if is_str(value, "1d") {
        Ok(BindingTextureDimension::D1)
    } else if is_str(value, "2d") {
        Ok(BindingTextureDimension::D2)
    } else if is_str(value, "2d_array") {
        Ok(BindingTextureDimension::D2Array)
    } else if is_str(value, "3d") {
        Ok(BindingTextureDimension::D3)
    } else if is_str(value, "cube") {
        Ok(BindingTextureDimension::Cube)
    } else if is_str(value, "cube_array") {
        Ok(BindingTextureDimension::CubeArray)
    } else {
        Err(AttributeError::InvalidDimension)
    }
}

/// The sample type that `value` names.
pub open spec fn texture_sample_type_value(value: Seq<char>) -> Result<
    BindingTextureSampleType,
    AttributeError,
> {
    if value == "float"@ {
        Ok(BindingTextureSampleType::Float { filterable: true })
    } else if value == "depth"@ {
        Ok(BindingTextureSampleType::Depth)
    } else if value == "s_int"@ {
        Ok(BindingTextureSampleType::Sint)
    } else if value == "u_int"@ {
        Ok(BindingTextureSampleType::Uint)
    } else {
        Err(AttributeError::InvalidSampleType)
    }
}

/// Reads the value of a `sample_type`: one of `float`, which is filterable
/// unless declared otherwise, `depth`, `s_int` and `u_int`.
pub fn get_texture_sample_type_value(value: &String) -> (result: Result<
    BindingTextureSampleType,
    AttributeError,
>)
    ensures
        result == texture_sample_type_value(value@),
{
    if is_str(value, "float") {
        Ok(BindingTextureSampleType::Float { filterable: true })
    } else if is_str(value, "depth") {
        Ok(BindingTextureSampleType::Depth)
    } else if is_str(value, "s_int") {
        Ok(BindingTextureSampleType::Sint)
    } else if is_str(value, "u_int") {
        Ok(BindingTextureSampleType::Uint)
    } else {
        Err(AttributeError::InvalidSampleType)
    }
}

/// The sampler type that `value` names.
pub open spec fn sampler_binding_type_value(value: Seq<char>) -> Result<
    SamplerBindingType,
    AttributeError,
> {
    if value == "filtering"@ {
        Ok(SamplerBindingType::Filtering)
    } else if value == "non_filtering"@ {
        Ok(SamplerBindingType::NonFiltering)
    } else if value == "comparison"@ {
        Ok(SamplerBindingType::Comparison)
    } else {
        Err(AttributeError::InvalidSamplerType)
    }
}

/// Reads the value of a `sampler_type`: one of `filtering`, `non_filtering`
/// and `comparison`.
pub fn get_sampler_binding_type_value(value: &String) -> (result: Result<
    SamplerBindingType,
    AttributeError,
>)
    ensures
        result == sampler_binding_type_value(value@),
{
    if is_str(value, "filtering") {
        Ok(SamplerBindingType::Filtering)
    } else if is_str(value, "non_filtering") {
        Ok(SamplerBindingType::NonFiltering)
    } else if is_str(value, "comparison") {
        Ok(SamplerBindingType::Comparison)
    } else {
        Err(AttributeError::InvalidSamplerType)
    }
}

/// What a texture binding declares.
#[derive(Debug, Clone, Copy, PartialEq, Eq, Structural)]
pub struct TextureAttrs {
    pub dimension: BindingTextureDimension,
    pub sample_type: BindingTextureSampleType,
    pub multisampled: bool,
    pub visibility: ShaderStageVisibility,
}

/// What a texture binding has declared so far, while its options are read.
#[derive(Debug, Clone, Copy, PartialEq, Eq, Structural)]
pub struct TextureOptions {
    pub attrs: TextureAttrs,
    /// The value of `filterable`, once it was given.
    pub filterable: Option<bool>,
}

impl TextureOptions {
    /// What a texture binding declares that gives no options: a 2d view of
    /// filterable floats, one sample per texel, visible to the vertex and the
    /// fragment stage.
    pub open spec fn initial() -> TextureOptions {
        TextureOptions {
            attrs: TextureAttrs {
                dimension: BindingTextureDimension::D2,
                sample_type: BindingTextureSampleType::Float { filterable: true },
                multisampled: false,
                visibility: ShaderStageVisibility::spec_vertex_fragment(),
            },
            filterable: None,
        }
    }

    /// The options after `meta` was read.
    pub open spec fn read(self, meta: Meta) -> Result<TextureOptions, AttributeError> {
        match meta {
            Meta::NameValue(name, value) => if name@ == "dimension"@ {
                match value {
                    Lit::Str(value) => match texture_dimension_value(value@) {
                        Ok(dimension) => Ok(
                            TextureOptions {
                                attrs: TextureAttrs { dimension, ..self.attrs },
                                ..self
                            },
                        ),
                        Err(error) => Err(error),
                    },
                    _ => Err(AttributeError::ExpectedString),
                }
            } else if name@ == "sample_type"@ {
                match value {
                    Lit::Str(value) => match texture_sample_type_value(value@) {
                        Ok(sample_type) => Ok(
                            TextureOptions {
                                attrs: TextureAttrs { sample_type, ..self.attrs },
                                ..self
                            },
                        ),
                        Err(error) => Err(error),
                    },
                    _ => Err(AttributeError::ExpectedString),
                }
            } else if name@ == "multisampled"@ {
                match value {
                    Lit::Bool(multisampled) => Ok(
                        TextureOptions {
                            attrs: TextureAttrs { multisampled, ..self.attrs },
                            ..self
                        },
                    ),
                    _ => Err(AttributeError::ExpectedBool),
                }
            } else if name@ == "filterable"@ {
                match value {
                    Lit::Bool(filterable) => Ok(
                        TextureOptions { filterable: Some(filterable), ..self },
                    ),
                    _ => Err(AttributeError::ExpectedBool),
                }
            } else {
                Err(AttributeError::InvalidTextureOption)
            },
            Meta::List(name, items) => if name@ == "visibility"@ {
                match visibility_flag_value(items@) {
                    Ok(visibility) => Ok(
                        TextureOptions {
                            attrs: TextureAttrs { visibility, ..self.attrs },
                            ..self
                        },
                    ),
                    Err(error) => Err(error),
                }
            } else {
                Err(AttributeError::NotNameValue)
            },
            Meta::Path(_) => Err(AttributeError::NotNameValue),
        }
    }

    /// What the binding declares once all options were read: `filterable`, if
    /// it was given, goes into the sample type, which must then be `float`.
    pub open spec fn finish(self) -> Result<TextureAttrs, AttributeError> {
        match self.filterable {
            Some(filterable) => match self.attrs.sample_type {
                BindingTextureSampleType::Float { .. } => Ok(
                    TextureAttrs {
                        sample_type: BindingTextureSampleType::Float { filterable },
                        ..self.attrs
                    },
                ),
                _ => Err(AttributeError::FilterableWithoutFloat),
            },
            None => Ok(self.attrs),
        }
    }
}

/// What the options `metas[i..]` of a texture binding declare, where the
/// options read so far gave `options`.
pub open spec fn texture_attrs_from(metas: Seq<Meta>, i: int, options: TextureOptions) -> Result<
    TextureAttrs,
    AttributeError,
>
    decreases metas.len() - i,
{
    if i < 0 || i >= metas.len() {
        options.finish()
    } else {
        match options.read(metas[i]) {
            Ok(options) => texture_attrs_from(metas, i + 1, options),
            Err(error) => Err(error),
        }
    }
}

/// What the options of a texture binding declare.
pub open spec fn texture_attrs(metas: Seq<Meta>) -> Result<TextureAttrs, AttributeError> {
    texture_attrs_from(metas, 0, TextureOptions::initial())
}

fn get_lit_str(value: &Lit) -> (result: Result<&String, AttributeError>)
    ensures
        match value {
            Lit::Str(text) => result == Ok::<&String, AttributeError>(text),
            _ => result == Err::<&String, AttributeError>(AttributeError::ExpectedString),
        },
{
    match value {
        Lit::Str(text) => Ok(text),
        _ => Err(AttributeError::ExpectedString),
    }
}

fn get_lit_bool(value: &Lit) -> (result: Result<bool, AttributeError>)
    ensures
        match value {
            Lit::Bool(flag) => result == Ok::<bool, AttributeError>(*flag),
            _ => result == Err::<bool, AttributeError>(AttributeError::ExpectedBool),
        },
{
    match value {
        Lit::Bool(flag) => Ok(*flag),
        _ => Err(AttributeError::ExpectedBool),
    }
}

/// Reads the options of a texture binding.
///
/// The options are read in order, and the first one that is refused ends the
/// reading with its error. `dimension` and `sample_type` take a string,
/// `multisampled` and `filterable` take `true` or `false`, and `visibility`
/// takes a list of stages. A later option overrides an earlier one of the
/// same name. At the end `filterable` is applied to the sample type, which
/// must be `float` for it.
pub fn get_texture_attrs(metas: &Vec<Meta>) -> (result: Result<TextureAttrs, AttributeError>)
    ensures
        result == texture_attrs(metas@),
{
    let mut options = TextureOptions {
        attrs: TextureAttrs {
            dimension: BindingTextureDimension::D2,
            sample_type: BindingTextureSampleType::Float { filterable: true },
            multisampled: false,
            visibility: ShaderStageVisibility::vertex_fragment(),
        },
        filterable: None,
    };
    let mut i: usize = 0;
    while i < metas.len()
        invariant
            i <= metas.len(),
            texture_attrs(metas@) == texture_attrs_from(metas@, i as int, options),
        decreases metas.len() - i,
    {
        match &metas[i] {
            Meta::NameValue(name, value) => {
                if is_str(name, "dimension") {
                    match get_lit_str(value) {
                        Ok(text) => match get_texture_dimension_value(text) {
                            Ok(dimension) => {
                                options.attrs.dimension = dimension;
                            },
                            Err(error) => {
                                return Err(error);
                            },
                        },
                        Err(error) => {
                            return Err(error);
                        },
                    }
                } else if is_str(name, "sample_type") {
                    match get_lit_str(value) {
                        Ok(text) => match get_texture_sample_type_value(text) {
                            Ok(sample_type) => {
                                options.attrs.sample_type = sample_type;
                            },
                            Err(error) => {
                                return Err(error);
                            },
                        },
                        Err(error) => {
                            return Err(error);
                        },
                    }
                } else if is_str(name, "multisampled") {
                    match get_lit_bool(value) {
                        Ok(multisampled) => {
                            options.attrs.multisampled = multisampled;
                        },
                        Err(error) => {
                            return Err(error);
                        },
                    }
                } else if is_str(name, "filterable") {
                    match get_lit_bool(value) {
                        Ok(filterable) => {
                            options.filterable = Some(filterable);
                        },
                        Err(error) => {
                            return Err(error);
                        },
                    }
                } else {
                    return Err(AttributeError::InvalidTextureOption);
                }
            },
            Meta::List(name, items) => {
                if is_str(name, "visibility") {
                    match get_visibility_flag_value(items) {
                        Ok(visibility) => {
                            options.attrs.visibility = visibility;
                        },
                        Err(error) => {
                            return Err(error);
                        },
                    }
                } else {
                    return Err(AttributeError::NotNameValue);
                }
            },
            Meta::Path(_) => {
                return Err(AttributeError::NotNameValue);
            },
        }
        i += 1;
    }
    match options.filterable {
        Some(filterable) => match options.attrs.sample_type {
            BindingTextureSampleType::Float { .. } => Ok(
                TextureAttrs {
                    dimension: options.attrs.dimension,
                    sample_type: BindingTextureSampleType::Float { filterable },
                    multisampled: options.attrs.multisampled,
                    visibility: options.attrs.visibility,
                },
            ),
            _ => Err(AttributeError::FilterableWithoutFloat),
        },
        None => Ok(options.attrs),
    }
}

/// What a sampler binding declares.
#[derive(Debug, Clone, Copy, PartialEq, Eq, Structural)]
pub struct SamplerAttrs {
    pub sampler_binding_type: SamplerBindingType,
    pub visibility: ShaderStageVisibility,
}

impl SamplerAttrs {
    /// What a sampler binding declares that gives no options: a filtering
    /// sampler, visible to the vertex and the fragment stage.
    pub open spec fn initial() -> SamplerAttrs {
        SamplerAttrs {
            sampler_binding_type: SamplerBindingType::Filtering,
            visibility: ShaderStageVisibility::spec_vertex_fragment(),
        }
    }

    /// The declaration after `meta` was read.
    pub open spec fn read(self, meta: Meta) -> Result<SamplerAttrs, AttributeError> {
        match meta {
            Meta::NameValue(name, value) => if name@ == "sampler_type"@ {
                match value {
                    Lit::Str(value) => match sampler_binding_type_value(value@) {
                        Ok(sampler_binding_type) => Ok(
                            SamplerAttrs { sampler_binding_type, ..self },
                        ),
                        Err(error) => Err(error),
                    },
                    _ => Err(AttributeError::ExpectedString),
                }
            } else {
                Err(AttributeError::InvalidSamplerOption)
            },
            Meta::List(name, items) => if name@ == "visibility"@ {
                match visibility_flag_value(items@) {
                    Ok(visibility) => Ok(SamplerAttrs { visibility, ..self }),
                    Err(error) => Err(error),
                }
            } else {
                Err(AttributeError::NotNameValue)
            },
            Meta::Path(_) => Err(AttributeError::NotNameValue),
        }
    }
}

/// What the options `metas[i..]` of a sampler binding declare, where the
/// options read so far gave `attrs`.
pub open spec fn sampler_attrs_from(metas: Seq<Meta>, i: int, attrs: SamplerAttrs) -> Result<
    SamplerAttrs,
    AttributeError,
>
    decreases metas.len() - i,
{
    if i < 0 || i >= metas.len() {
        Ok(attrs)
    } else {
        match attrs.read(metas[i]) {
            Ok(attrs) => sampler_attrs_from(metas, i + 1, attrs),
            Err(error) => Err(error),
        }
    }
}

/// What the options of a sampler binding declare.
pub open spec fn sampler_attrs(metas: Seq<Meta>) -> Result<SamplerAttrs, AttributeError> {
    sampler_attrs_from(metas, 0, SamplerAttrs::initial())
}

/// Reads the options of a sampler binding.
///
/// The options are read in order, and the first one that is refused ends the
/// reading with its error. `sampler_type` takes a string and `visibility` a
/// list of stages. A later option overrides an earlier one of the same name.
pub fn get_sampler_attrs(metas: &Vec<Meta>) -> (result: Result<SamplerAttrs, AttributeError>)
    ensures
        result == sampler_attrs(metas@),
{
    let mut attrs = SamplerAttrs {
        sampler_binding_type: SamplerBindingType::Filtering,
        visibility: ShaderStageVisibility::vertex_fragment(),
    };
    let mut i: usize = 0;
    while i < metas.len()
        invariant
            i <= metas.len(),
            sampler_attrs(metas@) == sampler_attrs_from(metas@, i as int, attrs),
        decreases metas.len() - i,
    {
        match &metas[i] {
            Meta::NameValue(name, value) => {
                if is_str(name, "sampler_type") {
                    match get_lit_str(value) {
                        Ok(text) => match get_sampler_binding_type_value(text) {
                            Ok(sampler_binding_type) => {
                                attrs.sampler_binding_type = sampler_binding_type;
                            },
                            Err(error) => {
                                return Err(error);
                            },
                        },
                        Err(error) => {
                            return Err(error);
                        },
                    }
                } else {
                    return Err(AttributeError::InvalidSamplerOption);
                }
            },
            Meta::List(name, items) => {
                if is_str(name, "visibility") {
                    match get_visibility_flag_value(items) {
                        Ok(visibility) => {
                            attrs.visibility = visibility;
                        },
                        Err(error) => {
                            return Err(error);
                        },
                    }
                } else {
                    return Err(AttributeError::NotNameValue);
                }
            },
            Meta::Path(_) => {
                return Err(AttributeError::NotNameValue);
            },
        }
        i += 1;
    }
    Ok(attrs)
}

/// Where the shader of a model type comes from.
#[derive(Debug)]
pub enum ShaderPathType {
    /// No shader was declared yet.
    Unset,
    /// A shader that the asset server loads from the given path.
    External(String),
    /// A shader that is built into the crate that declares the model.
    Internal(String),
}

/// Why a shader declaration is refused.
#[derive(Debug, Clone, Copy, PartialEq, Eq, Structural)]
pub enum ShaderPathError {
    /// The model type has declared a shader already.
    AlreadySet,
}

impl ShaderPathType {
    /// Declares `path` as the shader of the model type: built in if
    /// `internal`, else loaded by the asset server. A model type declares one
    /// shader; a second declaration is refused and changes nothing.
    pub fn declare(&mut self, path: String, internal: bool) -> (result: Result<(), ShaderPathError>)
        ensures
            result is Ok <==> *old(self) is Unset,
            result is Err ==> result == Err::<(), ShaderPathError>(ShaderPathError::AlreadySet)
                && *final(self) == *old(self),
            result is Ok ==> *final(self) == (if internal {
                ShaderPathType::Internal(path)
            } else {
                ShaderPathType::External(path)
            }),
    {
        match self {
            ShaderPathType::Unset => {
                if internal {
                    *self = ShaderPathType::Internal(path);
                } else {
                    *self = ShaderPathType::External(path);
                }
                Ok(())
            },
            _ => Err(ShaderPathError::AlreadySet),
        }
    }
}

/// A binding that a field of a model type declares.
#[derive(Debug, Clone, Copy, PartialEq, Eq, Structural)]
pub struct FieldBinding {
    /// Slot of the binding.
    pub binding: u32,
    pub binding_type: BindingType,
    /// Position of the declaring field in the model type.
    pub field: usize,
}

/// Why a field's binding is refused.
#[derive(Debug, Clone, Copy, PartialEq, Eq, Structural)]
pub enum BindingError {
    /// The slot is taken by the texture or sampler binding of the field at
    /// position `field`.
    Occupied { field: usize, binding_type: BindingType },
    /// The slot is taken by a uniform binding of the whole model.
    OccupiedByStructUniform,
    /// The slot is taken by uniform bindings of fields, which only another
    /// uniform binding can join.
    OccupiedByUniform,
}

/// The first of `fields[i..]` that is bound to the slot `binding`.
pub open spec fn occupant_from(fields: Seq<FieldBinding>, binding: u32, i: int) -> Option<
    FieldBinding,
>
    decreases fields.len() - i,
{
    if i < 0 || i >= fields.len() {
        None
    } else if fields[i].binding == binding {
        Some(fields[i])
    } else {
        occupant_from(fields, binding, i + 1)
    }
}

/// The field binding that took the slot `binding` first, if any did.
pub open spec fn occupant(fields: Seq<FieldBinding>, binding: u32) -> Option<FieldBinding> {
    occupant_from(fields, binding, 0)
}

/// Whether the binding `new` can be declared after `fields`, in a model whose
/// own uniform bindings take the slots `struct_uniforms`.
pub open spec fn declare_result(
    struct_uniforms: Seq<u32>,
    fields: Seq<FieldBinding>,
    new: FieldBinding,
) -> Result<(), BindingError> {
    if struct_uniforms.contains(new.binding) {
        Err(BindingError::OccupiedByStructUniform)
    } else {
        match occupant(fields, new.binding) {
            None => Ok(()),
            Some(first) => if first.binding_type is Uniform {
                if new.binding_type is Uniform {
                    Ok(())
                } else {
                    Err(BindingError::OccupiedByUniform)
                }
            } else {
                Err(
                    BindingError::Occupied { field: first.field, binding_type: first.binding_type },
                )
            },
        }
    }
}

/// Whether the declared bindings share their slots as they may: two field
/// bindings sit on one slot only if both are uniform bindings, and no field
/// binding sits on a slot of the whole model's uniform bindings.
pub open spec fn slots_well_shared(struct_uniforms: Seq<u32>, fields: Seq<FieldBinding>) -> bool {
    &&& forall|j: int, k: int|
        0 <= j < k < fields.len() && fields[j].binding == fields[k].binding
            ==> fields[j].binding_type is Uniform && fields[k].binding_type is Uniform
    &&& forall|j: int| 0 <= j < fields.len() ==> !struct_uniforms.contains(#[trigger] fields[j].binding)
}

/// The bindings that a model type has declared so far.
///
/// A slot holds one binding. The one exception are uniform bindings of
/// fields: those that name the same slot are merged into one uniform block.
#[derive(Debug)]
pub struct BindingDeclarations {
    struct_uniforms: Vec<u32>,
    fields: Vec<FieldBinding>,
}

impl BindingDeclarations {
    /// The declared bindings share their slots as they may.
    #[verifier::type_invariant]
    pub closed spec fn well_shared(&self) -> bool {
        slots_well_shared(self.struct_uniforms@, self.fields@)
    }

    /// The slots that uniform bindings of the whole model take.
    pub closed spec fn struct_uniforms(&self) -> Seq<u32> {
        self.struct_uniforms@
    }

    /// The bindings that fields declared, in declaration order.
    pub closed spec fn fields(&self) -> Seq<FieldBinding> {
        self.fields@
    }

    /// The declarations of a model type whose own uniform bindings take the
    /// slots `struct_uniforms`, before any field has declared a binding.
    pub fn new(struct_uniforms: Vec<u32>) -> (declarations: BindingDeclarations)
        ensures
            declarations.struct_uniforms() == struct_uniforms@,
            declarations.fields() == Seq::<FieldBinding>::empty(),
    {
        BindingDeclarations { struct_uniforms, fields: Vec::new() }
    }

    /// The bindings that fields declared, in declaration order. They share
    /// their slots as they may.
    pub fn field_bindings(&self) -> (fields: &Vec<FieldBinding>)
        ensures
            fields@ == self.fields(),
            slots_well_shared(self.struct_uniforms(), fields@),
    {
        proof {
            use_type_invariant(self);
        }
        &self.fields
    }

    fn has_struct_uniform(&self, binding: u32) -> (found: bool)
        ensures
            found == self.struct_uniforms@.contains(binding),
    {
        let mut i: usize = 0;
        while i < self.struct_uniforms.len()
            invariant
                i <= self.struct_uniforms.len(),
                forall|j: int| 0 <= j < i ==> self.struct_uniforms@[j] != binding,
            decreases self.struct_uniforms.len() - i,
        {
            if self.struct_uniforms[i] == binding {
                return true;
            }
            i += 1;
        }
        false
    }

    fn find_occupant(&self, binding: u32) -> (first: Option<FieldBinding>)
        ensures
            first == occupant(self.fields@, binding),
    {
        let mut i: usize = 0;
        while i < self.fields.len()
            invariant
                i <= self.fields.len(),
                occupant(self.fields@, binding) == occupant_from(self.fields@, binding, i as int),
            decreases self.fields.len() - i,
        {
            if self.fields[i].binding == binding {
                return Some(self.fields[i]);
            }
            i += 1;
        }
        None
    }

    /// Declares the binding `new` of a field.
    ///
    /// The binding is accepted if its slot is free, or if it is a uniform
    /// binding and the slot holds uniform bindings of fields. It is refused if
    /// the slot is taken by a uniform binding of the whole model, by a texture
    /// or sampler binding, or, for a texture or sampler binding, by uniform
    /// bindings. A binding that is refused changes nothing.
    pub fn declare_field(&mut self, new: FieldBinding) -> (result: Result<(), BindingError>)
        ensures
            result == declare_result(old(self).struct_uniforms(), old(self).fields(), new),
            final(self).struct_uniforms() == old(self).struct_uniforms(),
            final(self).fields() == (if result is Ok {
                old(self).fields().push(new)
            } else {
                old(self).fields()
            }),
    {
        if self.has_struct_uniform(new.binding) {
            return Err(BindingError::OccupiedByStructUniform);
        }
        match self.find_occupant(new.binding) {
            None => {
                self.accept(new);
                Ok(())
            },
            Some(first) => match first.binding_type {
                BindingType::Uniform => match new.binding_type {
                    BindingType::Uniform => {
                        self.accept(new);
                        Ok(())
                    },
                    _ => Err(BindingError::OccupiedByUniform),
                },
                _ => Err(
                    BindingError::Occupied { field: first.field, binding_type: first.binding_type },
                ),
            },
        }
    }

    fn accept(&mut self, new: FieldBinding)
        requires
            declare_result(old(self).struct_uniforms@, old(self).fields@, new) is Ok,
        ensures
            final(self).struct_uniforms@ == old(self).struct_uniforms@,
            final(self).fields@ == old(self).fields@.push(new),
    {
        let mut taken = BindingDeclarations { struct_uniforms: Vec::new(), fields: Vec::new() };
        std::mem::swap(self, &mut taken);
        proof {
            use_type_invariant(&taken);
            law_accepted_bindings_do_not_clash(taken.struct_uniforms@, taken.fields@, new);
        }
        let BindingDeclarations { struct_uniforms, mut fields } = taken;
        fields.push(new);
        *self = BindingDeclarations { struct_uniforms, fields };
    }
}

/// Accepted bindings never clash: the declarations share their slots as they
/// may before any field has declared a binding, and every binding that is
/// accepted keeps it so.
pub proof fn law_accepted_bindings_do_not_clash(
    struct_uniforms: Seq<u32>,
    fields: Seq<FieldBinding>,
    new: FieldBinding,
)
    requires
        slots_well_shared(struct_uniforms, fields),
        declare_result(struct_uniforms, fields, new) is Ok,
    ensures
        slots_well_shared(struct_uniforms, Seq::<FieldBinding>::empty()),
        slots_well_shared(struct_uniforms, fields.push(new)),
{
    let after = fields.push(new);
    assert forall|j: int, k: int|
        0 <= j < k < after.len() && after[j].binding == after[k].binding implies after[j].binding_type
        is Uniform && after[k].binding_type is Uniform by {
        if k == fields.len() {
            lemma_occupant_is_first(fields, new.binding, 0, j);
            let m = choose|m: int|
                0 <= m <= j && fields[m] == occupant_from(fields, new.binding, 0).unwrap();
            if m < j {
                assert(fields[m].binding == fields[j].binding);
            }
        } else {
            assert(fields[j].binding == fields[k].binding);
        }
    }
    assert forall|j: int| 0 <= j < after.len() implies !struct_uniforms.contains(
        #[trigger] after[j].binding,
    ) by {
        if j < fields.len() {
            assert(after[j] == fields[j]);
        }
    }
}

proof fn lemma_occupant_is_first(fields: Seq<FieldBinding>, binding: u32, from: int, i: int)
    requires
        0 <= from <= i < fields.len(),
        fields[i].binding == binding,
    ensures
        occupant_from(fields, binding, from) is Some,
        occupant_from(fields, binding, from).unwrap().binding == binding,
        exists|j: int|
            from <= j <= i && fields[j] == #[trigger] occupant_from(fields, binding, from).unwrap(),
    decreases i - from,
{
    if fields[from].binding == binding {
        assert(fields[from] == occupant_from(fields, binding, from).unwrap());
    } else {
        lemma_occupant_is_first(fields, binding, from + 1, i);
        let j = choose|j: int|
            from + 1 <= j <= i && fields[j] == occupant_from(fields, binding, from + 1).unwrap();
        assert(fields[j] == occupant_from(fields, binding, from).unwrap());
    }
}

/// What a slot of a bind group layout expects.
#[derive(Debug, Clone, Copy, PartialEq, Eq, Structural)]
#[allow(inconsistent_fields)]
pub enum BindingLayoutType {
    /// A uniform buffer of at least `min_binding_size` bytes.
    Buffer { min_binding_size: u64 },
    /// A texture that is sampled.
    Texture {
        multisampled: bool,
        sample_type: BindingTextureSampleType,
        view_dimension: BindingTextureDimension,
    },
    /// A sampler.
    Sampler(SamplerBindingType),
    /// A texture that the shader writes and does not read.
    StorageTexture { format: TextureFormat, view_dimension: TextureViewDimension },
}

/// One slot of a bind group layout.
#[derive(Debug, Clone, Copy, PartialEq, Eq, Structural)]
pub struct BindGroupLayoutEntry {
    pub binding: u32,
    pub visibility: ShaderStages,
    pub ty: BindingLayoutType,
}

/// The layout entry of a uniform block of `min_binding_size` bytes at the
/// slot `binding`. A uniform block is visible to every stage.
pub fn uniform_layout_entry(binding: u32, min_binding_size: u64) -> (entry: BindGroupLayoutEntry)
    ensures
        entry == (BindGroupLayoutEntry {
            binding,
            visibility: ShaderStages(7),
            ty: BindingLayoutType::Buffer { min_binding_size },
        }),
{
    BindGroupLayoutEntry {
        binding,
        visibility: ShaderStageVisibility::All.stages(),
        ty: BindingLayoutType::Buffer { min_binding_size },
    }
}

/// The layout entry of the texture binding at the slot `binding` that
/// declares `attrs`.
pub fn texture_layout_entry(binding: u32, attrs: TextureAttrs) -> (entry: BindGroupLayoutEntry)
    ensures
        entry == (BindGroupLayoutEntry {
            binding,
            visibility: attrs.visibility.spec_stages(),
            ty: BindingLayoutType::Texture {
                multisampled: attrs.multisampled,
                sample_type: attrs.sample_type,
                view_dimension: attrs.dimension,
            },
        }),
{
    BindGroupLayoutEntry {
        binding,
        visibility: attrs.visibility.stages(),
        ty: BindingLayoutType::Texture {
            multisampled: attrs.multisampled,
            sample_type: attrs.sample_type,
            view_dimension: attrs.dimension,
        },
    }
}

/// The layout entry of the sampler binding at the slot `binding` that
/// declares `attrs`.
pub fn sampler_layout_entry(binding: u32, attrs: SamplerAttrs) -> (entry: BindGroupLayoutEntry)
    ensures
        entry == (BindGroupLayoutEntry {
            binding,
            visibility: attrs.visibility.spec_stages(),
            ty: BindingLayoutType::Sampler(attrs.sampler_binding_type),
        }),
{
    BindGroupLayoutEntry {
        binding,
        visibility: attrs.visibility.stages(),
        ty: BindingLayoutType::Sampler(attrs.sampler_binding_type),
    }
}

/// The one entry of the layout for binding the cubemap to the compute shader:
/// at slot 0, visible to the compute stage only, an array of six faces of
/// half floats that the shader writes.
pub fn atmosphere_image_layout_entry() -> (entry: BindGroupLayoutEntry)
    ensures
        entry == (BindGroupLayoutEntry {
            binding: 0,
            visibility: ShaderStages(STAGE_COMPUTE),
            ty: BindingLayoutType::StorageTexture {
                format: TextureFormat::Rgba16Float,
                view_dimension: TextureViewDimension::D2Array,
            },
        }),
{
    BindGroupLayoutEntry {
        binding: 0,
        visibility: ShaderStages(STAGE_COMPUTE),
        ty: BindingLayoutType::StorageTexture {
            format: TextureFormat::Rgba16Float,
            view_dimension: TextureViewDimension::D2Array,
        },
    }
}

} // verus!
