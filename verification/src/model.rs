//! Atmospheric models and the registry of their pipeline metadata.
//!
//! A model is a value: the tag of its type, the bytes of its uniform buffer and
//! the bindings it declares. The pipeline never looks inside the uniform
//! buffer; it reads the tag to find the model's metadata and the bindings to
//! build the model's bind group.

use vstd::prelude::*;
use std::collections::HashMap;
use crate::render_resource::{
    BindGroupLayout, CachedComputePipelineId, CachedPipelineState, FallbackImage, GpuImage,
    PipelineCache, RenderAssets, Sampler, TextureView,
};

verus! {

broadcast use vstd::std_specs::hash::group_hash_axioms;

/// What kind of resource a binding of a model is.
#[derive(Debug, Clone, Copy, PartialEq, Eq, Structural)]
pub enum BindingType {
    Uniform,
    Texture,
    Sampler,
}

/// What a binding of a model binds.
#[derive(Debug, Clone, Copy, PartialEq, Eq, Structural)]
pub enum BindingSource {
    /// The `size` bytes of the model's uniform buffer that start at `offset`.
    Uniform { offset: u64, size: u64 },
    /// The view of the image behind the handle, or of the fallback image if
    /// the binding names no image.
    Texture(Option<u64>),
    /// The sampler of the image behind the handle, or of the fallback image
    /// if the binding names no image.
    Sampler(Option<u64>),
}

/// One binding that a model declares.
#[derive(Debug, Clone, Copy, PartialEq, Eq, Structural)]
pub struct Binding {
    /// Slot of the binding in the model's bind group.
    pub binding: u32,
    pub source: BindingSource,
}

impl Binding {
    /// What kind of resource the binding is.
    pub open spec fn spec_binding_type(&self) -> BindingType {
        match self.source {
            BindingSource::Uniform { .. } => BindingType::Uniform,
            BindingSource::Texture(_) => BindingType::Texture,
            BindingSource::Sampler(_) => BindingType::Sampler,
        }
    }

    /// What kind of resource the binding is.
    #[verifier::when_used_as_spec(spec_binding_type)]
    pub fn binding_type(&self) -> (binding_type: BindingType)
        ensures
            binding_type == self.spec_binding_type(),
    {
        match self.source {
            BindingSource::Uniform { .. } => BindingType::Uniform,
            BindingSource::Texture(_) => BindingType::Texture,
            BindingSource::Sampler(_) => BindingType::Sampler,
        }
    }
}

/// What a bind group entry binds.
#[derive(Debug, Clone, Copy, PartialEq, Eq, Structural)]
pub enum BindingResource {
    /// The `size` bytes of the bind group's uniform buffer that start at
    /// `offset`.
    Buffer { offset: u64, size: u64 },
    TextureView(TextureView),
    Sampler(Sampler),
}

#[derive(Debug, Clone, Copy, PartialEq, Eq, Structural)]
pub struct BindGroupEntry {
    pub binding: u32,
    pub resource: BindingResource,
}

/// Description of a bind group: its layout, the contents of its uniform
/// buffer, and what each of its slots binds.
#[derive(Debug)]
pub struct BindGroup {
    pub layout: BindGroupLayout,
    pub uniform: Vec<u8>,
    pub entries: Vec<BindGroupEntry>,
}

/// A [`BindGroup`] as a mathematical value.
pub struct BindGroupView {
    pub layout: BindGroupLayout,
    pub uniform: Seq<u8>,
    pub entries: Seq<BindGroupEntry>,
}

impl View for BindGroup {
    type V = BindGroupView;

    open spec fn view(&self) -> BindGroupView {
        BindGroupView { layout: self.layout, uniform: self.uniform@, entries: self.entries@ }
    }
}

fn same_bytes(left: &Vec<u8>, right: &Vec<u8>) -> (same: bool)
    ensures
        same == (left@ == right@),
{
    if left.len() != right.len() {
        return false;
    }
    let mut i: usize = 0;
    while i < left.len()
        invariant
            i <= left.len(),
            left.len() == right.len(),
            forall|j: int| 0 <= j < i ==> left@[j] == right@[j],
        decreases left.len() - i,
    {
        if left[i] != right[i] {
            return false;
        }
        i += 1;
    }
    assert(left@ =~= right@);
    true
}

fn same_entries(left: &Vec<BindGroupEntry>, right: &Vec<BindGroupEntry>) -> (same: bool)
    ensures
        same == (left@ == right@),
{
    if left.len() != right.len() {
        return false;
    }
    let mut i: usize = 0;
    while i < left.len()
        invariant
            i <= left.len(),
            left.len() == right.len(),
            forall|j: int| 0 <= j < i ==> left@[j] == right@[j],
        decreases left.len() - i,
    {
        if left[i] != right[i] {
            return false;
        }
        i += 1;
    }
    assert(left@ =~= right@);
    true
}

impl BindGroup {
    /// Whether the bind group is described as `other` is: by the same layout,
    /// the same contents of the uniform buffer and the same entries.
    pub fn same_as(&self, other: &BindGroup) -> (same: bool)
        ensures
            same == (self@ == other@),
    {
        self.layout == other.layout && same_bytes(&self.uniform, &other.uniform) && same_entries(
            &self.entries,
            &other.entries,
        )
    }
}

impl Clone for BindGroup {
    fn clone(&self) -> (group: BindGroup)
        ensures
            group@ == self@,
    {
        BindGroup {
            layout: self.layout,
            uniform: clone_bytes(&self.uniform),
            entries: clone_entries(&self.entries),
        }
    }
}

/// Why a model could not give its bind group.
#[derive(Debug, Clone, Copy, PartialEq, Eq, Structural)]
pub enum AsBindGroupError {
    /// An image that the model reads is not resident yet. Nothing is wrong
    /// with the model: the same call succeeds once the image has arrived.
    RetryNextUpdate,
}

/// An atmospheric model.
#[derive(Debug)]
pub struct Atmospheric {
    /// Tag of the model's type. Models of one type share their shader, their
    /// bind group layout and their pipeline.
    pub id: u64,
    /// The model's parameters, as the bytes of its uniform buffer.
    pub uniform: Vec<u8>,
    /// The bindings that the model's shader expects, in declaration order.
    pub bindings: Vec<Binding>,
}

/// An [`Atmospheric`] model as a mathematical value.
pub struct AtmosphericView {
    pub id: u64,
    pub uniform: Seq<u8>,
    pub bindings: Seq<Binding>,
}

impl View for Atmospheric {
    type V = AtmosphericView;

    open spec fn view(&self) -> AtmosphericView {
        AtmosphericView { id: self.id, uniform: self.uniform@, bindings: self.bindings@ }
    }
}

fn clone_bytes(bytes: &Vec<u8>) -> (copy: Vec<u8>)
    ensures
        copy@ == bytes@,
{
    let mut copy: Vec<u8> = Vec::new();
    let mut i: usize = 0;
    while i < bytes.len()
        invariant
            i <= bytes.len(),
            copy@ == bytes@.take(i as int),
        decreases bytes.len() - i,
    {
        copy.push(bytes[i]);
        i += 1;
    }
    copy
}

fn clone_bindings(bindings: &Vec<Binding>) -> (copy: Vec<Binding>)
    ensures
        copy@ == bindings@,
{
    let mut copy: Vec<Binding> = Vec::new();
    let mut i: usize = 0;
    while i < bindings.len()
        invariant
            i <= bindings.len(),
            copy@ == bindings@.take(i as int),
        decreases bindings.len() - i,
    {
        copy.push(bindings[i]);
        i += 1;
    }
    copy
}

fn clone_entries(entries: &Vec<BindGroupEntry>) -> (copy: Vec<BindGroupEntry>)
    ensures
        copy@ == entries@,
{
    let mut copy: Vec<BindGroupEntry> = Vec::new();
    let mut i: usize = 0;
    while i < entries.len()
        invariant
            i <= entries.len(),
            copy@ == entries@.take(i as int),
        decreases entries.len() - i,
    {
        copy.push(entries[i]);
        i += 1;
    }
    copy
}

/// What `binding` binds when the images in `images` are resident; `None` if
/// it reads an image that is not.
pub open spec fn resolve_binding(
    binding: Binding,
    images: Map<u64, GpuImage>,
    fallback: FallbackImage,
) -> Option<BindGroupEntry> {
    match binding.source {
        BindingSource::Uniform { offset, size } => Some(
            BindGroupEntry {
                binding: binding.binding,
                resource: BindingResource::Buffer { offset, size },
            },
        ),
        BindingSource::Texture(None) => Some(
            BindGroupEntry {
                binding: binding.binding,
                resource: BindingResource::TextureView(fallback.texture_view),
            },
        ),
        BindingSource::Texture(Some(handle)) => if images.contains_key(handle) {
            Some(
                BindGroupEntry {
                    binding: binding.binding,
                    resource: BindingResource::TextureView(images[handle].texture_view),
                },
            )
        } else {
            None
        },
        BindingSource::Sampler(None) => Some(
            BindGroupEntry {
                binding: binding.binding,
                resource: BindingResource::Sampler(fallback.sampler),
            },
        ),
        BindingSource::Sampler(Some(handle)) => if images.contains_key(handle) {
            Some(
                BindGroupEntry {
                    binding: binding.binding,
                    resource: BindingResource::Sampler(images[handle].sampler),
                },
            )
        } else {
            None
        },
    }
}

/// Whether every image that `bindings` read is resident.
pub open spec fn bindings_ready(
    bindings: Seq<Binding>,
    images: Map<u64, GpuImage>,
    fallback: FallbackImage,
) -> bool {
    forall|i: int|
        0 <= i < bindings.len() ==> (#[trigger] resolve_binding(bindings[i], images, fallback))
            is Some
}

/// The entries that `bindings` resolve to, slot by slot.
pub open spec fn resolved_entries(
    bindings: Seq<Binding>,
    images: Map<u64, GpuImage>,
    fallback: FallbackImage,
) -> Seq<BindGroupEntry> {
    Seq::new(bindings.len(), |i: int| resolve_binding(bindings[i], images, fallback).unwrap())
}

/// What [`Atmospheric::as_bind_group`] returns for `model`.
pub open spec fn model_bind_group(
    model: AtmosphericView,
    layout: BindGroupLayout,
    images: Map<u64, GpuImage>,
    fallback: FallbackImage,
) -> Result<BindGroupView, AsBindGroupError> {
    if bindings_ready(model.bindings, images, fallback) {
        Ok(
            BindGroupView {
                layout,
                uniform: model.uniform,
                entries: resolved_entries(model.bindings, images, fallback),
            },
        )
    } else {
        Err(AsBindGroupError::RetryNextUpdate)
    }
}

/// A [`Result`] of [`Atmospheric::as_bind_group`] as a mathematical value.
pub open spec fn bind_group_result_view(result: Result<BindGroup, AsBindGroupError>) -> Result<
    BindGroupView,
    AsBindGroupError,
> {
    match result {
        Ok(group) => Ok(group@),
        Err(error) => Err(error),
    }
}

fn resolve(binding: &Binding, images: &RenderAssets, fallback: &FallbackImage) -> (entry: Option<
    BindGroupEntry,
>)
    ensures
        entry == resolve_binding(*binding, images@, *fallback),
{
    match binding.source {
        BindingSource::Uniform { offset, size } => Some(
            BindGroupEntry {
                binding: binding.binding,
                resource: BindingResource::Buffer { offset, size },
            },
        ),
        BindingSource::Texture(None) => Some(
            BindGroupEntry {
                binding: binding.binding,
                resource: BindingResource::TextureView(fallback.texture_view),
            },
        ),
        BindingSource::Texture(Some(handle)) => match images.get(handle) {
            Some(image) => Some(
                BindGroupEntry {
                    binding: binding.binding,
                    resource: BindingResource::TextureView(image.texture_view),
                },
            ),
            None => None,
        },
        BindingSource::Sampler(None) => Some(
            BindGroupEntry {
                binding: binding.binding,
                resource: BindingResource::Sampler(fallback.sampler),
            },
        ),
        BindingSource::Sampler(Some(handle)) => match images.get(handle) {
            Some(image) => Some(
                BindGroupEntry {
                    binding: binding.binding,
                    resource: BindingResource::Sampler(image.sampler),
                },
            ),
            None => None,
        },
    }
}

impl Atmospheric {
    /// Tag of the model's type.
    pub fn type_id(&self) -> (id: u64)
        ensures
            id == self@.id,
    {
        self.id
    }

    /// A copy of the model with the same type, parameters and bindings.
    pub fn clone_dynamic(&self) -> (copy: Atmospheric)
        ensures
            copy@ == self@,
    {
        Atmospheric {
            id: self.id,
            uniform: clone_bytes(&self.uniform),
            bindings: clone_bindings(&self.bindings),
        }
    }

    /// Builds the model's bind group against `layout`.
    ///
    /// Every binding is resolved in declaration order: a uniform binding to
    /// its range of the buffer of the model's parameters, a texture or sampler
    /// binding to
    /// the view or sampler of its image, or of the fallback image if it names
    /// none. If a named image is not resident the model asks to be tried again
    /// on the next update.
    pub fn as_bind_group(
        &self,
        layout: &BindGroupLayout,
        images: &RenderAssets,
        fallback_image: &FallbackImage,
    ) -> (result: Result<BindGroup, AsBindGroupError>)
        ensures
            bind_group_result_view(result) == model_bind_group(
                self@,
                *layout,
                images@,
                *fallback_image,
            ),
    {
        let mut entries: Vec<BindGroupEntry> = Vec::new();
        let mut i: usize = 0;
        while i < self.bindings.len()
            invariant
                i <= self.bindings.len(),
                entries@.len() == i,
                forall|j: int|
                    0 <= j < i ==> (#[trigger] resolve_binding(
                        self.bindings@[j],
                        images@,
                        *fallback_image,
                    )) == Some(entries@[j]),
            decreases self.bindings.len() - i,
        {
            match resolve(&self.bindings[i], images, fallback_image) {
                Some(entry) => {
                    entries.push(entry);
                },
                None => {
                    return Err(AsBindGroupError::RetryNextUpdate);
                },
            }
            i += 1;
        }
        assert(entries@ =~= resolved_entries(self.bindings@, images@, *fallback_image));
        Ok(BindGroup { layout: *layout, uniform: clone_bytes(&self.uniform), entries })
    }
}

impl Clone for Atmospheric {
    fn clone(&self) -> (copy: Atmospheric)
        ensures
            copy@ == self@,
    {
        self.clone_dynamic()
    }
}

/// The slot that holds the active [`Atmospheric`] model.
#[derive(Debug)]
pub struct AtmosphereModel {
    model: Atmospheric,
}

impl View for AtmosphereModel {
    type V = AtmosphericView;

    closed spec fn view(&self) -> AtmosphericView {
        self.model@
    }
}

impl Clone for AtmosphereModel {
    fn clone(&self) -> (copy: AtmosphereModel)
        ensures
            copy@ == self@,
    {
        AtmosphereModel { model: self.model.clone_dynamic() }
    }
}

impl AtmosphereModel {
    /// Wraps `model`.
    pub fn new(model: Atmospheric) -> (slot: AtmosphereModel)
        ensures
            slot@ == model@,
    {
        AtmosphereModel { model }
    }

    /// The model in the slot.
    pub fn model(&self) -> (model: &Atmospheric)
        ensures
            model@ == self@,
    {
        &self.model
    }

    /// The model in the slot, for writing. Whatever is written becomes the
    /// slot's model.
    pub fn model_mut(&mut self) -> (model: &mut Atmospheric)
        ensures
            model@ == old(self)@,
            final(self)@ == final(model)@,
    {
        &mut self.model
    }

    /// The model in the slot if its type is `id`, and `None` if it is of
    /// another type.
    pub fn to_ref(&self, id: u64) -> (model: Option<&Atmospheric>)
        ensures
            model is Some <==> self@.id == id,
            model is Some ==> model.unwrap()@ == self@,
    {
        if self.model.id == id {
            Some(&self.model)
        } else {
            None
        }
    }

    /// The model in the slot, for writing, if its type is `id`; `None`, and
    /// the slot out of reach, if it is of another type.
    pub fn to_mut(&mut self, id: u64) -> (model: Option<&mut Atmospheric>)
        ensures
            model is Some <==> old(self)@.id == id,
            match model {
                Some(model) => model@ == old(self)@ && final(self)@ == final(model)@,
                None => final(self)@ == old(self)@,
            },
    {
        if self.model.id == id {
            Some(&mut self.model)
        } else {
            None
        }
    }
}

/// What the pipeline needs to know of a model type.
#[derive(Debug, Clone, Copy, PartialEq, Eq, Structural)]
pub struct AtmosphereModelMetadata {
    /// Tag of the model type; used to test whether the model has changed.
    pub id: u64,
    /// Layout of the bind groups of models of this type.
    pub bind_group_layout: BindGroupLayout,
    /// The compute pipeline that holds the type's shader.
    pub pipeline: CachedComputePipelineId,
}

/// Whether every entry of `registry` is filed under the tag that it carries.
pub open spec fn registry_filed_by_tag(registry: Map<u64, AtmosphereModelMetadata>) -> bool {
    forall|id: u64| #[trigger] registry.contains_key(id) ==> registry[id].id == id
}

/// The metadata of every registered model type, by type tag.
pub struct AtmosphereTypeRegistry {
    types: HashMap<u64, AtmosphereModelMetadata>,
}

impl View for AtmosphereTypeRegistry {
    type V = Map<u64, AtmosphereModelMetadata>;

    closed spec fn view(&self) -> Map<u64, AtmosphereModelMetadata> {
        self.types@
    }
}

impl AtmosphereTypeRegistry {
    /// Every entry is filed under the tag that it carries.
    #[verifier::type_invariant]
    pub open spec fn filed_by_tag(&self) -> bool {
        registry_filed_by_tag(self@)
    }

    /// A registry without model types.
    pub fn new() -> (registry: AtmosphereTypeRegistry)
        ensures
            registry@ == Map::<u64, AtmosphereModelMetadata>::empty(),
    {
        AtmosphereTypeRegistry { types: HashMap::new() }
    }

    /// Registers the model type `id` with the layout of its bind groups and
    /// the pipeline that was queued for its shader, and returns the metadata
    /// now on file. A type that is registered again has its entry replaced.
    pub fn register(
        &mut self,
        id: u64,
        bind_group_layout: BindGroupLayout,
        pipeline: CachedComputePipelineId,
    ) -> (data: AtmosphereModelMetadata)
        ensures
            data == (AtmosphereModelMetadata { id, bind_group_layout, pipeline }),
            final(self)@ == old(self)@.insert(id, data),
    {
        let data = AtmosphereModelMetadata { id, bind_group_layout, pipeline };
        let mut registry = AtmosphereTypeRegistry::new();
        std::mem::swap(self, &mut registry);
        proof {
            use_type_invariant(&registry);
        }
        let mut types = registry.types;
        types.insert(id, data);
        *self = AtmosphereTypeRegistry { types };
        data
    }

    /// Adds the model type `id` to the pipeline: queues the compute pipeline
    /// of its shader and registers the type with `bind_group_layout` and the
    /// identifier of the queued pipeline. The call returns at once; the
    /// pipeline is compiled later, and until then its state is queued.
    pub fn add_atmosphere_model(
        &mut self,
        pipeline_cache: &mut PipelineCache,
        id: u64,
        bind_group_layout: BindGroupLayout,
    ) -> (data: AtmosphereModelMetadata)
        ensures
            data == (AtmosphereModelMetadata {
                id,
                bind_group_layout,
                pipeline: CachedComputePipelineId(old(pipeline_cache)@.len() as usize),
            }),
            final(self)@ == old(self)@.insert(id, data),
            final(pipeline_cache)@ == old(pipeline_cache)@.push(CachedPipelineState::Queued),
            PipelineCache::state_of(final(pipeline_cache)@, data.pipeline) == Some(
                CachedPipelineState::Queued,
            ),
    {
        let pipeline = pipeline_cache.queue_compute_pipeline();
        self.register(id, bind_group_layout, pipeline)
    }

    /// Whether the model type `id` is registered.
    pub fn contains(&self, id: u64) -> (registered: bool)
        ensures
            registered == self@.contains_key(id),
    {
        self.types.contains_key(&id)
    }

    /// The metadata of the model type `id`, if the type is registered.
    pub fn get_type_data(&self, id: u64) -> (data: Option<AtmosphereModelMetadata>)
        ensures
            data == (if self@.contains_key(id) {
                Some(self@[id])
            } else {
                None
            }),
            data is Some ==> data.unwrap().id == id,
    {
        proof {
            use_type_invariant(self);
        }
        match self.types.get(&id) {
            Some(data) => Some(*data),
            None => None,
        }
    }
}

} // verus!
