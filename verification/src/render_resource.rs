//! Plain descriptions of the graphics resources that the sky pipeline names.
//!
//! Nothing here touches a device. A value of these types says which texture,
//! view, layout or pipeline is meant; the host that owns the device creates
//! the object that a description stands for.

use vstd::prelude::*;
use std::collections::HashMap;

verus! {

broadcast use vstd::std_specs::hash::group_hash_axioms;

/// Extent of a texture.
#[derive(Debug, Clone, Copy, PartialEq, Eq, Structural)]
pub struct Extent3d {
    pub width: u32,
    pub height: u32,
    pub depth_or_array_layers: u32,
}

/// Texel formats that the sky pipeline uses.
#[derive(Debug, Clone, Copy, PartialEq, Eq, Structural)]
pub enum TextureFormat {
    /// Four channels of 16-bit floats: the radiance written into the cubemap.
    Rgba16Float,
    /// Four channels of 32-bit floats.
    Rgba32Float,
}

/// Shape under which a view presents a texture.
#[derive(Debug, Clone, Copy, PartialEq, Eq, Structural)]
pub enum TextureViewDimension {
    D1,
    D2,
    D2Array,
    Cube,
    CubeArray,
    D3,
}

/// Identity of a texture allocated on the device.
#[derive(Debug, Clone, Copy, PartialEq, Eq, Structural)]
pub struct Texture(pub u64);

/// Identity of a sampler.
#[derive(Debug, Clone, Copy, PartialEq, Eq, Structural)]
pub struct Sampler(pub u64);

/// Identity of a bind group layout.
#[derive(Debug, Clone, Copy, PartialEq, Eq, Structural)]
pub struct BindGroupLayout(pub u64);

/// Index of a compute pipeline in the [`PipelineCache`].
#[derive(Debug, Clone, Copy, PartialEq, Eq, Structural)]
pub struct CachedComputePipelineId(pub usize);

/// How a [`TextureView`] is cut out of its texture. What is left open is
/// taken from the texture.
#[derive(Debug, Clone, Copy, PartialEq, Eq, Structural)]
pub struct TextureViewDescriptor {
    pub format: Option<TextureFormat>,
    pub dimension: Option<TextureViewDimension>,
    pub array_layer_count: Option<u32>,
}

/// A view of a texture: the texture it looks at and how.
///
/// Two views are the same view exactly if they look at the same texture in the
/// same way, so a view of a reallocated texture never equals a view of the
/// texture it replaced.
#[derive(Debug, Clone, Copy, PartialEq, Eq, Structural)]
pub struct TextureView {
    pub texture: Texture,
    pub descriptor: TextureViewDescriptor,
}

impl Texture {
    /// Describes the view of this texture that `descriptor` asks for.
    pub fn create_view(&self, descriptor: TextureViewDescriptor) -> (view: TextureView)
        ensures
            view == (TextureView { texture: *self, descriptor }),
    {
        TextureView { texture: *self, descriptor }
    }
}

/// An image as it lies on the device.
#[derive(Debug, Clone, Copy, PartialEq, Eq, Structural)]
pub struct GpuImage {
    pub texture: Texture,
    /// The view that the image was uploaded with.
    pub texture_view: TextureView,
    pub sampler: Sampler,
    pub size: Extent3d,
}

/// What a binding falls back to when its model names no image.
#[derive(Debug, Clone, Copy, PartialEq, Eq, Structural)]
pub struct FallbackImage {
    pub texture_view: TextureView,
    pub sampler: Sampler,
}

/// The images that are resident on the device, by image handle.
pub struct RenderAssets {
    images: HashMap<u64, GpuImage>,
}

impl View for RenderAssets {
    type V = Map<u64, GpuImage>;

    closed spec fn view(&self) -> Map<u64, GpuImage> {
        self.images@
    }
}

impl RenderAssets {
    /// No image is resident.
    pub fn new() -> (assets: RenderAssets)
        ensures
            assets@ == Map::<u64, GpuImage>::empty(),
    {
        RenderAssets { images: HashMap::new() }
    }

    /// Records that the image behind `handle` is resident as `image`.
    pub fn insert(&mut self, handle: u64, image: GpuImage)
        ensures
            final(self)@ == old(self)@.insert(handle, image),
    {
        self.images.insert(handle, image);
    }

    /// Records that the image behind `handle` is no longer resident.
    pub fn remove(&mut self, handle: u64)
        ensures
            final(self)@ == old(self)@.remove(handle),
    {
        self.images.remove(&handle);
    }

    /// The resident image behind `handle`, if there is one.
    pub fn get(&self, handle: u64) -> (image: Option<GpuImage>)
        ensures
            image == (if self@.contains_key(handle) {
                Some(self@[handle])
            } else {
                None
            }),
    {
        match self.images.get(&handle) {
            Some(image) => Some(*image),
            None => None,
        }
    }
}

/// Progress of the compilation of a pipeline.
#[derive(Debug, Clone, Copy, PartialEq, Eq, Structural)]
pub enum CachedPipelineState {
    /// Compilation has not started.
    Queued,
    /// The backend is compiling.
    Creating,
    /// The pipeline is compiled and can be bound.
    Compiled,
    /// Compilation failed; the pipeline will never be usable.
    Failed,
}

/// What is known of each queued pipeline's compilation.
///
/// Compilation runs outside this crate. The cache only records the state that
/// was last reported for each pipeline, so that the graph node can poll it.
pub struct PipelineCache {
    pipelines: Vec<CachedPipelineState>,
}

impl View for PipelineCache {
    type V = Seq<CachedPipelineState>;

    closed spec fn view(&self) -> Seq<CachedPipelineState> {
        self.pipelines@
    }
}

impl PipelineCache {
    /// A cache without pipelines.
    pub fn new() -> (cache: PipelineCache)
        ensures
            cache@ == Seq::<CachedPipelineState>::empty(),
    {
        PipelineCache { pipelines: Vec::new() }
    }

    /// Number of pipelines queued so far.
    pub fn len(&self) -> (n: usize)
        ensures
            n == self@.len(),
    {
        self.pipelines.len()
    }

    /// Queues a compute pipeline for compilation and returns at once with the
    /// identifier under which its state can be polled.
    pub fn queue_compute_pipeline(&mut self) -> (id: CachedComputePipelineId)
        ensures
            id.0 == old(self)@.len(),
            final(self)@ == old(self)@.push(CachedPipelineState::Queued),
    {
        let id = CachedComputePipelineId(self.pipelines.len());
        self.pipelines.push(CachedPipelineState::Queued);
        id
    }

    /// Records the state that the backend reports for pipeline `id`.
    ///
    /// A pipeline that the cache does not hold is left alone, and `false` is
    /// returned.
    pub fn set_compute_pipeline_state(
        &mut self,
        id: CachedComputePipelineId,
        state: CachedPipelineState,
    ) -> (known: bool)
        ensures
            known == (id.0 < old(self)@.len()),
            final(self)@ == (if known {
                old(self)@.update(id.0 as int, state)
            } else {
                old(self)@
            }),
    {
        if id.0 < self.pipelines.len() {
            self.pipelines.set(id.0, state);
            true
        } else {
            false
        }
    }

    /// The state that pipeline `id` is in, as far as `cache` knows.
    pub open spec fn state_of(cache: Seq<CachedPipelineState>, id: CachedComputePipelineId) -> Option<
        CachedPipelineState,
    > {
        if id.0 < cache.len() {
            Some(cache[id.0 as int])
        } else {
            None
        }
    }

    /// The last reported state of pipeline `id`; `None` if no such pipeline
    /// was ever queued.
    pub fn get_compute_pipeline_state(&self, id: CachedComputePipelineId) -> (state: Option<
        CachedPipelineState,
    >)
        ensures
            state == Self::state_of(self@, id),
    {
        if id.0 < self.pipelines.len() {
            Some(self.pipelines[id.0])
        } else {
            None
        }
    }
}

} // verus!
