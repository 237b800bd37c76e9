//! The compute pipeline that renders the procedural sky into a cubemap.
//!
//! The pipeline keeps two sides apart. The simulation side owns the settings,
//! the active model and the image asset; the render side owns copies of them,
//! the view of the cubemap, the cached metadata of the active model's type and
//! the bind groups. Once per frame the phases run in a fixed order:
//!
//! 1. [`atmosphere_settings_changed`] resizes the image on the simulation side,
//! 2. [`extract_atmosphere_resources`] copies what changed to the render side,
//! 3. [`prepare_atmosphere_assets`] rebuilds the view of a reallocated image,
//! 4. [`queue_atmosphere_bind_group`] rebuilds the bind groups,
//! 5. [`AtmosphereNode::update`] polls the compilation of the pipeline,
//! 6. [`AtmosphereNode::run`] records the compute pass,
//! 7. [`atmosphere_cleanup`] settles what is still owed.
//!
//! Every phase is a function of plain values. Each has a `spec` twin on the
//! views of those values, and the twin is what the phase is proved to compute.
//!
//! The pipeline has one stage: the pass that writes the cubemap. A stage that
//! computes tables ahead of that pass, for a model that reads them, is not
//! part of it: there is no second queue state, no second cache, no second
//! view and no second dispatch size.

use vstd::prelude::*;
use crate::model::{
    bind_group_result_view, bindings_ready, model_bind_group, AtmosphereModel,
    AtmosphereModelMetadata, AtmosphereTypeRegistry, AtmosphericView, BindGroup, BindGroupEntry,
    BindGroupView, BindingResource,
};
use crate::render_resource::{
    BindGroupLayout, CachedComputePipelineId, CachedPipelineState, Extent3d, FallbackImage,
    GpuImage, PipelineCache, RenderAssets, TextureFormat, TextureView, TextureViewDescriptor,
    TextureViewDimension,
};
use crate::settings::{AtmosphereSettings, WORKGROUP_SIZE};

verus! {

/// Name of the compute pass's node in the render graph.
pub const NAME: &'static str = "bevy_atmosphere";

/// Number of faces of the cubemap, and of workgroups along z.
pub const CUBE_FACES: u32 = 6;

/// A value on the simulation side as one phase sees it: the value, and whether
/// it was added or written since the phase last looked.
#[derive(Debug)]
pub struct Observed<T> {
    pub value: T,
    pub changed: bool,
}

impl<T: Copy> Clone for Observed<T> {
    fn clone(&self) -> (copy: Observed<T>)
        ensures
            copy == *self,
    {
        *self
    }
}

impl<T: Copy> Copy for Observed<T> {

}

/// The image asset that backs the cubemap, as the simulation side stores it.
#[derive(Debug, Clone, Copy, PartialEq, Eq, Structural)]
pub struct Image {
    pub size: Extent3d,
    pub format: TextureFormat,
}

/// Extent of a cubemap whose faces are `resolution` texels wide.
pub open spec fn cubemap_extent(resolution: u32) -> Extent3d {
    Extent3d { width: resolution, height: resolution, depth_or_array_layers: CUBE_FACES }
}

impl Image {
    /// The image of a cubemap whose faces are `resolution` texels wide.
    pub open spec fn cubemap(resolution: u32) -> Image {
        Image { size: cubemap_extent(resolution), format: TextureFormat::Rgba16Float }
    }

    /// Allocates the image of a cubemap whose faces are `resolution` texels
    /// wide.
    pub fn new_cubemap(resolution: u32) -> (image: Image)
        ensures
            image == Image::cubemap(resolution),
    {
        Image {
            size: Extent3d {
                width: resolution,
                height: resolution,
                depth_or_array_layers: CUBE_FACES,
            },
            format: TextureFormat::Rgba16Float,
        }
    }

    /// Gives the image the extent `size`; its format stays.
    pub fn resize(&mut self, size: Extent3d)
        ensures
            *final(self) == (Image { size, format: old(self).format }),
    {
        self.size = size;
    }
}

/// The procedural sky image that the compute pipeline writes.
#[derive(Debug, Clone, Copy, PartialEq, Eq, Structural)]
pub struct AtmosphereImage {
    /// Handle of the image asset.
    pub handle: u64,
    /// The view of the six faces as a cube, which the bind group of the
    /// image binds. It is absent from the moment the image is created or
    /// resized until the render side has rebuilt it.
    pub array_view: Option<TextureView>,
}

/// The layout for binding the [`AtmosphereImage`] to the compute shader.
#[derive(Debug, Clone, Copy, PartialEq, Eq, Structural)]
pub struct AtmosphereImageBindGroupLayout(pub BindGroupLayout);

/// The view that presents the six faces of the cubemap as a cube.
pub open spec fn spec_cube_view_descriptor() -> TextureViewDescriptor {
    TextureViewDescriptor {
        format: Some(TextureFormat::Rgba16Float),
        dimension: Some(TextureViewDimension::Cube),
        array_layer_count: Some(CUBE_FACES),
    }
}

/// The view that presents the cubemap as an array of six faces.
pub open spec fn spec_array_view_descriptor() -> TextureViewDescriptor {
    TextureViewDescriptor {
        format: Some(TextureFormat::Rgba16Float),
        dimension: Some(TextureViewDimension::D2Array),
        array_layer_count: Some(CUBE_FACES),
    }
}

/// For creating a view of the cubemap with [`TextureViewDimension::Cube`].
#[verifier::when_used_as_spec(spec_cube_view_descriptor)]
pub fn atmosphere_cube_texture_view_descriptor() -> (descriptor: TextureViewDescriptor)
    ensures
        descriptor == spec_cube_view_descriptor(),
{
    TextureViewDescriptor {
        format: Some(TextureFormat::Rgba16Float),
        dimension: Some(TextureViewDimension::Cube),
        array_layer_count: Some(CUBE_FACES),
    }
}

/// For creating a view of the cubemap with [`TextureViewDimension::D2Array`].
#[verifier::when_used_as_spec(spec_array_view_descriptor)]
pub fn atmosphere_array_texture_view_descriptor() -> (descriptor: TextureViewDescriptor)
    ensures
        descriptor == spec_array_view_descriptor(),
{
    TextureViewDescriptor {
        format: Some(TextureFormat::Rgba16Float),
        dimension: Some(TextureViewDimension::D2Array),
        array_layer_count: Some(CUBE_FACES),
    }
}

/// The two bind groups of the compute pass: the model's at slot 0 and the
/// cubemap image's at slot 1. They are only ever replaced together.
#[derive(Debug)]
pub struct AtmosphereBindGroups(pub BindGroup, pub BindGroup);

impl View for AtmosphereBindGroups {
    type V = (BindGroupView, BindGroupView);

    open spec fn view(&self) -> (BindGroupView, BindGroupView) {
        (self.0@, self.1@)
    }
}

impl AtmosphereBindGroups {
    /// Whether both bind groups are described as those of `other` are.
    pub fn same_as(&self, other: &AtmosphereBindGroups) -> (same: bool)
        ensures
            same == (self@ == other@),
    {
        self.0.same_as(&other.0) && self.1.same_as(&other.1)
    }
}

impl Clone for AtmosphereBindGroups {
    fn clone(&self) -> (copy: AtmosphereBindGroups)
        ensures
            copy@ == self@,
    {
        AtmosphereBindGroups(self.0.clone(), self.1.clone())
    }
}

/// The bind group that binds `view` of the cubemap for writing.
pub open spec fn image_bind_group(layout: AtmosphereImageBindGroupLayout, view: TextureView) -> BindGroupView {
    BindGroupView {
        layout: layout.0,
        uniform: Seq::<u8>::empty(),
        entries: seq![BindGroupEntry { binding: 0, resource: BindingResource::TextureView(view) }],
    }
}

fn create_image_bind_group(layout: &AtmosphereImageBindGroupLayout, view: TextureView) -> (group:
    BindGroup)
    ensures
        group@ == image_bind_group(*layout, view),
{
    let mut entries: Vec<BindGroupEntry> = Vec::new();
    entries.push(BindGroupEntry { binding: 0, resource: BindingResource::TextureView(view) });
    let group = BindGroup { layout: layout.0, uniform: Vec::new(), entries };
    assert(group@.entries =~= image_bind_group(*layout, view).entries);
    group
}

/// Whether the cache holds the metadata of the model type `id`.
pub open spec fn cache_hit(cache: Option<AtmosphereModelMetadata>, id: u64) -> bool {
    cache is Some && cache.unwrap().id == id
}

/// The metadata that is resolved for the type `id`: the cached one on a hit,
/// else the one on file in `registry`.
pub open spec fn resolved_metadata(
    cache: Option<AtmosphereModelMetadata>,
    registry: Map<u64, AtmosphereModelMetadata>,
    id: u64,
) -> AtmosphereModelMetadata {
    if cache_hit(cache, id) {
        cache.unwrap()
    } else {
        registry[id]
    }
}

/// The metadata that was last resolved, kept to spare the registry a lookup
/// on every frame.
#[derive(Debug, Clone, Copy, PartialEq, Eq, Structural)]
pub struct CachedModelMetadata(pub Option<AtmosphereModelMetadata>);

impl CachedModelMetadata {
    /// Resolves the metadata of the model type `id`.
    ///
    /// On a hit the cached metadata is returned and the registry is not
    /// consulted. On a miss (the cache is empty, or holds another type) the
    /// metadata is fetched from `registry` and takes the cache's place. The
    /// second result tells whether the registry was consulted. A type that
    /// misses the cache must be registered: a model of a type that was never
    /// registered is a mistake of the program, not a state of the pipeline.
    pub fn resolve(&mut self, registry: &AtmosphereTypeRegistry, id: u64) -> (resolved: (
        AtmosphereModelMetadata,
        bool,
    ))
        requires
            !cache_hit(old(self).0, id) ==> registry@.contains_key(id),
        ensures
            resolved.0 == resolved_metadata(old(self).0, registry@, id),
            resolved.1 == !cache_hit(old(self).0, id),
            final(self).0 == Some(resolved.0),
            resolved.0.id == id,
    {
        match self.0 {
            Some(data) if data.id == id => (data, false),
            _ => {
                let data = registry.get_type_data(id).unwrap();
                self.0 = Some(data);
                (data, true)
            },
        }
    }
}

/// Whether the render side owes the cubemap a pass.
#[derive(Debug, Clone, Copy, PartialEq, Eq, Structural)]
pub enum AtmosphereQueue {
    /// Nothing is owed: the cubemap shows the current model and settings.
    Empty,
    /// A pass is owed.
    Compute,
    /// A pass is owed but was put off, because the model asked to be tried
    /// again. No pass is recorded in this frame.
    Retry,
}

/// The simulation side of the pipeline.
#[derive(Debug, Clone, Copy, PartialEq, Eq, Structural)]
pub struct MainWorld {
    /// The image asset behind the handle, while the asset store holds it.
    pub image_asset: Option<Image>,
    pub atmosphere_image: AtmosphereImage,
    /// Whether settings were there when the image was last looked after.
    pub settings_existed: bool,
}

/// A resize of the image asset.
#[derive(Debug, Clone, Copy, PartialEq, Eq, Structural)]
pub struct Resize {
    /// The extent that the image was given.
    pub size: Extent3d,
    /// Whether the new resolution is a whole number of workgroups. If it is
    /// not, the host should warn: the last workgroups of a row hang over the
    /// edge of the face.
    pub aligned: bool,
}

/// The resolution that the image is to have when a phase sees `settings`,
/// having seen settings before or not (`existed`); `None` if the phase has no
/// reason to look at the image.
pub open spec fn resize_target(settings: Option<Observed<AtmosphereSettings>>, existed: bool) -> Option<
    u32,
> {
    match settings {
        Some(observed) => if observed.changed {
            Some(observed.value.resolution)
        } else {
            None
        },
        None => if existed {
            Some(AtmosphereSettings::spec_default().resolution)
        } else {
            None
        },
    }
}

/// The resize that [`atmosphere_settings_changed`] performs; `None` if it
/// leaves the image alone.
pub open spec fn settings_changed_resize(
    world: MainWorld,
    settings: Option<Observed<AtmosphereSettings>>,
) -> Option<Resize> {
    match resize_target(settings, world.settings_existed) {
        Some(resolution) => if world.image_asset is Some && world.image_asset.unwrap().size
            != cubemap_extent(resolution) {
            Some(
                Resize {
                    size: cubemap_extent(resolution),
                    aligned: resolution as int % WORKGROUP_SIZE as int == 0,
                },
            )
        } else {
            None
        },
        None => None,
    }
}

/// The simulation side after [`atmosphere_settings_changed`].
pub open spec fn settings_changed_world(
    world: MainWorld,
    settings: Option<Observed<AtmosphereSettings>>,
) -> MainWorld {
    match settings_changed_resize(world, settings) {
        Some(resize) => MainWorld {
            image_asset: Some(Image { size: resize.size, format: world.image_asset.unwrap().format }),
            atmosphere_image: AtmosphereImage {
                handle: world.atmosphere_image.handle,
                array_view: None,
            },
            settings_existed: settings is Some,
        },
        None => MainWorld {
            image_asset: world.image_asset,
            atmosphere_image: world.atmosphere_image,
            settings_existed: settings is Some,
        },
    }
}

/// Whenever the settings change, resizes the image to match them.
///
/// The image is looked at when the settings are present and were written, and
/// when they are absent after having been present, in which case the default
/// resolution applies. If the asset store still holds the image and the image
/// does not have six layers of that resolution already, it is given them and
/// its view is dropped, so that the render side rebuilds the view against the
/// new allocation. An image that has the resolution already is left alone,
/// with its view: settings that are written again with the same resolution
/// reallocate nothing. The result reports the resize, if there was one.
pub fn atmosphere_settings_changed(
    world: &mut MainWorld,
    settings: Option<Observed<AtmosphereSettings>>,
) -> (resize: Option<Resize>)
    ensures
        resize == settings_changed_resize(*old(world), settings),
        *final(world) == settings_changed_world(*old(world), settings),
{
    let target: Option<u32> = match settings {
        Some(observed) => if observed.changed {
            Some(observed.value.resolution)
        } else {
            None
        },
        None => if world.settings_existed {
            Some(AtmosphereSettings::default().resolution)
        } else {
            None
        },
    };
    world.settings_existed = settings.is_some();
    match target {
        Some(resolution) => match world.image_asset {
            Some(mut image) => {
                let size = Extent3d {
                    width: resolution,
                    height: resolution,
                    depth_or_array_layers: CUBE_FACES,
                };
                if image.size == size {
                    None
                } else {
                    image.resize(size);
                    world.image_asset = Some(image);
                    world.atmosphere_image.array_view = None;
                    Some(Resize { size, aligned: resolution % WORKGROUP_SIZE == 0 })
                }
            },
            None => None,
        },
        None => None,
    }
}

/// Whether a phase that sees `observed`, having seen a value before or not
/// (`existed`), copies a value to the render side: the changed one, or the
/// default in place of one that went away.
pub open spec fn is_copied<T>(observed: Option<Observed<T>>, existed: bool) -> bool {
    match observed {
        Some(observed) => observed.changed,
        None => existed,
    }
}

/// The value that the render side holds after such a phase, where it held
/// `current` and `default` stands in for a value that went away.
pub open spec fn extracted<T>(
    observed: Option<Observed<T>>,
    existed: bool,
    current: T,
    default: T,
) -> T {
    match observed {
        Some(observed) => if observed.changed {
            observed.value
        } else {
            current
        },
        None => if existed {
            default
        } else {
            current
        },
    }
}

/// The render side of the pipeline.
#[derive(Debug)]
pub struct RenderWorld {
    /// The settings that the passes of this frame go by.
    pub settings: AtmosphereSettings,
    /// The model that the passes of this frame render.
    pub model: AtmosphereModel,
    /// The model that is rendered while the simulation side has none.
    pub default_model: AtmosphereModel,
    pub image: AtmosphereImage,
    pub image_bind_group_layout: AtmosphereImageBindGroupLayout,
    pub cached_metadata: CachedModelMetadata,
    pub bind_groups: Option<AtmosphereBindGroups>,
    pub queue: AtmosphereQueue,
    /// Whether the simulation side had settings at the last extraction.
    pub settings_existed: bool,
    /// Whether the simulation side had a model at the last extraction.
    pub model_existed: bool,
}

/// A [`RenderWorld`] as a mathematical value.
pub struct RenderWorldView {
    pub settings: AtmosphereSettings,
    pub model: AtmosphericView,
    pub default_model: AtmosphericView,
    pub image: AtmosphereImage,
    pub image_bind_group_layout: AtmosphereImageBindGroupLayout,
    pub cached_metadata: Option<AtmosphereModelMetadata>,
    pub bind_groups: Option<(BindGroupView, BindGroupView)>,
    pub queue: AtmosphereQueue,
    pub settings_existed: bool,
    pub model_existed: bool,
}

impl View for RenderWorld {
    type V = RenderWorldView;

    open spec fn view(&self) -> RenderWorldView {
        RenderWorldView {
            settings: self.settings,
            model: self.model@,
            default_model: self.default_model@,
            image: self.image,
            image_bind_group_layout: self.image_bind_group_layout,
            cached_metadata: self.cached_metadata.0,
            bind_groups: match self.bind_groups {
                Some(groups) => Some(groups@),
                None => None,
            },
            queue: self.queue,
            settings_existed: self.settings_existed,
            model_existed: self.model_existed,
        }
    }
}

/// The simulation side's model as a mathematical value.
pub open spec fn observed_model(model: Option<Observed<&AtmosphereModel>>) -> Option<
    Observed<AtmosphericView>,
> {
    match model {
        Some(observed) => Some(Observed { value: observed.value@, changed: observed.changed }),
        None => None,
    }
}

/// Whether [`extract_atmosphere_resources`] consults the registry: it copies a
/// model whose type is not the one that the cache holds.
pub open spec fn extract_fetches(
    world: RenderWorldView,
    model: Option<Observed<AtmosphericView>>,
) -> bool {
    &&& is_copied(model, world.model_existed)
    &&& world.cached_metadata is Some
    &&& !cache_hit(
        world.cached_metadata,
        extracted(model, world.model_existed, world.model, world.default_model).id,
    )
}

/// The render side after [`extract_atmosphere_resources`].
pub open spec fn extract_world(
    world: RenderWorldView,
    registry: Map<u64, AtmosphereModelMetadata>,
    settings: Option<Observed<AtmosphereSettings>>,
    model: Option<Observed<AtmosphericView>>,
    image: Observed<AtmosphereImage>,
) -> RenderWorldView {
    let new_model = extracted(model, world.model_existed, world.model, world.default_model);
    RenderWorldView {
        settings: extracted(
            settings,
            world.settings_existed,
            world.settings,
            AtmosphereSettings::spec_default(),
        ),
        model: new_model,
        image: if image.changed {
            image.value
        } else {
            world.image
        },
        cached_metadata: if is_copied(model, world.model_existed) && world.cached_metadata
            is Some {
            Some(resolved_metadata(world.cached_metadata, registry, new_model.id))
        } else {
            world.cached_metadata
        },
        queue: if is_copied(settings, world.settings_existed) || is_copied(
            model,
            world.model_existed,
        ) || image.changed {
            AtmosphereQueue::Compute
        } else {
            world.queue
        },
        settings_existed: settings is Some,
        model_existed: model is Some,
        ..world
    }
}

/// Copies the settings, the model and the image from the simulation side to
/// the render side.
///
/// Settings and model are treated alike and apart from each other. One that is
/// present is copied if it changed since the last extraction. One that is
/// absent, but was present at the last extraction, is replaced by its default:
/// the default settings, or the default model. The image is copied if it
/// changed. Whenever a model is copied while the cache holds the metadata of
/// another type, the cache is refreshed from the registry, and the result is
/// `true`; the type of that model must be registered. Whenever anything is
/// copied, the cubemap is owed a pass.
pub fn extract_atmosphere_resources(
    world: &mut RenderWorld,
    registry: &AtmosphereTypeRegistry,
    main_settings: Option<Observed<AtmosphereSettings>>,
    main_model: Option<Observed<&AtmosphereModel>>,
    main_image: Observed<AtmosphereImage>,
) -> (fetched: bool)
    requires
        extract_fetches(old(world)@, observed_model(main_model)) ==> registry@.contains_key(
            extracted(
                observed_model(main_model),
                old(world).model_existed,
                old(world)@.model,
                old(world)@.default_model,
            ).id,
        ),
    ensures
        fetched == extract_fetches(old(world)@, observed_model(main_model)),
        final(world)@ == extract_world(
            old(world)@,
            registry@,
            main_settings,
            observed_model(main_model),
            main_image,
        ),
{
    let mut fetched = false;
    let mut copied = false;
    match main_settings {
        Some(settings) => {
            if settings.changed {
                world.settings = settings.value;
                copied = true;
            }
            world.settings_existed = true;
        },
        None => {
            if world.settings_existed {
                world.settings = AtmosphereSettings::default();
                copied = true;
            }
            world.settings_existed = false;
        },
    }
    let mut model_copied = false;
    match main_model {
        Some(model) => {
            if model.changed {
                world.model = model.value.clone();
                model_copied = true;
            }
            world.model_existed = true;
        },
        None => {
            if world.model_existed {
                world.model = world.default_model.clone();
                model_copied = true;
            }
            world.model_existed = false;
        },
    }
    if model_copied {
        copied = true;
        if world.cached_metadata.0.is_some() {
            let id = world.model.model().type_id();
            let (_, missed) = world.cached_metadata.resolve(registry, id);
            fetched = missed;
        }
    }
    if main_image.changed {
        world.image = main_image.value;
        copied = true;
    }
    if copied {
        world.queue = AtmosphereQueue::Compute;
    }
    fetched
}

/// The render side after [`prepare_atmosphere_assets`].
pub open spec fn prepare_world(world: RenderWorldView, images: Map<u64, GpuImage>) -> RenderWorldView {
    if world.image.array_view is None {
        RenderWorldView {
            image: AtmosphereImage {
                handle: world.image.handle,
                array_view: Some(
                    TextureView {
                        texture: images[world.image.handle].texture,
                        descriptor: spec_cube_view_descriptor(),
                    },
                ),
            },
            ..world
        }
    } else {
        world
    }
}

/// Rebuilds the view of the cubemap if it is absent, and tells whether it did.
///
/// The view is absent after the image was created or resized. The new view
/// presents the six layers of the texture that is now resident for the image
/// as a cube; the image must be resident by then. A view that is present is
/// left alone.
pub fn prepare_atmosphere_assets(world: &mut RenderWorld, gpu_images: &RenderAssets) -> (rebuilt:
    bool)
    requires
        old(world).image.array_view is None ==> gpu_images@.contains_key(old(world).image.handle),
    ensures
        rebuilt == (old(world).image.array_view is None),
        final(world)@ == prepare_world(old(world)@, gpu_images@),
{
    if world.image.array_view.is_none() {
        let image = gpu_images.get(world.image.handle).unwrap();
        let view = image.texture.create_view(atmosphere_cube_texture_view_descriptor());
        world.image.array_view = Some(view);
        true
    } else {
        false
    }
}

/// How [`queue_atmosphere_bind_group`] ended.
#[derive(Debug, Clone, Copy, PartialEq, Eq, Structural)]
pub enum QueueOutcome {
    /// No pass is owed; the bind groups were left alone.
    Skipped,
    /// Both bind groups were replaced. `fetched` tells whether the metadata
    /// had to be fetched from the registry.
    Rebuilt { fetched: bool },
    /// The bind groups in place are the ones that the model and the view ask
    /// for, and were left alone.
    UpToDate { fetched: bool },
    /// The model asked to be tried again. The earlier bind groups, if any,
    /// are still in place, and no pass is recorded in this frame.
    RetryNextUpdate { fetched: bool },
}

/// The render side after [`queue_atmosphere_bind_group`].
pub open spec fn queue_world(
    world: RenderWorldView,
    registry: Map<u64, AtmosphereModelMetadata>,
    images: Map<u64, GpuImage>,
    fallback: FallbackImage,
) -> RenderWorldView {
    if world.queue is Compute {
        let data = resolved_metadata(world.cached_metadata, registry, world.model.id);
        match model_bind_group(world.model, data.bind_group_layout, images, fallback) {
            Ok(group) => RenderWorldView {
                cached_metadata: Some(data),
                bind_groups: Some(
                    (
                        group,
                        image_bind_group(
                            world.image_bind_group_layout,
                            world.image.array_view.unwrap(),
                        ),
                    ),
                ),
                ..world
            },
            Err(_) => RenderWorldView {
                cached_metadata: Some(data),
                queue: AtmosphereQueue::Retry,
                ..world
            },
        }
    } else {
        world
    }
}

/// What [`queue_atmosphere_bind_group`] returns.
pub open spec fn queue_outcome(
    world: RenderWorldView,
    registry: Map<u64, AtmosphereModelMetadata>,
    images: Map<u64, GpuImage>,
    fallback: FallbackImage,
) -> QueueOutcome {
    if world.queue is Compute {
        let fetched = !cache_hit(world.cached_metadata, world.model.id);
        if !bindings_ready(world.model.bindings, images, fallback) {
            QueueOutcome::RetryNextUpdate { fetched }
        } else if queue_world(world, registry, images, fallback).bind_groups == world.bind_groups {
            QueueOutcome::UpToDate { fetched }
        } else {
            QueueOutcome::Rebuilt { fetched }
        }
    } else {
        QueueOutcome::Skipped
    }
}

/// Brings the bind groups of the compute pass up to date if the cubemap is
/// owed a pass.
///
/// The layout of the model's bind group is resolved through the cache, which
/// is refreshed from the registry if it is empty or holds another type. The
/// model then describes its bind group. If it asks to be tried again, the
/// earlier bind groups stay, and the pass is put off to the next frame.
/// Otherwise the bind group of the cubemap image is described against the
/// current view. If the bind groups in place are the ones described, they are
/// left alone: as long as neither the model nor its type nor the view changes,
/// nothing is rebuilt, however many frames the pass stays owed. Else both
/// bind groups are replaced together.
///
/// While a pass is owed, a model type that misses the cache must be
/// registered, and if the model is ready to give its bind group, the view
/// must have been rebuilt before this phase runs.
pub fn queue_atmosphere_bind_group(
    world: &mut RenderWorld,
    registry: &AtmosphereTypeRegistry,
    gpu_images: &RenderAssets,
    fallback_image: &FallbackImage,
) -> (outcome: QueueOutcome)
    requires
        old(world).queue is Compute && bindings_ready(
            old(world)@.model.bindings,
            gpu_images@,
            *fallback_image,
        ) ==> old(world).image.array_view is Some,
        old(world).queue is Compute && !cache_hit(old(world).cached_metadata.0, old(world)@.model.id)
            ==> registry@.contains_key(old(world)@.model.id),
    ensures
        outcome == queue_outcome(old(world)@, registry@, gpu_images@, *fallback_image),
        final(world)@ == queue_world(old(world)@, registry@, gpu_images@, *fallback_image),
{
    match world.queue {
        AtmosphereQueue::Compute => {
            let id = world.model.model().type_id();
            let (data, fetched) = world.cached_metadata.resolve(registry, id);
            let built = world.model.model().as_bind_group(
                &data.bind_group_layout,
                gpu_images,
                fallback_image,
            );
            assert(bind_group_result_view(built) == model_bind_group(
                old(world)@.model,
                data.bind_group_layout,
                gpu_images@,
                *fallback_image,
            ));
            match built {
                Ok(group) => {
                    let view = world.image.array_view.unwrap();
                    let image_group = create_image_bind_group(&world.image_bind_group_layout, view);
                    let described = AtmosphereBindGroups(group, image_group);
                    let up_to_date = match &world.bind_groups {
                        Some(groups) => groups.same_as(&described),
                        None => false,
                    };
                    if up_to_date {
                        QueueOutcome::UpToDate { fetched }
                    } else {
                        world.bind_groups = Some(described);
                        QueueOutcome::Rebuilt { fetched }
                    }
                },
                Err(_) => {
                    world.queue = AtmosphereQueue::Retry;
                    QueueOutcome::RetryNextUpdate { fetched }
                },
            }
        },
        _ => QueueOutcome::Skipped,
    }
}

/// Number of workgroups that cover `resolution` texels along one axis: the
/// resolution divided by the workgroup size, rounded up.
pub open spec fn workgroups_along(resolution: u32) -> u32 {
    ((resolution as int + WORKGROUP_SIZE as int - 1) / WORKGROUP_SIZE as int) as u32
}

/// Numbers of workgroups of a pass over a cubemap of `resolution`, along x, y
/// and z.
pub open spec fn spec_dispatch_size(resolution: u32) -> (u32, u32, u32) {
    (workgroups_along(resolution), workgroups_along(resolution), CUBE_FACES)
}

/// Numbers of workgroups that a pass over a cubemap of `resolution` is
/// dispatched with: enough workgroups to cover a face along x and along y,
/// and one layer of workgroups per face along z.
#[verifier::when_used_as_spec(spec_dispatch_size)]
pub fn dispatch_size(resolution: u32) -> (size: (u32, u32, u32))
    ensures
        size == spec_dispatch_size(resolution),
        WORKGROUP_SIZE * (size.0 - 1) < resolution <= WORKGROUP_SIZE * size.0,
        size.1 == size.0,
        size.2 == CUBE_FACES,
{
    let whole: u32 = resolution / WORKGROUP_SIZE;
    let along: u32 = if resolution % WORKGROUP_SIZE == 0 {
        whole
    } else {
        whole + 1
    };
    (along, along, CUBE_FACES)
}

/// A compute pass to record: the bind groups for slots 0 and 1, the pipeline,
/// and the numbers of workgroups to dispatch along x, y and z.
#[derive(Debug)]
pub struct ComputePass {
    pub bind_groups: AtmosphereBindGroups,
    pub pipeline: CachedComputePipelineId,
    pub workgroups: (u32, u32, u32),
}

/// A [`ComputePass`] as a mathematical value.
pub struct ComputePassView {
    pub bind_groups: (BindGroupView, BindGroupView),
    pub pipeline: CachedComputePipelineId,
    pub workgroups: (u32, u32, u32),
}

impl View for ComputePass {
    type V = ComputePassView;

    open spec fn view(&self) -> ComputePassView {
        ComputePassView {
            bind_groups: self.bind_groups@,
            pipeline: self.pipeline,
            workgroups: self.workgroups,
        }
    }
}

/// An `Option` of a [`ComputePass`] as a mathematical value.
pub open spec fn pass_view(pass: Option<ComputePass>) -> Option<ComputePassView> {
    match pass {
        Some(pass) => Some(pass@),
        None => None,
    }
}

/// Why the graph node gave up on a model.
#[derive(Debug, Clone, Copy, PartialEq, Eq, Structural)]
pub enum PipelineError {
    /// The backend failed to compile the pipeline of the active model's type.
    /// The shader or the declared layout is broken; waiting will not help.
    CompilationFailed(CachedComputePipelineId),
}

/// State of the graph node.
#[derive(Debug, Clone, Copy, PartialEq, Eq, Structural)]
pub enum AtmosphereState {
    /// The pipeline is not known to be compiled. No pass is recorded.
    Loading,
    /// The pipeline was seen compiled.
    Ready,
}

/// The render graph node of the compute pass.
#[derive(Debug, Clone, Copy, PartialEq, Eq, Structural)]
pub struct AtmosphereNode {
    pub state: AtmosphereState,
}

/// The state of the node after [`AtmosphereNode::update`].
pub open spec fn update_state(
    state: AtmosphereState,
    world: RenderWorldView,
    registry: Map<u64, AtmosphereModelMetadata>,
    pipelines: Seq<CachedPipelineState>,
) -> AtmosphereState {
    match state {
        AtmosphereState::Loading => if PipelineCache::state_of(
            pipelines,
            resolved_metadata(world.cached_metadata, registry, world.model.id).pipeline,
        ) == Some(CachedPipelineState::Compiled) {
            AtmosphereState::Ready
        } else {
            AtmosphereState::Loading
        },
        AtmosphereState::Ready => AtmosphereState::Ready,
    }
}

/// The render side after [`AtmosphereNode::update`].
pub open spec fn update_world(
    state: AtmosphereState,
    world: RenderWorldView,
    registry: Map<u64, AtmosphereModelMetadata>,
) -> RenderWorldView {
    match state {
        AtmosphereState::Loading => RenderWorldView {
            cached_metadata: Some(
                resolved_metadata(world.cached_metadata, registry, world.model.id),
            ),
            ..world
        },
        AtmosphereState::Ready => world,
    }
}

/// What [`AtmosphereNode::update`] returns.
pub open spec fn update_result(
    state: AtmosphereState,
    world: RenderWorldView,
    registry: Map<u64, AtmosphereModelMetadata>,
    pipelines: Seq<CachedPipelineState>,
) -> Result<(), PipelineError> {
    let pipeline = resolved_metadata(world.cached_metadata, registry, world.model.id).pipeline;
    if state is Loading && PipelineCache::state_of(pipelines, pipeline) == Some(
        CachedPipelineState::Failed,
    ) {
        Err(PipelineError::CompilationFailed(pipeline))
    } else {
        Ok(())
    }
}

/// Whether [`AtmosphereNode::update`] consults the registry: the node is
/// loading and the cache misses the active model's type.
pub open spec fn update_fetches(state: AtmosphereState, world: RenderWorldView) -> bool {
    state is Loading && !cache_hit(world.cached_metadata, world.model.id)
}

/// Whether [`AtmosphereNode::run`] records a pass.
pub open spec fn records_pass(
    state: AtmosphereState,
    world: RenderWorldView,
    pipelines: Seq<CachedPipelineState>,
) -> bool {
    &&& state is Ready
    &&& world.queue is Compute
    &&& world.bind_groups is Some
    &&& world.cached_metadata is Some
    &&& PipelineCache::state_of(pipelines, world.cached_metadata.unwrap().pipeline) == Some(
        CachedPipelineState::Compiled,
    )
}

/// The pass that [`AtmosphereNode::run`] records, if any.
pub open spec fn recorded_pass(
    state: AtmosphereState,
    world: RenderWorldView,
    pipelines: Seq<CachedPipelineState>,
) -> Option<ComputePassView> {
    if records_pass(state, world, pipelines) {
        Some(
            ComputePassView {
                bind_groups: world.bind_groups.unwrap(),
                pipeline: world.cached_metadata.unwrap().pipeline,
                workgroups: spec_dispatch_size(world.settings.resolution),
            },
        )
    } else {
        None
    }
}

impl AtmosphereNode {
    /// A node that waits for its pipeline.
    pub fn new() -> (node: AtmosphereNode)
        ensures
            node.state is Loading,
    {
        AtmosphereNode { state: AtmosphereState::Loading }
    }

    /// Polls the compilation of the pipeline of the active model's type.
    ///
    /// While the node is loading, the metadata of the active model's type is
    /// resolved through the cache and the state of its pipeline is looked up.
    /// The node becomes ready when the pipeline is compiled; it stays loading
    /// while the pipeline is queued, being created, or unknown to the cache.
    /// A pipeline that failed to compile is reported as an error, and the node
    /// stays loading. A node that is ready stays ready and polls nothing.
    ///
    /// While the node is loading, a model type that misses the cache must be
    /// registered.
    pub fn update(
        &mut self,
        world: &mut RenderWorld,
        registry: &AtmosphereTypeRegistry,
        pipeline_cache: &PipelineCache,
    ) -> (result: Result<(), PipelineError>)
        requires
            old(self).state is Loading && !cache_hit(
                old(world).cached_metadata.0,
                old(world)@.model.id,
            ) ==> registry@.contains_key(old(world)@.model.id),
        ensures
            final(self).state == update_state(
                old(self).state,
                old(world)@,
                registry@,
                pipeline_cache@,
            ),
            final(world)@ == update_world(old(self).state, old(world)@, registry@),
            result == update_result(old(self).state, old(world)@, registry@, pipeline_cache@),
    {
        match self.state {
            AtmosphereState::Loading => {
                let id = world.model.model().type_id();
                let (data, _) = world.cached_metadata.resolve(registry, id);
                match pipeline_cache.get_compute_pipeline_state(data.pipeline) {
                    Some(CachedPipelineState::Compiled) => {
                        self.state = AtmosphereState::Ready;
                        Ok(())
                    },
                    Some(CachedPipelineState::Failed) => Err(
                        PipelineError::CompilationFailed(data.pipeline),
                    ),
                    _ => Ok(()),
                }
            },
            AtmosphereState::Ready => Ok(()),
        }
    }

    /// Records the compute pass of this frame, if there is to be one.
    ///
    /// A pass is recorded if the node is ready, the cubemap is owed a pass,
    /// the bind groups exist, and the pipeline of the cached metadata is
    /// compiled. The pass binds the model's bind group at slot 0 and the
    /// image's at slot 1, binds the pipeline, and dispatches enough workgroups
    /// to cover a face along x and y, and six along z. In every other case
    /// nothing is recorded, and nothing is wrong: the cubemap keeps what the
    /// last pass wrote.
    pub fn run(&self, world: &RenderWorld, pipeline_cache: &PipelineCache) -> (pass: Option<
        ComputePass,
    >)
        ensures
            pass_view(pass) == recorded_pass(self.state, world@, pipeline_cache@),
    {
        match (self.state, world.queue, &world.bind_groups, world.cached_metadata.0) {
            (
                AtmosphereState::Ready,
                AtmosphereQueue::Compute,
                Some(bind_groups),
                Some(data),
            ) => match pipeline_cache.get_compute_pipeline_state(data.pipeline) {
                Some(CachedPipelineState::Compiled) => Some(
                    ComputePass {
                        bind_groups: bind_groups.clone(),
                        pipeline: data.pipeline,
                        workgroups: dispatch_size(world.settings.resolution),
                    },
                ),
                _ => None,
            },
            _ => None,
        }
    }
}

impl Default for AtmosphereNode {
    fn default() -> (node: AtmosphereNode)
        ensures
            node.state is Loading,
    {
        AtmosphereNode::new()
    }
}

/// What the cubemap is owed after a frame in which a pass was recorded or not.
pub open spec fn cleanup_queue(queue: AtmosphereQueue, recorded: bool) -> AtmosphereQueue {
    match queue {
        AtmosphereQueue::Empty => AtmosphereQueue::Empty,
        AtmosphereQueue::Compute => if recorded {
            AtmosphereQueue::Empty
        } else {
            AtmosphereQueue::Compute
        },
        AtmosphereQueue::Retry => AtmosphereQueue::Compute,
    }
}

/// The render side after [`atmosphere_cleanup`].
pub open spec fn cleanup_world(
    state: AtmosphereState,
    world: RenderWorldView,
    pipelines: Seq<CachedPipelineState>,
) -> RenderWorldView {
    RenderWorldView {
        queue: cleanup_queue(world.queue, records_pass(state, world, pipelines)),
        ..world
    }
}

/// Settles at the end of a frame what the cubemap is still owed.
///
/// A pass that was recorded in this frame is owed no longer. A pass that was
/// owed and not recorded, because the node is loading or the bind groups are
/// missing, is still owed. A pass that was put off is owed again.
pub fn atmosphere_cleanup(
    world: &mut RenderWorld,
    node: &AtmosphereNode,
    pipeline_cache: &PipelineCache,
)
    ensures
        final(world)@ == cleanup_world(node.state, old(world)@, pipeline_cache@),
{
    match world.queue {
        AtmosphereQueue::Empty => {},
        AtmosphereQueue::Retry => {
            world.queue = AtmosphereQueue::Compute;
        },
        AtmosphereQueue::Compute => {
            let recorded = match (node.state, &world.bind_groups, world.cached_metadata.0) {
                (AtmosphereState::Ready, Some(_), Some(data)) => match pipeline_cache.get_compute_pipeline_state(
                    data.pipeline,
                ) {
                    Some(CachedPipelineState::Compiled) => true,
                    _ => false,
                },
                _ => false,
            };
            if recorded {
                world.queue = AtmosphereQueue::Empty;
            }
        },
    }
}

/// Both sides of the pipeline and its graph node.
#[derive(Debug)]
pub struct AtmospherePipeline {
    pub main: MainWorld,
    pub render: RenderWorld,
    pub node: AtmosphereNode,
}

/// An [`AtmospherePipeline`] as a mathematical value.
pub struct AtmospherePipelineView {
    pub main: MainWorld,
    pub render: RenderWorldView,
    pub node: AtmosphereNode,
}

impl View for AtmospherePipeline {
    type V = AtmospherePipelineView;

    open spec fn view(&self) -> AtmospherePipelineView {
        AtmospherePipelineView { main: self.main, render: self.render@, node: self.node }
    }
}

/// Creates the compute pipeline that renders the procedural sky cubemap.
#[derive(Debug, Clone, Copy, PartialEq, Eq, Structural)]
pub struct AtmospherePipelinePlugin {
    /// The settings that the render side starts with.
    pub settings: AtmosphereSettings,
}

impl Default for AtmospherePipelinePlugin {
    fn default() -> (plugin: AtmospherePipelinePlugin)
        ensures
            plugin.settings == AtmosphereSettings::spec_default(),
    {
        AtmospherePipelinePlugin { settings: AtmosphereSettings::default() }
    }
}

impl AtmospherePipelinePlugin {
    /// The pipeline as [`AtmospherePipelinePlugin::build`] sets it up.
    pub open spec fn initial(
        settings: AtmosphereSettings,
        handle: u64,
        image_bind_group_layout: AtmosphereImageBindGroupLayout,
        default_model: AtmosphericView,
    ) -> AtmospherePipelineView {
        let image = AtmosphereImage { handle, array_view: None };
        AtmospherePipelineView {
            main: MainWorld {
                image_asset: Some(Image::cubemap(settings.resolution)),
                atmosphere_image: image,
                settings_existed: false,
            },
            render: RenderWorldView {
                settings,
                model: default_model,
                default_model,
                image,
                image_bind_group_layout,
                cached_metadata: None,
                bind_groups: None,
                queue: AtmosphereQueue::Empty,
                settings_existed: false,
                model_existed: false,
            },
            node: AtmosphereNode { state: AtmosphereState::Loading },
        }
    }

    /// Sets the pipeline up.
    ///
    /// The image asset behind `handle` is allocated as a cubemap of the
    /// plugin's resolution, without a view. The render side starts with the
    /// plugin's settings and the default model, an empty cache and no bind
    /// groups, and owes the cubemap nothing: the first pass is owed after the
    /// first extraction that copies something. The node starts loading.
    pub fn build(
        &self,
        handle: u64,
        image_bind_group_layout: AtmosphereImageBindGroupLayout,
        default_model: AtmosphereModel,
    ) -> (pipeline: AtmospherePipeline)
        ensures
            pipeline@ == Self::initial(
                self.settings,
                handle,
                image_bind_group_layout,
                default_model@,
            ),
    {
        let image = AtmosphereImage { handle, array_view: None };
        AtmospherePipeline {
            main: MainWorld {
                image_asset: Some(Image::new_cubemap(self.settings.resolution)),
                atmosphere_image: image,
                settings_existed: false,
            },
            render: RenderWorld {
                settings: self.settings,
                model: default_model.clone(),
                default_model,
                image,
                image_bind_group_layout,
                cached_metadata: CachedModelMetadata(None),
                bind_groups: None,
                queue: AtmosphereQueue::Empty,
                settings_existed: false,
                model_existed: false,
            },
            node: AtmosphereNode::new(),
        }
    }
}

/// What happened in a frame.
#[derive(Debug)]
pub struct FrameReport {
    /// The resize of the image asset, if there was one.
    pub resize: Option<Resize>,
    /// Whether the view of the cubemap was rebuilt.
    pub view_rebuilt: bool,
    /// How often the registry was consulted for metadata.
    pub fetches: u8,
    /// How the bind groups fared.
    pub queued: QueueOutcome,
    /// Whether the pipeline of the active model's type is sound.
    pub pipeline: Result<(), PipelineError>,
    /// The compute pass that was recorded, if any.
    pub pass: Option<ComputePass>,
}

/// The image as the extraction of a frame sees it: the simulation side's
/// image, changed exactly if the frame resized it.
pub open spec fn frame_image(
    main: MainWorld,
    settings: Option<Observed<AtmosphereSettings>>,
) -> Observed<AtmosphereImage> {
    Observed {
        value: settings_changed_world(main, settings).atmosphere_image,
        changed: settings_changed_resize(main, settings) is Some,
    }
}

/// The render side of a frame after extraction.
pub open spec fn frame_extracted(
    pipeline: AtmospherePipelineView,
    registry: Map<u64, AtmosphereModelMetadata>,
    settings: Option<Observed<AtmosphereSettings>>,
    model: Option<Observed<AtmosphericView>>,
) -> RenderWorldView {
    extract_world(pipeline.render, registry, settings, model, frame_image(pipeline.main, settings))
}

/// The render side of a frame after the bind groups were queued.
pub open spec fn frame_queued(
    pipeline: AtmospherePipelineView,
    registry: Map<u64, AtmosphereModelMetadata>,
    images: Map<u64, GpuImage>,
    fallback: FallbackImage,
    settings: Option<Observed<AtmosphereSettings>>,
    model: Option<Observed<AtmosphericView>>,
) -> RenderWorldView {
    queue_world(
        prepare_world(frame_extracted(pipeline, registry, settings, model), images),
        registry,
        images,
        fallback,
    )
}

/// How often a frame consults the registry: once for each of extraction,
/// queueing and the node's update that misses the cache.
pub open spec fn frame_fetches(
    pipeline: AtmospherePipelineView,
    registry: Map<u64, AtmosphereModelMetadata>,
    images: Map<u64, GpuImage>,
    fallback: FallbackImage,
    settings: Option<Observed<AtmosphereSettings>>,
    model: Option<Observed<AtmosphericView>>,
) -> int {
    let extracted_world = frame_extracted(pipeline, registry, settings, model);
    let prepared = prepare_world(extracted_world, images);
    (if extract_fetches(pipeline.render, model) {
        1int
    } else {
        0int
    }) + (if prepared.queue is Compute && !cache_hit(prepared.cached_metadata, prepared.model.id) {
        1int
    } else {
        0int
    }) + (if update_fetches(
        pipeline.node.state,
        frame_queued(pipeline, registry, images, fallback, settings, model),
    ) {
        1int
    } else {
        0int
    })
}

/// The state of the node in a frame after its update.
pub open spec fn frame_state(
    pipeline: AtmospherePipelineView,
    registry: Map<u64, AtmosphereModelMetadata>,
    images: Map<u64, GpuImage>,
    fallback: FallbackImage,
    pipelines: Seq<CachedPipelineState>,
    settings: Option<Observed<AtmosphereSettings>>,
    model: Option<Observed<AtmosphericView>>,
) -> AtmosphereState {
    update_state(
        pipeline.node.state,
        frame_queued(pipeline, registry, images, fallback, settings, model),
        registry,
        pipelines,
    )
}

/// The render side of a frame when the node runs.
pub open spec fn frame_updated(
    pipeline: AtmospherePipelineView,
    registry: Map<u64, AtmosphereModelMetadata>,
    images: Map<u64, GpuImage>,
    fallback: FallbackImage,
    settings: Option<Observed<AtmosphereSettings>>,
    model: Option<Observed<AtmosphericView>>,
) -> RenderWorldView {
    update_world(
        pipeline.node.state,
        frame_queued(pipeline, registry, images, fallback, settings, model),
        registry,
    )
}

/// The compute pass that a frame records, if any.
pub open spec fn frame_pass(
    pipeline: AtmospherePipelineView,
    registry: Map<u64, AtmosphereModelMetadata>,
    images: Map<u64, GpuImage>,
    fallback: FallbackImage,
    pipelines: Seq<CachedPipelineState>,
    settings: Option<Observed<AtmosphereSettings>>,
    model: Option<Observed<AtmosphericView>>,
) -> Option<ComputePassView> {
    recorded_pass(
        frame_state(pipeline, registry, images, fallback, pipelines, settings, model),
        frame_updated(pipeline, registry, images, fallback, settings, model),
        pipelines,
    )
}

/// The pipeline after a frame.
pub open spec fn frame_end(
    pipeline: AtmospherePipelineView,
    registry: Map<u64, AtmosphereModelMetadata>,
    images: Map<u64, GpuImage>,
    fallback: FallbackImage,
    pipelines: Seq<CachedPipelineState>,
    settings: Option<Observed<AtmosphereSettings>>,
    model: Option<Observed<AtmosphericView>>,
) -> AtmospherePipelineView {
    let state = frame_state(pipeline, registry, images, fallback, pipelines, settings, model);
    AtmospherePipelineView {
        main: settings_changed_world(pipeline.main, settings),
        render: cleanup_world(
            state,
            frame_updated(pipeline, registry, images, fallback, settings, model),
            pipelines,
        ),
        node: AtmosphereNode { state },
    }
}

impl AtmospherePipeline {
    /// Runs the phases of one frame in their order and reports what happened.
    ///
    /// `main_settings` and `main_model` are the settings and the model as the
    /// simulation side holds them in this frame. If the frame has to consult
    /// the registry, the type of the model that it renders must be registered;
    /// if it has to rebuild the view, the image must be resident.
    pub fn advance_frame(
        &mut self,
        registry: &AtmosphereTypeRegistry,
        gpu_images: &RenderAssets,
        fallback_image: &FallbackImage,
        pipeline_cache: &PipelineCache,
        main_settings: Option<Observed<AtmosphereSettings>>,
        main_model: Option<Observed<&AtmosphereModel>>,
    ) -> (report: FrameReport)
        requires
            frame_fetches(
                old(self)@,
                registry@,
                gpu_images@,
                *fallback_image,
                main_settings,
                observed_model(main_model),
            ) > 0 ==> registry@.contains_key(
                extracted(
                    observed_model(main_model),
                    old(self).render.model_existed,
                    old(self)@.render.model,
                    old(self)@.render.default_model,
                ).id,
            ),
            frame_extracted(
                old(self)@,
                registry@,
                main_settings,
                observed_model(main_model),
            ).image.array_view is None ==> gpu_images@.contains_key(
                frame_extracted(
                    old(self)@,
                    registry@,
                    main_settings,
                    observed_model(main_model),
                ).image.handle,
            ),
        ensures
            final(self)@ == frame_end(
                old(self)@,
                registry@,
                gpu_images@,
                *fallback_image,
                pipeline_cache@,
                main_settings,
                observed_model(main_model),
            ),
            report.resize == settings_changed_resize(old(self).main, main_settings),
            report.fetches == frame_fetches(
                old(self)@,
                registry@,
                gpu_images@,
                *fallback_image,
                main_settings,
                observed_model(main_model),
            ),
            report.view_rebuilt == (frame_extracted(
                old(self)@,
                registry@,
                main_settings,
                observed_model(main_model),
            ).image.array_view is None),
            report.queued == queue_outcome(
                prepare_world(
                    frame_extracted(
                        old(self)@,
                        registry@,
                        main_settings,
                        observed_model(main_model),
                    ),
                    gpu_images@,
                ),
                registry@,
                gpu_images@,
                *fallback_image,
            ),
            report.pipeline == update_result(
                old(self).node.state,
                frame_queued(
                    old(self)@,
                    registry@,
                    gpu_images@,
                    *fallback_image,
                    main_settings,
                    observed_model(main_model),
                ),
                registry@,
                pipeline_cache@,
            ),
            pass_view(report.pass) == frame_pass(
                old(self)@,
                registry@,
                gpu_images@,
                *fallback_image,
                pipeline_cache@,
                main_settings,
                observed_model(main_model),
            ),
    {
        let resize = atmosphere_settings_changed(&mut self.main, main_settings);
        let main_image = Observed { value: self.main.atmosphere_image, changed: resize.is_some() };
        let mut fetches: u8 = 0;
        if extract_atmosphere_resources(
            &mut self.render,
            registry,
            main_settings,
            main_model,
            main_image,
        ) {
            fetches = fetches + 1;
        }
        let view_rebuilt = prepare_atmosphere_assets(&mut self.render, gpu_images);
        let queued = queue_atmosphere_bind_group(
            &mut self.render,
            registry,
            gpu_images,
            fallback_image,
        );
        match queued {
            QueueOutcome::Rebuilt { fetched: true }
            | QueueOutcome::UpToDate { fetched: true }
            | QueueOutcome::RetryNextUpdate { fetched: true } => {
                fetches = fetches + 1;
            },
            _ => {},
        }
        let updates = match (self.node.state, self.render.cached_metadata.0) {
            (AtmosphereState::Loading, Some(data)) => data.id != self.render.model.model().type_id(),
            (AtmosphereState::Loading, None) => true,
            _ => false,
        };
        if updates {
            fetches = fetches + 1;
        }
        let pipeline = self.node.update(&mut self.render, registry, pipeline_cache);
        let pass = self.node.run(&self.render, pipeline_cache);
        atmosphere_cleanup(&mut self.render, &self.node, pipeline_cache);
        FrameReport { resize, view_rebuilt, fetches, queued, pipeline, pass }
    }
}

} // verus!
