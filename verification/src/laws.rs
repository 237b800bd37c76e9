//! Laws of the sky pipeline: what holds of every frame and of every sequence
//! of frames, proved from the phases' own definitions.

use vstd::prelude::*;
use crate::model::{
    bindings_ready, model_bind_group, registry_filed_by_tag, AtmosphereModelMetadata,
    AtmosphericView,
};
use crate::pipeline::{
    cache_hit, cleanup_world, cubemap_extent, extract_world, extracted, frame_end, frame_extracted,
    frame_fetches, frame_pass, image_bind_group, prepare_world, queue_outcome, queue_world,
    recorded_pass, resolved_metadata, settings_changed_resize, settings_changed_world,
    spec_dispatch_size, update_state, update_world, AtmosphereImage,
    AtmosphereImageBindGroupLayout, AtmospherePipelinePlugin, AtmospherePipelineView,
    AtmosphereState, MainWorld, Observed, QueueOutcome, RenderWorldView, Resize, CUBE_FACES,
};
use crate::render_resource::{CachedPipelineState, FallbackImage, GpuImage};
use crate::settings::{AtmosphereSettings, DEFAULT_RESOLUTION, WORKGROUP_SIZE};

verus! {

/// Whether cached metadata can be trusted: the cache is empty, or it holds
/// what the registry has on file for the cached type.
pub open spec fn cache_coherent(
    cache: Option<AtmosphereModelMetadata>,
    registry: Map<u64, AtmosphereModelMetadata>,
) -> bool {
    cache is Some ==> registry.contains_key(cache.unwrap().id) && registry[cache.unwrap().id]
        == cache.unwrap()
}

/// Settings that are written twice in a row with the same value reallocate
/// the image at most once and have its view rebuilt at most once.
///
/// In the frame of the first write the image is resized exactly if it does
/// not have the resolution already, and if it is resized the render side
/// rebuilds the view in that frame. After that frame the image has the
/// resolution and the render side has a view. In the frame of the second
/// write, which is marked as a change like the first, the image is not
/// resized, the simulation side is left as it is, and the view is not
/// rebuilt.
pub proof fn law_same_settings_resize_once(
    pipeline: AtmospherePipelineView,
    registry: Map<u64, AtmosphereModelMetadata>,
    images: Map<u64, GpuImage>,
    fallback: FallbackImage,
    pipelines: Seq<CachedPipelineState>,
    settings: AtmosphereSettings,
    first_model: Option<Observed<AtmosphericView>>,
    second_model: Option<Observed<AtmosphericView>>,
)
    requires
        pipeline.main.image_asset is Some,
    ensures
        ({
            let write = Some(Observed { value: settings, changed: true });
            let wanted = cubemap_extent(settings.resolution);
            let next = frame_end(
                pipeline,
                registry,
                images,
                fallback,
                pipelines,
                write,
                first_model,
            );
            &&& settings_changed_resize(pipeline.main, write) is Some
                <==> pipeline.main.image_asset.unwrap().size != wanted
            &&& settings_changed_resize(pipeline.main, write) is Some ==> frame_extracted(
                pipeline,
                registry,
                write,
                first_model,
            ).image.array_view is None
            &&& next.main.image_asset.unwrap().size == wanted
            &&& next.render.image.array_view is Some
            &&& settings_changed_resize(next.main, write) is None
            &&& settings_changed_world(next.main, write) == next.main
            &&& frame_extracted(next, registry, write, second_model).image.array_view is Some
        }),
{
}

/// The metadata that is resolved for a model type does not depend on what was
/// resolved before: after a switch from type `a` to type `b` and back, the
/// cache resolves for `a` what it resolved for `a` at first, the layout of its
/// bind groups included. A switch misses the cache, and a type that stays is
/// answered from the cache.
pub proof fn law_cache_switch_and_return(
    cache: Option<AtmosphereModelMetadata>,
    registry: Map<u64, AtmosphereModelMetadata>,
    a: u64,
    b: u64,
)
    requires
        registry_filed_by_tag(registry),
        cache_coherent(cache, registry),
        registry.contains_key(a),
        registry.contains_key(b),
    ensures
        ({
            let first = resolved_metadata(cache, registry, a);
            let second = resolved_metadata(Some(first), registry, b);
            let third = resolved_metadata(Some(second), registry, a);
            &&& first == registry[a]
            &&& second == registry[b]
            &&& third == first
            &&& third.bind_group_layout == first.bind_group_layout
            &&& a != b ==> !cache_hit(Some(first), b) && !cache_hit(Some(second), a)
            &&& cache_hit(Some(first), a)
            &&& resolved_metadata(Some(first), registry, a) == first
        }),
{
}

/// Resolving through a coherent cache gives what the registry has on file for
/// the type, and leaves the cache coherent.
pub proof fn law_resolve_agrees_with_registry(
    cache: Option<AtmosphereModelMetadata>,
    registry: Map<u64, AtmosphereModelMetadata>,
    id: u64,
)
    requires
        registry_filed_by_tag(registry),
        cache_coherent(cache, registry),
        registry.contains_key(id),
    ensures
        resolved_metadata(cache, registry, id) == registry[id],
        cache_coherent(Some(resolved_metadata(cache, registry, id)), registry),
{
}

/// Every phase leaves a coherent cache coherent.
pub proof fn law_cache_stays_coherent(
    state: AtmosphereState,
    world: RenderWorldView,
    registry: Map<u64, AtmosphereModelMetadata>,
    images: Map<u64, GpuImage>,
    fallback: FallbackImage,
    pipelines: Seq<CachedPipelineState>,
    settings: Option<Observed<AtmosphereSettings>>,
    model: Option<Observed<AtmosphericView>>,
    image: Observed<AtmosphereImage>,
)
    requires
        registry_filed_by_tag(registry),
        cache_coherent(world.cached_metadata, registry),
        registry.contains_key(world.model.id),
        registry.contains_key(
            extracted(model, world.model_existed, world.model, world.default_model).id,
        ),
    ensures
        cache_coherent(
            extract_world(world, registry, settings, model, image).cached_metadata,
            registry,
        ),
        cache_coherent(prepare_world(world, images).cached_metadata, registry),
        cache_coherent(queue_world(world, registry, images, fallback).cached_metadata, registry),
        cache_coherent(update_world(state, world, registry).cached_metadata, registry),
        cache_coherent(cleanup_world(state, world, pipelines).cached_metadata, registry),
{
}

/// A model whose image is not resident gets no pass in that frame.
///
/// Whatever the node's state and whatever the pipelines' states, if a binding
/// of the render side's model reads an image that is not resident, then after
/// the bind groups were queued and the node was updated no pass is recorded.
/// The bind groups, the image and its view are as they were, and a pass that
/// was owed is owed again after cleanup.
pub proof fn law_retry_records_no_pass(
    state: AtmosphereState,
    world: RenderWorldView,
    registry: Map<u64, AtmosphereModelMetadata>,
    images: Map<u64, GpuImage>,
    fallback: FallbackImage,
    pipelines: Seq<CachedPipelineState>,
)
    requires
        !bindings_ready(world.model.bindings, images, fallback),
    ensures
        ({
            let queued = queue_world(world, registry, images, fallback);
            let updated = update_world(state, queued, registry);
            let next = update_state(state, queued, registry, pipelines);
            &&& recorded_pass(next, updated, pipelines) is None
            &&& updated.bind_groups == world.bind_groups
            &&& updated.image == world.image
            &&& updated.settings == world.settings
            &&& !(world.queue is Empty) ==> cleanup_world(next, updated, pipelines).queue
                is Compute
        }),
{
}

/// A frame whose model reads an image that is not resident records no pass and
/// leaves the bind groups as they were.
pub proof fn law_frame_retry_records_no_pass(
    pipeline: AtmospherePipelineView,
    registry: Map<u64, AtmosphereModelMetadata>,
    images: Map<u64, GpuImage>,
    fallback: FallbackImage,
    pipelines: Seq<CachedPipelineState>,
    settings: Option<Observed<AtmosphereSettings>>,
    model: Option<Observed<AtmosphericView>>,
)
    requires
        !bindings_ready(
            extracted(
                model,
                pipeline.render.model_existed,
                pipeline.render.model,
                pipeline.render.default_model,
            ).bindings,
            images,
            fallback,
        ),
    ensures
        frame_pass(pipeline, registry, images, fallback, pipelines, settings, model) is None,
        frame_end(
            pipeline,
            registry,
            images,
            fallback,
            pipelines,
            settings,
            model,
        ).render.bind_groups == pipeline.render.bind_groups,
{
    let extracted_world = frame_extracted(pipeline, registry, settings, model);
    law_retry_records_no_pass(
        pipeline.node.state,
        prepare_world(extracted_world, images),
        registry,
        images,
        fallback,
        pipelines,
    );
}

/// Settings that are removed revert to the default on the next extraction.
///
/// After an extraction that saw settings, whatever they were, an extraction
/// that sees none leaves the render side with the default settings: a
/// resolution of 512 and dithering on.
pub proof fn law_removed_settings_revert(
    world: RenderWorldView,
    registry: Map<u64, AtmosphereModelMetadata>,
    settings: Observed<AtmosphereSettings>,
    first_model: Option<Observed<AtmosphericView>>,
    second_model: Option<Observed<AtmosphericView>>,
    first_image: Observed<AtmosphereImage>,
    second_image: Observed<AtmosphereImage>,
)
    ensures
        ({
            let set = extract_world(world, registry, Some(settings), first_model, first_image);
            let removed = extract_world(set, registry, None, second_model, second_image);
            &&& settings.changed ==> set.settings == settings.value
            &&& removed.settings == AtmosphereSettings::spec_default()
            &&& removed.settings.resolution == 512
            &&& removed.settings.dithering
            &&& removed.queue is Compute
        }),
{
}

/// The image follows removed settings back to the default resolution, and is
/// reallocated at most once on the way.
///
/// When settings go away after having been there, the image is resized to
/// the default resolution exactly if it does not have it already, and if it
/// is resized its view is dropped. Settings that stay away change nothing
/// more.
pub proof fn law_removed_settings_resize_to_default(
    world: MainWorld,
    settings: Observed<AtmosphereSettings>,
)
    requires
        world.image_asset is Some,
    ensures
        ({
            let set = settings_changed_world(world, Some(settings));
            let removed = settings_changed_world(set, None);
            &&& removed.image_asset.unwrap().size == cubemap_extent(512)
            &&& settings_changed_resize(set, None) is Some <==> set.image_asset.unwrap().size
                != cubemap_extent(512)
            &&& settings_changed_resize(set, None) is Some ==> {
                &&& settings_changed_resize(set, None) == Some(
                    Resize { size: cubemap_extent(DEFAULT_RESOLUTION), aligned: true },
                )
                &&& removed.atmosphere_image.array_view is None
            }
            &&& settings_changed_resize(removed, None) is None
            &&& settings_changed_world(removed, None) == removed
        }),
{
}

/// A resolution that is a multiple of the workgroup size is dispatched with
/// an eighth of the resolution along x and along y, and with six along z.
pub proof fn law_dispatch_size_of_aligned(resolution: u32)
    requires
        resolution as int % WORKGROUP_SIZE as int == 0,
    ensures
        spec_dispatch_size(resolution) == ((resolution / 8) as u32, (resolution / 8) as u32, 6u32),
{
}

/// The workgroups of a pass cover every texel of a face, and no row of
/// workgroups lies wholly outside it.
pub proof fn law_dispatch_covers_face(resolution: u32)
    ensures
        spec_dispatch_size(resolution).0 * WORKGROUP_SIZE >= resolution,
        (spec_dispatch_size(resolution).0 - 1) * WORKGROUP_SIZE < resolution,
        spec_dispatch_size(resolution).1 == spec_dispatch_size(resolution).0,
        spec_dispatch_size(resolution).2 == CUBE_FACES,
{
}

/// A node that is ready stays ready.
pub proof fn law_ready_persists(
    world: RenderWorldView,
    registry: Map<u64, AtmosphereModelMetadata>,
    pipelines: Seq<CachedPipelineState>,
)
    ensures
        update_state(AtmosphereState::Ready, world, registry, pipelines) is Ready,
        update_world(AtmosphereState::Ready, world, registry) == world,
{
}

/// A node that is loading records no pass, and becomes ready exactly when the
/// pipeline of the active model's type is compiled.
pub proof fn law_loading_waits_for_pipeline(
    world: RenderWorldView,
    registry: Map<u64, AtmosphereModelMetadata>,
    pipelines: Seq<CachedPipelineState>,
)
    ensures
        recorded_pass(AtmosphereState::Loading, world, pipelines) is None,
        update_state(AtmosphereState::Loading, world, registry, pipelines) is Ready
            <==> crate::render_resource::PipelineCache::state_of(
            pipelines,
            resolved_metadata(world.cached_metadata, registry, world.model.id).pipeline,
        ) == Some(CachedPipelineState::Compiled),
{
}

/// Every pass that a frame records renders the frame's model at the frame's
/// resolution into the current view.
///
/// If a frame that starts with a coherent cache records a pass, then the bind
/// group at slot 0 is the one that the frame's model builds against the layout
/// registered for its type, the bind group at slot 1 binds the view that the
/// render side holds after the frame, the pipeline is the one registered for
/// the model's type, and the workgroups are those of the frame's resolution.
pub proof fn law_pass_is_current(
    pipeline: AtmospherePipelineView,
    registry: Map<u64, AtmosphereModelMetadata>,
    images: Map<u64, GpuImage>,
    fallback: FallbackImage,
    pipelines: Seq<CachedPipelineState>,
    settings: Option<Observed<AtmosphereSettings>>,
    model: Option<Observed<AtmosphericView>>,
)
    requires
        registry_filed_by_tag(registry),
        cache_coherent(pipeline.render.cached_metadata, registry),
        registry.contains_key(
            extracted(
                model,
                pipeline.render.model_existed,
                pipeline.render.model,
                pipeline.render.default_model,
            ).id,
        ),
        frame_pass(pipeline, registry, images, fallback, pipelines, settings, model) is Some,
    ensures
        ({
            let pass = frame_pass(
                pipeline,
                registry,
                images,
                fallback,
                pipelines,
                settings,
                model,
            ).unwrap();
            let end = frame_end(
                pipeline,
                registry,
                images,
                fallback,
                pipelines,
                settings,
                model,
            ).render;
            &&& end.image.array_view is Some
            &&& Ok::<_, crate::model::AsBindGroupError>(pass.bind_groups.0) == model_bind_group(
                end.model,
                registry[end.model.id].bind_group_layout,
                images,
                fallback,
            )
            &&& pass.bind_groups.1 == image_bind_group(
                end.image_bind_group_layout,
                end.image.array_view.unwrap(),
            )
            &&& pass.pipeline == registry[end.model.id].pipeline
            &&& pass.workgroups == spec_dispatch_size(end.settings.resolution)
            &&& end.queue is Empty
        }),
{
}

/// A frame consults the registry at most once, and not at all if the cache
/// holds the type of the frame's model from the start.
pub proof fn law_frame_fetches_at_most_once(
    pipeline: AtmospherePipelineView,
    registry: Map<u64, AtmosphereModelMetadata>,
    images: Map<u64, GpuImage>,
    fallback: FallbackImage,
    settings: Option<Observed<AtmosphereSettings>>,
    model: Option<Observed<AtmosphericView>>,
)
    requires
        registry_filed_by_tag(registry),
        registry.contains_key(
            extracted(
                model,
                pipeline.render.model_existed,
                pipeline.render.model,
                pipeline.render.default_model,
            ).id,
        ),
    ensures
        0 <= frame_fetches(pipeline, registry, images, fallback, settings, model) <= 1,
        cache_hit(
            pipeline.render.cached_metadata,
            extracted(
                model,
                pipeline.render.model_existed,
                pipeline.render.model,
                pipeline.render.default_model,
            ).id,
        ) ==> frame_fetches(pipeline, registry, images, fallback, settings, model) == 0,
{
}

/// The render side never writes what it renders from: after extraction no
/// phase changes the settings, the model, or the default model.
pub proof fn law_render_phases_keep_settings_and_model(
    state: AtmosphereState,
    world: RenderWorldView,
    registry: Map<u64, AtmosphereModelMetadata>,
    images: Map<u64, GpuImage>,
    fallback: FallbackImage,
    pipelines: Seq<CachedPipelineState>,
)
    ensures
        ({
            let prepared = prepare_world(world, images);
            let queued = queue_world(world, registry, images, fallback);
            let updated = update_world(state, world, registry);
            let cleaned = cleanup_world(state, world, pipelines);
            &&& prepared.settings == world.settings && prepared.model == world.model
            &&& queued.settings == world.settings && queued.model == world.model
            &&& updated.settings == world.settings && updated.model == world.model
            &&& cleaned.settings == world.settings && cleaned.model == world.model
            &&& prepared.default_model == world.default_model
            &&& queued.default_model == world.default_model
            &&& updated.default_model == world.default_model
            &&& cleaned.default_model == world.default_model
        }),
{
}

/// Settings and model are extracted apart: what the render side holds of the
/// one after an extraction does not depend on what the simulation side holds
/// of the other.
pub proof fn law_settings_and_model_are_extracted_apart(
    world: RenderWorldView,
    registry: Map<u64, AtmosphereModelMetadata>,
    settings: Option<Observed<AtmosphereSettings>>,
    other_settings: Option<Observed<AtmosphereSettings>>,
    model: Option<Observed<AtmosphericView>>,
    other_model: Option<Observed<AtmosphericView>>,
    image: Observed<AtmosphereImage>,
)
    ensures
        extract_world(world, registry, settings, model, image).settings == extract_world(
            world,
            registry,
            settings,
            other_model,
            image,
        ).settings,
        extract_world(world, registry, settings, model, image).model == extract_world(
            world,
            registry,
            other_settings,
            model,
            image,
        ).model,
{
}

/// The view of the cubemap is rebuilt once: preparing a render side that was
/// just prepared changes nothing.
pub proof fn law_prepare_is_idempotent(
    world: RenderWorldView,
    images: Map<u64, GpuImage>,
    later_images: Map<u64, GpuImage>,
)
    ensures
        prepare_world(world, images).image.array_view is Some,
        prepare_world(prepare_world(world, images), later_images) == prepare_world(world, images),
{
}

/// A pipeline starts with a cache that can be trusted, whatever the registry
/// holds, and with nothing owed.
pub proof fn law_build_starts_coherent(
    settings: AtmosphereSettings,
    handle: u64,
    image_bind_group_layout: AtmosphereImageBindGroupLayout,
    default_model: AtmosphericView,
    registry: Map<u64, AtmosphereModelMetadata>,
)
    ensures
        cache_coherent(
            AtmospherePipelinePlugin::initial(
                settings,
                handle,
                image_bind_group_layout,
                default_model,
            ).render.cached_metadata,
            registry,
        ),
        AtmospherePipelinePlugin::initial(
            settings,
            handle,
            image_bind_group_layout,
            default_model,
        ).render.queue is Empty,
{
}

/// A frame leaves a cache that can be trusted as one that can be trusted. So
/// every state that frames reach from a pipeline as it was built has such a
/// cache, as long as the registry stays as it is.
pub proof fn law_frames_keep_cache_coherent(
    pipeline: AtmospherePipelineView,
    registry: Map<u64, AtmosphereModelMetadata>,
    images: Map<u64, GpuImage>,
    fallback: FallbackImage,
    pipelines: Seq<CachedPipelineState>,
    settings: Option<Observed<AtmosphereSettings>>,
    model: Option<Observed<AtmosphericView>>,
)
    requires
        registry_filed_by_tag(registry),
        cache_coherent(pipeline.render.cached_metadata, registry),
        registry.contains_key(
            extracted(
                model,
                pipeline.render.model_existed,
                pipeline.render.model,
                pipeline.render.default_model,
            ).id,
        ),
    ensures
        cache_coherent(
            frame_end(
                pipeline,
                registry,
                images,
                fallback,
                pipelines,
                settings,
                model,
            ).render.cached_metadata,
            registry,
        ),
{
}

/// Bind groups are rebuilt for a reason only: a render side whose bind groups
/// are the ones that its model and its view ask for keeps them, however often
/// the phase runs while the pass stays owed.
pub proof fn law_bind_groups_are_kept_while_nothing_changes(
    world: RenderWorldView,
    registry: Map<u64, AtmosphereModelMetadata>,
    images: Map<u64, GpuImage>,
    fallback: FallbackImage,
)
    requires
        registry_filed_by_tag(registry),
        registry.contains_key(world.model.id),
        world.queue is Compute,
        bindings_ready(world.model.bindings, images, fallback),
    ensures
        ({
            let once = queue_world(world, registry, images, fallback);
            let twice = queue_world(once, registry, images, fallback);
            &&& twice == once
            &&& queue_outcome(once, registry, images, fallback) == (QueueOutcome::UpToDate {
                fetched: false,
            })
        }),
{
}

} // verus!
