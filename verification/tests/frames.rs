use bevy_atmosphere::model::{
    AtmosphereModel, AtmosphereTypeRegistry, Atmospheric, BindGroupEntry, Binding,
    BindingResource, BindingSource,
};
use bevy_atmosphere::pipeline::{
    AtmosphereImageBindGroupLayout, AtmospherePipeline, AtmospherePipelinePlugin,
    AtmosphereQueue, AtmosphereState, FrameReport, Image, Observed, PipelineError, QueueOutcome,
    Resize,
};
use bevy_atmosphere::render_resource::{
    BindGroupLayout, CachedComputePipelineId, CachedPipelineState, Extent3d, FallbackImage,
    GpuImage, PipelineCache, RenderAssets, Sampler, Texture, TextureFormat, TextureView,
    TextureViewDescriptor, TextureViewDimension,
};
use bevy_atmosphere::settings::AtmosphereSettings;

const NISHITA: u64 = 11;
const GRADIENT: u64 = 22;
const SKY_IMAGE: u64 = 7;
const CLOUD_IMAGE: u64 = 8;

fn view_of(texture: u64, dimension: TextureViewDimension, layers: u32) -> TextureView {
    TextureView {
        texture: Texture(texture),
        descriptor: TextureViewDescriptor {
            format: Some(TextureFormat::Rgba16Float),
            dimension: Some(dimension),
            array_layer_count: Some(layers),
        },
    }
}

fn gpu_image(texture: u64, sampler: u64, resolution: u32) -> GpuImage {
    GpuImage {
        texture: Texture(texture),
        texture_view: view_of(texture, TextureViewDimension::Cube, 6),
        sampler: Sampler(sampler),
        size: Extent3d { width: resolution, height: resolution, depth_or_array_layers: 6 },
    }
}

fn fallback() -> FallbackImage {
    FallbackImage {
        texture_view: view_of(999, TextureViewDimension::D2, 1),
        sampler: Sampler(998),
    }
}

fn nishita() -> AtmosphereModel {
    AtmosphereModel::new(Atmospheric {
        id: NISHITA,
        uniform: vec![1, 2, 3],
        bindings: vec![Binding { binding: 0, source: BindingSource::Uniform { offset: 0, size: 16 } }],
    })
}

fn gradient() -> AtmosphereModel {
    AtmosphereModel::new(Atmospheric {
        id: GRADIENT,
        uniform: vec![9, 8],
        bindings: vec![Binding { binding: 0, source: BindingSource::Uniform { offset: 0, size: 16 } }],
    })
}

fn cloudy() -> AtmosphereModel {
    AtmosphereModel::new(Atmospheric {
        id: GRADIENT,
        uniform: vec![5],
        bindings: vec![
            Binding { binding: 0, source: BindingSource::Uniform { offset: 0, size: 16 } },
            Binding { binding: 1, source: BindingSource::Texture(Some(CLOUD_IMAGE)) },
        ],
    })
}

struct Host {
    registry: AtmosphereTypeRegistry,
    images: RenderAssets,
    pipelines: PipelineCache,
    nishita_pipeline: CachedComputePipelineId,
    gradient_pipeline: CachedComputePipelineId,
}

fn host() -> Host {
    let mut pipelines = PipelineCache::new();
    let mut registry = AtmosphereTypeRegistry::new();
    let nishita_pipeline = pipelines.queue_compute_pipeline();
    registry.register(NISHITA, BindGroupLayout(100), nishita_pipeline);
    let gradient_pipeline = pipelines.queue_compute_pipeline();
    registry.register(GRADIENT, BindGroupLayout(200), gradient_pipeline);
    let mut images = RenderAssets::new();
    images.insert(SKY_IMAGE, gpu_image(70, 71, 512));
    Host { registry, images, pipelines, nishita_pipeline, gradient_pipeline }
}

fn build(settings: AtmosphereSettings) -> AtmospherePipeline {
    AtmospherePipelinePlugin { settings }.build(
        SKY_IMAGE,
        AtmosphereImageBindGroupLayout(BindGroupLayout(1)),
        nishita(),
    )
}

fn frame(
    pipeline: &mut AtmospherePipeline,
    host: &Host,
    settings: Option<Observed<AtmosphereSettings>>,
    model: Option<Observed<&AtmosphereModel>>,
) -> FrameReport {
    pipeline.advance_frame(
        &host.registry,
        &host.images,
        &fallback(),
        &host.pipelines,
        settings,
        model,
    )
}

fn written<T>(value: T) -> Option<Observed<T>> {
    Some(Observed { value, changed: true })
}

fn untouched<T>(value: T) -> Option<Observed<T>> {
    Some(Observed { value, changed: false })
}

fn cube_view(texture: u64) -> Vec<BindGroupEntry> {
    vec![BindGroupEntry {
        binding: 0,
        resource: BindingResource::TextureView(view_of(texture, TextureViewDimension::Cube, 6)),
    }]
}

#[test]
fn default_settings_and_model_frame_by_frame() {
    let mut host = host();
    let mut pipeline = build(AtmosphereSettings::default());
    let model = nishita();

    assert_eq!(
        pipeline.main.image_asset,
        Some(Image {
            size: Extent3d { width: 512, height: 512, depth_or_array_layers: 6 },
            format: TextureFormat::Rgba16Float,
        })
    );
    assert_eq!(pipeline.main.atmosphere_image.array_view, None);
    assert_eq!(pipeline.render.settings.resolution, 512);
    assert_eq!(pipeline.render.queue, AtmosphereQueue::Empty);
    assert_eq!(pipeline.render.cached_metadata.0, None);
    assert_eq!(pipeline.node.state, AtmosphereState::Loading);

    // The model arrives while the pipeline is still compiling: a pass is
    // owed, and frames pass without a dispatch.
    let report = frame(&mut pipeline, &host, None, written(&model));
    assert_eq!(report.resize, None);
    assert!(report.view_rebuilt);
    assert_eq!(report.queued, QueueOutcome::Rebuilt { fetched: true });
    assert_eq!(report.fetches, 1);
    assert_eq!(report.pipeline, Ok(()));
    assert!(report.pass.is_none());
    assert_eq!(pipeline.node.state, AtmosphereState::Loading);
    assert_eq!(pipeline.render.queue, AtmosphereQueue::Compute);

    host.pipelines.set_compute_pipeline_state(host.nishita_pipeline, CachedPipelineState::Creating);
    let report = frame(&mut pipeline, &host, None, untouched(&model));
    assert!(!report.view_rebuilt);
    // Nothing changed, so the bind groups are not rebuilt while waiting.
    assert_eq!(report.queued, QueueOutcome::UpToDate { fetched: false });
    assert_eq!(report.fetches, 0);
    assert!(report.pass.is_none());
    assert_eq!(pipeline.node.state, AtmosphereState::Loading);

    // The backend reports the pipeline compiled: one dispatch, and the node is ready.
    host.pipelines.set_compute_pipeline_state(host.nishita_pipeline, CachedPipelineState::Compiled);
    let report = frame(&mut pipeline, &host, None, untouched(&model));
    let pass = report.pass.expect("a pass is recorded in the frame the pipeline is compiled");
    assert_eq!(pass.workgroups, (64, 64, 6));
    assert_eq!(pass.pipeline, host.nishita_pipeline);
    assert_eq!(pass.bind_groups.0.layout, BindGroupLayout(100));
    assert_eq!(pass.bind_groups.0.uniform, vec![1, 2, 3]);
    assert_eq!(pass.bind_groups.1.layout, BindGroupLayout(1));
    assert_eq!(pass.bind_groups.1.entries, cube_view(70));
    assert_eq!(pipeline.node.state, AtmosphereState::Ready);
    assert_eq!(pipeline.render.queue, AtmosphereQueue::Empty);

    // Nothing changed: nothing is recorded.
    let report = frame(&mut pipeline, &host, None, untouched(&model));
    assert_eq!(report.queued, QueueOutcome::Skipped);
    assert!(report.pass.is_none());

    // The active model is swapped for one of another registered type.
    host.pipelines.set_compute_pipeline_state(host.gradient_pipeline, CachedPipelineState::Compiled);
    let swapped = gradient();
    let report = frame(&mut pipeline, &host, None, written(&swapped));
    // The cache misses the new type once, when the model is copied.
    assert_eq!(report.fetches, 1);
    assert_eq!(report.queued, QueueOutcome::Rebuilt { fetched: false });
    assert_eq!(pipeline.render.cached_metadata.0.unwrap().id, GRADIENT);
    let pass = report.pass.expect("the swapped model is rendered");
    assert_eq!(pass.workgroups, (64, 64, 6));
    assert_eq!(pass.pipeline, host.gradient_pipeline);
    assert_eq!(pass.bind_groups.0.layout, BindGroupLayout(200));
    assert_eq!(pass.bind_groups.0.uniform, vec![9, 8]);
    assert_eq!(pass.bind_groups.1.layout, BindGroupLayout(1));
    assert_eq!(pass.bind_groups.1.entries, cube_view(70));
}

#[test]
fn nothing_is_owed_before_something_is_copied() {
    let mut host = host();
    host.pipelines.set_compute_pipeline_state(host.nishita_pipeline, CachedPipelineState::Compiled);
    let mut pipeline = build(AtmosphereSettings::default());

    let report = frame(&mut pipeline, &host, None, None);
    assert_eq!(report.queued, QueueOutcome::Skipped);
    assert!(report.pass.is_none());
    assert_eq!(pipeline.render.queue, AtmosphereQueue::Empty);
    // The node polls its pipeline whatever is owed.
    assert_eq!(pipeline.node.state, AtmosphereState::Ready);

    let model = nishita();
    let report = frame(&mut pipeline, &host, None, written(&model));
    assert!(report.pass.is_some());
}

#[test]
fn same_settings_twice_reallocate_once() {
    let host = host();
    let mut pipeline = build(AtmosphereSettings { resolution: 256, dithering: true });
    let settings = AtmosphereSettings { resolution: 512, dithering: true };

    let first = frame(&mut pipeline, &host, written(settings), None);
    let view = pipeline.render.image.array_view;
    let second = frame(&mut pipeline, &host, written(settings), None);
    let third = frame(&mut pipeline, &host, untouched(settings), None);

    assert_eq!(
        first.resize,
        Some(Resize {
            size: Extent3d { width: 512, height: 512, depth_or_array_layers: 6 },
            aligned: true,
        })
    );
    assert!(first.view_rebuilt);
    assert_eq!(second.resize, None);
    assert!(!second.view_rebuilt);
    assert_eq!(third.resize, None);
    assert!(!third.view_rebuilt);
    assert_eq!(pipeline.main.image_asset.unwrap().size.width, 512);
    assert!(view.is_some());
    assert_eq!(pipeline.render.image.array_view, view);
}

#[test]
fn settings_of_the_resolution_in_place_reallocate_nothing() {
    let host = host();
    let mut pipeline = build(AtmosphereSettings::default());
    let report = frame(
        &mut pipeline,
        &host,
        written(AtmosphereSettings { resolution: 512, dithering: false }),
        None,
    );
    assert_eq!(report.resize, None);
    assert_eq!(pipeline.main.image_asset, Some(Image::new_cubemap(512)));
    assert!(!pipeline.render.settings.dithering);
    // The settings were written, so a pass is owed all the same.
    assert_eq!(pipeline.render.queue, AtmosphereQueue::Compute);
}

#[test]
fn removed_settings_revert_to_default_resolution() {
    let host = host();
    let mut pipeline = build(AtmosphereSettings::default());

    frame(
        &mut pipeline,
        &host,
        written(AtmosphereSettings { resolution: 256, dithering: false }),
        None,
    );
    assert_eq!(pipeline.render.settings.resolution, 256);
    assert!(!pipeline.render.settings.dithering);
    assert_eq!(pipeline.main.image_asset.unwrap().size.width, 256);

    let report = frame(&mut pipeline, &host, None, None);
    assert_eq!(pipeline.render.settings.resolution, 512);
    assert!(pipeline.render.settings.dithering);
    assert_eq!(pipeline.render.settings, AtmosphereSettings::default());
    assert_eq!(
        report.resize,
        Some(Resize {
            size: Extent3d { width: 512, height: 512, depth_or_array_layers: 6 },
            aligned: true,
        })
    );

    // Settings that stay away change nothing more.
    let report = frame(&mut pipeline, &host, None, None);
    assert_eq!(report.resize, None);
    assert_eq!(pipeline.render.settings.resolution, 512);
}

#[test]
fn missing_texture_skips_the_frame_and_is_tried_again() {
    let mut host = host();
    host.pipelines.set_compute_pipeline_state(host.nishita_pipeline, CachedPipelineState::Compiled);
    host.pipelines.set_compute_pipeline_state(host.gradient_pipeline, CachedPipelineState::Compiled);
    let mut pipeline = build(AtmosphereSettings::default());
    let first = nishita();

    let report = frame(&mut pipeline, &host, None, written(&first));
    assert!(report.pass.is_some());
    let before = pipeline.render.bind_groups.clone().unwrap();
    let image_before = pipeline.render.image;

    // The new model reads an image that has not arrived.
    let model = cloudy();
    let report = frame(&mut pipeline, &host, None, written(&model));
    assert_eq!(report.queued, QueueOutcome::RetryNextUpdate { fetched: false });
    assert_eq!(report.fetches, 1);
    assert!(report.pass.is_none());
    let kept = pipeline.render.bind_groups.clone().unwrap();
    assert!(kept.same_as(&before));
    assert_eq!(pipeline.render.image, image_before);
    assert_eq!(pipeline.render.queue, AtmosphereQueue::Compute);

    // Still missing: still no pass.
    let report = frame(&mut pipeline, &host, None, untouched(&model));
    assert_eq!(report.queued, QueueOutcome::RetryNextUpdate { fetched: false });
    assert!(report.pass.is_none());
    assert!(pipeline.render.bind_groups.clone().unwrap().same_as(&before));

    // The image arrives: the pass that was owed is recorded without any change.
    host.images.insert(CLOUD_IMAGE, gpu_image(80, 81, 64));
    let report = frame(&mut pipeline, &host, None, untouched(&model));
    assert_eq!(report.queued, QueueOutcome::Rebuilt { fetched: false });
    let pass = report.pass.unwrap();
    assert_eq!(pass.pipeline, host.gradient_pipeline);
    assert_eq!(
        pass.bind_groups.0.entries,
        vec![
            BindGroupEntry {
                binding: 0,
                resource: BindingResource::Buffer { offset: 0, size: 16 },
            },
            BindGroupEntry {
                binding: 1,
                resource: BindingResource::TextureView(view_of(80, TextureViewDimension::Cube, 6)),
            },
        ]
    );
    assert_eq!(pipeline.render.queue, AtmosphereQueue::Empty);
}

#[test]
fn switching_types_and_back_resolves_the_same_layout() {
    let mut host = host();
    host.pipelines.set_compute_pipeline_state(host.nishita_pipeline, CachedPipelineState::Compiled);
    host.pipelines.set_compute_pipeline_state(host.gradient_pipeline, CachedPipelineState::Compiled);
    let mut pipeline = build(AtmosphereSettings::default());
    let a = nishita();
    let b = gradient();

    let first = frame(&mut pipeline, &host, None, written(&a));
    let second = frame(&mut pipeline, &host, None, written(&b));
    let third = frame(&mut pipeline, &host, None, written(&a));
    let fourth = frame(&mut pipeline, &host, None, written(&a));

    let first_layout = first.pass.as_ref().unwrap().bind_groups.0.layout;
    let second_layout = second.pass.as_ref().unwrap().bind_groups.0.layout;
    let third_layout = third.pass.as_ref().unwrap().bind_groups.0.layout;
    assert_eq!(first_layout, BindGroupLayout(100));
    assert_eq!(second_layout, BindGroupLayout(200));
    assert_eq!(third_layout, first_layout);
    assert_eq!(first.queued, QueueOutcome::Rebuilt { fetched: true });
    // The cache is refreshed when the model is copied, so queueing hits it.
    assert_eq!(second.queued, QueueOutcome::Rebuilt { fetched: false });
    assert_eq!(third.queued, QueueOutcome::Rebuilt { fetched: false });
    // The same model written again asks for the bind groups in place.
    assert_eq!(fourth.queued, QueueOutcome::UpToDate { fetched: false });
    assert!(fourth.pass.is_some());
    assert_eq!(first.fetches, 1);
    assert_eq!(second.fetches, 1);
    assert_eq!(third.fetches, 1);
    // A type that stays is answered from the cache.
    assert_eq!(fourth.fetches, 0);
    assert_eq!(pipeline.render.cached_metadata.0.unwrap().id, NISHITA);
}

#[test]
fn removed_model_reverts_to_default_model() {
    let mut host = host();
    host.pipelines.set_compute_pipeline_state(host.nishita_pipeline, CachedPipelineState::Compiled);
    host.pipelines.set_compute_pipeline_state(host.gradient_pipeline, CachedPipelineState::Compiled);
    let mut pipeline = build(AtmosphereSettings::default());
    let model = gradient();

    let report = frame(&mut pipeline, &host, None, written(&model));
    assert_eq!(report.pass.unwrap().pipeline, host.gradient_pipeline);
    assert_eq!(pipeline.render.model.model().id, GRADIENT);

    let report = frame(&mut pipeline, &host, None, None);
    assert_eq!(pipeline.render.model.model().id, NISHITA);
    assert_eq!(pipeline.render.model.model().uniform, vec![1, 2, 3]);
    assert_eq!(report.pass.unwrap().pipeline, host.nishita_pipeline);
}

#[test]
fn failed_pipeline_is_reported_and_never_dispatched() {
    let mut host = host();
    host.pipelines.set_compute_pipeline_state(host.nishita_pipeline, CachedPipelineState::Failed);
    let mut pipeline = build(AtmosphereSettings::default());
    let model = nishita();

    let report = frame(&mut pipeline, &host, None, written(&model));
    assert_eq!(
        report.pipeline,
        Err(PipelineError::CompilationFailed(host.nishita_pipeline))
    );
    assert!(report.pass.is_none());
    assert_eq!(pipeline.node.state, AtmosphereState::Loading);
    assert_eq!(pipeline.render.queue, AtmosphereQueue::Compute);
}

#[test]
fn swapped_type_waits_for_its_own_pipeline() {
    let mut host = host();
    host.pipelines.set_compute_pipeline_state(host.nishita_pipeline, CachedPipelineState::Compiled);
    let mut pipeline = build(AtmosphereSettings::default());
    frame(&mut pipeline, &host, None, None);
    assert_eq!(pipeline.node.state, AtmosphereState::Ready);

    let model = gradient();
    let report = frame(&mut pipeline, &host, None, written(&model));
    assert_eq!(report.queued, QueueOutcome::Rebuilt { fetched: false });
    assert!(report.pass.is_none());
    assert_eq!(pipeline.render.queue, AtmosphereQueue::Compute);
    assert_eq!(pipeline.node.state, AtmosphereState::Ready);

    // The pass stays owed, and the bind groups stay as they are.
    let report = frame(&mut pipeline, &host, None, untouched(&model));
    assert_eq!(report.queued, QueueOutcome::UpToDate { fetched: false });
    assert!(report.pass.is_none());

    host.pipelines.set_compute_pipeline_state(host.gradient_pipeline, CachedPipelineState::Compiled);
    let report = frame(&mut pipeline, &host, None, untouched(&model));
    assert_eq!(report.queued, QueueOutcome::UpToDate { fetched: false });
    assert_eq!(report.pass.unwrap().pipeline, host.gradient_pipeline);
}

#[test]
fn resize_reallocates_the_view_and_rebinds_it() {
    let mut host = host();
    host.pipelines.set_compute_pipeline_state(host.nishita_pipeline, CachedPipelineState::Compiled);
    let mut pipeline = build(AtmosphereSettings::default());
    let model = nishita();
    let report = frame(&mut pipeline, &host, None, written(&model));
    assert_eq!(report.pass.unwrap().bind_groups.1.entries, cube_view(70));

    // The host uploads the resized image as a new texture.
    host.images.insert(SKY_IMAGE, gpu_image(72, 71, 1024));
    let report = frame(
        &mut pipeline,
        &host,
        written(AtmosphereSettings { resolution: 1024, dithering: true }),
        untouched(&model),
    );
    assert!(report.view_rebuilt);
    assert_eq!(report.queued, QueueOutcome::Rebuilt { fetched: false });
    let pass = report.pass.unwrap();
    assert_eq!(pass.workgroups, (128, 128, 6));
    assert_eq!(pass.bind_groups.1.entries, cube_view(72));
}
