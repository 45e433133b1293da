use std::sync::Arc;

use gpui_gpu::gpu::{
    GpuContext, GpuImage, GpuImageAlphaMode, GpuImageColorEncoding, GpuResourceError, GpuTexture,
    GpuTextureDescriptor,
};
use gpui_gpu::image_id::GpuImageIds;
use gpui_gpu::validation::{GpuImageError, TextureDimension};

fn noop_context(epoch: u64) -> GpuContext {
    let mut descriptor = wgpu::InstanceDescriptor::new_without_display_handle();
    descriptor.backends = wgpu::Backends::NOOP;
    descriptor.backend_options.noop = wgpu::NoopBackendOptions::enabled();
    let instance = wgpu::Instance::new(descriptor);
    let adapter = pollster::block_on(instance.request_adapter(&wgpu::RequestAdapterOptions::default()))
        .expect("the noop backend provides an adapter");
    let (device, queue) = pollster::block_on(adapter.request_device(&wgpu::DeviceDescriptor::default()))
        .expect("the noop adapter provides a device");
    GpuContext::new(epoch, Arc::new(instance), Arc::new(adapter), Arc::new(device), Arc::new(queue))
}

fn descriptor(
    size: (u32, u32, u32),
    dimension: TextureDimension,
    sample_count: u32,
    format: wgpu::TextureFormat,
    usage: wgpu::TextureUsages,
) -> GpuTextureDescriptor {
    GpuTextureDescriptor {
        label: Some("test texture".to_string()),
        width: size.0,
        height: size.1,
        depth_or_array_layers: size.2,
        mip_level_count: 1,
        sample_count,
        dimension,
        format,
        usage: usage.bits(),
        view_formats: Vec::new(),
    }
}

fn texture(
    context: &GpuContext,
    size: (u32, u32, u32),
    dimension: TextureDimension,
    sample_count: u32,
    format: wgpu::TextureFormat,
    usage: wgpu::TextureUsages,
) -> GpuTexture {
    context
        .create_texture(&descriptor(size, dimension, sample_count, format, usage))
        .expect("the descriptor is valid")
}

fn sampleable(context: &GpuContext) -> GpuTexture {
    texture(
        context,
        (512, 256, 1),
        TextureDimension::D2,
        1,
        wgpu::TextureFormat::Rgba8Unorm,
        wgpu::TextureUsages::TEXTURE_BINDING | wgpu::TextureUsages::RENDER_ATTACHMENT,
    )
}

fn image(context: &GpuContext, texture: GpuTexture, ids: &mut GpuImageIds) -> Result<Arc<GpuImage>, GpuImageError> {
    GpuImage::new(context, texture, GpuImageAlphaMode::Straight, GpuImageColorEncoding::DisplayEncoded, ids)
}

#[test]
fn context_reports_its_epoch_and_device() {
    let context = noop_context(11);
    assert_eq!(context.epoch().get(), 11);
    let copy = context.clone();
    assert!(Arc::ptr_eq(copy.device(), context.device()));
    assert!(Arc::ptr_eq(copy.queue(), context.queue()));
    assert!(Arc::ptr_eq(copy.adapter(), context.adapter()));
    assert!(Arc::ptr_eq(copy.instance(), context.instance()));
    assert_eq!(context.adapter_info().backend, wgpu::Backend::Noop);
    assert_eq!(context.adapter_info(), context.adapter().get_info());
    assert_eq!(context.features(), context.device().features());
    assert_eq!(context.limits(), context.device().limits());
}

#[test]
fn created_texture_carries_the_context_epoch() {
    let context = noop_context(4);
    let texture = sampleable(&context);
    assert_eq!(texture.epoch(), context.epoch());
    let wgpu_texture = texture.texture();
    assert_eq!(wgpu_texture.size(), wgpu::Extent3d { width: 512, height: 256, depth_or_array_layers: 1 });
    assert_eq!(wgpu_texture.dimension(), wgpu::TextureDimension::D2);
    assert_eq!(wgpu_texture.sample_count(), 1);
    assert_eq!(wgpu_texture.format(), wgpu::TextureFormat::Rgba8Unorm);
    assert_eq!(
        wgpu_texture.usage(),
        wgpu::TextureUsages::TEXTURE_BINDING | wgpu::TextureUsages::RENDER_ATTACHMENT
    );
}

#[test]
fn invalid_descriptor_comes_back_as_an_error() {
    let context = noop_context(6);
    let binding = wgpu::TextureUsages::TEXTURE_BINDING;
    let unorm = wgpu::TextureFormat::Rgba8Unorm;
    let empty = context.create_texture(&descriptor((0, 64, 1), TextureDimension::D2, 1, unorm, binding));
    assert!(matches!(empty, Err(GpuResourceError(wgpu::Error::Validation { .. }))));
    let unused = context.create_texture(&descriptor(
        (64, 64, 1),
        TextureDimension::D2,
        1,
        unorm,
        wgpu::TextureUsages::empty(),
    ));
    assert!(matches!(unused, Err(GpuResourceError(wgpu::Error::Validation { .. }))));
    let unresolvable = context.create_texture(&descriptor((64, 64, 1), TextureDimension::D2, 4, unorm, binding));
    assert!(matches!(unresolvable, Err(GpuResourceError(wgpu::Error::Validation { .. }))));
    assert!(context.create_texture(&descriptor((64, 64, 1), TextureDimension::D2, 1, unorm, binding)).is_ok());
}

#[test]
fn cloned_context_shares_the_device_lifetime() {
    let context = noop_context(8);
    let copy = context.clone();
    drop(context);
    assert_eq!(copy.epoch().get(), 8);
    assert_eq!(Arc::strong_count(copy.device()), 1);
    let texture = sampleable(&copy);
    assert_eq!(texture.epoch(), copy.epoch());
}

#[test]
fn texture_from_another_epoch_is_refused() {
    let old = noop_context(1);
    let new = noop_context(2);
    let mut ids = GpuImageIds::new();
    let result = image(&new, sampleable(&old), &mut ids);
    assert_eq!(result.err(), Some(GpuImageError::EpochMismatch { texture_epoch: 1, context_epoch: 2 }));
    let mut fresh = GpuImageIds::new();
    assert_eq!(ids.allocate(), fresh.allocate());
}

#[test]
fn texture_shape_is_read_from_wgpu() {
    let context = noop_context(3);
    let mut ids = GpuImageIds::new();
    let binding = wgpu::TextureUsages::TEXTURE_BINDING;
    let unorm = wgpu::TextureFormat::Rgba8Unorm;
    let layered = texture(&context, (64, 64, 6), TextureDimension::D2, 1, unorm, binding);
    assert_eq!(image(&context, layered, &mut ids).err(), Some(GpuImageError::NotSingleLayer2d));
    let volume = texture(&context, (64, 64, 1), TextureDimension::D3, 1, unorm, binding);
    assert_eq!(image(&context, volume, &mut ids).err(), Some(GpuImageError::NotSingleLayer2d));
    let attachment = binding | wgpu::TextureUsages::RENDER_ATTACHMENT;
    let multisampled = texture(&context, (64, 64, 1), TextureDimension::D2, 4, unorm, attachment);
    assert_eq!(image(&context, multisampled, &mut ids).err(), Some(GpuImageError::Multisampled));
    let unbound = texture(
        &context,
        (64, 64, 1),
        TextureDimension::D2,
        1,
        unorm,
        wgpu::TextureUsages::RENDER_ATTACHMENT,
    );
    assert_eq!(image(&context, unbound, &mut ids).err(), Some(GpuImageError::MissingTextureBinding));
    let srgb = texture(
        &context,
        (64, 64, 1),
        TextureDimension::D2,
        1,
        wgpu::TextureFormat::Rgba8UnormSrgb,
        binding,
    );
    assert_eq!(image(&context, srgb, &mut ids).err(), Some(GpuImageError::SrgbFormat));
}

#[test]
fn noop_adapter_cannot_filter() {
    let context = noop_context(5);
    let mut ids = GpuImageIds::new();
    let result = image(&context, sampleable(&context), &mut ids);
    assert_eq!(result.err(), Some(GpuImageError::NotFilterable));
}

#[test]
fn created_texture_keeps_the_mip_level_count() {
    let context = noop_context(9);
    let mut described = descriptor(
        (64, 32, 1),
        TextureDimension::D2,
        1,
        wgpu::TextureFormat::Rgba8Unorm,
        wgpu::TextureUsages::TEXTURE_BINDING,
    );
    described.mip_level_count = 3;
    let texture = context.create_texture(&described).expect("the descriptor is valid");
    assert_eq!(texture.texture().mip_level_count(), 3);
}

#[test]
fn refusal_from_a_stale_context_reads_as_before() {
    let old = noop_context(1);
    let new = noop_context(2);
    let mut ids = GpuImageIds::new();
    let error = image(&new, sampleable(&old), &mut ids).err().expect("a stale texture is refused");
    assert_eq!(error.message(), "GPU texture belongs to device epoch 1, but the context epoch is 2");
}
