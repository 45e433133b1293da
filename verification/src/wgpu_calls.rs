//! The wgpu types that the library holds and the wgpu calls that it makes.
//!
//! Every item here is trusted: Verus believes its contract without reading the
//! body, which makes one call into wgpu and converts its result to plain values.
use vstd::prelude::*;

use crate::gpu::GpuTextureDescriptor;
use crate::validation::TextureDimension;

verus! {

#[verifier::external_type_specification]
#[verifier::external_body]
pub struct ExInstance(wgpu::Instance);

#[verifier::external_type_specification]
#[verifier::external_body]
pub struct ExAdapter(wgpu::Adapter);

#[verifier::external_type_specification]
#[verifier::external_body]
pub struct ExDevice(wgpu::Device);

#[verifier::external_type_specification]
#[verifier::external_body]
pub struct ExQueue(wgpu::Queue);

#[verifier::external_type_specification]
#[verifier::external_body]
pub struct ExTexture(wgpu::Texture);

#[verifier::external_type_specification]
#[verifier::external_body]
pub struct ExTextureView(wgpu::TextureView);

#[verifier::external_type_specification]
#[verifier::external_body]
pub struct ExTextureFormat(wgpu::TextureFormat);

#[verifier::external_type_specification]
#[verifier::external_body]
pub struct ExAdapterInfo(wgpu::AdapterInfo);

#[verifier::external_type_specification]
#[verifier::external_body]
pub struct ExFeatures(wgpu::Features);

#[verifier::external_type_specification]
#[verifier::external_body]
pub struct ExLimits(wgpu::Limits);

#[verifier::external_type_specification]
#[verifier::external_body]
pub struct ExError(wgpu::Error);

/// The extent (width, height, depth or array layers) that `wgpu::Texture::size` returns.
pub uninterp spec fn extent_of(texture: wgpu::Texture) -> (u32, u32, u32);

/// `wgpu::Texture::size`: the extent the texture was created with, as
/// (width, height, depth or array layers).
#[verifier::external_body]
pub(crate) fn texture_extent(texture: &wgpu::Texture) -> (extent: (u32, u32, u32))
    ensures
        extent == extent_of(*texture),
{
    let size = texture.size();
    (size.width, size.height, size.depth_or_array_layers)
}

/// The dimensionality that `wgpu::Texture::dimension` returns.
pub uninterp spec fn dimension_of(texture: wgpu::Texture) -> TextureDimension;

/// `wgpu::Texture::dimension`: the dimensionality the texture was created with.
#[verifier::external_body]
pub(crate) fn texture_dimension(texture: &wgpu::Texture) -> (dimension: TextureDimension)
    ensures
        dimension == dimension_of(*texture),
{
    match texture.dimension() {
        wgpu::TextureDimension::D1 => TextureDimension::D1,
        wgpu::TextureDimension::D2 => TextureDimension::D2,
        wgpu::TextureDimension::D3 => TextureDimension::D3,
    }
}

/// The sample count that `wgpu::Texture::sample_count` returns.
pub uninterp spec fn sample_count_of(texture: wgpu::Texture) -> u32;

/// `wgpu::Texture::sample_count`: the number of samples the texture was created with.
#[verifier::external_body]
pub(crate) fn texture_sample_count(texture: &wgpu::Texture) -> (count: u32)
    ensures
        count == sample_count_of(*texture),
{
    texture.sample_count()
}

/// The bits of the usage flags that `wgpu::Texture::usage` returns.
pub uninterp spec fn usage_of(texture: wgpu::Texture) -> u32;

/// `wgpu::Texture::usage`: the usage flags the texture was created with, as bits.
#[verifier::external_body]
pub(crate) fn texture_usage(texture: &wgpu::Texture) -> (usage: u32)
    ensures
        usage == usage_of(*texture),
{
    texture.usage().bits()
}

/// The format that `wgpu::Texture::format` returns.
pub uninterp spec fn format_of(texture: wgpu::Texture) -> wgpu::TextureFormat;

/// `wgpu::Texture::format`: the format the texture was created with.
#[verifier::external_body]
pub(crate) fn texture_format(texture: &wgpu::Texture) -> (format: wgpu::TextureFormat)
    ensures
        format == format_of(*texture),
{
    texture.format()
}

/// What `wgpu::TextureFormat::is_srgb` answers for a format.
pub uninterp spec fn is_srgb_format(format: wgpu::TextureFormat) -> bool;

/// `wgpu::TextureFormat::is_srgb`: whether the format differs from its
/// counterpart without the sRGB suffix.
#[verifier::external_body]
pub(crate) fn format_is_srgb(format: wgpu::TextureFormat) -> (srgb: bool)
    ensures
        srgb == is_srgb_format(format),
{
    format.is_srgb()
}

/// The bits of the feature flags that `wgpu::Adapter::get_texture_format_features`
/// reports for a format on an adapter.
pub uninterp spec fn format_features_of(adapter: wgpu::Adapter, format: wgpu::TextureFormat) -> u32;

/// `wgpu::Adapter::get_texture_format_features`: the feature flags, as bits, that
/// the adapter reports for a format.
#[verifier::external_body]
pub(crate) fn format_feature_flags(adapter: &wgpu::Adapter, format: wgpu::TextureFormat) -> (flags: u32)
    ensures
        flags == format_features_of(*adapter, format),
{
    adapter.get_texture_format_features(format).flags.bits()
}

/// The mip level count that `wgpu::Texture::mip_level_count` returns.
pub uninterp spec fn mip_level_count_of(texture: wgpu::Texture) -> u32;

/// The texture that `wgpu::TextureView::texture` returns: the one the view was made from.
pub uninterp spec fn texture_of_view(view: wgpu::TextureView) -> wgpu::Texture;

/// The information that `wgpu::Adapter::get_info` reports for an adapter.
pub uninterp spec fn adapter_info_of(adapter: wgpu::Adapter) -> wgpu::AdapterInfo;

/// `wgpu::Adapter::get_info`: a copy of the information the adapter was
/// enumerated with, which stays the same for the adapter's whole life.
#[verifier::external_body]
pub(crate) fn adapter_info(adapter: &wgpu::Adapter) -> (info: wgpu::AdapterInfo)
    ensures
        info == adapter_info_of(*adapter),
{
    adapter.get_info()
}

/// The features that `wgpu::Device::features` reports for a device.
pub uninterp spec fn features_of(device: wgpu::Device) -> wgpu::Features;

/// `wgpu::Device::features`: the features the device was created with, which
/// stay the same for the device's whole life.
#[verifier::external_body]
pub(crate) fn device_features(device: &wgpu::Device) -> (features: wgpu::Features)
    ensures
        features == features_of(*device),
{
    device.features()
}

/// The limits that `wgpu::Device::limits` reports for a device.
pub uninterp spec fn limits_of(device: wgpu::Device) -> wgpu::Limits;

/// `wgpu::Device::limits`: the limits the device was created with (its
/// requested limits), which stay the same for the device's whole life.
#[verifier::external_body]
pub(crate) fn device_limits(device: &wgpu::Device) -> (limits: wgpu::Limits)
    ensures
        limits == limits_of(*device),
{
    device.limits()
}

/// `wgpu::Device::create_texture`, inside validation and out-of-memory error
/// scopes of the device, so that an invalid descriptor or a lack of memory comes
/// back as the error wgpu reports rather than going to the device's handler. The
/// texture keeps the descriptor's size, dimension, mip level count, sample count,
/// format and usage.
/// Whether wgpu accepts the descriptor depends on the device and its adapter, so
/// that is not stated.
#[verifier::external_body]
pub(crate) fn create_texture(device: &wgpu::Device, d: &GpuTextureDescriptor) -> (result: Result<wgpu::Texture, wgpu::Error>)
    ensures
        result matches Ok(texture) ==> {
            &&& extent_of(texture) == (d.width, d.height, d.depth_or_array_layers)
            &&& dimension_of(texture) == d.dimension
            &&& sample_count_of(texture) == d.sample_count
            &&& mip_level_count_of(texture) == d.mip_level_count
            &&& usage_of(texture) == d.usage
            &&& format_of(texture) == d.format
        },
{
    let validation = device.push_error_scope(wgpu::ErrorFilter::Validation);
    let memory = device.push_error_scope(wgpu::ErrorFilter::OutOfMemory);
    let dimension = match d.dimension {
        TextureDimension::D1 => wgpu::TextureDimension::D1,
        TextureDimension::D2 => wgpu::TextureDimension::D2,
        TextureDimension::D3 => wgpu::TextureDimension::D3,
    };
    let size = wgpu::Extent3d { width: d.width, height: d.height, depth_or_array_layers: d.depth_or_array_layers };
    let texture = device.create_texture(&wgpu::TextureDescriptor { label: d.label.as_deref(), size, mip_level_count: d.mip_level_count, sample_count: d.sample_count, dimension, format: d.format, usage: wgpu::TextureUsages::from_bits_retain(d.usage), view_formats: &d.view_formats });
    let error = pollster::block_on(memory.pop()).or(pollster::block_on(validation.pop()));
    error.map_or(Ok(texture), Err)
}

} // verus!
