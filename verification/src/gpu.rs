//! The shared graphics device, the textures created from it, and the images
//! that the compositor samples directly.
use std::sync::Arc;

use vstd::prelude::*;

use crate::epoch::GpuDeviceEpoch;
use crate::geometry::{Bounds, DevicePixels, Point, Size};
use crate::image_id::{following_id, GpuImageId, GpuImageIds};
use crate::validation::{
    format_is_filterable, has_flags, image_outcome, texture_rejection_of, validate_format_and_size,
    GpuImageError, TextureDimension, TextureProperties, FILTERABLE,
};
use crate::wgpu_calls::{
    adapter_info, adapter_info_of, create_texture, device_features, device_limits, features_of, limits_of, dimension_of, extent_of,
    format_feature_flags, format_features_of, format_is_srgb, format_of, is_srgb_format, mip_level_count_of, sample_count_of, texture_dimension, texture_extent,
    texture_format, texture_of_view, texture_sample_count, texture_usage, usage_of,
};

verus! {

/// What the image checks read of a wgpu texture, through the values wgpu reports for it.
pub open spec fn properties_of(texture: wgpu::Texture) -> TextureProperties {
    TextureProperties {
        width: extent_of(texture).0,
        height: extent_of(texture).1,
        depth_or_array_layers: extent_of(texture).2,
        dimension: dimension_of(texture),
        sample_count: sample_count_of(texture),
        usage: usage_of(texture),
        srgb: is_srgb_format(format_of(texture)),
    }
}

/// Describes a texture to create on the shared device, as plain values.
#[derive(Debug)]
pub struct GpuTextureDescriptor {
    /// Debug label of the texture.
    pub label: Option<String>,
    /// Width in texels.
    pub width: u32,
    /// Height in texels.
    pub height: u32,
    /// Depth of a 3D texture, or the number of array layers.
    pub depth_or_array_layers: u32,
    /// The number of mip levels.
    pub mip_level_count: u32,
    /// The number of samples per texel.
    pub sample_count: u32,
    /// The texture's dimensionality.
    pub dimension: TextureDimension,
    /// The texel format.
    pub format: wgpu::TextureFormat,
    /// The usage flags, as `wgpu::TextureUsages` bits.
    pub usage: u32,
    /// Other formats that views of the texture may use.
    pub view_formats: Vec<wgpu::TextureFormat>,
}

impl GpuTextureDescriptor {
    /// What the image checks will read of a texture made from this descriptor.
    pub open spec fn properties(&self) -> TextureProperties {
        TextureProperties {
            width: self.width,
            height: self.height,
            depth_or_array_layers: self.depth_or_array_layers,
            dimension: self.dimension,
            sample_count: self.sample_count,
            usage: self.usage,
            srgb: is_srgb_format(self.format),
        }
    }
}

/// The error wgpu reported when it refused to create a texture.
#[derive(Debug)]
pub struct GpuResourceError(pub wgpu::Error);

/// `Arc::clone`: another pointer to the same allocation, which keeps it alive.
#[verifier::external_body]
fn share<T>(value: &Arc<T>) -> (shared: Arc<T>)
    ensures
        shared == *value,
{
    Arc::clone(value)
}

/// Reads from a wgpu texture what the image checks need.
pub fn read_texture_properties(texture: &wgpu::Texture) -> (properties: TextureProperties)
    ensures
        properties == properties_of(*texture),
{
    let (width, height, depth_or_array_layers) = texture_extent(texture);
    TextureProperties {
        width,
        height,
        depth_or_array_layers,
        dimension: texture_dimension(texture),
        sample_count: texture_sample_count(texture),
        usage: texture_usage(texture),
        srgb: format_is_srgb(texture_format(texture)),
    }
}

/// A snapshot of the graphics device shared by the compositor and application renderers.
///
/// Cloning this value keeps the device alive. Callers should compare
/// [`Self::epoch`] before reusing resources across device-loss recovery.
pub struct GpuContext {
    epoch: GpuDeviceEpoch,
    instance: Arc<wgpu::Instance>,
    adapter: Arc<wgpu::Adapter>,
    device: Arc<wgpu::Device>,
    queue: Arc<wgpu::Queue>,
}

impl GpuContext {
    /// The device lifetime this snapshot belongs to.
    pub closed spec fn spec_epoch(&self) -> GpuDeviceEpoch {
        self.epoch
    }

    /// The shared wgpu instance.
    pub closed spec fn spec_instance(&self) -> Arc<wgpu::Instance> {
        self.instance
    }

    /// The shared wgpu adapter.
    pub closed spec fn spec_adapter(&self) -> Arc<wgpu::Adapter> {
        self.adapter
    }

    /// The shared wgpu device.
    pub closed spec fn spec_device(&self) -> Arc<wgpu::Device> {
        self.device
    }

    /// The shared wgpu queue.
    pub closed spec fn spec_queue(&self) -> Arc<wgpu::Queue> {
        self.queue
    }

    /// Constructs a graphics-context snapshot for a platform renderer.
    ///
    /// Application code obtains snapshots from its window rather than
    /// constructing them directly.
    pub fn new(
        epoch: u64,
        instance: Arc<wgpu::Instance>,
        adapter: Arc<wgpu::Adapter>,
        device: Arc<wgpu::Device>,
        queue: Arc<wgpu::Queue>,
    ) -> (context: Self)
        ensures
            context.spec_epoch()@ == epoch,
            context.spec_instance() == instance,
            context.spec_adapter() == adapter,
            context.spec_device() == device,
            context.spec_queue() == queue,
    {
        GpuContext { epoch: GpuDeviceEpoch::new(epoch), instance, adapter, device, queue }
    }

    /// Returns the device lifetime represented by this snapshot.
    pub fn epoch(&self) -> (epoch: GpuDeviceEpoch)
        ensures
            epoch == self.spec_epoch(),
    {
        self.epoch
    }

    /// Returns the shared wgpu instance.
    pub fn instance(&self) -> (instance: &Arc<wgpu::Instance>)
        ensures
            *instance == self.spec_instance(),
    {
        &self.instance
    }

    /// Returns the shared wgpu adapter.
    pub fn adapter(&self) -> (adapter: &Arc<wgpu::Adapter>)
        ensures
            *adapter == self.spec_adapter(),
    {
        &self.adapter
    }

    /// Returns the shared wgpu device.
    pub fn device(&self) -> (device: &Arc<wgpu::Device>)
        ensures
            *device == self.spec_device(),
    {
        &self.device
    }

    /// Returns the shared wgpu queue.
    pub fn queue(&self) -> (queue: &Arc<wgpu::Queue>)
        ensures
            *queue == self.spec_queue(),
    {
        &self.queue
    }

    /// Returns the adapter information associated with this device.
    pub fn adapter_info(&self) -> (info: wgpu::AdapterInfo)
        ensures
            info == adapter_info_of(*self.spec_adapter()),
    {
        adapter_info(&self.adapter)
    }

    /// Returns the features enabled on this device.
    pub fn features(&self) -> (features: wgpu::Features)
        ensures
            features == features_of(*self.spec_device()),
    {
        device_features(&self.device)
    }

    /// Returns the limits enabled on this device.
    pub fn limits(&self) -> (limits: wgpu::Limits)
        ensures
            limits == limits_of(*self.spec_device()),
    {
        device_limits(&self.device)
    }

    /// Creates an application texture tagged with this context's device epoch.
    ///
    /// When wgpu refuses the descriptor (it breaks a validation rule of the
    /// device, or memory runs out), the error wgpu reports comes back.
    pub fn create_texture(&self, descriptor: &GpuTextureDescriptor) -> (result: Result<GpuTexture, GpuResourceError>)
        ensures
            result matches Ok(texture) ==> {
                &&& texture.spec_epoch() == self.spec_epoch()
                &&& texture.spec_device() == self.spec_device()
                &&& texture.properties() == descriptor.properties()
                &&& format_of(*texture.spec_texture()) == descriptor.format
                &&& mip_level_count_of(*texture.spec_texture()) == descriptor.mip_level_count
            },
    {
        match create_texture(&self.device, descriptor) {
            Ok(texture) => Ok(
                GpuTexture { epoch: self.epoch, device: share(&self.device), texture: Arc::new(texture) },
            ),
            Err(error) => Err(GpuResourceError(error)),
        }
    }
}

impl Clone for GpuContext {
    /// Another snapshot of the same device lifetime, sharing (and keeping alive)
    /// the same instance, adapter, device and queue.
    fn clone(&self) -> (copy: Self)
        ensures
            copy.spec_epoch() == self.spec_epoch(),
            copy.spec_instance() == self.spec_instance(),
            copy.spec_adapter() == self.spec_adapter(),
            copy.spec_device() == self.spec_device(),
            copy.spec_queue() == self.spec_queue(),
    {
        GpuContext {
            epoch: self.epoch,
            instance: share(&self.instance),
            adapter: share(&self.adapter),
            device: share(&self.device),
            queue: share(&self.queue),
        }
    }
}

/// An application texture created from the shared graphics device.
#[derive(Debug)]
pub struct GpuTexture {
    epoch: GpuDeviceEpoch,
    device: Arc<wgpu::Device>,
    texture: Arc<wgpu::Texture>,
}

/// `wgpu::Texture::create_view` with the default view descriptor: a view of the
/// whole texture. It is made inside validation and out-of-memory error scopes of
/// the device that created the texture, which are closed again without reading
/// them: wgpu still returns a view when it reports an error (of a destroyed
/// texture, or a lack of memory), and the report is dropped rather than reaching
/// the device's error handler. The view always refers to this texture.
#[verifier::external_body]
fn create_default_view(texture: &GpuTexture) -> (view: wgpu::TextureView)
    ensures
        texture_of_view(view) == *texture.spec_texture(),
{
    let validation = texture.device.push_error_scope(wgpu::ErrorFilter::Validation);
    let memory = texture.device.push_error_scope(wgpu::ErrorFilter::OutOfMemory);
    let view = texture.texture.create_view(&wgpu::TextureViewDescriptor::default());
    drop(memory);
    drop(validation);
    view
}

impl GpuTexture {
    /// The device lifetime on which this texture was created.
    pub closed spec fn spec_epoch(&self) -> GpuDeviceEpoch {
        self.epoch
    }

    /// The underlying wgpu texture.
    pub closed spec fn spec_texture(&self) -> Arc<wgpu::Texture> {
        self.texture
    }

    /// The device that created the texture.
    pub closed spec fn spec_device(&self) -> Arc<wgpu::Device> {
        self.device
    }

    /// What the image checks read of the underlying texture.
    pub open spec fn properties(&self) -> TextureProperties {
        properties_of(*self.spec_texture())
    }

    /// Returns the device epoch on which this texture was created.
    pub fn epoch(&self) -> (epoch: GpuDeviceEpoch)
        ensures
            epoch == self.spec_epoch(),
    {
        self.epoch
    }

    /// Returns the underlying wgpu texture for application rendering.
    pub fn texture(&self) -> (texture: &Arc<wgpu::Texture>)
        ensures
            *texture == self.spec_texture(),
    {
        &self.texture
    }
}

/// Whether the context's adapter reports that it can filter the texture's format.
pub open spec fn adapter_filters(context: GpuContext, texture: GpuTexture) -> bool {
    has_flags(
        format_features_of(*context.spec_adapter(), format_of(*texture.spec_texture())),
        FILTERABLE,
    )
}

/// What making an image of `texture` for `context` gives: the first rule the
/// texture breaks, with the adapter's own answer about filtering its format, or
/// the image's size.
pub open spec fn new_image_outcome(context: GpuContext, texture: GpuTexture) -> Result<
    Size<DevicePixels>,
    GpuImageError,
> {
    image_outcome(
        texture.spec_epoch()@,
        context.spec_epoch()@,
        texture.properties(),
        adapter_filters(context, texture),
    )
}

/// Describes how alpha is stored in a [`GpuImage`].
#[derive(Clone, Copy, Debug, Eq, PartialEq, Structural)]
pub enum GpuImageAlphaMode {
    /// Every texel is fully opaque.
    Opaque,
    /// RGB channels are independent of alpha.
    Straight,
    /// RGB channels have already been multiplied by alpha.
    Premultiplied,
}

/// Describes the color values stored in a [`GpuImage`].
#[derive(Clone, Copy, Debug, Eq, PartialEq, Structural)]
pub enum GpuImageColorEncoding {
    /// Scene-linear values in the default linear-sRGB interchange space.
    SceneLinear,
    /// Display-linear values in the default linear-sRGB display space.
    DisplayLinear,
    /// Values already encoded for the target display.
    DisplayEncoded,
}

/// Sampling used when a [`GpuImage`] is painted at a different size.
#[derive(Clone, Copy, Debug, Eq, PartialEq, Structural)]
pub enum GpuImageSampling {
    /// Select the nearest source texel.
    Nearest,
    /// Bilinearly interpolate neighboring source texels.
    Linear,
}

/// An opaque, device-epoch-tagged image that the compositor can sample directly.
///
/// The texture is not copied into a CPU image cache or sprite atlas. The
/// creating application may retain another [`Arc`] to continue rendering into
/// the texture before submitting a frame that references this image.
pub struct GpuImage {
    id: GpuImageId,
    epoch: GpuDeviceEpoch,
    texture: Arc<wgpu::Texture>,
    view: wgpu::TextureView,
    size: Size<DevicePixels>,
    alpha_mode: GpuImageAlphaMode,
    color_encoding: GpuImageColorEncoding,
}

impl GpuImage {
    /// The image's process-local identity.
    pub closed spec fn spec_id(&self) -> GpuImageId {
        self.id
    }

    /// The device lifetime on which the image was created.
    pub closed spec fn spec_epoch(&self) -> GpuDeviceEpoch {
        self.epoch
    }

    /// The retained wgpu texture.
    pub closed spec fn spec_texture(&self) -> Arc<wgpu::Texture> {
        self.texture
    }

    /// The view of the whole texture that the compositor samples.
    pub closed spec fn spec_view(&self) -> wgpu::TextureView {
        self.view
    }

    /// The texture's dimensions in device pixels.
    pub closed spec fn spec_size(&self) -> Size<DevicePixels> {
        self.size
    }

    /// The image's alpha representation.
    pub closed spec fn spec_alpha_mode(&self) -> GpuImageAlphaMode {
        self.alpha_mode
    }

    /// The image's color encoding.
    pub closed spec fn spec_color_encoding(&self) -> GpuImageColorEncoding {
        self.color_encoding
    }

    /// Retains a texture created from `context` for direct scene composition.
    ///
    /// The texture must come from the context's device lifetime and be a
    /// single-layer, single-sample 2D texture with `TEXTURE_BINDING` usage, in a
    /// non-sRGB format that the adapter can filter, with sides that fit an `i32`.
    /// On success the image takes the next identity from `ids`.
    pub fn new(
        context: &GpuContext,
        texture: GpuTexture,
        alpha_mode: GpuImageAlphaMode,
        color_encoding: GpuImageColorEncoding,
        ids: &mut GpuImageIds,
    ) -> (result: Result<Arc<Self>, GpuImageError>)
        ensures
            match result {
                Ok(image) => {
                    &&& new_image_outcome(*context, texture) == Ok::<
                        Size<DevicePixels>,
                        GpuImageError,
                    >(image.spec_size())
                    &&& image.spec_size().width.0 == extent_of(*texture.spec_texture()).0
                    &&& image.spec_size().height.0 == extent_of(*texture.spec_texture()).1
                    &&& image.spec_id()@ == old(ids)@
                    &&& final(ids)@ == following_id(old(ids)@)
                    &&& image.spec_epoch() == context.spec_epoch()
                    &&& image.spec_texture() == texture.spec_texture()
                    &&& texture_of_view(image.spec_view()) == *image.spec_texture()
                    &&& image.spec_alpha_mode() == alpha_mode
                    &&& image.spec_color_encoding() == color_encoding
                },
                Err(error) => {
                    &&& new_image_outcome(*context, texture) == Err::<
                        Size<DevicePixels>,
                        GpuImageError,
                    >(error)
                    &&& final(ids)@ == old(ids)@
                },
            },
    {
        let texture_epoch = texture.epoch.get();
        let context_epoch = context.epoch.get();
        let properties = read_texture_properties(&texture.texture);
        if let Some(error) = texture_rejection_of(texture_epoch, context_epoch, &properties) {
            return Err(error);
        }
        let format = texture_format(&texture.texture);
        let filterable = format_is_filterable(format_feature_flags(&context.adapter, format));
        let size = match validate_format_and_size(&properties, filterable) {
            Ok(size) => size,
            Err(error) => return Err(error),
        };
        let view = create_default_view(&texture);
        let id = ids.allocate();
        Ok(
            Arc::new(
                GpuImage {
                    id,
                    epoch: context.epoch,
                    texture: texture.texture,
                    view,
                    size,
                    alpha_mode,
                    color_encoding,
                },
            ),
        )
    }

    /// Returns this image's process-local identity.
    pub fn id(&self) -> (id: GpuImageId)
        ensures
            id == self.spec_id(),
    {
        self.id
    }

    /// Returns the device epoch on which this image was created.
    pub fn epoch(&self) -> (epoch: GpuDeviceEpoch)
        ensures
            epoch == self.spec_epoch(),
    {
        self.epoch
    }

    /// Returns the texture's dimensions.
    pub fn size(&self) -> (size: Size<DevicePixels>)
        ensures
            size == self.spec_size(),
    {
        self.size
    }

    /// Returns the full source rectangle of this image.
    pub fn bounds(&self) -> (bounds: Bounds<DevicePixels>)
        ensures
            bounds.origin == (Point { x: DevicePixels(0), y: DevicePixels(0) }),
            bounds.size == self.spec_size(),
    {
        Bounds::new(Point::new(DevicePixels(0), DevicePixels(0)), self.size)
    }

    /// Returns the image's alpha representation.
    pub fn alpha_mode(&self) -> (alpha_mode: GpuImageAlphaMode)
        ensures
            alpha_mode == self.spec_alpha_mode(),
    {
        self.alpha_mode
    }

    /// Returns the image's color encoding.
    pub fn color_encoding(&self) -> (color_encoding: GpuImageColorEncoding)
        ensures
            color_encoding == self.spec_color_encoding(),
    {
        self.color_encoding
    }

    /// Returns the view of the whole texture that the compositor samples.
    pub fn texture_view(&self) -> (view: &wgpu::TextureView)
        ensures
            *view == self.spec_view(),
    {
        &self.view
    }

    /// Returns the retained wgpu texture.
    pub fn texture(&self) -> (texture: &Arc<wgpu::Texture>)
        ensures
            *texture == self.spec_texture(),
    {
        &self.texture
    }
}

/// A texture is refused for its device lifetime exactly when it was created on
/// another lifetime than the context's: one made by the context's own
/// `create_texture` never is, one kept across device loss always is.
pub proof fn epoch_refusal_iff_other_lifetime(context: GpuContext, texture: GpuTexture)
    ensures
        (new_image_outcome(context, texture) == Err::<Size<DevicePixels>, GpuImageError>(
            GpuImageError::EpochMismatch {
                texture_epoch: texture.spec_epoch()@,
                context_epoch: context.spec_epoch()@,
            },
        )) <==> texture.spec_epoch()@ != context.spec_epoch()@,
{
}

/// An accepted image measures exactly the texture's extent as wgpu reports it:
/// its width is the texture's width and its height the texture's height.
pub proof fn accepted_image_size_is_texture_extent(context: GpuContext, texture: GpuTexture)
    requires
        new_image_outcome(context, texture) is Ok,
    ensures
        new_image_outcome(context, texture)->Ok_0.width.0 == extent_of(*texture.spec_texture()).0,
        new_image_outcome(context, texture)->Ok_0.height.0 == extent_of(*texture.spec_texture()).1,
{
}

} // verus!
