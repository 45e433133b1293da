//! The rules a texture must meet before it can be sampled directly as a GPU image.
use vstd::prelude::*;

use crate::decimal::{decimal, decimal_text};
use crate::geometry::{DevicePixels, Size};

verus! {

/// `wgpu::TextureUsages::TEXTURE_BINDING`: the texture may be bound for sampling.
pub const TEXTURE_BINDING: u32 = 4u32;

/// `wgpu::TextureFormatFeatureFlags::FILTERABLE`: the format may be sampled with filtering.
pub const FILTERABLE: u32 = 1u32;

/// The dimensionality of a texture.
#[derive(Clone, Copy, Debug, Eq, Hash, PartialEq, Structural)]
pub enum TextureDimension {
    /// One-dimensional texture.
    D1,
    /// Two-dimensional texture.
    D2,
    /// Three-dimensional texture.
    D3,
}

/// What the image checks read of a texture, as plain values.
#[derive(Clone, Copy, Debug, Eq, Hash, PartialEq, Structural)]
pub struct TextureProperties {
    /// Width in texels.
    pub width: u32,
    /// Height in texels.
    pub height: u32,
    /// Depth of a 3D texture, or the number of array layers.
    pub depth_or_array_layers: u32,
    /// The texture's dimensionality.
    pub dimension: TextureDimension,
    /// The number of samples per texel.
    pub sample_count: u32,
    /// The texture's usage flags, as `wgpu::TextureUsages` bits.
    pub usage: u32,
    /// Whether the texture's format stores sRGB-encoded values.
    pub srgb: bool,
}

/// Why a texture cannot become a GPU image.
#[derive(Clone, Copy, Debug, Eq, Hash, PartialEq, Structural)]
pub enum GpuImageError {
    /// The texture was created on another lifetime of the device than the context's.
    EpochMismatch { texture_epoch: u64, context_epoch: u64 },
    /// The texture is not a single-layer 2D texture.
    NotSingleLayer2d,
    /// The texture is multisampled.
    Multisampled,
    /// The texture lacks the `TEXTURE_BINDING` usage.
    MissingTextureBinding,
    /// The texture's format is sRGB, which would leave the color encoding implicit.
    SrgbFormat,
    /// The adapter cannot filter the texture's format.
    NotFilterable,
    /// A side of the texture does not fit in an `i32` pixel count.
    SizeOutOfRange,
}

/// The text that explains a refusal.
pub open spec fn error_text(error: GpuImageError) -> Seq<char> {
    match error {
        GpuImageError::EpochMismatch { texture_epoch, context_epoch } => "GPU texture belongs to device epoch "@
            + decimal(texture_epoch as nat) + ", but the context epoch is "@ + decimal(
            context_epoch as nat,
        ),
        GpuImageError::NotSingleLayer2d => "GPU images must use a single-layer 2D texture"@,
        GpuImageError::Multisampled => "GPU images must not be multisampled"@,
        GpuImageError::MissingTextureBinding => "GPU image texture is missing TEXTURE_BINDING usage"@,
        GpuImageError::SrgbFormat =>
            "GPU images require a non-sRGB texture format so color encoding remains explicit"@,
        GpuImageError::NotFilterable => "GPU image texture format must support filtering"@,
        GpuImageError::SizeOutOfRange => "out of range integral type conversion attempted"@,
    }
}

impl GpuImageError {
    /// The text that explains this refusal.
    pub fn message(&self) -> (text: String)
        ensures
            text@ == error_text(*self),
    {
        match self {
            GpuImageError::EpochMismatch { texture_epoch, context_epoch } => {
                let mut text = String::from_str("GPU texture belongs to device epoch ");
                text.append(decimal_text(*texture_epoch).as_str());
                text.append(", but the context epoch is ");
                text.append(decimal_text(*context_epoch).as_str());
                text
            },
            GpuImageError::NotSingleLayer2d => String::from_str(
                "GPU images must use a single-layer 2D texture",
            ),
            GpuImageError::Multisampled => String::from_str("GPU images must not be multisampled"),
            GpuImageError::MissingTextureBinding => String::from_str(
                "GPU image texture is missing TEXTURE_BINDING usage",
            ),
            GpuImageError::SrgbFormat => String::from_str(
                "GPU images require a non-sRGB texture format so color encoding remains explicit",
            ),
            GpuImageError::NotFilterable => String::from_str(
                "GPU image texture format must support filtering",
            ),
            GpuImageError::SizeOutOfRange => String::from_str(
                "out of range integral type conversion attempted",
            ),
        }
    }
}

/// Whether every bit of `flag` is set in `bits`.
pub open spec fn has_flags(bits: u32, flag: u32) -> bool {
    bits & flag == flag
}

/// The first rule, in checking order, that the texture breaks before the
/// adapter is asked about its format; `None` when it breaks none of them.
pub open spec fn texture_rejection(
    texture_epoch: u64,
    context_epoch: u64,
    texture: TextureProperties,
) -> Option<GpuImageError> {
    if texture_epoch != context_epoch {
        Some(GpuImageError::EpochMismatch { texture_epoch, context_epoch })
    } else if texture.dimension != TextureDimension::D2 || texture.depth_or_array_layers != 1 {
        Some(GpuImageError::NotSingleLayer2d)
    } else if texture.sample_count != 1 {
        Some(GpuImageError::Multisampled)
    } else if !has_flags(texture.usage, TEXTURE_BINDING) {
        Some(GpuImageError::MissingTextureBinding)
    } else if texture.srgb {
        Some(GpuImageError::SrgbFormat)
    } else {
        None
    }
}

/// The size in device pixels of an accepted texture.
pub open spec fn image_size(texture: TextureProperties) -> Size<DevicePixels> {
    Size {
        width: DevicePixels(texture.width as i32),
        height: DevicePixels(texture.height as i32),
    }
}

/// What checking a texture gives, when the adapter answers `filterable` for its format:
/// the first rule broken, or the image's size.
pub open spec fn image_outcome(
    texture_epoch: u64,
    context_epoch: u64,
    texture: TextureProperties,
    filterable: bool,
) -> Result<Size<DevicePixels>, GpuImageError> {
    match texture_rejection(texture_epoch, context_epoch, texture) {
        Some(error) => Err(error),
        None => format_and_size_outcome(texture, filterable),
    }
}

/// What the rules checked after the adapter is asked give: the format must be
/// filterable and both sides must fit an `i32`.
pub open spec fn format_and_size_outcome(
    texture: TextureProperties,
    filterable: bool,
) -> Result<Size<DevicePixels>, GpuImageError> {
    if !filterable {
        Err(GpuImageError::NotFilterable)
    } else if texture.width > i32::MAX || texture.height > i32::MAX {
        Err(GpuImageError::SizeOutOfRange)
    } else {
        Ok(image_size(texture))
    }
}

/// Checks the rules that need no adapter query, in the order the image constructor
/// applies them, and returns the first one broken.
pub fn texture_rejection_of(
    texture_epoch: u64,
    context_epoch: u64,
    texture: &TextureProperties,
) -> (rejection: Option<GpuImageError>)
    ensures
        rejection == texture_rejection(texture_epoch, context_epoch, *texture),
{
    if texture_epoch != context_epoch {
        return Some(GpuImageError::EpochMismatch { texture_epoch, context_epoch });
    }
    let single_layer_2d = match texture.dimension {
        TextureDimension::D2 => texture.depth_or_array_layers == 1,
        _ => false,
    };
    if !single_layer_2d {
        return Some(GpuImageError::NotSingleLayer2d);
    }
    if texture.sample_count != 1 {
        return Some(GpuImageError::Multisampled);
    }
    if texture.usage & TEXTURE_BINDING != TEXTURE_BINDING {
        return Some(GpuImageError::MissingTextureBinding);
    }
    if texture.srgb {
        return Some(GpuImageError::SrgbFormat);
    }
    None
}

/// Whether a format's feature flags, as `wgpu::TextureFormatFeatureFlags` bits,
/// include `FILTERABLE`.
pub fn format_is_filterable(format_features: u32) -> (filterable: bool)
    ensures
        filterable == has_flags(format_features, FILTERABLE),
        filterable <==> format_features & 1u32 == 1u32,
{
    format_features & FILTERABLE == FILTERABLE
}

/// Checks a texture against every rule for a GPU image, given what the adapter
/// answered about filtering its format, and returns the image's size.
pub fn validate_texture(
    texture_epoch: u64,
    context_epoch: u64,
    texture: &TextureProperties,
    filterable: bool,
) -> (outcome: Result<Size<DevicePixels>, GpuImageError>)
    ensures
        outcome == image_outcome(texture_epoch, context_epoch, *texture, filterable),
{
    match texture_rejection_of(texture_epoch, context_epoch, texture) {
        Some(error) => Err(error),
        None => validate_format_and_size(texture, filterable),
    }
}

/// Checks the rules that follow the adapter query, given its answer about
/// filtering the texture's format, and returns the image's size.
pub fn validate_format_and_size(
    texture: &TextureProperties,
    filterable: bool,
) -> (outcome: Result<Size<DevicePixels>, GpuImageError>)
    ensures
        outcome == format_and_size_outcome(*texture, filterable),
{
    if !filterable {
        return Err(GpuImageError::NotFilterable);
    }
    if texture.width > i32::MAX as u32 || texture.height > i32::MAX as u32 {
        return Err(GpuImageError::SizeOutOfRange);
    }
    Ok(Size { width: DevicePixels(texture.width as i32), height: DevicePixels(texture.height as i32) })
}

/// A texture from another device lifetime is refused for its epoch, whatever
/// else holds of it and whatever the adapter answers.
pub proof fn stale_texture_rejected(
    texture_epoch: u64,
    context_epoch: u64,
    texture: TextureProperties,
    filterable: bool,
)
    requires
        texture_epoch != context_epoch,
    ensures
        image_outcome(texture_epoch, context_epoch, texture, filterable) == Err::<
            Size<DevicePixels>,
            GpuImageError,
        >(GpuImageError::EpochMismatch { texture_epoch, context_epoch }),
{
}

/// A texture that breaks a rule checked before the adapter is asked is refused
/// for that rule, whatever the adapter would answer.
pub proof fn rejection_ignores_adapter(
    texture_epoch: u64,
    context_epoch: u64,
    texture: TextureProperties,
    filterable: bool,
)
    requires
        texture_rejection(texture_epoch, context_epoch, texture) is Some,
    ensures
        image_outcome(texture_epoch, context_epoch, texture, filterable) == Err::<
            Size<DevicePixels>,
            GpuImageError,
        >(texture_rejection(texture_epoch, context_epoch, texture)->0),
{
}

/// A texture is accepted exactly when it belongs to the context's device
/// lifetime, is a single-layer single-sample 2D texture with `TEXTURE_BINDING`
/// usage in a non-sRGB format the adapter can filter, and both sides fit an `i32`.
pub proof fn accepted_iff_all_rules_hold(
    texture_epoch: u64,
    context_epoch: u64,
    texture: TextureProperties,
    filterable: bool,
)
    ensures
        image_outcome(texture_epoch, context_epoch, texture, filterable) is Ok <==> {
            &&& texture_epoch == context_epoch
            &&& texture.dimension == TextureDimension::D2
            &&& texture.depth_or_array_layers == 1
            &&& texture.sample_count == 1
            &&& has_flags(texture.usage, TEXTURE_BINDING)
            &&& !texture.srgb
            &&& filterable
            &&& texture.width <= i32::MAX
            &&& texture.height <= i32::MAX
        },
{
}

/// An accepted image measures exactly the texture's width and height, which
/// are never negative.
pub proof fn accepted_size_is_texture_extent(
    texture_epoch: u64,
    context_epoch: u64,
    texture: TextureProperties,
    filterable: bool,
)
    requires
        image_outcome(texture_epoch, context_epoch, texture, filterable) is Ok,
    ensures
        ({
            let size = image_outcome(texture_epoch, context_epoch, texture, filterable)->Ok_0;
            &&& size.width.0 == texture.width
            &&& size.height.0 == texture.height
            &&& size.width.0 >= 0
            &&& size.height.0 >= 0
        }),
{
}

/// A set of flags is present exactly when every one of its bits is set; no other
/// bit has a say. The two flags the rules read are wgpu's `TEXTURE_BINDING`
/// (bit 2) and `FILTERABLE` (bit 0).
pub proof fn flags_are_exactly_their_bits(bits: u32, flag: u32)
    ensures
        has_flags(bits, flag) <==> bits & flag == flag,
        TEXTURE_BINDING == 4u32,
        FILTERABLE == 1u32,
{
}

/// A texture whose usage lacks the `TEXTURE_BINDING` bit is never accepted: once
/// it belongs to the context's lifetime and is a single-layer, single-sample 2D
/// texture, it is refused for the missing usage, whatever else its usage holds
/// and whatever the adapter answers.
pub proof fn unbound_texture_refused(epoch: u64, texture: TextureProperties, filterable: bool)
    requires
        texture.dimension == TextureDimension::D2,
        texture.depth_or_array_layers == 1,
        texture.sample_count == 1,
        texture.usage & 4u32 != 4u32,
    ensures
        image_outcome(epoch, epoch, texture, filterable) == Err::<Size<DevicePixels>, GpuImageError>(
            GpuImageError::MissingTextureBinding,
        ),
{
}

/// A texture whose usage has the `TEXTURE_BINDING` bit passes that rule: it is
/// never refused for a missing binding usage.
pub proof fn bound_texture_not_refused_for_usage(
    texture_epoch: u64,
    context_epoch: u64,
    texture: TextureProperties,
    filterable: bool,
)
    requires
        texture.usage & 4u32 == 4u32,
    ensures
        image_outcome(texture_epoch, context_epoch, texture, filterable) != Err::<
            Size<DevicePixels>,
            GpuImageError,
        >(GpuImageError::MissingTextureBinding),
{
}

/// A format whose feature bits lack `FILTERABLE` (bit 0) is never accepted: a
/// texture that passes the earlier rules is refused as not filterable, whatever
/// other feature bits (storage, multisampling) the adapter reports.
pub proof fn unfilterable_format_refused(epoch: u64, texture: TextureProperties, format_features: u32)
    requires
        texture_rejection(epoch, epoch, texture) is None,
        format_features & 1u32 != 1u32,
    ensures
        image_outcome(epoch, epoch, texture, has_flags(format_features, FILTERABLE)) == Err::<
            Size<DevicePixels>,
            GpuImageError,
        >(GpuImageError::NotFilterable),
{
}

/// A format whose feature bits include `FILTERABLE` (bit 0) is taken as
/// filterable, whatever else the adapter reports.
pub proof fn filterable_bit_decides(format_features: u32)
    ensures
        has_flags(format_features, FILTERABLE) <==> format_features & 1u32 == 1u32,
{
}

} // verus!
