use gpui_gpu::geometry::{DevicePixels, Size};
use gpui_gpu::validation::{
    format_is_filterable, texture_rejection_of, validate_texture, GpuImageError,
    TextureDimension, TextureProperties, FILTERABLE, TEXTURE_BINDING,
};

const RENDER_ATTACHMENT: u32 = 16;

fn sampleable(width: u32, height: u32) -> TextureProperties {
    TextureProperties {
        width,
        height,
        depth_or_array_layers: 1,
        dimension: TextureDimension::D2,
        sample_count: 1,
        usage: TEXTURE_BINDING | RENDER_ATTACHMENT,
        srgb: false,
    }
}

#[test]
fn accepted_texture_reports_its_size() {
    let result = validate_texture(7, 7, &sampleable(2400, 1600), true);
    assert_eq!(result, Ok(Size { width: DevicePixels(2400), height: DevicePixels(1600) }));
}

#[test]
fn accepted_texture_at_the_i32_limit() {
    let max = i32::MAX as u32;
    let result = validate_texture(1, 1, &sampleable(max, 1), true);
    assert_eq!(result, Ok(Size { width: DevicePixels(i32::MAX), height: DevicePixels(1) }));
}

#[test]
fn stale_epoch_is_rejected_first() {
    let mut texture = sampleable(512, 512);
    texture.srgb = true;
    texture.sample_count = 4;
    let result = validate_texture(1, 2, &texture, false);
    assert_eq!(result, Err(GpuImageError::EpochMismatch { texture_epoch: 1, context_epoch: 2 }));
}

#[test]
fn three_dimensional_texture_is_rejected() {
    let mut texture = sampleable(64, 64);
    texture.dimension = TextureDimension::D3;
    assert_eq!(validate_texture(3, 3, &texture, true), Err(GpuImageError::NotSingleLayer2d));
}

#[test]
fn array_texture_is_rejected() {
    let mut texture = sampleable(64, 64);
    texture.depth_or_array_layers = 6;
    assert_eq!(validate_texture(3, 3, &texture, true), Err(GpuImageError::NotSingleLayer2d));
}

#[test]
fn multisampled_texture_is_rejected() {
    let mut texture = sampleable(64, 64);
    texture.sample_count = 4;
    assert_eq!(validate_texture(3, 3, &texture, true), Err(GpuImageError::Multisampled));
}

#[test]
fn texture_without_binding_usage_is_rejected() {
    let mut texture = sampleable(64, 64);
    texture.usage = RENDER_ATTACHMENT;
    assert_eq!(validate_texture(3, 3, &texture, true), Err(GpuImageError::MissingTextureBinding));
}

#[test]
fn srgb_texture_is_rejected() {
    let mut texture = sampleable(64, 64);
    texture.srgb = true;
    assert_eq!(validate_texture(3, 3, &texture, true), Err(GpuImageError::SrgbFormat));
}

#[test]
fn unfilterable_format_is_rejected() {
    assert_eq!(validate_texture(3, 3, &sampleable(64, 64), false), Err(GpuImageError::NotFilterable));
}

#[test]
fn oversized_width_is_rejected() {
    let width = i32::MAX as u32 + 1;
    assert_eq!(validate_texture(3, 3, &sampleable(width, 1), true), Err(GpuImageError::SizeOutOfRange));
}

#[test]
fn oversized_height_is_rejected() {
    assert_eq!(validate_texture(3, 3, &sampleable(1, u32::MAX), true), Err(GpuImageError::SizeOutOfRange));
}

#[test]
fn rejection_before_adapter_query() {
    assert_eq!(texture_rejection_of(5, 5, &sampleable(u32::MAX, 1)), None);
    let mut texture = sampleable(8, 8);
    texture.sample_count = 2;
    assert_eq!(texture_rejection_of(5, 5, &texture), Some(GpuImageError::Multisampled));
    assert_eq!(
        texture_rejection_of(5, 6, &texture),
        Some(GpuImageError::EpochMismatch { texture_epoch: 5, context_epoch: 6 })
    );
}

#[test]
fn rejection_does_not_depend_on_the_adapter() {
    let mut texture = sampleable(8, 8);
    texture.usage = 0;
    assert_eq!(validate_texture(2, 2, &texture, true), validate_texture(2, 2, &texture, false));
}

#[test]
fn filterable_flag_is_read_from_feature_bits() {
    assert!(format_is_filterable(FILTERABLE));
    assert!(format_is_filterable(FILTERABLE | 0b1110));
    assert!(!format_is_filterable(0b1110));
    assert!(!format_is_filterable(0));
}

#[test]
fn refusals_explain_themselves() {
    assert_eq!(
        GpuImageError::EpochMismatch { texture_epoch: 1, context_epoch: 2 }.message(),
        "GPU texture belongs to device epoch 1, but the context epoch is 2"
    );
    assert_eq!(
        GpuImageError::EpochMismatch { texture_epoch: 0, context_epoch: u64::MAX }.message(),
        format!("GPU texture belongs to device epoch 0, but the context epoch is {}", u64::MAX)
    );
    assert_eq!(
        GpuImageError::EpochMismatch { texture_epoch: 1090, context_epoch: 10 }.message(),
        "GPU texture belongs to device epoch 1090, but the context epoch is 10"
    );
    assert_eq!(GpuImageError::NotSingleLayer2d.message(), "GPU images must use a single-layer 2D texture");
    assert_eq!(GpuImageError::Multisampled.message(), "GPU images must not be multisampled");
    assert_eq!(
        GpuImageError::MissingTextureBinding.message(),
        "GPU image texture is missing TEXTURE_BINDING usage"
    );
    assert_eq!(
        GpuImageError::SrgbFormat.message(),
        "GPU images require a non-sRGB texture format so color encoding remains explicit"
    );
    assert_eq!(GpuImageError::NotFilterable.message(), "GPU image texture format must support filtering");
    assert_eq!(
        GpuImageError::SizeOutOfRange.message(),
        i32::try_from(u32::MAX).unwrap_err().to_string()
    );
}
