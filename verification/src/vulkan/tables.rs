//! Translation between the abstract formats and usages and Vulkan's codes.

use vstd::prelude::*;
use crate::common::{usage_mask, TextureFormat, TextureUsage};
use crate::error::{GeyserError, GeyserErrorView};

verus! {

// The values of `VkFormat` that abstract formats map to.
pub const VK_FORMAT_R8_UNORM: i32 = 9;
pub const VK_FORMAT_R8G8_UNORM: i32 = 16;
pub const VK_FORMAT_R8G8B8A8_UNORM: i32 = 37;
pub const VK_FORMAT_R8G8B8A8_SRGB: i32 = 43;
pub const VK_FORMAT_B8G8R8A8_UNORM: i32 = 44;
pub const VK_FORMAT_B8G8R8A8_SRGB: i32 = 50;
pub const VK_FORMAT_A2R10G10B10_UNORM_PACK32: i32 = 58;
pub const VK_FORMAT_R16_UINT: i32 = 74;
pub const VK_FORMAT_R16_SINT: i32 = 75;
pub const VK_FORMAT_R16_SFLOAT: i32 = 76;
pub const VK_FORMAT_R16G16_SFLOAT: i32 = 83;
pub const VK_FORMAT_R16G16B16A16_SFLOAT: i32 = 97;
pub const VK_FORMAT_R32_UINT: i32 = 98;
pub const VK_FORMAT_R32_SINT: i32 = 99;
pub const VK_FORMAT_R32_SFLOAT: i32 = 100;
pub const VK_FORMAT_R32G32_SFLOAT: i32 = 103;
pub const VK_FORMAT_R32G32B32A32_SFLOAT: i32 = 109;
pub const VK_FORMAT_B10G11R11_UFLOAT_PACK32: i32 = 122;
pub const VK_FORMAT_X8_D24_UNORM_PACK32: i32 = 125;
pub const VK_FORMAT_D32_SFLOAT: i32 = 126;
pub const VK_FORMAT_D24_UNORM_S8_UINT: i32 = 129;

// The bits of `VkImageUsageFlags` that usages map to.
pub const VK_IMAGE_USAGE_TRANSFER_SRC: u32 = 0x1;
pub const VK_IMAGE_USAGE_TRANSFER_DST: u32 = 0x2;
pub const VK_IMAGE_USAGE_SAMPLED: u32 = 0x4;
pub const VK_IMAGE_USAGE_STORAGE: u32 = 0x8;
pub const VK_IMAGE_USAGE_COLOR_ATTACHMENT: u32 = 0x10;

/// `VK_IMAGE_ASPECT_COLOR_BIT`: the colour aspect of an image.
pub const VK_IMAGE_ASPECT_COLOR: u32 = 0x1;

/// The `VkFormat` code of an abstract format. Every format has a code of its
/// own: the 24-bit depth format without stencil is the one that pads each
/// texel to 32 bits.
pub open spec fn vk_format(format: TextureFormat) -> i32 {
    match format {
        TextureFormat::Rgba8Unorm => VK_FORMAT_R8G8B8A8_UNORM,
        TextureFormat::Bgra8Unorm => VK_FORMAT_B8G8R8A8_UNORM,
        TextureFormat::Rgba8Srgb => VK_FORMAT_R8G8B8A8_SRGB,
        TextureFormat::Bgra8Srgb => VK_FORMAT_B8G8R8A8_SRGB,
        TextureFormat::R8Unorm => VK_FORMAT_R8_UNORM,
        TextureFormat::Rg8Unorm => VK_FORMAT_R8G8_UNORM,
        TextureFormat::R16Float => VK_FORMAT_R16_SFLOAT,
        TextureFormat::Rg16Float => VK_FORMAT_R16G16_SFLOAT,
        TextureFormat::Rgba16Float => VK_FORMAT_R16G16B16A16_SFLOAT,
        TextureFormat::R16Uint => VK_FORMAT_R16_UINT,
        TextureFormat::R16Sint => VK_FORMAT_R16_SINT,
        TextureFormat::R32Float => VK_FORMAT_R32_SFLOAT,
        TextureFormat::Rg32Float => VK_FORMAT_R32G32_SFLOAT,
        TextureFormat::Rgba32Float => VK_FORMAT_R32G32B32A32_SFLOAT,
        TextureFormat::R32Uint => VK_FORMAT_R32_UINT,
        TextureFormat::R32Sint => VK_FORMAT_R32_SINT,
        TextureFormat::Depth32Float => VK_FORMAT_D32_SFLOAT,
        TextureFormat::Depth24Plus => VK_FORMAT_X8_D24_UNORM_PACK32,
        TextureFormat::Depth24PlusStencil8 => VK_FORMAT_D24_UNORM_S8_UINT,
        TextureFormat::Rgb10a2Unorm => VK_FORMAT_A2R10G10B10_UNORM_PACK32,
        TextureFormat::Rg11b10Float => VK_FORMAT_B10G11R11_UFLOAT_PACK32,
    }
}

/// The abstract format that a `VkFormat` code stands for, where there is one.
pub open spec fn format_of_vk(code: i32) -> Option<TextureFormat> {
    if code == VK_FORMAT_R8G8B8A8_UNORM {
        Some(TextureFormat::Rgba8Unorm)
    } else if code == VK_FORMAT_B8G8R8A8_UNORM {
        Some(TextureFormat::Bgra8Unorm)
    } else if code == VK_FORMAT_R8G8B8A8_SRGB {
        Some(TextureFormat::Rgba8Srgb)
    } else if code == VK_FORMAT_B8G8R8A8_SRGB {
        Some(TextureFormat::Bgra8Srgb)
    } else if code == VK_FORMAT_R8_UNORM {
        Some(TextureFormat::R8Unorm)
    } else if code == VK_FORMAT_R8G8_UNORM {
        Some(TextureFormat::Rg8Unorm)
    } else if code == VK_FORMAT_R16_SFLOAT {
        Some(TextureFormat::R16Float)
    } else if code == VK_FORMAT_R16G16_SFLOAT {
        Some(TextureFormat::Rg16Float)
    } else if code == VK_FORMAT_R16G16B16A16_SFLOAT {
        Some(TextureFormat::Rgba16Float)
    } else if code == VK_FORMAT_R16_UINT {
        Some(TextureFormat::R16Uint)
    } else if code == VK_FORMAT_R16_SINT {
        Some(TextureFormat::R16Sint)
    } else if code == VK_FORMAT_R32_SFLOAT {
        Some(TextureFormat::R32Float)
    } else if code == VK_FORMAT_R32G32_SFLOAT {
        Some(TextureFormat::Rg32Float)
    } else if code == VK_FORMAT_R32G32B32A32_SFLOAT {
        Some(TextureFormat::Rgba32Float)
    } else if code == VK_FORMAT_R32_UINT {
        Some(TextureFormat::R32Uint)
    } else if code == VK_FORMAT_R32_SINT {
        Some(TextureFormat::R32Sint)
    } else if code == VK_FORMAT_D32_SFLOAT {
        Some(TextureFormat::Depth32Float)
    } else if code == VK_FORMAT_X8_D24_UNORM_PACK32 {
        Some(TextureFormat::Depth24Plus)
    } else if code == VK_FORMAT_D24_UNORM_S8_UINT {
        Some(TextureFormat::Depth24PlusStencil8)
    } else if code == VK_FORMAT_A2R10G10B10_UNORM_PACK32 {
        Some(TextureFormat::Rgb10a2Unorm)
    } else if code == VK_FORMAT_B10G11R11_UFLOAT_PACK32 {
        Some(TextureFormat::Rg11b10Float)
    } else {
        None
    }
}

/// The `VkImageUsageFlags` bit of one usage.
pub open spec fn vk_usage_bit(usage: TextureUsage) -> u32 {
    match usage {
        TextureUsage::CopySrc => VK_IMAGE_USAGE_TRANSFER_SRC,
        TextureUsage::CopyDst => VK_IMAGE_USAGE_TRANSFER_DST,
        TextureUsage::TextureBinding => VK_IMAGE_USAGE_SAMPLED,
        TextureUsage::RenderAttachment => VK_IMAGE_USAGE_COLOR_ATTACHMENT,
        TextureUsage::StorageBinding => VK_IMAGE_USAGE_STORAGE,
    }
}

/// The `VkImageAspectFlags` bit that one usage asks for: colour for what a
/// shader or a render pass touches, nothing for copies.
pub open spec fn vk_aspect_bit(usage: TextureUsage) -> u32 {
    match usage {
        TextureUsage::CopySrc => 0,
        TextureUsage::CopyDst => 0,
        TextureUsage::TextureBinding => VK_IMAGE_ASPECT_COLOR,
        TextureUsage::RenderAttachment => VK_IMAGE_ASPECT_COLOR,
        TextureUsage::StorageBinding => VK_IMAGE_ASPECT_COLOR,
    }
}

/// The `VkImageUsageFlags` of a list of usages.
pub open spec fn vk_usage(usages: Seq<TextureUsage>) -> u32 {
    usage_mask(usages, |u: TextureUsage| vk_usage_bit(u))
}

/// The `VkImageAspectFlags` of a list of usages.
pub open spec fn vk_aspect(usages: Seq<TextureUsage>) -> u32 {
    usage_mask(usages, |u: TextureUsage| vk_aspect_bit(u))
}

/// The abstract format of a `VkFormat` code. A code that no abstract format
/// maps to is refused as an unsupported format, never replaced by a default.
pub fn texture_format_from_vk(code: i32) -> (format: Result<TextureFormat, GeyserError>)
    ensures
        match format_of_vk(code) {
            Some(f) => format == Ok::<TextureFormat, GeyserError>(f),
            None => format matches Err(e) && e@ == GeyserErrorView::UnsupportedFormat(
                "Unsupported Vulkan format code"@,
            ),
        },
{
    if code == VK_FORMAT_R8G8B8A8_UNORM {
        Ok(TextureFormat::Rgba8Unorm)
    } else if code == VK_FORMAT_B8G8R8A8_UNORM {
        Ok(TextureFormat::Bgra8Unorm)
    } else if code == VK_FORMAT_R8G8B8A8_SRGB {
        Ok(TextureFormat::Rgba8Srgb)
    } else if code == VK_FORMAT_B8G8R8A8_SRGB {
        Ok(TextureFormat::Bgra8Srgb)
    } else if code == VK_FORMAT_R8_UNORM {
        Ok(TextureFormat::R8Unorm)
    } else if code == VK_FORMAT_R8G8_UNORM {
        Ok(TextureFormat::Rg8Unorm)
    } else if code == VK_FORMAT_R16_SFLOAT {
        Ok(TextureFormat::R16Float)
    } else if code == VK_FORMAT_R16G16_SFLOAT {
        Ok(TextureFormat::Rg16Float)
    } else if code == VK_FORMAT_R16G16B16A16_SFLOAT {
        Ok(TextureFormat::Rgba16Float)
    } else if code == VK_FORMAT_R16_UINT {
        Ok(TextureFormat::R16Uint)
    } else if code == VK_FORMAT_R16_SINT {
        Ok(TextureFormat::R16Sint)
    } else if code == VK_FORMAT_R32_SFLOAT {
        Ok(TextureFormat::R32Float)
    } else if code == VK_FORMAT_R32G32_SFLOAT {
        Ok(TextureFormat::Rg32Float)
    } else if code == VK_FORMAT_R32G32B32A32_SFLOAT {
        Ok(TextureFormat::Rgba32Float)
    } else if code == VK_FORMAT_R32_UINT {
        Ok(TextureFormat::R32Uint)
    } else if code == VK_FORMAT_R32_SINT {
        Ok(TextureFormat::R32Sint)
    } else if code == VK_FORMAT_D32_SFLOAT {
        Ok(TextureFormat::Depth32Float)
    } else if code == VK_FORMAT_X8_D24_UNORM_PACK32 {
        Ok(TextureFormat::Depth24Plus)
    } else if code == VK_FORMAT_D24_UNORM_S8_UINT {
        Ok(TextureFormat::Depth24PlusStencil8)
    } else if code == VK_FORMAT_A2R10G10B10_UNORM_PACK32 {
        Ok(TextureFormat::Rgb10a2Unorm)
    } else if code == VK_FORMAT_B10G11R11_UFLOAT_PACK32 {
        Ok(TextureFormat::Rg11b10Float)
    } else {
        Err(GeyserError::UnsupportedFormat(String::from_str("Unsupported Vulkan format code")))
    }
}

/// Going to Vulkan's format code and back gives the format again, for every
/// format.
pub proof fn lemma_vk_format_round_trip(format: TextureFormat)
    ensures
        format_of_vk(vk_format(format)) == Some(format),
{
}

/// No two formats have the same Vulkan code.
pub proof fn lemma_vk_format_injective(a: TextureFormat, b: TextureFormat)
    ensures
        vk_format(a) == vk_format(b) ==> a == b,
{
    lemma_vk_format_round_trip(a);
    lemma_vk_format_round_trip(b);
}

/// Every usage has a usage bit of its own in Vulkan: the mask of a single
/// usage is not empty.
pub proof fn lemma_vk_usage_nonempty(usage: TextureUsage)
    ensures
        vk_usage(seq![usage]) != 0,
        vk_usage(seq![usage]) == vk_usage_bit(usage),
{
    crate::common::lemma_usage_mask_single(usage, |u: TextureUsage| vk_usage_bit(u));
}

/// The Vulkan flags of two lists of usages put together are the union of the
/// flags of each.
pub proof fn lemma_vk_usage_union(a: Seq<TextureUsage>, b: Seq<TextureUsage>)
    ensures
        vk_usage(a + b) == vk_usage(a) | vk_usage(b),
        vk_aspect(a + b) == vk_aspect(a) | vk_aspect(b),
{
    crate::common::lemma_usage_mask_union(a, b, |u: TextureUsage| vk_usage_bit(u));
    crate::common::lemma_usage_mask_union(a, b, |u: TextureUsage| vk_aspect_bit(u));
}

} // verus!
