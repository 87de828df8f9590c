//! Translation between the abstract formats and usages and Metal's codes.

use vstd::prelude::*;
use crate::common::{
    lemma_usage_mask_single, lemma_usage_mask_union, usage_mask, TextureFormat, TextureUsage,
};
use crate::error::{GeyserError, GeyserErrorView};

verus! {

// The values of `MTLPixelFormat` that abstract formats map to.
pub const MTL_PIXEL_FORMAT_R8_UNORM: u64 = 10;
pub const MTL_PIXEL_FORMAT_R16_UINT: u64 = 23;
pub const MTL_PIXEL_FORMAT_R16_SINT: u64 = 24;
pub const MTL_PIXEL_FORMAT_R16_FLOAT: u64 = 25;
pub const MTL_PIXEL_FORMAT_RG8_UNORM: u64 = 30;
pub const MTL_PIXEL_FORMAT_R32_UINT: u64 = 53;
pub const MTL_PIXEL_FORMAT_R32_SINT: u64 = 54;
pub const MTL_PIXEL_FORMAT_R32_FLOAT: u64 = 55;
pub const MTL_PIXEL_FORMAT_RG16_FLOAT: u64 = 65;
pub const MTL_PIXEL_FORMAT_RGBA8_UNORM: u64 = 70;
pub const MTL_PIXEL_FORMAT_RGBA8_UNORM_SRGB: u64 = 71;
pub const MTL_PIXEL_FORMAT_BGRA8_UNORM: u64 = 80;
pub const MTL_PIXEL_FORMAT_BGRA8_UNORM_SRGB: u64 = 81;
pub const MTL_PIXEL_FORMAT_RGB10A2_UNORM: u64 = 90;
pub const MTL_PIXEL_FORMAT_RG11B10_FLOAT: u64 = 92;
pub const MTL_PIXEL_FORMAT_RG32_FLOAT: u64 = 105;
pub const MTL_PIXEL_FORMAT_RGBA16_FLOAT: u64 = 115;
pub const MTL_PIXEL_FORMAT_RGBA32_FLOAT: u64 = 125;
pub const MTL_PIXEL_FORMAT_DEPTH32_FLOAT: u64 = 252;
pub const MTL_PIXEL_FORMAT_DEPTH24_UNORM_STENCIL8: u64 = 255;
pub const MTL_PIXEL_FORMAT_DEPTH32_FLOAT_STENCIL8: u64 = 260;

// The bits of `MTLTextureUsage` that usages map to.
pub const MTL_TEXTURE_USAGE_SHADER_READ: u32 = 0x1;
pub const MTL_TEXTURE_USAGE_SHADER_WRITE: u32 = 0x2;
pub const MTL_TEXTURE_USAGE_RENDER_TARGET: u32 = 0x4;

/// The storage mode of memory that CPU and GPU both reach, which a texture
/// over a shared surface needs.
pub const MTL_STORAGE_MODE_SHARED: u64 = 0;

/// The `MTLPixelFormat` code of an abstract format. Every format has a code
/// of its own. Metal's one 24-bit depth format, which carries eight bits of
/// stencil beside the depth, stands for `Depth24Plus`; the 24-bit depth
/// format with stencil is stored as the 32-bit one with stencil.
pub open spec fn mtl_format(format: TextureFormat) -> u64 {
    match format {
        TextureFormat::Rgba8Unorm => MTL_PIXEL_FORMAT_RGBA8_UNORM,
        TextureFormat::Bgra8Unorm => MTL_PIXEL_FORMAT_BGRA8_UNORM,
        TextureFormat::Rgba8Srgb => MTL_PIXEL_FORMAT_RGBA8_UNORM_SRGB,
        TextureFormat::Bgra8Srgb => MTL_PIXEL_FORMAT_BGRA8_UNORM_SRGB,
        TextureFormat::R8Unorm => MTL_PIXEL_FORMAT_R8_UNORM,
        TextureFormat::Rg8Unorm => MTL_PIXEL_FORMAT_RG8_UNORM,
        TextureFormat::R16Float => MTL_PIXEL_FORMAT_R16_FLOAT,
        TextureFormat::Rg16Float => MTL_PIXEL_FORMAT_RG16_FLOAT,
        TextureFormat::Rgba16Float => MTL_PIXEL_FORMAT_RGBA16_FLOAT,
        TextureFormat::R16Uint => MTL_PIXEL_FORMAT_R16_UINT,
        TextureFormat::R16Sint => MTL_PIXEL_FORMAT_R16_SINT,
        TextureFormat::R32Float => MTL_PIXEL_FORMAT_R32_FLOAT,
        TextureFormat::Rg32Float => MTL_PIXEL_FORMAT_RG32_FLOAT,
        TextureFormat::Rgba32Float => MTL_PIXEL_FORMAT_RGBA32_FLOAT,
        TextureFormat::R32Uint => MTL_PIXEL_FORMAT_R32_UINT,
        TextureFormat::R32Sint => MTL_PIXEL_FORMAT_R32_SINT,
        TextureFormat::Depth32Float => MTL_PIXEL_FORMAT_DEPTH32_FLOAT,
        TextureFormat::Depth24Plus => MTL_PIXEL_FORMAT_DEPTH24_UNORM_STENCIL8,
        TextureFormat::Depth24PlusStencil8 => MTL_PIXEL_FORMAT_DEPTH32_FLOAT_STENCIL8,
        TextureFormat::Rgb10a2Unorm => MTL_PIXEL_FORMAT_RGB10A2_UNORM,
        TextureFormat::Rg11b10Float => MTL_PIXEL_FORMAT_RG11B10_FLOAT,
    }
}

/// The abstract format that an `MTLPixelFormat` code stands for, where there
/// is one.
pub open spec fn format_of_mtl(code: u64) -> Option<TextureFormat> {
    if code == MTL_PIXEL_FORMAT_RGBA8_UNORM {
        Some(TextureFormat::Rgba8Unorm)
    } else if code == MTL_PIXEL_FORMAT_BGRA8_UNORM {
        Some(TextureFormat::Bgra8Unorm)
    } else if code == MTL_PIXEL_FORMAT_RGBA8_UNORM_SRGB {
        Some(TextureFormat::Rgba8Srgb)
    } else if code == MTL_PIXEL_FORMAT_BGRA8_UNORM_SRGB {
        Some(TextureFormat::Bgra8Srgb)
    } else if code == MTL_PIXEL_FORMAT_R8_UNORM {
        Some(TextureFormat::R8Unorm)
    } else if code == MTL_PIXEL_FORMAT_RG8_UNORM {
        Some(TextureFormat::Rg8Unorm)
    } else if code == MTL_PIXEL_FORMAT_R16_FLOAT {
        Some(TextureFormat::R16Float)
    } else if code == MTL_PIXEL_FORMAT_RG16_FLOAT {
        Some(TextureFormat::Rg16Float)
    } else if code == MTL_PIXEL_FORMAT_RGBA16_FLOAT {
        Some(TextureFormat::Rgba16Float)
    } else if code == MTL_PIXEL_FORMAT_R16_UINT {
        Some(TextureFormat::R16Uint)
    } else if code == MTL_PIXEL_FORMAT_R16_SINT {
        Some(TextureFormat::R16Sint)
    } else if code == MTL_PIXEL_FORMAT_R32_FLOAT {
        Some(TextureFormat::R32Float)
    } else if code == MTL_PIXEL_FORMAT_RG32_FLOAT {
        Some(TextureFormat::Rg32Float)
    } else if code == MTL_PIXEL_FORMAT_RGBA32_FLOAT {
        Some(TextureFormat::Rgba32Float)
    } else if code == MTL_PIXEL_FORMAT_R32_UINT {
        Some(TextureFormat::R32Uint)
    } else if code == MTL_PIXEL_FORMAT_R32_SINT {
        Some(TextureFormat::R32Sint)
    } else if code == MTL_PIXEL_FORMAT_DEPTH32_FLOAT {
        Some(TextureFormat::Depth32Float)
    } else if code == MTL_PIXEL_FORMAT_DEPTH24_UNORM_STENCIL8 {
        Some(TextureFormat::Depth24Plus)
    } else if code == MTL_PIXEL_FORMAT_DEPTH32_FLOAT_STENCIL8 {
        Some(TextureFormat::Depth24PlusStencil8)
    } else if code == MTL_PIXEL_FORMAT_RGB10A2_UNORM {
        Some(TextureFormat::Rgb10a2Unorm)
    } else if code == MTL_PIXEL_FORMAT_RG11B10_FLOAT {
        Some(TextureFormat::Rg11b10Float)
    } else {
        None
    }
}

/// The number of bytes that one element of a surface takes in memory. It is
/// the size that the native format is stored with: four bytes for 24-bit
/// depth, which shares its texel with eight bits of stencil, and eight for
/// the depth format with stencil, which is stored as 32-bit depth with
/// stencil.
pub open spec fn element_bytes(format: TextureFormat) -> usize {
    match format {
        TextureFormat::R8Unorm => 1,
        TextureFormat::Rg8Unorm => 2,
        TextureFormat::Rgba8Unorm => 4,
        TextureFormat::Bgra8Unorm => 4,
        TextureFormat::Rgba8Srgb => 4,
        TextureFormat::Bgra8Srgb => 4,
        TextureFormat::R16Float => 2,
        TextureFormat::R16Uint => 2,
        TextureFormat::R16Sint => 2,
        TextureFormat::Rg16Float => 4,
        TextureFormat::Rgba16Float => 8,
        TextureFormat::R32Float => 4,
        TextureFormat::R32Uint => 4,
        TextureFormat::R32Sint => 4,
        TextureFormat::Rg32Float => 8,
        TextureFormat::Rgba32Float => 16,
        TextureFormat::Depth32Float => 4,
        TextureFormat::Depth24Plus => 4,
        TextureFormat::Depth24PlusStencil8 => 8,
        TextureFormat::Rgb10a2Unorm => 4,
        TextureFormat::Rg11b10Float => 4,
    }
}

/// The `MTLTextureUsage` bit of one usage: what is copied from or sampled is
/// read by shaders, what is copied to or stored to is written by them.
pub open spec fn mtl_usage_bit(usage: TextureUsage) -> u32 {
    match usage {
        TextureUsage::CopySrc => MTL_TEXTURE_USAGE_SHADER_READ,
        TextureUsage::CopyDst => MTL_TEXTURE_USAGE_SHADER_WRITE,
        TextureUsage::TextureBinding => MTL_TEXTURE_USAGE_SHADER_READ,
        TextureUsage::RenderAttachment => MTL_TEXTURE_USAGE_RENDER_TARGET,
        TextureUsage::StorageBinding => MTL_TEXTURE_USAGE_SHADER_WRITE,
    }
}

/// The `MTLTextureUsage` of a list of usages.
pub open spec fn mtl_usage(usages: Seq<TextureUsage>) -> u32 {
    usage_mask(usages, |u: TextureUsage| mtl_usage_bit(u))
}

/// The abstract format of an `MTLPixelFormat` code. A code that no abstract
/// format maps to is refused as an unsupported format, never replaced by a
/// default.
pub fn texture_format_from_mtl(code: u64) -> (format: Result<TextureFormat, GeyserError>)
    ensures
        match format_of_mtl(code) {
            Some(f) => format == Ok::<TextureFormat, GeyserError>(f),
            None => format matches Err(e) && e@ == GeyserErrorView::UnsupportedFormat(
                "Unsupported Metal pixel format code"@,
            ),
        },
{
    if code == MTL_PIXEL_FORMAT_RGBA8_UNORM {
        Ok(TextureFormat::Rgba8Unorm)
    } else if code == MTL_PIXEL_FORMAT_BGRA8_UNORM {
        Ok(TextureFormat::Bgra8Unorm)
    } else if code == MTL_PIXEL_FORMAT_RGBA8_UNORM_SRGB {
        Ok(TextureFormat::Rgba8Srgb)
    } else if code == MTL_PIXEL_FORMAT_BGRA8_UNORM_SRGB {
        Ok(TextureFormat::Bgra8Srgb)
    } else if code == MTL_PIXEL_FORMAT_R8_UNORM {
        Ok(TextureFormat::R8Unorm)
    } else if code == MTL_PIXEL_FORMAT_RG8_UNORM {
        Ok(TextureFormat::Rg8Unorm)
    } else if code == MTL_PIXEL_FORMAT_R16_FLOAT {
        Ok(TextureFormat::R16Float)
    } else if code == MTL_PIXEL_FORMAT_RG16_FLOAT {
        Ok(TextureFormat::Rg16Float)
    } else if code == MTL_PIXEL_FORMAT_RGBA16_FLOAT {
        Ok(TextureFormat::Rgba16Float)
    } else if code == MTL_PIXEL_FORMAT_R16_UINT {
        Ok(TextureFormat::R16Uint)
    } else if code == MTL_PIXEL_FORMAT_R16_SINT {
        Ok(TextureFormat::R16Sint)
    } else if code == MTL_PIXEL_FORMAT_R32_FLOAT {
        Ok(TextureFormat::R32Float)
    } else if code == MTL_PIXEL_FORMAT_RG32_FLOAT {
        Ok(TextureFormat::Rg32Float)
    } else if code == MTL_PIXEL_FORMAT_RGBA32_FLOAT {
        Ok(TextureFormat::Rgba32Float)
    } else if code == MTL_PIXEL_FORMAT_R32_UINT {
        Ok(TextureFormat::R32Uint)
    } else if code == MTL_PIXEL_FORMAT_R32_SINT {
        Ok(TextureFormat::R32Sint)
    } else if code == MTL_PIXEL_FORMAT_DEPTH32_FLOAT {
        Ok(TextureFormat::Depth32Float)
    } else if code == MTL_PIXEL_FORMAT_DEPTH24_UNORM_STENCIL8 {
        Ok(TextureFormat::Depth24Plus)
    } else if code == MTL_PIXEL_FORMAT_DEPTH32_FLOAT_STENCIL8 {
        Ok(TextureFormat::Depth24PlusStencil8)
    } else if code == MTL_PIXEL_FORMAT_RGB10A2_UNORM {
        Ok(TextureFormat::Rgb10a2Unorm)
    } else if code == MTL_PIXEL_FORMAT_RG11B10_FLOAT {
        Ok(TextureFormat::Rg11b10Float)
    } else {
        Err(GeyserError::UnsupportedFormat(String::from_str("Unsupported Metal pixel format code")))
    }
}

/// Going to Metal's pixel format code and back gives the format again, for
/// every format.
pub proof fn lemma_mtl_format_round_trip(format: TextureFormat)
    ensures
        format_of_mtl(mtl_format(format)) == Some(format),
{
}

/// No two formats have the same Metal code.
pub proof fn lemma_mtl_format_injective(a: TextureFormat, b: TextureFormat)
    ensures
        mtl_format(a) == mtl_format(b) ==> a == b,
{
    lemma_mtl_format_round_trip(a);
    lemma_mtl_format_round_trip(b);
}

/// Every format takes at least one byte for an element and at most sixteen.
pub proof fn lemma_element_bytes_bounds(format: TextureFormat)
    ensures
        1 <= element_bytes(format) <= 16,
{
}

/// Every usage has a usage bit in Metal: the mask of a single usage is not
/// empty.
pub proof fn lemma_mtl_usage_nonempty(usage: TextureUsage)
    ensures
        mtl_usage(seq![usage]) != 0,
        mtl_usage(seq![usage]) == mtl_usage_bit(usage),
{
    lemma_usage_mask_single(usage, |u: TextureUsage| mtl_usage_bit(u));
}

/// The Metal usage of two lists of usages put together is the union of the
/// usage of each.
pub proof fn lemma_mtl_usage_union(a: Seq<TextureUsage>, b: Seq<TextureUsage>)
    ensures
        mtl_usage(a + b) == mtl_usage(a) | mtl_usage(b),
{
    lemma_usage_mask_union(a, b, |u: TextureUsage| mtl_usage_bit(u));
}

} // verus!
