//! Bridge between the library's texture handles and wgpu.
//!
//! wgpu names its texture formats by an enumeration without numbers. The
//! bridge mirrors the part of it that the library knows in `WgpuFormat`,
//! variant for variant under wgpu's own names; the embedding engine converts
//! between the mirror and wgpu's type by name. Usages are wgpu's own bits.

use vstd::prelude::*;
use crate::common::{
    lemma_usage_mask_single, lemma_usage_mask_union, usage_mask, TextureDescriptor, TextureFormat,
    TextureUsage,
};
use crate::error::{join, GeyserError, GeyserErrorView};
use crate::vulkan::VulkanTextureShareHandle;

verus! {

// The bits of wgpu's `TextureUsages` that usages map to.
pub const WGPU_TEXTURE_USAGE_COPY_SRC: u32 = 0x1;
pub const WGPU_TEXTURE_USAGE_COPY_DST: u32 = 0x2;
pub const WGPU_TEXTURE_USAGE_TEXTURE_BINDING: u32 = 0x4;
pub const WGPU_TEXTURE_USAGE_STORAGE_BINDING: u32 = 0x8;
pub const WGPU_TEXTURE_USAGE_RENDER_ATTACHMENT: u32 = 0x10;

/// A texture format of wgpu. The formats that have an abstract counterpart
/// stand under the names that wgpu gives them; every other format of wgpu is
/// `Other`, with the name that wgpu prints it under.
#[derive(Debug, PartialEq, Eq, Hash)]
pub enum WgpuFormat {
    Rgba8Unorm,
    Bgra8Unorm,
    Rgba8UnormSrgb,
    Bgra8UnormSrgb,
    R8Unorm,
    Rg8Unorm,
    R16Float,
    Rg16Float,
    Rgba16Float,
    R16Uint,
    R16Sint,
    R32Float,
    Rg32Float,
    Rgba32Float,
    R32Uint,
    R32Sint,
    Depth32Float,
    Depth24Plus,
    Depth24PlusStencil8,
    Rgb10a2Unorm,
    Rg11b10Ufloat,
    Other(String),
}

/// A `WgpuFormat` with the name of another format as a sequence of
/// characters.
pub enum WgpuFormatView {
    Rgba8Unorm,
    Bgra8Unorm,
    Rgba8UnormSrgb,
    Bgra8UnormSrgb,
    R8Unorm,
    Rg8Unorm,
    R16Float,
    Rg16Float,
    Rgba16Float,
    R16Uint,
    R16Sint,
    R32Float,
    Rg32Float,
    Rgba32Float,
    R32Uint,
    R32Sint,
    Depth32Float,
    Depth24Plus,
    Depth24PlusStencil8,
    Rgb10a2Unorm,
    Rg11b10Ufloat,
    Other(Seq<char>),
}

impl View for WgpuFormat {
    type V = WgpuFormatView;

    open spec fn view(&self) -> WgpuFormatView {
        match self {
            WgpuFormat::Rgba8Unorm => WgpuFormatView::Rgba8Unorm,
            WgpuFormat::Bgra8Unorm => WgpuFormatView::Bgra8Unorm,
            WgpuFormat::Rgba8UnormSrgb => WgpuFormatView::Rgba8UnormSrgb,
            WgpuFormat::Bgra8UnormSrgb => WgpuFormatView::Bgra8UnormSrgb,
            WgpuFormat::R8Unorm => WgpuFormatView::R8Unorm,
            WgpuFormat::Rg8Unorm => WgpuFormatView::Rg8Unorm,
            WgpuFormat::R16Float => WgpuFormatView::R16Float,
            WgpuFormat::Rg16Float => WgpuFormatView::Rg16Float,
            WgpuFormat::Rgba16Float => WgpuFormatView::Rgba16Float,
            WgpuFormat::R16Uint => WgpuFormatView::R16Uint,
            WgpuFormat::R16Sint => WgpuFormatView::R16Sint,
            WgpuFormat::R32Float => WgpuFormatView::R32Float,
            WgpuFormat::Rg32Float => WgpuFormatView::Rg32Float,
            WgpuFormat::Rgba32Float => WgpuFormatView::Rgba32Float,
            WgpuFormat::R32Uint => WgpuFormatView::R32Uint,
            WgpuFormat::R32Sint => WgpuFormatView::R32Sint,
            WgpuFormat::Depth32Float => WgpuFormatView::Depth32Float,
            WgpuFormat::Depth24Plus => WgpuFormatView::Depth24Plus,
            WgpuFormat::Depth24PlusStencil8 => WgpuFormatView::Depth24PlusStencil8,
            WgpuFormat::Rgb10a2Unorm => WgpuFormatView::Rgb10a2Unorm,
            WgpuFormat::Rg11b10Ufloat => WgpuFormatView::Rg11b10Ufloat,
            WgpuFormat::Other(name) => WgpuFormatView::Other(name@),
        }
    }
}

/// The wgpu format of an abstract format. No two abstract formats have the
/// same.
pub open spec fn wgpu_format(format: TextureFormat) -> WgpuFormatView {
    match format {
        TextureFormat::Rgba8Unorm => WgpuFormatView::Rgba8Unorm,
        TextureFormat::Bgra8Unorm => WgpuFormatView::Bgra8Unorm,
        TextureFormat::Rgba8Srgb => WgpuFormatView::Rgba8UnormSrgb,
        TextureFormat::Bgra8Srgb => WgpuFormatView::Bgra8UnormSrgb,
        TextureFormat::R8Unorm => WgpuFormatView::R8Unorm,
        TextureFormat::Rg8Unorm => WgpuFormatView::Rg8Unorm,
        TextureFormat::R16Float => WgpuFormatView::R16Float,
        TextureFormat::Rg16Float => WgpuFormatView::Rg16Float,
        TextureFormat::Rgba16Float => WgpuFormatView::Rgba16Float,
        TextureFormat::R16Uint => WgpuFormatView::R16Uint,
        TextureFormat::R16Sint => WgpuFormatView::R16Sint,
        TextureFormat::R32Float => WgpuFormatView::R32Float,
        TextureFormat::Rg32Float => WgpuFormatView::Rg32Float,
        TextureFormat::Rgba32Float => WgpuFormatView::Rgba32Float,
        TextureFormat::R32Uint => WgpuFormatView::R32Uint,
        TextureFormat::R32Sint => WgpuFormatView::R32Sint,
        TextureFormat::Depth32Float => WgpuFormatView::Depth32Float,
        TextureFormat::Depth24Plus => WgpuFormatView::Depth24Plus,
        TextureFormat::Depth24PlusStencil8 => WgpuFormatView::Depth24PlusStencil8,
        TextureFormat::Rgb10a2Unorm => WgpuFormatView::Rgb10a2Unorm,
        TextureFormat::Rg11b10Float => WgpuFormatView::Rg11b10Ufloat,
    }
}

/// The abstract format of a wgpu format; none for the formats of wgpu that
/// have no abstract counterpart.
pub open spec fn format_of_wgpu(format: WgpuFormatView) -> Option<TextureFormat> {
    match format {
        WgpuFormatView::Rgba8Unorm => Some(TextureFormat::Rgba8Unorm),
        WgpuFormatView::Bgra8Unorm => Some(TextureFormat::Bgra8Unorm),
        WgpuFormatView::Rgba8UnormSrgb => Some(TextureFormat::Rgba8Srgb),
        WgpuFormatView::Bgra8UnormSrgb => Some(TextureFormat::Bgra8Srgb),
        WgpuFormatView::R8Unorm => Some(TextureFormat::R8Unorm),
        WgpuFormatView::Rg8Unorm => Some(TextureFormat::Rg8Unorm),
        WgpuFormatView::R16Float => Some(TextureFormat::R16Float),
        WgpuFormatView::Rg16Float => Some(TextureFormat::Rg16Float),
        WgpuFormatView::Rgba16Float => Some(TextureFormat::Rgba16Float),
        WgpuFormatView::R16Uint => Some(TextureFormat::R16Uint),
        WgpuFormatView::R16Sint => Some(TextureFormat::R16Sint),
        WgpuFormatView::R32Float => Some(TextureFormat::R32Float),
        WgpuFormatView::Rg32Float => Some(TextureFormat::Rg32Float),
        WgpuFormatView::Rgba32Float => Some(TextureFormat::Rgba32Float),
        WgpuFormatView::R32Uint => Some(TextureFormat::R32Uint),
        WgpuFormatView::R32Sint => Some(TextureFormat::R32Sint),
        WgpuFormatView::Depth32Float => Some(TextureFormat::Depth32Float),
        WgpuFormatView::Depth24Plus => Some(TextureFormat::Depth24Plus),
        WgpuFormatView::Depth24PlusStencil8 => Some(TextureFormat::Depth24PlusStencil8),
        WgpuFormatView::Rgb10a2Unorm => Some(TextureFormat::Rgb10a2Unorm),
        WgpuFormatView::Rg11b10Ufloat => Some(TextureFormat::Rg11b10Float),
        WgpuFormatView::Other(_) => None,
    }
}

/// The bit of wgpu's `TextureUsages` for one usage.
pub open spec fn wgpu_usage_bit(usage: TextureUsage) -> u32 {
    match usage {
        TextureUsage::CopySrc => WGPU_TEXTURE_USAGE_COPY_SRC,
        TextureUsage::CopyDst => WGPU_TEXTURE_USAGE_COPY_DST,
        TextureUsage::TextureBinding => WGPU_TEXTURE_USAGE_TEXTURE_BINDING,
        TextureUsage::RenderAttachment => WGPU_TEXTURE_USAGE_RENDER_ATTACHMENT,
        TextureUsage::StorageBinding => WGPU_TEXTURE_USAGE_STORAGE_BINDING,
    }
}

/// The bits of wgpu's `TextureUsages` for a list of usages.
pub open spec fn wgpu_usage(usages: Seq<TextureUsage>) -> u32 {
    usage_mask(usages, |u: TextureUsage| wgpu_usage_bit(u))
}

/// The wgpu format of an abstract format.
pub fn to_wgpu_format(format: TextureFormat) -> (wgpu: WgpuFormat)
    ensures
        wgpu@ == wgpu_format(format),
{
    match format {
        TextureFormat::Rgba8Unorm => WgpuFormat::Rgba8Unorm,
        TextureFormat::Bgra8Unorm => WgpuFormat::Bgra8Unorm,
        TextureFormat::Rgba8Srgb => WgpuFormat::Rgba8UnormSrgb,
        TextureFormat::Bgra8Srgb => WgpuFormat::Bgra8UnormSrgb,
        TextureFormat::R8Unorm => WgpuFormat::R8Unorm,
        TextureFormat::Rg8Unorm => WgpuFormat::Rg8Unorm,
        TextureFormat::R16Float => WgpuFormat::R16Float,
        TextureFormat::Rg16Float => WgpuFormat::Rg16Float,
        TextureFormat::Rgba16Float => WgpuFormat::Rgba16Float,
        TextureFormat::R16Uint => WgpuFormat::R16Uint,
        TextureFormat::R16Sint => WgpuFormat::R16Sint,
        TextureFormat::R32Float => WgpuFormat::R32Float,
        TextureFormat::Rg32Float => WgpuFormat::Rg32Float,
        TextureFormat::Rgba32Float => WgpuFormat::Rgba32Float,
        TextureFormat::R32Uint => WgpuFormat::R32Uint,
        TextureFormat::R32Sint => WgpuFormat::R32Sint,
        TextureFormat::Depth32Float => WgpuFormat::Depth32Float,
        TextureFormat::Depth24Plus => WgpuFormat::Depth24Plus,
        TextureFormat::Depth24PlusStencil8 => WgpuFormat::Depth24PlusStencil8,
        TextureFormat::Rgb10a2Unorm => WgpuFormat::Rgb10a2Unorm,
        TextureFormat::Rg11b10Float => WgpuFormat::Rg11b10Ufloat,
    }
}

/// The bits of wgpu's `TextureUsages` for a list of usages: the union of the
/// bits of each.
pub fn to_wgpu_usage(usage: &[TextureUsage]) -> (bits: u32)
    ensures
        bits == wgpu_usage(usage@),
{
    let mut wgpu_usage: u32 = 0;
    let mut i: usize = 0;
    while i < usage.len()
        invariant
            i <= usage.len(),
            wgpu_usage == self::wgpu_usage(usage@.subrange(0, i as int)),
        decreases usage.len() - i,
    {
        proof {
            let next = usage@.subrange(0, i + 1);
            assert(next.drop_last() =~= usage@.subrange(0, i as int));
            assert(next.last() == usage@[i as int]);
        }
        wgpu_usage = wgpu_usage | match usage[i] {
            TextureUsage::CopySrc => WGPU_TEXTURE_USAGE_COPY_SRC,
            TextureUsage::CopyDst => WGPU_TEXTURE_USAGE_COPY_DST,
            TextureUsage::TextureBinding => WGPU_TEXTURE_USAGE_TEXTURE_BINDING,
            TextureUsage::RenderAttachment => WGPU_TEXTURE_USAGE_RENDER_ATTACHMENT,
            TextureUsage::StorageBinding => WGPU_TEXTURE_USAGE_STORAGE_BINDING,
        };
        i = i + 1;
    }
    assert(usage@.subrange(0, i as int) =~= usage@);
    wgpu_usage
}

/// The abstract format of a wgpu format. A format of wgpu without an
/// abstract counterpart is refused as unsupported, under its name; it is
/// never replaced by a default.
pub fn from_wgpu_format(format: WgpuFormat) -> (abstract_format: Result<TextureFormat, GeyserError>)
    ensures
        match format@ {
            WgpuFormatView::Other(name) => abstract_format matches Err(error) && error@
                == GeyserErrorView::UnsupportedFormat("Unsupported wgpu format: "@ + name),
            known => format_of_wgpu(known) is Some && abstract_format == Ok::<TextureFormat, GeyserError>(
                format_of_wgpu(known)->0,
            ),
        },
{
    match format {
        WgpuFormat::Rgba8Unorm => Ok(TextureFormat::Rgba8Unorm),
        WgpuFormat::Bgra8Unorm => Ok(TextureFormat::Bgra8Unorm),
        WgpuFormat::Rgba8UnormSrgb => Ok(TextureFormat::Rgba8Srgb),
        WgpuFormat::Bgra8UnormSrgb => Ok(TextureFormat::Bgra8Srgb),
        WgpuFormat::R8Unorm => Ok(TextureFormat::R8Unorm),
        WgpuFormat::Rg8Unorm => Ok(TextureFormat::Rg8Unorm),
        WgpuFormat::R16Float => Ok(TextureFormat::R16Float),
        WgpuFormat::Rg16Float => Ok(TextureFormat::Rg16Float),
        WgpuFormat::Rgba16Float => Ok(TextureFormat::Rgba16Float),
        WgpuFormat::R16Uint => Ok(TextureFormat::R16Uint),
        WgpuFormat::R16Sint => Ok(TextureFormat::R16Sint),
        WgpuFormat::R32Float => Ok(TextureFormat::R32Float),
        WgpuFormat::Rg32Float => Ok(TextureFormat::Rg32Float),
        WgpuFormat::Rgba32Float => Ok(TextureFormat::Rgba32Float),
        WgpuFormat::R32Uint => Ok(TextureFormat::R32Uint),
        WgpuFormat::R32Sint => Ok(TextureFormat::R32Sint),
        WgpuFormat::Depth32Float => Ok(TextureFormat::Depth32Float),
        WgpuFormat::Depth24Plus => Ok(TextureFormat::Depth24Plus),
        WgpuFormat::Depth24PlusStencil8 => Ok(TextureFormat::Depth24PlusStencil8),
        WgpuFormat::Rgb10a2Unorm => Ok(TextureFormat::Rgb10a2Unorm),
        WgpuFormat::Rg11b10Ufloat => Ok(TextureFormat::Rg11b10Float),
        WgpuFormat::Other(name) => Err(
            GeyserError::UnsupportedFormat(join("Unsupported wgpu format: ", name.as_str())),
        ),
    }
}

/// Going to wgpu's format and back gives the format again, for every
/// abstract format.
pub proof fn lemma_wgpu_format_round_trip(format: TextureFormat)
    ensures
        format_of_wgpu(wgpu_format(format)) == Some(format),
{
}

/// Every usage has a bit of its own in wgpu: the mask of a single usage is
/// not empty.
pub proof fn lemma_wgpu_usage_nonempty(usage: TextureUsage)
    ensures
        wgpu_usage(seq![usage]) != 0,
        wgpu_usage(seq![usage]) == wgpu_usage_bit(usage),
{
    lemma_usage_mask_single(usage, |u: TextureUsage| wgpu_usage_bit(u));
}

/// The wgpu usage of two lists of usages put together is the union of the
/// usage of each.
pub proof fn lemma_wgpu_usage_union(a: Seq<TextureUsage>, b: Seq<TextureUsage>)
    ensures
        wgpu_usage(a + b) == wgpu_usage(a) | wgpu_usage(b),
{
    lemma_usage_mask_union(a, b, |u: TextureUsage| wgpu_usage_bit(u));
}

/// The graphics API under a wgpu texture.
#[derive(Debug, Clone, Copy, PartialEq, Eq, Structural)]
pub enum WgpuBackendType {
    Vulkan,
    Metal,
    Dx12,
    Gl,
}

/// A texture of wgpu's hardware layer that was imported from external
/// memory, with the descriptor it was imported with. `T` is the type of the
/// raw texture.
pub struct WgpuTextureHandle<T> {
    /// The raw texture.
    pub texture: Box<T>,
    /// The descriptor of the texture.
    pub descriptor: TextureDescriptor,
    /// The API that the raw texture belongs to.
    pub backend_type: WgpuBackendType,
}

impl<T> WgpuTextureHandle<T> {
    /// Wraps a raw texture with its descriptor and the API it belongs to.
    pub fn new(texture: T, descriptor: TextureDescriptor, backend_type: WgpuBackendType) -> (handle: Self)
        ensures
            *handle.texture == texture,
            handle.descriptor == descriptor,
            handle.backend_type == backend_type,
    {
        WgpuTextureHandle { texture: Box::new(texture), descriptor, backend_type }
    }

    /// The address of the raw Vulkan texture. The handle gives none out,
    /// whatever its backend.
    pub fn as_vulkan_raw(&self) -> (raw: Option<usize>)
        ensures
            raw is None,
    {
        None
    }
}

/// What an import straight into wgpu's hardware layer is refused with.
pub open spec fn direct_import_unavailable() -> GeyserErrorView {
    GeyserErrorView::NotImplemented(
        "Direct import into wgpu-hal is not exposed; use Vulkan import then wrap"@,
    )
}

/// Imports a Vulkan share handle straight into wgpu's hardware layer. wgpu
/// offers no such import: the way is to import with the Vulkan manager and
/// wrap what it returns. So this is refused for every handle and descriptor.
pub fn import_vulkan_texture(
    handle: &VulkanTextureShareHandle,
    descriptor: &TextureDescriptor,
) -> (imported: Result<
    WgpuTextureHandle<ash::vk::Image>,
    GeyserError,
>)
    ensures
        imported matches Err(error) && error@ == direct_import_unavailable(),
{
    Err(
        GeyserError::NotImplemented(
            String::from_str("Direct import into wgpu-hal is not exposed; use Vulkan import then wrap"),
        ),
    )
}

} // verus!
