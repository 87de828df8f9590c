//! Common types used across the graphics APIs.

use vstd::prelude::*;
use crate::metal::{MetalEventHandle, MetalTextureShareHandle};
use crate::vulkan::{VulkanFenceHandle, VulkanSemaphoreHandle, VulkanTextureShareHandle};

verus! {

/// The intended usage of a texture, which decides how it is created and shared.
#[derive(Debug, Clone, Copy, PartialEq, Eq, Hash, Structural)]
pub enum TextureUsage {
    /// Texture can be copied from (source).
    CopySrc,
    /// Texture can be copied to (destination).
    CopyDst,
    /// Texture can be sampled by shaders.
    TextureBinding,
    /// Texture can be used as a render target.
    RenderAttachment,
    /// Texture can be written to by compute shaders (storage texture).
    StorageBinding,
}

/// A texture format, abstracting over the API-specific enumerations.
#[derive(Debug, Clone, Copy, PartialEq, Eq, Hash, Structural)]
pub enum TextureFormat {
    // 8-bit formats
    Rgba8Unorm,
    Bgra8Unorm,
    Rgba8Srgb,
    Bgra8Srgb,
    R8Unorm,
    Rg8Unorm,
    // 16-bit formats
    R16Float,
    Rg16Float,
    Rgba16Float,
    R16Uint,
    R16Sint,
    // 32-bit formats
    R32Float,
    Rg32Float,
    Rgba32Float,
    R32Uint,
    R32Sint,
    // Depth/Stencil formats
    Depth32Float,
    Depth24Plus,
    Depth24PlusStencil8,
    // HDR formats
    Rgb10a2Unorm,
    Rg11b10Float,
}

impl TextureFormat {
    /// The name of the format, as it is printed.
    pub open spec fn spec_name(self) -> Seq<char> {
        match self {
            TextureFormat::Rgba8Unorm => "Rgba8Unorm"@,
            TextureFormat::Bgra8Unorm => "Bgra8Unorm"@,
            TextureFormat::Rgba8Srgb => "Rgba8Srgb"@,
            TextureFormat::Bgra8Srgb => "Bgra8Srgb"@,
            TextureFormat::R8Unorm => "R8Unorm"@,
            TextureFormat::Rg8Unorm => "Rg8Unorm"@,
            TextureFormat::R16Float => "R16Float"@,
            TextureFormat::Rg16Float => "Rg16Float"@,
            TextureFormat::Rgba16Float => "Rgba16Float"@,
            TextureFormat::R16Uint => "R16Uint"@,
            TextureFormat::R16Sint => "R16Sint"@,
            TextureFormat::R32Float => "R32Float"@,
            TextureFormat::Rg32Float => "Rg32Float"@,
            TextureFormat::Rgba32Float => "Rgba32Float"@,
            TextureFormat::R32Uint => "R32Uint"@,
            TextureFormat::R32Sint => "R32Sint"@,
            TextureFormat::Depth32Float => "Depth32Float"@,
            TextureFormat::Depth24Plus => "Depth24Plus"@,
            TextureFormat::Depth24PlusStencil8 => "Depth24PlusStencil8"@,
            TextureFormat::Rgb10a2Unorm => "Rgb10a2Unorm"@,
            TextureFormat::Rg11b10Float => "Rg11b10Float"@,
        }
    }

    /// The name of the format.
    pub fn name(&self) -> (name: &'static str)
        ensures
            name@ == self.spec_name(),
    {
        match self {
            TextureFormat::Rgba8Unorm => "Rgba8Unorm",
            TextureFormat::Bgra8Unorm => "Bgra8Unorm",
            TextureFormat::Rgba8Srgb => "Rgba8Srgb",
            TextureFormat::Bgra8Srgb => "Bgra8Srgb",
            TextureFormat::R8Unorm => "R8Unorm",
            TextureFormat::Rg8Unorm => "Rg8Unorm",
            TextureFormat::R16Float => "R16Float",
            TextureFormat::Rg16Float => "Rg16Float",
            TextureFormat::Rgba16Float => "Rgba16Float",
            TextureFormat::R16Uint => "R16Uint",
            TextureFormat::R16Sint => "R16Sint",
            TextureFormat::R32Float => "R32Float",
            TextureFormat::Rg32Float => "Rg32Float",
            TextureFormat::Rgba32Float => "Rgba32Float",
            TextureFormat::R32Uint => "R32Uint",
            TextureFormat::R32Sint => "R32Sint",
            TextureFormat::Depth32Float => "Depth32Float",
            TextureFormat::Depth24Plus => "Depth24Plus",
            TextureFormat::Depth24PlusStencil8 => "Depth24PlusStencil8",
            TextureFormat::Rgb10a2Unorm => "Rgb10a2Unorm",
            TextureFormat::Rg11b10Float => "Rg11b10Float",
        }
    }

    /// The format as text: its name.
    pub fn to_string(&self) -> (text: String)
        ensures
            text@ == self.spec_name(),
    {
        String::from_str(self.name())
    }
}

/// The native usage mask of a list of usages: the union of the bits that
/// `bit` gives each of them. Neither the order of the list nor a usage that
/// occurs twice changes it.
pub open spec fn usage_mask(usages: Seq<TextureUsage>, bit: spec_fn(TextureUsage) -> u32) -> u32
    decreases usages.len(),
{
    if usages.len() == 0 {
        0
    } else {
        usage_mask(usages.drop_last(), bit) | bit(usages.last())
    }
}

/// The mask of a single usage is that usage's own bit.
pub proof fn lemma_usage_mask_single(usage: TextureUsage, bit: spec_fn(TextureUsage) -> u32)
    ensures
        usage_mask(seq![usage], bit) == bit(usage),
{
    let one = seq![usage];
    assert(one.drop_last() =~= Seq::<TextureUsage>::empty());
    assert(usage_mask(one.drop_last(), bit) == 0);
    let b = bit(usage);
    assert(0u32 | b == b) by (bit_vector);
}

/// The mask of two lists put together is the union of their masks, whether
/// or not the lists have a usage in common.
pub proof fn lemma_usage_mask_union(
    a: Seq<TextureUsage>,
    b: Seq<TextureUsage>,
    bit: spec_fn(TextureUsage) -> u32,
)
    ensures
        usage_mask(a + b, bit) == usage_mask(a, bit) | usage_mask(b, bit),
    decreases b.len(),
{
    let x = usage_mask(a, bit);
    if b.len() == 0 {
        assert(a + b =~= a);
        assert(x | 0u32 == x) by (bit_vector);
    } else {
        assert((a + b).drop_last() =~= a + b.drop_last());
        assert((a + b).last() == b.last());
        lemma_usage_mask_union(a, b.drop_last(), bit);
        let y = usage_mask(b.drop_last(), bit);
        let z = bit(b.last());
        assert((x | y) | z == x | (y | z)) by (bit_vector);
    }
}

/// The order of the usages does not matter, nor does it matter how often a
/// usage is named: two lists in either order have the same mask, and a list
/// named twice has the mask of the list.
pub proof fn lemma_usage_mask_order(
    a: Seq<TextureUsage>,
    b: Seq<TextureUsage>,
    bit: spec_fn(TextureUsage) -> u32,
)
    ensures
        usage_mask(a + b, bit) == usage_mask(b + a, bit),
        usage_mask(a + a, bit) == usage_mask(a, bit),
{
    lemma_usage_mask_union(a, b, bit);
    lemma_usage_mask_union(b, a, bit);
    lemma_usage_mask_union(a, a, bit);
    let x = usage_mask(a, bit);
    let y = usage_mask(b, bit);
    assert(x | y == y | x) by (bit_vector);
    assert(x | x == x) by (bit_vector);
}

/// A usage's bit is in the mask of every list that holds the usage.
pub proof fn lemma_usage_mask_covers(usages: Seq<TextureUsage>, i: int, bit: spec_fn(TextureUsage) -> u32)
    requires
        0 <= i < usages.len(),
    ensures
        usage_mask(usages, bit) & bit(usages[i]) == bit(usages[i]),
    decreases usages.len(),
{
    let rest = usage_mask(usages.drop_last(), bit);
    let last = bit(usages.last());
    let b = bit(usages[i]);
    if i == usages.len() - 1 {
        assert((rest | b) & b == b) by (bit_vector);
    } else {
        lemma_usage_mask_covers(usages.drop_last(), i, bit);
        assert(rest & b == b ==> (rest | last) & b == b) by (bit_vector);
    }
}

/// Releasing a handle a second time changes nothing: after the first release
/// the registry holds nothing under the key, and taking the key out again
/// leaves it as it is. Releasing a handle that was never entered changes
/// nothing either.
pub proof fn lemma_release_is_idempotent<K, V>(registry: Map<K, V>, key: K)
    ensures
        !registry.remove(key).contains_key(key),
        registry.remove(key).remove(key) == registry.remove(key),
        !registry.contains_key(key) ==> registry.remove(key) == registry,
{
    assert(registry.remove(key).remove(key) =~= registry.remove(key));
    if !registry.contains_key(key) {
        assert(registry.remove(key) =~= registry);
    }
}

/// What a `TextureDescriptor` says, as mathematical values.
pub struct TextureDescriptorView {
    pub width: u32,
    pub height: u32,
    pub format: TextureFormat,
    pub usage: Seq<TextureUsage>,
    pub label: Option<Seq<char>>,
}

/// A descriptor for creating a new shareable texture.
#[derive(Debug, PartialEq, Eq, Hash)]
pub struct TextureDescriptor {
    pub width: u32,
    pub height: u32,
    pub format: TextureFormat,
    /// A texture can have several usages.
    pub usage: Vec<TextureUsage>,
    pub label: Option<String>,
}

impl View for TextureDescriptor {
    type V = TextureDescriptorView;

    open spec fn view(&self) -> TextureDescriptorView {
        TextureDescriptorView {
            width: self.width,
            height: self.height,
            format: self.format,
            usage: self.usage@,
            label: match self.label {
                Some(label) => Some(label@),
                None => None,
            },
        }
    }
}

impl Clone for TextureDescriptor {
    /// A copy that says the same in every field.
    fn clone(&self) -> (copy: TextureDescriptor)
        ensures
            copy@ == self@,
    {
        let mut usage: Vec<TextureUsage> = Vec::new();
        let mut i: usize = 0;
        while i < self.usage.len()
            invariant
                i <= self.usage.len(),
                usage@ == self.usage@.subrange(0, i as int),
            decreases self.usage.len() - i,
        {
            usage.push(self.usage[i]);
            i = i + 1;
        }
        assert(usage@ == self.usage@);
        let label = match &self.label {
            Some(label) => Some(label.clone()),
            None => None,
        };
        TextureDescriptor { width: self.width, height: self.height, format: self.format, usage, label }
    }
}

/// Opaque handle for sharing a texture between contexts or processes: what
/// the other side needs to bind the same memory. Every field is a plain
/// number, so the handle can cross a process boundary in any encoding.
#[derive(Debug, Clone, Copy, PartialEq, Eq, Structural)]
pub enum ApiTextureHandle {
    Vulkan(VulkanTextureShareHandle),
    Metal(MetalTextureShareHandle),
}

/// Handle for sharing a synchronization primitive between processes.
#[derive(Debug, Clone, Copy, PartialEq, Eq, Structural)]
pub enum SyncHandle {
    VulkanSemaphore(VulkanSemaphoreHandle),
    VulkanFence(VulkanFenceHandle),
    MetalEvent(MetalEventHandle),
}

/// Synchronization primitives that go with a shared texture.
#[derive(Debug, Clone, Copy)]
pub struct SyncPrimitives {
    /// Semaphore that signals when the texture is ready, if there is one.
    pub semaphore: Option<SyncHandle>,
    /// Fence for synchronization on the CPU side, if there is one.
    pub fence: Option<SyncHandle>,
}

impl Default for SyncPrimitives {
    /// No semaphore and no fence.
    fn default() -> (sync: SyncPrimitives)
        ensures
            sync.semaphore is None,
            sync.fence is None,
    {
        SyncPrimitives { semaphore: None, fence: None }
    }
}

} // verus!
