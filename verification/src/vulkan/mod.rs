//! Vulkan backend for texture sharing.

pub mod sync;
pub mod tables;
pub mod texture;

use std::collections::HashMap;
use vstd::prelude::*;
use crate::common::{ApiTextureHandle, TextureDescriptor, TextureFormat, TextureUsage};
use crate::error::{allocation_error_message, GeyserError, GeyserErrorView};
use crate::vulkan::tables::{vk_aspect, vk_format, vk_usage};
use crate::vulkan::texture::{
    image_request, ImageRequest, MemoryRequirements, MemorySource, PendingImage, RawHandle,
};
use crate::TextureShareManager;

pub use texture::VulkanSharedTexture;

verus! {

/// The kind of platform handle that a Vulkan device exports its objects as.
#[derive(Debug, Clone, Copy, PartialEq, Eq, Hash, Structural)]
pub enum Platform {
    /// POSIX file descriptors.
    Linux,
    /// Win32 kernel object handles.
    Windows,
    /// Neither: nothing can be exported or imported.
    Other,
}

/// The handle type bit of an opaque POSIX file descriptor. Vulkan gives this
/// bit the same value for memory, semaphores and fences.
pub const HANDLE_TYPE_OPAQUE_FD: u32 = 0x1;

/// The handle type bit of an opaque Win32 handle, for memory, semaphores and
/// fences alike.
pub const HANDLE_TYPE_OPAQUE_WIN32: u32 = 0x2;

impl Platform {
    /// The handle types that objects are created exportable as on the platform.
    pub open spec fn spec_handle_types(self) -> u32 {
        match self {
            Platform::Linux => HANDLE_TYPE_OPAQUE_FD,
            Platform::Windows => HANDLE_TYPE_OPAQUE_WIN32,
            Platform::Other => 0,
        }
    }

    /// The handle types that objects are created exportable as on the platform.
    pub fn handle_types(&self) -> (bits: u32)
        ensures
            bits == self.spec_handle_types(),
    {
        match self {
            Platform::Linux => HANDLE_TYPE_OPAQUE_FD,
            Platform::Windows => HANDLE_TYPE_OPAQUE_WIN32,
            Platform::Other => 0,
        }
    }
}

/// What a Vulkan context needs to bind the memory of a shared texture.
#[derive(Debug, Clone, Copy, PartialEq, Eq, Structural)]
pub struct VulkanTextureShareHandle {
    /// The external memory handle: a file descriptor on Linux, a `HANDLE` on
    /// Windows.
    pub raw_handle: u64,
    /// Index into the memory types of the device that exported the memory.
    pub memory_type_index: u32,
    /// Size of the allocation in bytes.
    pub size: u64,
    /// The `VkExternalMemoryHandleTypeFlags` bits of the handle.
    pub handle_type: u32,
    /// Whether the memory was allocated for this one image alone.
    pub dedicated_allocation: bool,
}

/// What a Vulkan context needs to import a shared semaphore.
#[derive(Debug, Clone, Copy, PartialEq, Eq, Structural)]
pub struct VulkanSemaphoreHandle {
    pub raw_handle: u64,
    /// The `VkExternalSemaphoreHandleTypeFlags` bits of the handle.
    pub handle_type: u32,
    /// Whether the semaphore counts, rather than being signaled or not.
    pub is_timeline: bool,
}

/// What a Vulkan context needs to import a shared fence.
#[derive(Debug, Clone, Copy, PartialEq, Eq, Structural)]
pub struct VulkanFenceHandle {
    pub raw_handle: u64,
    /// The `VkExternalFenceHandleTypeFlags` bits of the handle.
    pub handle_type: u32,
}

/// ash's handle of a Vulkan semaphore. The library carries handles and keeps
/// them in its registries, and never looks into them.
#[verifier::external_type_specification]
#[verifier::external_body]
pub struct ExSemaphore(ash::vk::Semaphore);

/// ash's handle of a Vulkan fence, carried like that of a semaphore.
#[verifier::external_type_specification]
#[verifier::external_body]
pub struct ExFence(ash::vk::Fence);

/// The sharing state of one Vulkan context: the platform it exports for, and
/// the registries of the native objects that stand behind handles.
///
/// A registry maps the raw value of a handle to the native object that has to
/// stay alive while the handle is in use. An entry is made when the object is
/// exported or imported, and goes when the handle is released.
pub struct VulkanTextureShareManager {
    platform: Platform,
    queue_family_index: u32,
    exported_resources: HashMap<u64, ash::vk::DeviceMemory>,
    exported_semaphores: HashMap<u64, ash::vk::Semaphore>,
    exported_fences: HashMap<u64, ash::vk::Fence>,
}

impl VulkanTextureShareManager {
    /// The platform whose handles the manager exports and imports.
    pub closed spec fn platform(&self) -> Platform {
        self.platform
    }

    /// The queue family that the manager was made for.
    pub closed spec fn spec_queue_family_index(&self) -> u32 {
        self.queue_family_index
    }

    /// The registry of memory: what is kept alive under each raw handle value.
    pub closed spec fn resources(&self) -> Map<u64, ash::vk::DeviceMemory> {
        self.exported_resources@
    }

    /// The registry of semaphores.
    pub closed spec fn semaphores(&self) -> Map<u64, ash::vk::Semaphore> {
        self.exported_semaphores@
    }

    /// The registry of fences.
    pub closed spec fn fences(&self) -> Map<u64, ash::vk::Fence> {
        self.exported_fences@
    }

    /// A manager for a device on `platform`, with nothing in its registries.
    ///
    /// `allocator` is the outcome of creating the allocator of the device's
    /// memory. Without an allocator there is no manager: the failure is
    /// reported as a Vulkan initialization error that carries the allocator's
    /// message.
    pub fn new(
        platform: Platform,
        queue_family_index: u32,
        allocator: Result<(), gpu_allocator::AllocationError>,
    ) -> (manager: Result<VulkanTextureShareManager, GeyserError>)
        ensures
            match allocator {
                Ok(_) => manager matches Ok(m) && m.platform() == platform && m.spec_queue_family_index()
                    == queue_family_index && m.resources() == Map::<u64, ash::vk::DeviceMemory>::empty()
                    && m.semaphores() == Map::<u64, ash::vk::Semaphore>::empty() && m.fences() == Map::<
                    u64,
                    ash::vk::Fence,
                >::empty(),
                Err(failure) => manager matches Err(error) && error@
                    == GeyserErrorView::VulkanInitializationError(
                    "Failed to create GPU allocator: "@ + allocation_error_message(failure),
                ),
            },
    {
        match allocator {
            Ok(_) => Ok(
                VulkanTextureShareManager {
                    platform,
                    queue_family_index,
                    exported_resources: HashMap::new(),
                    exported_semaphores: HashMap::new(),
                    exported_fences: HashMap::new(),
                },
            ),
            Err(failure) => Err(GeyserError::allocator_unavailable(&failure)),
        }
    }

    /// The platform whose handles the manager exports and imports.
    pub fn target_platform(&self) -> (platform: Platform)
        ensures
            platform == self.platform(),
    {
        self.platform
    }

    /// The queue family that the manager was made for.
    pub fn queue_family_index(&self) -> (index: u32)
        ensures
            index == self.spec_queue_family_index(),
    {
        self.queue_family_index
    }

    /// The `VkFormat` code of an abstract format. Every abstract format has
    /// one, and no two have the same.
    pub fn map_texture_format_to_vk(&self, format: TextureFormat) -> (code: Result<i32, GeyserError>)
        ensures
            code == Ok::<i32, GeyserError>(vk_format(format)),
    {
        Ok(
            match format {
                TextureFormat::Rgba8Unorm => tables::VK_FORMAT_R8G8B8A8_UNORM,
                TextureFormat::Bgra8Unorm => tables::VK_FORMAT_B8G8R8A8_UNORM,
                TextureFormat::Rgba8Srgb => tables::VK_FORMAT_R8G8B8A8_SRGB,
                TextureFormat::Bgra8Srgb => tables::VK_FORMAT_B8G8R8A8_SRGB,
                TextureFormat::R8Unorm => tables::VK_FORMAT_R8_UNORM,
                TextureFormat::Rg8Unorm => tables::VK_FORMAT_R8G8_UNORM,
                TextureFormat::R16Float => tables::VK_FORMAT_R16_SFLOAT,
                TextureFormat::Rg16Float => tables::VK_FORMAT_R16G16_SFLOAT,
                TextureFormat::Rgba16Float => tables::VK_FORMAT_R16G16B16A16_SFLOAT,
                TextureFormat::R16Uint => tables::VK_FORMAT_R16_UINT,
                TextureFormat::R16Sint => tables::VK_FORMAT_R16_SINT,
                TextureFormat::R32Float => tables::VK_FORMAT_R32_SFLOAT,
                TextureFormat::Rg32Float => tables::VK_FORMAT_R32G32_SFLOAT,
                TextureFormat::Rgba32Float => tables::VK_FORMAT_R32G32B32A32_SFLOAT,
                TextureFormat::R32Uint => tables::VK_FORMAT_R32_UINT,
                TextureFormat::R32Sint => tables::VK_FORMAT_R32_SINT,
                TextureFormat::Depth32Float => tables::VK_FORMAT_D32_SFLOAT,
                TextureFormat::Depth24Plus => tables::VK_FORMAT_X8_D24_UNORM_PACK32,
                TextureFormat::Depth24PlusStencil8 => tables::VK_FORMAT_D24_UNORM_S8_UINT,
                TextureFormat::Rgb10a2Unorm => tables::VK_FORMAT_A2R10G10B10_UNORM_PACK32,
                TextureFormat::Rg11b10Float => tables::VK_FORMAT_B10G11R11_UFLOAT_PACK32,
            }
        )
    }

    /// The `VkImageUsageFlags` and the `VkImageAspectFlags` of a list of
    /// usages: the union of the bits of each.
    pub fn map_texture_usage_to_vk(&self, usages: &[TextureUsage]) -> (flags: (u32, u32))
        ensures
            flags.0 == vk_usage(usages@),
            flags.1 == vk_aspect(usages@),
    {
        let mut image_usage: u32 = 0;
        let mut image_aspect: u32 = 0;
        let mut i: usize = 0;
        while i < usages.len()
            invariant
                i <= usages.len(),
                image_usage == vk_usage(usages@.subrange(0, i as int)),
                image_aspect == vk_aspect(usages@.subrange(0, i as int)),
            decreases usages.len() - i,
        {
            proof {
                let next = usages@.subrange(0, i + 1);
                assert(next.drop_last() =~= usages@.subrange(0, i as int));
                assert(next.last() == usages@[i as int]);
            }
            match usages[i] {
                TextureUsage::CopySrc => {
                    image_usage = image_usage | tables::VK_IMAGE_USAGE_TRANSFER_SRC;
                    assert(image_aspect | 0u32 == image_aspect) by (bit_vector);
                },
                TextureUsage::CopyDst => {
                    image_usage = image_usage | tables::VK_IMAGE_USAGE_TRANSFER_DST;
                    assert(image_aspect | 0u32 == image_aspect) by (bit_vector);
                },
                TextureUsage::TextureBinding => {
                    image_usage = image_usage | tables::VK_IMAGE_USAGE_SAMPLED;
                    image_aspect = image_aspect | tables::VK_IMAGE_ASPECT_COLOR;
                },
                TextureUsage::RenderAttachment => {
                    image_usage = image_usage | tables::VK_IMAGE_USAGE_COLOR_ATTACHMENT;
                    image_aspect = image_aspect | tables::VK_IMAGE_ASPECT_COLOR;
                },
                TextureUsage::StorageBinding => {
                    image_usage = image_usage | tables::VK_IMAGE_USAGE_STORAGE;
                    image_aspect = image_aspect | tables::VK_IMAGE_ASPECT_COLOR;
                },
            }
            i = i + 1;
        }
        assert(usages@.subrange(0, i as int) =~= usages@);
        (image_usage, image_aspect)
    }

    /// The request for the image of `descriptor`, marked for the external
    /// handle types `external_handle_types`.
    fn plan_image(&self, descriptor: &TextureDescriptor, external_handle_types: u32) -> (request: Result<
        ImageRequest,
        GeyserError,
    >)
        ensures
            request == Ok::<ImageRequest, GeyserError>(image_request(descriptor@, external_handle_types)),
    {
        let format = self.map_texture_format_to_vk(descriptor.format)?;
        let (usage, _) = self.map_texture_usage_to_vk(descriptor.usage.as_slice());
        Ok(
            ImageRequest {
                flags: 0,
                image_type: texture::VK_IMAGE_TYPE_2D,
                format,
                width: descriptor.width,
                height: descriptor.height,
                depth: 1,
                mip_levels: 1,
                array_layers: 1,
                samples: texture::VK_SAMPLE_COUNT_1,
                tiling: texture::VK_IMAGE_TILING_OPTIMAL,
                usage,
                sharing_mode: texture::VK_SHARING_MODE_EXCLUSIVE,
                initial_layout: texture::VK_IMAGE_LAYOUT_UNDEFINED,
                external_handle_types,
            },
        )
    }

    /// Enters `semaphore` into its registry under `key`.
    pub(crate) fn keep_semaphore(&mut self, key: u64, semaphore: ash::vk::Semaphore)
        ensures
            final(self).semaphores() == old(self).semaphores().insert(key, semaphore),
            final(self).platform() == old(self).platform(),
            final(self).spec_queue_family_index() == old(self).spec_queue_family_index(),
            final(self).resources() == old(self).resources(),
            final(self).fences() == old(self).fences(),
    {
        self.exported_semaphores.insert(key, semaphore);
    }

    /// Takes out of the registry what it holds under `key`.
    pub(crate) fn take_semaphore(&mut self, key: u64) -> (taken: Option<ash::vk::Semaphore>)
        ensures
            final(self).semaphores() == old(self).semaphores().remove(key),
            taken == (if old(self).semaphores().contains_key(key) {
                Some(old(self).semaphores()[key])
            } else {
                None
            }),
            final(self).platform() == old(self).platform(),
            final(self).spec_queue_family_index() == old(self).spec_queue_family_index(),
            final(self).resources() == old(self).resources(),
            final(self).fences() == old(self).fences(),
    {
        self.exported_semaphores.remove(&key)
    }

    /// Enters `fence` into its registry under `key`.
    pub(crate) fn keep_fence(&mut self, key: u64, fence: ash::vk::Fence)
        ensures
            final(self).fences() == old(self).fences().insert(key, fence),
            final(self).platform() == old(self).platform(),
            final(self).spec_queue_family_index() == old(self).spec_queue_family_index(),
            final(self).resources() == old(self).resources(),
            final(self).semaphores() == old(self).semaphores(),
    {
        self.exported_fences.insert(key, fence);
    }

    /// Takes out of the registry what it holds under `key`.
    pub(crate) fn take_fence(&mut self, key: u64) -> (taken: Option<ash::vk::Fence>)
        ensures
            final(self).fences() == old(self).fences().remove(key),
            taken == (if old(self).fences().contains_key(key) {
                Some(old(self).fences()[key])
            } else {
                None
            }),
            final(self).platform() == old(self).platform(),
            final(self).spec_queue_family_index() == old(self).spec_queue_family_index(),
            final(self).resources() == old(self).resources(),
            final(self).semaphores() == old(self).semaphores(),
    {
        self.exported_fences.remove(&key)
    }

    /// Enters `memory` into the registry under `key`, in place of what was
    /// there under that key.
    pub(crate) fn keep_memory(&mut self, key: u64, memory: ash::vk::DeviceMemory)
        ensures
            final(self).resources() == old(self).resources().insert(key, memory),
            final(self).platform() == old(self).platform(),
            final(self).spec_queue_family_index() == old(self).spec_queue_family_index(),
            final(self).semaphores() == old(self).semaphores(),
            final(self).fences() == old(self).fences(),
    {
        self.exported_resources.insert(key, memory);
    }
}

/// Whether bit `index` of `bits` is set: whether memory type `index` can hold
/// an image that reports `bits`.
pub open spec fn memory_type_allowed(bits: u32, index: u32) -> bool {
    index < 32 && bits & (1u32 << index) != 0
}

/// Whether `bits` allows one of the first `count` memory types.
pub open spec fn some_memory_type_allowed(bits: u32, count: u32) -> bool {
    exists|i: u32| i < count && memory_type_allowed(bits, i)
}

/// Whether `index` is the lowest of the first `count` memory types that
/// `bits` allows.
pub open spec fn is_lowest_memory_type(bits: u32, count: u32, index: u32) -> bool {
    &&& index < count
    &&& memory_type_allowed(bits, index)
    &&& forall|i: u32| i < index ==> !memory_type_allowed(bits, i)
}

/// The memory type that an export declares: the lowest of the device's
/// `count` memory types that `bits` allows, and type 0 where it allows none.
pub open spec fn lowest_memory_type(bits: u32, count: u32) -> u32 {
    if some_memory_type_allowed(bits, count) {
        choose|index: u32| is_lowest_memory_type(bits, count, index)
    } else {
        0
    }
}

/// A memory type that is the lowest allowed one is the one that an export
/// declares.
pub proof fn lemma_lowest_memory_type(bits: u32, count: u32, index: u32)
    requires
        is_lowest_memory_type(bits, count, index),
    ensures
        lowest_memory_type(bits, count) == index,
{
    let chosen = choose|i: u32| is_lowest_memory_type(bits, count, i);
    assert(is_lowest_memory_type(bits, count, chosen));
}

/// The lowest of the first `count` memory types that `bits` allows; 0 where
/// it allows none of them.
pub fn first_memory_type(bits: u32, count: u32) -> (index: u32)
    ensures
        index == lowest_memory_type(bits, count),
        some_memory_type_allowed(bits, count) ==> is_lowest_memory_type(bits, count, index),
        !some_memory_type_allowed(bits, count) ==> index == 0,
{
    let mut i: u32 = 0;
    while i < count && i < 32
        invariant
            i <= 32,
            forall|j: u32| j < i ==> !memory_type_allowed(bits, j),
        decreases 32 - i,
    {
        if bits & (1u32 << i) != 0 {
            proof {
                lemma_lowest_memory_type(bits, count, i);
            }
            return i;
        }
        i = i + 1;
    }
    0
}

/// The platform handle of an exported allocation, with what the driver
/// reports of the image and of the device.
#[derive(Debug, Clone, Copy, PartialEq, Eq, Structural)]
pub struct ExportedMemory {
    /// What `vkGetMemoryFdKHR` or `vkGetMemoryWin32HandleKHR` returned.
    pub handle: RawHandle,
    /// The memory requirements of the texture's image.
    pub requirements: MemoryRequirements,
    /// The number of memory types of the physical device.
    pub memory_type_count: u32,
}

/// An export under way: the platform handle of `memory` is to be fetched.
#[derive(Debug, Clone, Copy)]
pub struct PendingExport {
    /// The image whose memory requirements go into the handle.
    pub image: ash::vk::Image,
    /// The memory to export.
    pub memory: ash::vk::DeviceMemory,
    /// The `VkExternalMemoryHandleTypeFlags` bit to ask the handle as.
    pub handle_type: u32,
}

/// The message that a failed export of memory begins with.
pub open spec fn export_failure_context(handle_type: u32) -> Seq<char> {
    if handle_type == HANDLE_TYPE_OPAQUE_WIN32 {
        "Failed to get Win32 handle: "@
    } else {
        "Failed to get FD: "@
    }
}

/// The share handle that an export gives out.
pub open spec fn exported_handle(
    pending: PendingExport,
    exported: ExportedMemory,
) -> VulkanTextureShareHandle {
    VulkanTextureShareHandle {
        raw_handle: exported.handle.spec_value(),
        memory_type_index: lowest_memory_type(
            exported.requirements.memory_type_bits,
            exported.memory_type_count,
        ),
        size: exported.requirements.size,
        handle_type: pending.handle_type,
        dedicated_allocation: true,
    }
}

impl VulkanTextureShareManager {
    /// Takes the outcome of fetching the platform handle and completes the
    /// export.
    ///
    /// With a handle the export succeeds. The share handle carries the
    /// handle's value, the size that the image requires, the lowest memory
    /// type of the device that the image allows (type 0 if it allows none),
    /// the handle type that was asked for, and the mark of a dedicated
    /// allocation. The memory enters the registry under the handle's value,
    /// so that it outlives the texture's image.
    ///
    /// With a result code the export fails with that code, and the registry
    /// stays as it was.
    pub fn complete_export_texture(
        &mut self,
        pending: PendingExport,
        reply: Result<ExportedMemory, i32>,
    ) -> (handle: Result<
        ApiTextureHandle,
        GeyserError,
    >)
        ensures
            final(self).platform() == old(self).platform(),
            final(self).spec_queue_family_index() == old(self).spec_queue_family_index(),
            final(self).semaphores() == old(self).semaphores(),
            final(self).fences() == old(self).fences(),
            match reply {
                Ok(exported) => handle == Ok::<ApiTextureHandle, GeyserError>(
                    ApiTextureHandle::Vulkan(exported_handle(pending, exported)),
                ) && final(self).resources() == old(self).resources().insert(
                    exported.handle.spec_value(),
                    pending.memory,
                ),
                Err(code) => handle matches Err(error) && error@ == GeyserErrorView::VulkanApiError(
                    export_failure_context(pending.handle_type) + crate::error::vk_result_name(code),
                ) && final(self).resources() == old(self).resources(),
            },
    {
        match reply {
            Ok(exported) => {
                let index = first_memory_type(
                    exported.requirements.memory_type_bits,
                    exported.memory_type_count,
                );
                let handle = VulkanTextureShareHandle {
                    raw_handle: exported.handle.value(),
                    memory_type_index: index,
                    size: exported.requirements.size,
                    handle_type: pending.handle_type,
                    dedicated_allocation: true,
                };
                self.keep_memory(handle.raw_handle, pending.memory);
                Ok(ApiTextureHandle::Vulkan(handle))
            },
            Err(code) => {
                if pending.handle_type == HANDLE_TYPE_OPAQUE_WIN32 {
                    Err(GeyserError::vulkan_call_failed("Failed to get Win32 handle: ", code))
                } else {
                    Err(GeyserError::vulkan_call_failed("Failed to get FD: ", code))
                }
            },
        }
    }
}

/// A texture goes through export and import unchanged: the image that the
/// importing side creates for a descriptor, from the handle that an export
/// on `platform` gave out, is the image that was created for that descriptor
/// on the exporting side, with the same size, format and usages.
pub proof fn lemma_import_recreates_image(
    descriptor: crate::common::TextureDescriptorView,
    platform: Platform,
    pending: PendingExport,
    exported: ExportedMemory,
)
    requires
        pending.handle_type == platform.spec_handle_types(),
    ensures
        image_request(descriptor, exported_handle(pending, exported).handle_type) == image_request(
            descriptor,
            platform.spec_handle_types(),
        ),
        image_request(descriptor, exported_handle(pending, exported).handle_type).width
            == descriptor.width,
        image_request(descriptor, exported_handle(pending, exported).handle_type).height
            == descriptor.height,
        image_request(descriptor, exported_handle(pending, exported).handle_type).format == vk_format(
            descriptor.format,
        ),
{
}

impl TextureShareManager for VulkanTextureShareManager {
    type Texture = VulkanSharedTexture;

    type PendingTexture = PendingImage;

    type PendingExport = PendingExport;

    type Released = Option<ash::vk::DeviceMemory>;

    open spec fn accepts(handle: ApiTextureHandle) -> bool {
        handle is Vulkan
    }

    open spec fn key(handle: ApiTextureHandle) -> u64 {
        match handle {
            ApiTextureHandle::Vulkan(h) => h.raw_handle,
            ApiTextureHandle::Metal(h) => h.io_surface_id as u64,
        }
    }

    open spec fn registered(&self) -> Set<u64> {
        self.resources().dom()
    }

    open spec fn owns_memory(texture: &VulkanSharedTexture) -> bool {
        texture.allocation is Some
    }

    open spec fn supports(format: TextureFormat) -> bool {
        true
    }

    open spec fn can_export(&self, texture: &VulkanSharedTexture) -> bool {
        texture.allocation is Some && self.platform() != Platform::Other
    }

    open spec fn can_import(&self, handle: ApiTextureHandle, format: TextureFormat) -> bool {
        handle is Vulkan && self.platform() != Platform::Other
    }

    /// Begins a new texture. It always can be begun: the image to create is
    /// the one that the descriptor asks for, marked as exportable with the
    /// handle type of the platform, and its memory will be a dedicated
    /// allocation.
    fn create_shareable_texture(&self, descriptor: &TextureDescriptor) -> (pending: Result<
        PendingImage,
        GeyserError,
    >)
        ensures
            pending matches Ok(p) && p.request == image_request(
                descriptor@,
                self.platform().spec_handle_types(),
            ) && p.descriptor@ == descriptor@ && p.source == MemorySource::Dedicated,
    {
        let request = self.plan_image(descriptor, self.platform.handle_types())?;
        Ok(
            PendingImage { request, descriptor: descriptor.clone(), source: MemorySource::Dedicated },
        )
    }

    /// Begins the export of a texture's memory.
    ///
    /// Only a texture with an allocation of its own can be exported: an
    /// imported texture has none and is refused, so memory is never exported
    /// again under a second handle. A platform without external handles
    /// supports no export. Else the memory to export is the texture's
    /// allocation, as the handle type of the platform.
    fn export_texture(&self, texture: &VulkanSharedTexture) -> (pending: Result<PendingExport, GeyserError>)
        ensures
            match texture.allocation {
                None => pending matches Err(error) && error@ == GeyserErrorView::Other(
                    "Texture has no allocation to export"@,
                ),
                Some(memory) => if self.platform() == Platform::Other {
                    pending matches Err(error) && error@ == GeyserErrorView::OperationNotSupported
                } else {
                    pending matches Ok(p) && p.memory == memory && p.image == texture.image
                        && p.handle_type == self.platform().spec_handle_types()
                },
            },
    {
        match texture.allocation {
            None => Err(GeyserError::Other(String::from_str("Texture has no allocation to export"))),
            Some(memory) => match self.platform {
                Platform::Other => Err(GeyserError::OperationNotSupported),
                _ => Ok(
                    PendingExport {
                        image: texture.image,
                        memory,
                        handle_type: self.platform.handle_types(),
                    },
                ),
            },
        }
    }

    /// Begins the import of the texture behind `handle`.
    ///
    /// The handle must be a Vulkan handle, and the platform one with external
    /// handles. The image to create is then the one that the descriptor asks
    /// for, marked for the handle type of the handle. Its memory will be the
    /// memory behind the handle: what is imported is the platform handle that
    /// the raw value stands for, a descriptor in its low 32 bits on Linux, as
    /// the handle type of the platform.
    fn import_texture(&self, handle: ApiTextureHandle, descriptor: &TextureDescriptor) -> (pending: Result<
        PendingImage,
        GeyserError,
    >)
        ensures
            match handle {
                ApiTextureHandle::Vulkan(h) => match RawHandle::spec_of_value(
                    self.platform(),
                    h.raw_handle,
                ) {
                    None => pending matches Err(error) && error@ == GeyserErrorView::OperationNotSupported,
                    Some(raw) => pending matches Ok(p) && p.request == image_request(
                        descriptor@,
                        h.handle_type,
                    ) && p.descriptor@ == descriptor@ && p.source == (MemorySource::Imported {
                        share: h,
                        handle: raw,
                        handle_type: self.platform().spec_handle_types(),
                    }),
                },
                ApiTextureHandle::Metal(_) => pending matches Err(error) && error@
                    == GeyserErrorView::InvalidTextureHandle,
            },
    {
        let vulkan_handle = match handle {
            ApiTextureHandle::Vulkan(h) => h,
            ApiTextureHandle::Metal(_) => {
                return Err(GeyserError::InvalidTextureHandle);
            },
        };
        let raw = match RawHandle::of_value(self.platform, vulkan_handle.raw_handle) {
            Some(raw) => raw,
            None => {
                return Err(GeyserError::OperationNotSupported);
            },
        };
        let request = self.plan_image(descriptor, vulkan_handle.handle_type)?;
        Ok(
            PendingImage {
                request,
                descriptor: descriptor.clone(),
                source: MemorySource::Imported {
                    share: vulkan_handle,
                    handle: raw,
                    handle_type: self.platform.handle_types(),
                },
            },
        )
    }

    /// Releases the memory that the registry holds under the raw value of
    /// `handle`, and hands it back for the backend to free. Where the
    /// registry holds nothing under that value, nothing is handed back and
    /// nothing changes.
    fn release_texture_handle(&mut self, handle: ApiTextureHandle) -> (released: Result<
        Option<ash::vk::DeviceMemory>,
        GeyserError,
    >)
        ensures
            final(self).platform() == old(self).platform(),
            final(self).spec_queue_family_index() == old(self).spec_queue_family_index(),
            final(self).semaphores() == old(self).semaphores(),
            final(self).fences() == old(self).fences(),
            match handle {
                ApiTextureHandle::Vulkan(h) => final(self).resources() == old(self).resources().remove(
                    h.raw_handle,
                ) && released == Ok::<Option<ash::vk::DeviceMemory>, GeyserError>(
                    if old(self).resources().contains_key(h.raw_handle) {
                        Some(old(self).resources()[h.raw_handle])
                    } else {
                        None
                    },
                ),
                ApiTextureHandle::Metal(_) => final(self).resources() == old(self).resources(),
            },
    {
        let raw_handle_key = match handle {
            ApiTextureHandle::Vulkan(h) => h.raw_handle,
            ApiTextureHandle::Metal(_) => {
                return Err(GeyserError::InvalidTextureHandle);
            },
        };
        let released = self.exported_resources.remove(&raw_handle_key);
        Ok(released)
    }
}

} // verus!
