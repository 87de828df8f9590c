//! Shareable Vulkan textures: the parameters of their native objects, and the
//! steps from a descriptor to a texture that is bound to memory.
//!
//! A texture takes three driver calls: the image is created, memory is
//! allocated for it or imported, and the two are bound. After each call the
//! backend hands the driver's answer to the step at hand, which either goes
//! on to the next request or fails, and then says which native objects have
//! to be destroyed.

use vstd::prelude::*;
use crate::common::{TextureDescriptor, TextureDescriptorView, TextureFormat, TextureUsage};
use crate::error::{
    allocation_error_debug, allocation_error_message, vk_result_name, GeyserError, GeyserErrorView,
    Unwound,
};
use crate::vulkan::tables::{vk_format, vk_usage};
use crate::vulkan::{Platform, VulkanTextureShareHandle, VulkanTextureShareManager};
use crate::SharedTexture;

verus! {

/// ash's handle of a Vulkan image. The library carries handles from one
/// driver call to the next and never looks into them.
#[verifier::external_type_specification]
#[verifier::external_body]
pub struct ExImage(ash::vk::Image);

/// ash's handle of a Vulkan image view, carried like that of an image.
#[verifier::external_type_specification]
#[verifier::external_body]
pub struct ExImageView(ash::vk::ImageView);

/// ash's handle of Vulkan device memory, carried like that of an image.
#[verifier::external_type_specification]
#[verifier::external_body]
pub struct ExDeviceMemory(ash::vk::DeviceMemory);

/// `VK_IMAGE_TYPE_2D`: a two-dimensional image.
pub const VK_IMAGE_TYPE_2D: i32 = 1;

/// `VK_SAMPLE_COUNT_1_BIT`: one sample per pixel.
pub const VK_SAMPLE_COUNT_1: u32 = 0x1;

/// `VK_IMAGE_TILING_OPTIMAL`: the layout in memory is the driver's choice.
pub const VK_IMAGE_TILING_OPTIMAL: i32 = 0;

/// `VK_SHARING_MODE_EXCLUSIVE`: one queue family at a time owns the image.
pub const VK_SHARING_MODE_EXCLUSIVE: i32 = 0;

/// `VK_IMAGE_LAYOUT_UNDEFINED`: the image starts without contents.
pub const VK_IMAGE_LAYOUT_UNDEFINED: i32 = 0;

/// The name under which the memory of a texture without a label is allocated.
pub open spec fn default_allocation_name() -> Seq<char> {
    "geyser-shared-texture"@
}

/// The parameters of `vkCreateImage` for a shareable image, in Vulkan's own
/// numbers. `external_handle_types` goes into the
/// `VkExternalMemoryImageCreateInfo` that is chained to them: an image can be
/// bound to external memory only if it was marked so when it was created.
#[derive(Debug, Clone, Copy, PartialEq, Eq, Structural)]
pub struct ImageRequest {
    pub flags: u32,
    pub image_type: i32,
    pub format: i32,
    pub width: u32,
    pub height: u32,
    pub depth: u32,
    pub mip_levels: u32,
    pub array_layers: u32,
    pub samples: u32,
    pub tiling: i32,
    pub usage: u32,
    pub sharing_mode: i32,
    pub initial_layout: i32,
    pub external_handle_types: u32,
}

/// The image that a descriptor asks for: two-dimensional, one mip level, one
/// layer, one sample, optimal tiling, exclusive to one queue family, with the
/// descriptor's size and the Vulkan codes of its format and usages.
pub open spec fn image_request(
    descriptor: TextureDescriptorView,
    external_handle_types: u32,
) -> ImageRequest {
    ImageRequest {
        flags: 0,
        image_type: VK_IMAGE_TYPE_2D,
        format: vk_format(descriptor.format),
        width: descriptor.width,
        height: descriptor.height,
        depth: 1,
        mip_levels: 1,
        array_layers: 1,
        samples: VK_SAMPLE_COUNT_1,
        tiling: VK_IMAGE_TILING_OPTIMAL,
        usage: vk_usage(descriptor.usage),
        sharing_mode: VK_SHARING_MODE_EXCLUSIVE,
        initial_layout: VK_IMAGE_LAYOUT_UNDEFINED,
        external_handle_types,
    }
}

/// What the driver reports of the memory that an image needs.
#[derive(Debug, Clone, Copy, PartialEq, Eq, Structural)]
pub struct MemoryRequirements {
    pub size: u64,
    pub alignment: u64,
    /// Bit `i` is set where memory type `i` of the device can hold the image.
    pub memory_type_bits: u32,
}

/// A platform handle as the driver gives and takes it.
#[derive(Debug, Clone, Copy, PartialEq, Eq, Structural)]
pub enum RawHandle {
    /// A POSIX file descriptor.
    Fd(i32),
    /// A Win32 `HANDLE`.
    Win32(isize),
}

impl RawHandle {
    /// The handle as the 64-bit number that a share handle carries.
    pub open spec fn spec_value(self) -> u64 {
        match self {
            RawHandle::Fd(fd) => fd as u64,
            RawHandle::Win32(handle) => handle as u64,
        }
    }

    /// The handle as the 64-bit number that a share handle carries.
    pub fn value(&self) -> (value: u64)
        ensures
            value == self.spec_value(),
    {
        match self {
            RawHandle::Fd(fd) => #[verifier::truncate] (*fd as u64),
            RawHandle::Win32(handle) => #[verifier::truncate] (*handle as u64),
        }
    }

    /// The platform handle that the 64-bit number of a share handle stands
    /// for on `platform`; none where the platform has no external handles.
    pub open spec fn spec_of_value(platform: Platform, value: u64) -> Option<RawHandle> {
        match platform {
            Platform::Linux => Some(RawHandle::Fd(value as i32)),
            Platform::Windows => Some(RawHandle::Win32(value as isize)),
            Platform::Other => None,
        }
    }

    /// The platform handle that the 64-bit number of a share handle stands
    /// for on `platform`.
    pub fn of_value(platform: Platform, value: u64) -> (raw: Option<RawHandle>)
        ensures
            raw == Self::spec_of_value(platform, value),
    {
        match platform {
            Platform::Linux => Some(RawHandle::Fd(#[verifier::truncate] (value as i32))),
            Platform::Windows => Some(RawHandle::Win32(#[verifier::truncate] (value as isize))),
            Platform::Other => None,
        }
    }
}

/// A file descriptor that was exported comes out of the share handle's
/// number unchanged when it is imported.
pub proof fn lemma_fd_survives_handle(fd: i32)
    ensures
        RawHandle::spec_of_value(Platform::Linux, RawHandle::Fd(fd).spec_value()) == Some(RawHandle::Fd(fd)),
{
    assert((fd as u64) as i32 == fd) by (bit_vector);
}

/// A Win32 handle that was exported comes out of the share handle's number
/// unchanged when it is imported.
pub proof fn lemma_win32_handle_survives_handle(handle: isize)
    ensures
        RawHandle::spec_of_value(Platform::Windows, RawHandle::Win32(handle).spec_value()) == Some(
            RawHandle::Win32(handle),
        ),
{
    assert((handle as u64) as isize == handle) by (bit_vector);
}

/// Where the memory of a texture under construction comes from.
#[derive(Debug, Clone, Copy, PartialEq, Eq, Structural)]
pub enum MemorySource {
    /// A fresh allocation, made for this image alone.
    Dedicated,
    /// The memory behind the share handle `share`: `handle` is the platform
    /// handle that the raw value of `share` stands for, and `handle_type`
    /// the handle type bit to import it as.
    Imported { share: VulkanTextureShareHandle, handle: RawHandle, handle_type: u32 },
}

/// The memory that the backend has to get for an image.
#[derive(Debug)]
pub enum MemoryRequest {
    /// Allocate memory for `image` alone, to the requirements that the driver
    /// reports for it, under the name `name`: memory that only the GPU
    /// reaches where `gpu_only` is set, for a linear resource where `linear`
    /// is.
    Dedicated { image: ash::vk::Image, name: String, gpu_only: bool, linear: bool },
    /// Import the memory behind `handle` with `vkAllocateMemory`: a
    /// `VkImportMemoryFdInfoKHR` or `VkImportMemoryWin32HandleInfoKHR` with
    /// `handle` and `handle_type`, chained to a `VkMemoryDedicatedAllocateInfo`
    /// that names `image`.
    Import {
        image: ash::vk::Image,
        handle: RawHandle,
        handle_type: u32,
        allocation_size: u64,
        memory_type_index: u32,
    },
}

/// Memory that the backend got for an image, and where in it the allocator
/// placed the image.
#[derive(Debug, Clone, Copy)]
pub struct BoundMemory {
    pub memory: ash::vk::DeviceMemory,
    pub offset: u64,
}

/// Why the backend got no memory.
#[derive(Debug)]
pub enum MemoryFailure {
    /// The allocator refused.
    Allocator(gpu_allocator::AllocationError),
    /// `vkAllocateMemory` failed with this result code.
    Driver(i32),
}

/// The parameters of `vkBindImageMemory`.
#[derive(Debug, Clone, Copy)]
pub struct BindRequest {
    pub image: ash::vk::Image,
    pub memory: ash::vk::DeviceMemory,
    /// Where in the memory the image begins.
    pub offset: u64,
}

/// The native objects of a texture that did not come to be. The backend
/// destroys them before it reports the failure.
#[derive(Debug, Clone, Copy)]
pub struct Leftovers {
    /// The image to destroy, if one was created.
    pub image: Option<ash::vk::Image>,
    /// The memory to give back, if any was got.
    pub memory: Option<ash::vk::DeviceMemory>,
    /// To whom the memory goes back: to the allocator that allocated it
    /// where this is set, else to the driver that imported it.
    pub from_allocator: bool,
}

/// First step: the image is to be created as `request` says.
#[derive(Debug)]
pub struct PendingImage {
    pub request: ImageRequest,
    pub descriptor: TextureDescriptor,
    pub source: MemorySource,
}

/// Second step: the image exists, its memory is to be got.
#[derive(Debug)]
pub struct PendingMemory {
    pub image: ash::vk::Image,
    pub descriptor: TextureDescriptor,
    pub source: MemorySource,
}

/// Third step: image and memory exist and are to be bound.
#[derive(Debug)]
pub struct PendingBind {
    pub image: ash::vk::Image,
    pub memory: BoundMemory,
    pub descriptor: TextureDescriptor,
    pub source: MemorySource,
}

/// A texture of a Vulkan context that can be shared, or that was imported.
#[derive(Debug)]
pub struct VulkanSharedTexture {
    /// The memory that was allocated for the texture; none if the texture was
    /// imported, for then its memory belongs to whoever exported it.
    pub allocation: Option<ash::vk::DeviceMemory>,
    pub image: ash::vk::Image,
    pub image_view: Option<ash::vk::ImageView>,
    pub descriptor: TextureDescriptor,
    /// The handle that the texture was imported under.
    pub exported_handle: Option<VulkanTextureShareHandle>,
}

/// The native objects that go when a texture goes.
#[derive(Debug, Clone, Copy)]
pub struct TextureRemains {
    pub image_view: Option<ash::vk::ImageView>,
    pub image: ash::vk::Image,
}

impl PendingImage {
    /// Takes the outcome of `vkCreateImage`. With an image the next step is
    /// its memory; with a result code the operation fails with that code, and
    /// nothing is left to destroy.
    pub fn image_created(
        self,
        reply: Result<ash::vk::Image, i32>,
    ) -> (next: Result<PendingMemory, GeyserError>)
        ensures
            match reply {
                Ok(image) => next matches Ok(pending) && pending.image == image && pending.descriptor@
                    == self.descriptor@ && pending.source == self.source,
                Err(code) => next matches Err(error) && error@ == GeyserErrorView::VulkanApiError(
                    "Vulkan Error: "@ + vk_result_name(code),
                ),
            },
    {
        match reply {
            Ok(image) => Ok(
                PendingMemory { image, descriptor: self.descriptor, source: self.source },
            ),
            Err(code) => Err(GeyserError::from_vk_result(code)),
        }
    }
}

impl PendingMemory {
    /// Whether `request` is the memory that this step asks for.
    pub open spec fn asks_for(self, request: MemoryRequest) -> bool {
        match self.source {
            MemorySource::Dedicated => request matches MemoryRequest::Dedicated {
                image,
                name,
                gpu_only,
                linear,
            } && image == self.image && gpu_only && !linear && name@ == (match self.descriptor@.label {
                Some(label) => label,
                None => default_allocation_name(),
            }),
            MemorySource::Imported { share, handle, handle_type } => request
                matches MemoryRequest::Import {
                image,
                handle: raw,
                handle_type: as_type,
                allocation_size,
                memory_type_index,
            } && image == self.image && raw == handle && as_type == handle_type && allocation_size
                == share.size && memory_type_index == share.memory_type_index,
        }
    }

    /// The memory to get for the image. For a new texture it is a dedicated
    /// allocation of GPU-only memory for an image with optimal tiling, under
    /// the texture's label, or under a default name where it has none. For an
    /// imported one it is the memory behind the share handle, with the size
    /// and the memory type that the handle declares.
    pub fn request(&self) -> (request: MemoryRequest)
        ensures
            self.asks_for(request),
    {
        match self.source {
            MemorySource::Dedicated => {
                let name = match &self.descriptor.label {
                    Some(label) => label.clone(),
                    None => String::from_str("geyser-shared-texture"),
                };
                MemoryRequest::Dedicated { image: self.image, name, gpu_only: true, linear: false }
            },
            MemorySource::Imported { share, handle, handle_type } => MemoryRequest::Import {
                image: self.image,
                handle,
                handle_type,
                allocation_size: share.size,
                memory_type_index: share.memory_type_index,
            },
        }
    }

    /// The error of a step that got no memory. A refusal of the allocator is
    /// a failure to allocate image memory for a new texture; a result code
    /// of the driver is a failure to import, from a descriptor or from a
    /// Win32 handle, for an imported one. Each carries the native error: the
    /// allocator's message, or the name of the result code.
    pub open spec fn memory_error(source: MemorySource, failure: MemoryFailure) -> GeyserErrorView {
        match (failure, source) {
            (MemoryFailure::Allocator(refusal), MemorySource::Dedicated) => GeyserErrorView::VulkanApiError(
                "Failed to allocate image memory: "@ + allocation_error_message(refusal),
            ),
            (
                MemoryFailure::Allocator(refusal),
                MemorySource::Imported { .. },
            ) => GeyserErrorView::VulkanApiError(
                "GPU Allocator Error: "@ + allocation_error_debug(refusal),
            ),
            (MemoryFailure::Driver(code), MemorySource::Dedicated) => GeyserErrorView::VulkanApiError(
                "Vulkan Error: "@ + vk_result_name(code),
            ),
            (
                MemoryFailure::Driver(code),
                MemorySource::Imported { handle: RawHandle::Fd(_), .. },
            ) => GeyserErrorView::VulkanApiError("Failed to import FD memory: "@ + vk_result_name(code)),
            (
                MemoryFailure::Driver(code),
                MemorySource::Imported { handle: RawHandle::Win32(_), .. },
            ) => GeyserErrorView::VulkanApiError(
                "Failed to import Win32 memory: "@ + vk_result_name(code),
            ),
        }
    }

    /// Takes the outcome of the allocation or import. With memory the next
    /// step is to bind it. Without, the operation fails, and the image is
    /// left to destroy.
    pub fn memory_ready(self, reply: Result<BoundMemory, MemoryFailure>) -> (next: Result<
        PendingBind,
        Unwound<Leftovers>,
    >)
        ensures
            match reply {
                Ok(memory) => next matches Ok(pending) && pending.image == self.image && pending.memory
                    == memory && pending.descriptor@ == self.descriptor@ && pending.source
                    == self.source,
                Err(failure) => next matches Err(failed) && failed.leftover.image == Some(self.image)
                    && failed.leftover.memory is None && !failed.leftover.from_allocator
                    && failed.error@ == Self::memory_error(
                    self.source,
                    failure,
                ),
            },
    {
        match reply {
            Ok(memory) => Ok(
                PendingBind { image: self.image, memory, descriptor: self.descriptor, source: self.source },
            ),
            Err(failure) => {
                let error = match (&failure, self.source) {
                    (MemoryFailure::Allocator(refusal), MemorySource::Dedicated) => {
                        GeyserError::allocation_failed("Failed to allocate image memory: ", refusal)
                    },
                    (MemoryFailure::Allocator(refusal), MemorySource::Imported { .. }) => {
                        GeyserError::from_allocation_error(refusal)
                    },
                    (MemoryFailure::Driver(code), MemorySource::Dedicated) => GeyserError::from_vk_result(
                        *code,
                    ),
                    (
                        MemoryFailure::Driver(code),
                        MemorySource::Imported { handle: RawHandle::Fd(_), .. },
                    ) => GeyserError::vulkan_call_failed("Failed to import FD memory: ", *code),
                    (
                        MemoryFailure::Driver(code),
                        MemorySource::Imported { handle: RawHandle::Win32(_), .. },
                    ) => GeyserError::vulkan_call_failed("Failed to import Win32 memory: ", *code),
                };
                Err(
                    Unwound {
                        error,
                        leftover: Leftovers { image: Some(self.image), memory: None, from_allocator: false },
                    },
                )
            },
        }
    }
}

impl PendingBind {
    /// The offset at which the image is bound: memory that was allocated for
    /// the image is bound where the allocator placed the image in it, memory
    /// that was imported at its beginning.
    pub open spec fn bind_offset(self) -> u64 {
        match self.source {
            MemorySource::Dedicated => self.memory.offset,
            MemorySource::Imported { .. } => 0,
        }
    }

    /// The parameters of `vkBindImageMemory`: the image, its memory, and the
    /// offset in the memory at which the image is bound.
    pub fn request(&self) -> (request: BindRequest)
        ensures
            request == (BindRequest {
                image: self.image,
                memory: self.memory.memory,
                offset: self.bind_offset(),
            }),
    {
        let offset = match self.source {
            MemorySource::Dedicated => self.memory.offset,
            MemorySource::Imported { .. } => 0,
        };
        BindRequest { image: self.image, memory: self.memory.memory, offset }
    }

    /// Takes the outcome of `vkBindImageMemory`.
    ///
    /// Bound, the texture is there with the descriptor it was asked with. A
    /// new texture owns its allocation and leaves the registry as it was. An
    /// imported texture owns none, carries the handle it came from, and its
    /// memory enters the registry under the handle's raw value, where it
    /// stays until the handle is released.
    ///
    /// Not bound, the operation fails with the result code, image and memory
    /// are left to destroy, and the registry stays as it was. Memory that was
    /// allocated goes back to the allocator, memory that was imported to the
    /// driver.
    pub fn bound(self, manager: &mut VulkanTextureShareManager, reply: Result<(), i32>) -> (texture: Result<
        VulkanSharedTexture,
        Unwound<Leftovers>,
    >)
        ensures
            final(manager).platform() == old(manager).platform(),
            final(manager).spec_queue_family_index() == old(manager).spec_queue_family_index(),
            final(manager).semaphores() == old(manager).semaphores(),
            final(manager).fences() == old(manager).fences(),
            match reply {
                Ok(_) => texture matches Ok(t) && t.image == self.image && t.image_view is None
                    && t.descriptor@ == self.descriptor@ && (match self.source {
                    MemorySource::Dedicated => t.allocation == Some(self.memory.memory)
                        && t.exported_handle is None && final(manager).resources() == old(
                        manager,
                    ).resources(),
                    MemorySource::Imported { share, .. } => t.allocation is None && t.exported_handle
                        == Some(share) && final(manager).resources() == old(manager).resources().insert(
                        share.raw_handle,
                        self.memory.memory,
                    ),
                }),
                Err(code) => texture matches Err(failed) && failed.error@
                    == GeyserErrorView::VulkanApiError(
                    "Vulkan Error: "@ + vk_result_name(code),
                ) && failed.leftover.image == Some(self.image) && failed.leftover.memory == Some(
                    self.memory.memory,
                ) && failed.leftover.from_allocator == (self.source is Dedicated)
                    && final(manager).resources() == old(manager).resources(),
            },
    {
        match reply {
            Ok(_) => {
                match self.source {
                    MemorySource::Dedicated => Ok(
                        VulkanSharedTexture {
                            allocation: Some(self.memory.memory),
                            image: self.image,
                            image_view: None,
                            descriptor: self.descriptor,
                            exported_handle: None,
                        },
                    ),
                    MemorySource::Imported { share, .. } => {
                        manager.keep_memory(share.raw_handle, self.memory.memory);
                        Ok(
                            VulkanSharedTexture {
                                allocation: None,
                                image: self.image,
                                image_view: None,
                                descriptor: self.descriptor,
                                exported_handle: Some(share),
                            },
                        )
                    },
                }
            },
            Err(code) => Err(
                Unwound {
                    error: GeyserError::from_vk_result(code),
                    leftover: Leftovers {
                        image: Some(self.image),
                        memory: Some(self.memory.memory),
                        from_allocator: match self.source {
                            MemorySource::Dedicated => true,
                            MemorySource::Imported { .. } => false,
                        },
                    },
                },
            ),
        }
    }
}

impl VulkanSharedTexture {
    /// Whether the texture was imported, so that its memory is not its own.
    pub open spec fn is_imported(self) -> bool {
        self.allocation is None
    }

    /// Ends the texture: what is handed back is its image and its image view,
    /// for the backend to destroy. The memory is not among them: memory that
    /// was exported or imported goes when its handle is released.
    pub fn retire(self) -> (remains: TextureRemains)
        ensures
            remains.image == self.image,
            remains.image_view == self.image_view,
    {
        TextureRemains { image_view: self.image_view, image: self.image }
    }
}

impl SharedTexture for VulkanSharedTexture {
    open spec fn descriptor(&self) -> TextureDescriptorView {
        self.descriptor@
    }

    fn width(&self) -> u32 {
        self.descriptor.width
    }

    fn height(&self) -> u32 {
        self.descriptor.height
    }

    fn format(&self) -> TextureFormat {
        self.descriptor.format
    }

    fn usage(&self) -> &[TextureUsage] {
        self.descriptor.usage.as_slice()
    }
}

} // verus!
