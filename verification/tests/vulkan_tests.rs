// Tests of the Vulkan backend: handles, translation tables, and every step
// of the operations, with the driver's answers given by hand.

use ash::vk;
use ash::vk::Handle;
use geyser::common::{ApiTextureHandle, SyncHandle, TextureDescriptor, TextureFormat, TextureUsage};
use geyser::metal::MetalTextureShareHandle;
use geyser::vulkan::sync::{
    FenceRequest, PendingFenceImport, PendingSemaphoreImport, SemaphoreRequest, VK_SUCCESS, VK_TIMEOUT,
};
use geyser::vulkan::tables::texture_format_from_vk;
use geyser::vulkan::texture::{
    BoundMemory, ImageRequest, MemoryFailure, MemoryRequest, MemoryRequirements, MemorySource, RawHandle,
};
use geyser::vulkan::{
    first_memory_type, ExportedMemory, Platform, VulkanFenceHandle, VulkanSemaphoreHandle,
    VulkanSharedTexture, VulkanTextureShareHandle, VulkanTextureShareManager, HANDLE_TYPE_OPAQUE_FD,
    HANDLE_TYPE_OPAQUE_WIN32,
};
use geyser::{GeyserError, SharedTexture, TextureShareManager};

fn manager(platform: Platform) -> VulkanTextureShareManager {
    VulkanTextureShareManager::new(platform, 0, Ok(())).expect("Failed to create manager")
}

fn descriptor() -> TextureDescriptor {
    TextureDescriptor {
        width: 256,
        height: 128,
        format: TextureFormat::Rgba8Unorm,
        usage: vec![TextureUsage::TextureBinding],
        label: Some("TestTexture".to_string()),
    }
}

fn image(n: u64) -> vk::Image {
    vk::Image::from_raw(n)
}

fn memory(n: u64) -> vk::DeviceMemory {
    vk::DeviceMemory::from_raw(n)
}

fn created(manager: &mut VulkanTextureShareManager, n: u64) -> VulkanSharedTexture {
    let pending = manager.create_shareable_texture(&descriptor()).unwrap();
    let pending = pending.image_created(Ok(image(n))).unwrap();
    let pending = pending.memory_ready(Ok(BoundMemory { memory: memory(n), offset: 0 })).unwrap();
    pending.bound(manager, Ok(())).unwrap()
}

fn api_error(error: GeyserError) -> String {
    match error {
        GeyserError::VulkanApiError(message) => message,
        other => panic!("not a Vulkan API error: {:?}", other),
    }
}

#[test]
fn test_vulkan_semaphore_handle_creation() {
    let handle = VulkanSemaphoreHandle {
        raw_handle: 12345,
        handle_type: vk::ExternalSemaphoreHandleTypeFlags::OPAQUE_WIN32.as_raw(),
        is_timeline: false,
    };

    assert_eq!(handle.raw_handle, 12345);
    assert!(vk::ExternalSemaphoreHandleTypeFlags::from_raw(handle.handle_type)
        .contains(vk::ExternalSemaphoreHandleTypeFlags::OPAQUE_WIN32));
}

#[test]
fn test_vulkan_fence_handle_creation() {
    let handle = VulkanFenceHandle {
        raw_handle: 67890,
        handle_type: vk::ExternalFenceHandleTypeFlags::OPAQUE_WIN32.as_raw(),
    };

    assert_eq!(handle.raw_handle, 67890);
    assert!(vk::ExternalFenceHandleTypeFlags::from_raw(handle.handle_type)
        .contains(vk::ExternalFenceHandleTypeFlags::OPAQUE_WIN32));
}

#[test]
fn test_vulkan_semaphore_handle_clone() {
    let handle1 = VulkanSemaphoreHandle {
        raw_handle: 111,
        handle_type: vk::ExternalSemaphoreHandleTypeFlags::OPAQUE_FD.as_raw(),
        is_timeline: false,
    };

    let handle2 = handle1.clone();

    assert_eq!(handle1.raw_handle, handle2.raw_handle);
}

#[test]
fn test_vulkan_fence_handle_clone() {
    let handle1 = VulkanFenceHandle {
        raw_handle: 222,
        handle_type: vk::ExternalFenceHandleTypeFlags::OPAQUE_FD.as_raw(),
    };

    let handle2 = handle1.clone();

    assert_eq!(handle1.raw_handle, handle2.raw_handle);
}

#[test]
fn test_vulkan_texture_share_handle() {
    let handle = VulkanTextureShareHandle {
        raw_handle: 999,
        memory_type_index: 0,
        size: 1024 * 1024,
        handle_type: vk::ExternalMemoryHandleTypeFlags::OPAQUE_WIN32.as_raw(),
        dedicated_allocation: true,
    };

    assert_eq!(handle.raw_handle, 999);
    assert_eq!(handle.memory_type_index, 0);
    assert_eq!(handle.size, 1024 * 1024);
    assert!(handle.dedicated_allocation);
}

#[test]
fn test_sync_handle_variants() {
    let sem_handle = VulkanSemaphoreHandle {
        raw_handle: 111,
        handle_type: vk::ExternalSemaphoreHandleTypeFlags::OPAQUE_WIN32.as_raw(),
        is_timeline: false,
    };

    let fence_handle = VulkanFenceHandle {
        raw_handle: 222,
        handle_type: vk::ExternalFenceHandleTypeFlags::OPAQUE_WIN32.as_raw(),
    };

    let sync_sem = SyncHandle::VulkanSemaphore(sem_handle);
    let sync_fence = SyncHandle::VulkanFence(fence_handle);

    // Just verify they can be created
    match sync_sem {
        SyncHandle::VulkanSemaphore(_) => (),
        _ => panic!("Wrong variant"),
    }

    match sync_fence {
        SyncHandle::VulkanFence(_) => (),
        _ => panic!("Wrong variant"),
    }
}

#[test]
fn test_windows_handle_types() {
    assert!(vk::ExternalSemaphoreHandleTypeFlags::OPAQUE_WIN32.as_raw() != 0);
    assert!(vk::ExternalFenceHandleTypeFlags::OPAQUE_WIN32.as_raw() != 0);
    assert!(vk::ExternalMemoryHandleTypeFlags::OPAQUE_WIN32.as_raw() != 0);
}

#[test]
fn test_linux_handle_types() {
    assert!(vk::ExternalSemaphoreHandleTypeFlags::OPAQUE_FD.as_raw() != 0);
    assert!(vk::ExternalFenceHandleTypeFlags::OPAQUE_FD.as_raw() != 0);
    assert!(vk::ExternalMemoryHandleTypeFlags::OPAQUE_FD.as_raw() != 0);
}

#[test]
fn handle_type_bits_are_those_of_ash() {
    assert_eq!(HANDLE_TYPE_OPAQUE_FD, vk::ExternalMemoryHandleTypeFlags::OPAQUE_FD.as_raw());
    assert_eq!(HANDLE_TYPE_OPAQUE_FD, vk::ExternalSemaphoreHandleTypeFlags::OPAQUE_FD.as_raw());
    assert_eq!(HANDLE_TYPE_OPAQUE_FD, vk::ExternalFenceHandleTypeFlags::OPAQUE_FD.as_raw());
    assert_eq!(HANDLE_TYPE_OPAQUE_WIN32, vk::ExternalMemoryHandleTypeFlags::OPAQUE_WIN32.as_raw());
    assert_eq!(HANDLE_TYPE_OPAQUE_WIN32, vk::ExternalSemaphoreHandleTypeFlags::OPAQUE_WIN32.as_raw());
    assert_eq!(HANDLE_TYPE_OPAQUE_WIN32, vk::ExternalFenceHandleTypeFlags::OPAQUE_WIN32.as_raw());
    assert_eq!(Platform::Linux.handle_types(), 1);
    assert_eq!(Platform::Windows.handle_types(), 2);
    assert_eq!(Platform::Other.handle_types(), 0);
    assert_eq!(VK_SUCCESS, vk::Result::SUCCESS.as_raw());
    assert_eq!(VK_TIMEOUT, vk::Result::TIMEOUT.as_raw());
}

#[test]
fn vulkan_format_codes_are_those_of_ash() {
    let m = manager(Platform::Linux);
    let expected = [
        (TextureFormat::Rgba8Unorm, vk::Format::R8G8B8A8_UNORM),
        (TextureFormat::Bgra8Unorm, vk::Format::B8G8R8A8_UNORM),
        (TextureFormat::Rgba8Srgb, vk::Format::R8G8B8A8_SRGB),
        (TextureFormat::Bgra8Srgb, vk::Format::B8G8R8A8_SRGB),
        (TextureFormat::R8Unorm, vk::Format::R8_UNORM),
        (TextureFormat::Rg8Unorm, vk::Format::R8G8_UNORM),
        (TextureFormat::R16Float, vk::Format::R16_SFLOAT),
        (TextureFormat::Rg16Float, vk::Format::R16G16_SFLOAT),
        (TextureFormat::Rgba16Float, vk::Format::R16G16B16A16_SFLOAT),
        (TextureFormat::R16Uint, vk::Format::R16_UINT),
        (TextureFormat::R16Sint, vk::Format::R16_SINT),
        (TextureFormat::R32Float, vk::Format::R32_SFLOAT),
        (TextureFormat::Rg32Float, vk::Format::R32G32_SFLOAT),
        (TextureFormat::Rgba32Float, vk::Format::R32G32B32A32_SFLOAT),
        (TextureFormat::R32Uint, vk::Format::R32_UINT),
        (TextureFormat::R32Sint, vk::Format::R32_SINT),
        (TextureFormat::Depth32Float, vk::Format::D32_SFLOAT),
        (TextureFormat::Depth24Plus, vk::Format::X8_D24_UNORM_PACK32),
        (TextureFormat::Depth24PlusStencil8, vk::Format::D24_UNORM_S8_UINT),
        (TextureFormat::Rgb10a2Unorm, vk::Format::A2R10G10B10_UNORM_PACK32),
        (TextureFormat::Rg11b10Float, vk::Format::B10G11R11_UFLOAT_PACK32),
    ];
    for (format, native) in expected {
        let code = m.map_texture_format_to_vk(format).unwrap();
        assert_eq!(vk::Format::from_raw(code), native, "{:?}", format);
    }
    assert_eq!(m.map_texture_format_to_vk(TextureFormat::Rgba8Unorm).unwrap(), 37);
    assert_eq!(m.map_texture_format_to_vk(TextureFormat::Depth24Plus).unwrap(), 125);
    assert_eq!(m.map_texture_format_to_vk(TextureFormat::Depth24PlusStencil8).unwrap(), 129);
}

#[test]
fn vulkan_format_round_trip_holds_for_every_format() {
    let m = manager(Platform::Linux);
    let all = [
        TextureFormat::Rgba8Unorm,
        TextureFormat::Bgra8Unorm,
        TextureFormat::Rgba8Srgb,
        TextureFormat::Bgra8Srgb,
        TextureFormat::R8Unorm,
        TextureFormat::Rg8Unorm,
        TextureFormat::R16Float,
        TextureFormat::Rg16Float,
        TextureFormat::Rgba16Float,
        TextureFormat::R16Uint,
        TextureFormat::R16Sint,
        TextureFormat::R32Float,
        TextureFormat::Rg32Float,
        TextureFormat::Rgba32Float,
        TextureFormat::R32Uint,
        TextureFormat::R32Sint,
        TextureFormat::Depth32Float,
        TextureFormat::Depth24Plus,
        TextureFormat::Depth24PlusStencil8,
        TextureFormat::Rgb10a2Unorm,
        TextureFormat::Rg11b10Float,
    ];
    let mut codes = Vec::new();
    for format in all {
        let code = m.map_texture_format_to_vk(format).unwrap();
        assert_eq!(texture_format_from_vk(code).unwrap(), format);
        assert!(!codes.contains(&code), "{:?} shares code {}", format, code);
        codes.push(code);
    }
    assert_eq!(codes.len(), 21);
    assert_eq!(texture_format_from_vk(125).unwrap(), TextureFormat::Depth24Plus);
    assert_eq!(texture_format_from_vk(129).unwrap(), TextureFormat::Depth24PlusStencil8);
}

#[test]
fn unknown_vulkan_format_code_is_refused() {
    for code in [0, 1, 38, 124, 130, -1, i32::MAX, i32::MIN] {
        match texture_format_from_vk(code) {
            Err(GeyserError::UnsupportedFormat(message)) => assert_eq!(message, "Unsupported Vulkan format code"),
            other => panic!("code {} gave {:?}", code, other),
        }
    }
}

#[test]
fn vulkan_usage_of_each_flag_and_of_unions() {
    let m = manager(Platform::Linux);
    let color = vk::ImageAspectFlags::COLOR.as_raw();
    let each = [
        (TextureUsage::CopySrc, vk::ImageUsageFlags::TRANSFER_SRC, 0),
        (TextureUsage::CopyDst, vk::ImageUsageFlags::TRANSFER_DST, 0),
        (TextureUsage::TextureBinding, vk::ImageUsageFlags::SAMPLED, color),
        (TextureUsage::RenderAttachment, vk::ImageUsageFlags::COLOR_ATTACHMENT, color),
        (TextureUsage::StorageBinding, vk::ImageUsageFlags::STORAGE, color),
    ];
    let mut all = Vec::new();
    let mut union = 0;
    for (usage, native, aspect) in each {
        let (bits, aspect_bits) = m.map_texture_usage_to_vk(&[usage]);
        assert_ne!(bits, 0);
        assert_eq!(vk::ImageUsageFlags::from_raw(bits), native);
        assert_eq!(aspect_bits, aspect);
        all.push(usage);
        union |= bits;
    }
    assert_eq!(m.map_texture_usage_to_vk(&all), (0x1f, 0x1));
    assert_eq!(union, 0x1f);
    assert_eq!(m.map_texture_usage_to_vk(&[]), (0, 0));

    let a = [TextureUsage::CopySrc, TextureUsage::StorageBinding];
    let b = [TextureUsage::CopyDst, TextureUsage::RenderAttachment];
    let both = [
        TextureUsage::CopySrc,
        TextureUsage::StorageBinding,
        TextureUsage::CopyDst,
        TextureUsage::RenderAttachment,
    ];
    let (ua, aa) = m.map_texture_usage_to_vk(&a);
    let (ub, ab) = m.map_texture_usage_to_vk(&b);
    assert_eq!(m.map_texture_usage_to_vk(&both), (ua | ub, aa | ab));
    assert_eq!(m.map_texture_usage_to_vk(&both), (0x1b, 0x1));
    assert_eq!(m.map_texture_usage_to_vk(&[TextureUsage::CopyDst, TextureUsage::CopyDst]), (0x2, 0));
}

#[test]
fn new_manager_remembers_platform_and_queue_family() {
    let mut m = VulkanTextureShareManager::new(Platform::Windows, 3, Ok(())).unwrap();
    assert_eq!(m.target_platform(), Platform::Windows);
    assert_eq!(m.queue_family_index(), 3);

    // Neither changes when a texture is imported.
    let share = VulkanTextureShareHandle {
        raw_handle: 8,
        memory_type_index: 0,
        size: 64,
        handle_type: 2,
        dedicated_allocation: true,
    };
    let pending = m.import_texture(ApiTextureHandle::Vulkan(share), &descriptor()).unwrap();
    let pending = pending.image_created(Ok(image(1))).unwrap();
    let pending = pending.memory_ready(Ok(BoundMemory { memory: memory(2), offset: 0 })).unwrap();
    pending.bound(&mut m, Ok(())).unwrap();
    assert_eq!(m.target_platform(), Platform::Windows);
    assert_eq!(m.queue_family_index(), 3);
}

#[test]
fn manager_without_an_allocator_is_an_initialization_error() {
    let failure = gpu_allocator::AllocationError::InvalidAllocatorCreateDesc("no device".to_string());
    match VulkanTextureShareManager::new(Platform::Linux, 0, Err(failure)) {
        Err(GeyserError::VulkanInitializationError(message)) => assert_eq!(
            message,
            "Failed to create GPU allocator: Invalid AllocatorCreateDesc no device"
        ),
        Err(other) => panic!("{:?}", other),
        Ok(_) => panic!("a manager without an allocator"),
    }
}

#[test]
fn new_texture_asks_for_the_image_of_its_descriptor() {
    let m = manager(Platform::Linux);
    let desc = TextureDescriptor {
        width: 1920,
        height: 1080,
        format: TextureFormat::Bgra8Srgb,
        usage: vec![TextureUsage::RenderAttachment, TextureUsage::CopySrc],
        label: None,
    };
    let pending = m.create_shareable_texture(&desc).unwrap();
    assert_eq!(
        pending.request,
        ImageRequest {
            flags: 0,
            image_type: vk::ImageType::TYPE_2D.as_raw(),
            format: vk::Format::B8G8R8A8_SRGB.as_raw(),
            width: 1920,
            height: 1080,
            depth: 1,
            mip_levels: 1,
            array_layers: 1,
            samples: vk::SampleCountFlags::TYPE_1.as_raw(),
            tiling: vk::ImageTiling::OPTIMAL.as_raw(),
            usage: (vk::ImageUsageFlags::COLOR_ATTACHMENT | vk::ImageUsageFlags::TRANSFER_SRC).as_raw(),
            sharing_mode: vk::SharingMode::EXCLUSIVE.as_raw(),
            initial_layout: vk::ImageLayout::UNDEFINED.as_raw(),
            external_handle_types: vk::ExternalMemoryHandleTypeFlags::OPAQUE_FD.as_raw(),
        }
    );
    assert_eq!(pending.descriptor, desc);
    assert_eq!(pending.source, MemorySource::Dedicated);

    let pending = manager(Platform::Windows).create_shareable_texture(&desc).unwrap();
    assert_eq!(pending.request.external_handle_types, 2);
    let pending = manager(Platform::Other).create_shareable_texture(&desc).unwrap();
    assert_eq!(pending.request.external_handle_types, 0);
}

#[test]
fn new_texture_is_allocated_under_its_label_or_the_default_name() {
    let m = manager(Platform::Linux);
    let pending = m.create_shareable_texture(&descriptor()).unwrap();
    let pending = pending.image_created(Ok(image(5))).unwrap();
    match pending.request() {
        MemoryRequest::Dedicated { image: for_image, name, gpu_only, linear } => {
            assert_eq!(for_image, image(5));
            assert_eq!(name, "TestTexture");
            assert!(gpu_only);
            assert!(!linear);
        }
        other => panic!("{:?}", other),
    }
    let mut unlabeled = descriptor();
    unlabeled.label = None;
    let pending = m.create_shareable_texture(&unlabeled).unwrap();
    let pending = pending.image_created(Ok(image(6))).unwrap();
    match pending.request() {
        MemoryRequest::Dedicated { name, .. } => assert_eq!(name, "geyser-shared-texture"),
        other => panic!("{:?}", other),
    }
}

#[test]
fn image_that_cannot_be_created_fails_with_the_result_code() {
    let m = manager(Platform::Linux);
    let pending = m.create_shareable_texture(&descriptor()).unwrap();
    let error = pending
        .image_created(Err(vk::Result::ERROR_OUT_OF_DEVICE_MEMORY.as_raw()))
        .expect_err("an image came out of a failure");
    assert_eq!(api_error(error), "Vulkan Error: ERROR_OUT_OF_DEVICE_MEMORY");

    // A code that ash has no name for is printed as a number.
    let pending = m.create_shareable_texture(&descriptor()).unwrap();
    let error = pending.image_created(Err(-123456)).expect_err("an image came out of a failure");
    assert_eq!(api_error(error), "Vulkan Error: -123456");
}

#[test]
fn memory_that_cannot_be_allocated_leaves_the_image_to_destroy() {
    let m = manager(Platform::Linux);
    let pending = m.create_shareable_texture(&descriptor()).unwrap();
    let pending = pending.image_created(Ok(image(11))).unwrap();
    let failed = pending
        .memory_ready(Err(MemoryFailure::Allocator(gpu_allocator::AllocationError::OutOfMemory)))
        .expect_err("memory came out of a failure");
    assert_eq!(failed.leftover.image, Some(image(11)));
    assert_eq!(failed.leftover.memory, None);
    assert!(!failed.leftover.from_allocator);
    assert_eq!(api_error(failed.error), "Failed to allocate image memory: Out of memory");

    let pending = m.create_shareable_texture(&descriptor()).unwrap();
    let pending = pending.image_created(Ok(image(12))).unwrap();
    let failed = pending
        .memory_ready(Err(MemoryFailure::Driver(vk::Result::ERROR_OUT_OF_HOST_MEMORY.as_raw())))
        .expect_err("memory came out of a failure");
    assert_eq!(failed.leftover.image, Some(image(12)));
    assert_eq!(api_error(failed.error), "Vulkan Error: ERROR_OUT_OF_HOST_MEMORY");
}

#[test]
fn memory_that_cannot_be_bound_leaves_image_and_memory_to_destroy() {
    let mut m = manager(Platform::Linux);
    let pending = m.create_shareable_texture(&descriptor()).unwrap();
    let pending = pending.image_created(Ok(image(21))).unwrap();
    let pending = pending.memory_ready(Ok(BoundMemory { memory: memory(22), offset: 64 })).unwrap();
    assert_eq!(pending.memory.offset, 64);
    // Allocated memory is bound where the allocator placed the image.
    let bind = pending.request();
    assert_eq!((bind.image, bind.memory, bind.offset), (image(21), memory(22), 64));
    let failed = pending
        .bound(&mut m, Err(vk::Result::ERROR_MEMORY_MAP_FAILED.as_raw()))
        .expect_err("a texture came out of a failure");
    assert_eq!(failed.leftover.image, Some(image(21)));
    assert_eq!(failed.leftover.memory, Some(memory(22)));
    // The memory was allocated: it goes back to the allocator.
    assert!(failed.leftover.from_allocator);
    assert_eq!(api_error(failed.error), "Vulkan Error: ERROR_MEMORY_MAP_FAILED");
}

#[test]
fn created_texture_owns_its_memory_and_is_not_registered() {
    let mut m = manager(Platform::Linux);
    let texture = created(&mut m, 31);
    assert_eq!(texture.allocation, Some(memory(31)));
    assert_eq!(texture.image, image(31));
    assert_eq!(texture.image_view, None);
    assert_eq!(texture.exported_handle, None);
    assert_eq!(texture.width(), 256);
    assert_eq!(texture.height(), 128);
    assert_eq!(texture.format(), TextureFormat::Rgba8Unorm);
    assert_eq!(texture.usage(), &[TextureUsage::TextureBinding]);
    // Nothing is registered: a release finds nothing, whatever the value.
    for raw in [0, 31, u64::MAX] {
        let handle = ApiTextureHandle::Vulkan(VulkanTextureShareHandle {
            raw_handle: raw,
            memory_type_index: 0,
            size: 0,
            handle_type: 1,
            dedicated_allocation: true,
        });
        assert_eq!(m.release_texture_handle(handle).unwrap(), None);
    }
    let remains = texture.retire();
    assert_eq!(remains.image, image(31));
    assert_eq!(remains.image_view, None);
}

#[test]
fn first_memory_type_is_the_lowest_set_bit_below_the_count() {
    assert_eq!(first_memory_type(0b0001, 4), 0);
    assert_eq!(first_memory_type(0b0110, 4), 1);
    assert_eq!(first_memory_type(0b1000, 4), 3);
    assert_eq!(first_memory_type(0b1000, 3), 0);
    assert_eq!(first_memory_type(0, 32), 0);
    assert_eq!(first_memory_type(u32::MAX, 0), 0);
    assert_eq!(first_memory_type(0x8000_0000, 32), 31);
    assert_eq!(first_memory_type(0x8000_0000, 31), 0);
    assert_eq!(first_memory_type(0x8000_0000, u32::MAX), 31);
    assert_eq!(first_memory_type(0xffff_fff0, 11), 4);
}

#[test]
fn export_composes_the_handle_and_registers_the_memory() {
    let mut m = manager(Platform::Linux);
    let texture = created(&mut m, 41);
    let pending = m.export_texture(&texture).unwrap();
    assert_eq!(pending.memory, memory(41));
    assert_eq!(pending.image, image(41));
    assert_eq!(pending.handle_type, HANDLE_TYPE_OPAQUE_FD);
    let exported = ExportedMemory {
        handle: RawHandle::Fd(17),
        requirements: MemoryRequirements { size: 131072, alignment: 4096, memory_type_bits: 0b1010_0000 },
        memory_type_count: 11,
    };
    let handle = m.complete_export_texture(pending, Ok(exported)).unwrap();
    let expected = VulkanTextureShareHandle {
        raw_handle: 17,
        memory_type_index: 5,
        size: 131072,
        handle_type: 1,
        dedicated_allocation: true,
    };
    assert_eq!(handle, ApiTextureHandle::Vulkan(expected));
    assert_eq!(m.release_texture_handle(handle).unwrap(), Some(memory(41)));
    assert_eq!(m.release_texture_handle(handle).unwrap(), None);
}

#[test]
fn export_on_windows_asks_for_a_win32_handle() {
    let mut m = manager(Platform::Windows);
    let texture = created(&mut m, 42);
    let pending = m.export_texture(&texture).unwrap();
    assert_eq!(pending.handle_type, HANDLE_TYPE_OPAQUE_WIN32);
    let exported = ExportedMemory {
        handle: RawHandle::Win32(0x1234),
        requirements: MemoryRequirements { size: 64, alignment: 16, memory_type_bits: 0 },
        memory_type_count: 2,
    };
    match m.complete_export_texture(pending, Ok(exported)).unwrap() {
        ApiTextureHandle::Vulkan(h) => {
            assert_eq!(h.raw_handle, 0x1234);
            assert_eq!(h.handle_type, 2);
            assert_eq!(h.memory_type_index, 0);
            assert_eq!(h.size, 64);
        }
        other => panic!("{:?}", other),
    }
    let pending = m.export_texture(&texture).unwrap();
    let error = m
        .complete_export_texture(pending, Err(vk::Result::ERROR_TOO_MANY_OBJECTS.as_raw()))
        .expect_err("a handle came out of a failure");
    assert_eq!(api_error(error), "Failed to get Win32 handle: ERROR_TOO_MANY_OBJECTS");
}

#[test]
fn export_that_fails_leaves_the_registry_as_it_was() {
    let mut m = manager(Platform::Linux);
    let texture = created(&mut m, 43);
    let pending = m.export_texture(&texture).unwrap();
    let error = m
        .complete_export_texture(pending, Err(vk::Result::ERROR_INVALID_EXTERNAL_HANDLE.as_raw()))
        .expect_err("a handle came out of a failure");
    assert_eq!(api_error(error), "Failed to get FD: ERROR_INVALID_EXTERNAL_HANDLE");
    let handle = ApiTextureHandle::Vulkan(VulkanTextureShareHandle {
        raw_handle: 0,
        memory_type_index: 0,
        size: 0,
        handle_type: 1,
        dedicated_allocation: true,
    });
    assert_eq!(m.release_texture_handle(handle).unwrap(), None);
}

#[test]
fn export_is_not_supported_without_external_handles() {
    let mut m = manager(Platform::Other);
    let texture = created(&mut m, 44);
    assert!(matches!(m.export_texture(&texture), Err(GeyserError::OperationNotSupported)));
    let handle = ApiTextureHandle::Vulkan(VulkanTextureShareHandle {
        raw_handle: 1,
        memory_type_index: 0,
        size: 16,
        handle_type: 1,
        dedicated_allocation: true,
    });
    assert!(matches!(m.import_texture(handle, &descriptor()), Err(GeyserError::OperationNotSupported)));
}

#[test]
fn negative_descriptor_is_carried_as_its_sign_extension() {
    assert_eq!(RawHandle::Fd(-1).value(), u64::MAX);
    assert_eq!(RawHandle::Fd(0).value(), 0);
    assert_eq!(RawHandle::Fd(i32::MAX).value(), 0x7fff_ffff);
    assert_eq!(RawHandle::Win32(-1).value(), u64::MAX);
    assert_eq!(RawHandle::of_value(Platform::Linux, u64::MAX), Some(RawHandle::Fd(-1)));
    assert_eq!(RawHandle::of_value(Platform::Linux, 0x1_0000_0007), Some(RawHandle::Fd(7)));
    assert_eq!(RawHandle::of_value(Platform::Windows, 0x1234), Some(RawHandle::Win32(0x1234)));
    assert_eq!(RawHandle::of_value(Platform::Other, 7), None);
    for fd in [0, 1, 7, 1023, i32::MAX, -1, i32::MIN] {
        assert_eq!(RawHandle::of_value(Platform::Linux, RawHandle::Fd(fd).value()), Some(RawHandle::Fd(fd)));
    }
}

#[test]
fn import_asks_for_the_memory_behind_the_handle() {
    let mut m = manager(Platform::Linux);
    let share = VulkanTextureShareHandle {
        raw_handle: 23,
        memory_type_index: 7,
        size: 262144,
        handle_type: vk::ExternalMemoryHandleTypeFlags::OPAQUE_FD.as_raw(),
        dedicated_allocation: true,
    };
    let pending = m.import_texture(ApiTextureHandle::Vulkan(share), &descriptor()).unwrap();
    assert_eq!(
        pending.source,
        MemorySource::Imported { share, handle: RawHandle::Fd(23), handle_type: 1 }
    );
    assert_eq!(pending.request.external_handle_types, 1);
    assert_eq!(pending.request.format, 37);
    assert_eq!(pending.request.width, 256);
    assert_eq!(pending.request.height, 128);
    assert_eq!(pending.request.usage, vk::ImageUsageFlags::SAMPLED.as_raw());
    let pending = pending.image_created(Ok(image(51))).unwrap();
    match pending.request() {
        MemoryRequest::Import { image: for_image, handle, handle_type, allocation_size, memory_type_index } => {
            assert_eq!(for_image, image(51));
            assert_eq!(handle, RawHandle::Fd(23));
            assert_eq!(handle_type, 1);
            assert_eq!(allocation_size, 262144);
            assert_eq!(memory_type_index, 7);
        }
        other => panic!("{:?}", other),
    }
    // Imported memory is bound at its beginning, whatever came with the reply.
    let pending = pending.memory_ready(Ok(BoundMemory { memory: memory(52), offset: 4096 })).unwrap();
    let bind = pending.request();
    assert_eq!((bind.image, bind.memory, bind.offset), (image(51), memory(52), 0));
    let texture = pending.bound(&mut m, Ok(())).unwrap();
    assert_eq!(texture.allocation, None);
    assert_eq!(texture.exported_handle, Some(share));
    assert_eq!(texture.image, image(51));
    assert_eq!(texture.width(), 256);
    // The imported memory is registered under the handle's raw value.
    assert_eq!(m.release_texture_handle(ApiTextureHandle::Vulkan(share)).unwrap(), Some(memory(52)));
}

#[test]
fn import_that_fails_names_the_platform_and_registers_nothing() {
    let share = VulkanTextureShareHandle {
        raw_handle: 23,
        memory_type_index: 7,
        size: 262144,
        handle_type: 1,
        dedicated_allocation: true,
    };
    let mut m = manager(Platform::Linux);
    let pending = m.import_texture(ApiTextureHandle::Vulkan(share), &descriptor()).unwrap();
    let pending = pending.image_created(Ok(image(61))).unwrap();
    let failed = pending
        .memory_ready(Err(MemoryFailure::Driver(vk::Result::ERROR_INVALID_EXTERNAL_HANDLE.as_raw())))
        .expect_err("memory came out of a failure");
    assert_eq!(failed.leftover.image, Some(image(61)));
    assert_eq!(failed.leftover.memory, None);
    assert!(!failed.leftover.from_allocator);
    assert_eq!(api_error(failed.error), "Failed to import FD memory: ERROR_INVALID_EXTERNAL_HANDLE");
    assert_eq!(m.release_texture_handle(ApiTextureHandle::Vulkan(share)).unwrap(), None);

    let w = manager(Platform::Windows);
    let pending = w.import_texture(ApiTextureHandle::Vulkan(share), &descriptor()).unwrap();
    let pending = pending.image_created(Ok(image(62))).unwrap();
    match pending.request() {
        MemoryRequest::Import { handle, handle_type, .. } => {
            assert_eq!(handle, RawHandle::Win32(23));
            assert_eq!(handle_type, 2);
        }
        other => panic!("{:?}", other),
    }
    let failed = pending
        .memory_ready(Err(MemoryFailure::Driver(vk::Result::ERROR_OUT_OF_DEVICE_MEMORY.as_raw())))
        .expect_err("memory came out of a failure");
    assert_eq!(api_error(failed.error), "Failed to import Win32 memory: ERROR_OUT_OF_DEVICE_MEMORY");

    let pending = w.import_texture(ApiTextureHandle::Vulkan(share), &descriptor()).unwrap();
    let pending = pending.image_created(Ok(image(63))).unwrap();
    let failed = pending
        .memory_ready(Err(MemoryFailure::Allocator(gpu_allocator::AllocationError::OutOfMemory)))
        .expect_err("memory came out of a failure");
    assert_eq!(api_error(failed.error), "GPU Allocator Error: OutOfMemory");

    // A bind that fails after an import registers nothing either.
    let pending = m.import_texture(ApiTextureHandle::Vulkan(share), &descriptor()).unwrap();
    let pending = pending.image_created(Ok(image(64))).unwrap();
    let pending = pending.memory_ready(Ok(BoundMemory { memory: memory(65), offset: 0 })).unwrap();
    let failed = pending.bound(&mut m, Err(-1)).expect_err("a texture came out of a failure");
    assert_eq!(failed.leftover.image, Some(image(64)));
    assert_eq!(failed.leftover.memory, Some(memory(65)));
    // The memory was imported: it goes back to the driver.
    assert!(!failed.leftover.from_allocator);
    assert_eq!(m.release_texture_handle(ApiTextureHandle::Vulkan(share)).unwrap(), None);
}

#[test]
fn vulkan_manager_refuses_a_metal_handle() {
    let mut m = manager(Platform::Linux);
    let handle = ApiTextureHandle::Metal(MetalTextureShareHandle { io_surface_id: 3 });
    assert!(matches!(m.import_texture(handle, &descriptor()), Err(GeyserError::InvalidTextureHandle)));
    assert!(matches!(m.release_texture_handle(handle), Err(GeyserError::InvalidTextureHandle)));
}

#[test]
fn semaphore_is_created_exportable_for_the_platform() {
    let m = manager(Platform::Linux);
    assert_eq!(
        m.create_exportable_semaphore(),
        SemaphoreRequest { flags: 0, export_handle_types: 1, timeline_initial_value: None }
    );
    assert_eq!(
        manager(Platform::Windows).create_exportable_semaphore(),
        SemaphoreRequest { flags: 0, export_handle_types: 2, timeline_initial_value: None }
    );
    assert_eq!(
        manager(Platform::Other).create_exportable_semaphore(),
        SemaphoreRequest { flags: 0, export_handle_types: 0, timeline_initial_value: None }
    );
    assert_eq!(
        m.create_exportable_timeline_semaphore(9),
        SemaphoreRequest { flags: 0, export_handle_types: 1, timeline_initial_value: Some(9) }
    );
    let request = m.create_exportable_semaphore();
    assert_eq!(request.created(Ok(vk::Semaphore::from_raw(4))).unwrap(), vk::Semaphore::from_raw(4));
    let error = request.created(Err(vk::Result::ERROR_OUT_OF_HOST_MEMORY.as_raw())).unwrap_err();
    assert_eq!(api_error(error), "Failed to create semaphore: ERROR_OUT_OF_HOST_MEMORY");
}

#[test]
fn semaphore_export_registers_and_release_hands_back() {
    let mut m = manager(Platform::Linux);
    let semaphore = vk::Semaphore::from_raw(70);
    assert!(matches!(m.export_semaphore_win32(semaphore), Err(GeyserError::OperationNotSupported)));
    assert!(matches!(m.export_timeline_semaphore_win32(semaphore), Err(GeyserError::OperationNotSupported)));
    let pending = m.export_semaphore_fd(semaphore).unwrap();
    assert_eq!(pending.semaphore, semaphore);
    assert_eq!(pending.handle_type, 1);
    assert!(!pending.is_timeline);
    let handle = m.complete_export_semaphore(pending, Ok(RawHandle::Fd(33))).unwrap();
    assert_eq!(handle, VulkanSemaphoreHandle { raw_handle: 33, handle_type: 1, is_timeline: false });
    assert_eq!(m.release_semaphore(&handle).unwrap(), Some(semaphore));
    assert_eq!(m.release_semaphore(&handle).unwrap(), None);

    let pending = m.export_timeline_semaphore_fd(semaphore).unwrap();
    assert!(pending.is_timeline);
    let error = m.complete_export_semaphore(pending, Err(vk::Result::ERROR_TOO_MANY_OBJECTS.as_raw())).unwrap_err();
    assert_eq!(api_error(error), "Failed to export semaphore: ERROR_TOO_MANY_OBJECTS");
    assert_eq!(m.release_semaphore(&handle).unwrap(), None);

    let mut w = manager(Platform::Windows);
    assert!(matches!(w.export_semaphore_fd(semaphore), Err(GeyserError::OperationNotSupported)));
    assert!(matches!(w.export_timeline_semaphore_fd(semaphore), Err(GeyserError::OperationNotSupported)));
    let pending = w.export_timeline_semaphore_win32(semaphore).unwrap();
    let handle = w.complete_export_semaphore(pending, Ok(RawHandle::Win32(0x40))).unwrap();
    assert_eq!(handle, VulkanSemaphoreHandle { raw_handle: 0x40, handle_type: 2, is_timeline: true });
    let pending = w.export_semaphore_win32(semaphore).unwrap();
    assert_eq!(pending.handle_type, 2);
}

#[test]
fn semaphore_import_creates_then_imports() {
    let m = manager(Platform::Linux);
    let handle = VulkanSemaphoreHandle { raw_handle: 33, handle_type: 1, is_timeline: false };
    assert!(matches!(m.import_semaphore_win32(&handle), Err(GeyserError::OperationNotSupported)));
    let pending = m.import_semaphore_fd(&handle).unwrap();
    assert_eq!(
        pending,
        PendingSemaphoreImport {
            request: SemaphoreRequest { flags: 0, export_handle_types: 1, timeline_initial_value: None },
            handle: RawHandle::Fd(33),
            handle_type: 1,
        }
    );
    let semaphore = vk::Semaphore::from_raw(80);
    let import = pending.created(Ok(semaphore)).unwrap();
    assert_eq!(import.semaphore, semaphore);
    assert_eq!(import.flags, 0);
    assert_eq!(import.handle_type, 1);
    assert_eq!(import.handle, RawHandle::Fd(33));
    assert_eq!(import.imported(Ok(())).unwrap(), semaphore);

    let error = pending.created(Err(vk::Result::ERROR_DEVICE_LOST.as_raw())).unwrap_err();
    assert_eq!(api_error(error), "Failed to create semaphore: ERROR_DEVICE_LOST");

    let import = pending.created(Ok(semaphore)).unwrap();
    let failed = import.imported(Err(vk::Result::ERROR_INVALID_EXTERNAL_HANDLE.as_raw())).unwrap_err();
    assert_eq!(failed.leftover, semaphore);
    assert_eq!(api_error(failed.error), "Failed to import semaphore: ERROR_INVALID_EXTERNAL_HANDLE");

    let timeline = VulkanSemaphoreHandle { raw_handle: 34, handle_type: 1, is_timeline: true };
    let pending = m.import_semaphore_fd(&timeline).unwrap();
    assert_eq!(pending.request.timeline_initial_value, Some(0));

    let w = manager(Platform::Windows);
    assert!(matches!(w.import_semaphore_fd(&handle), Err(GeyserError::OperationNotSupported)));
    let pending = w.import_semaphore_win32(&handle).unwrap();
    assert_eq!(pending.handle, RawHandle::Win32(33));
    assert_eq!(pending.handle_type, 2);
    assert_eq!(pending.request.export_handle_types, 2);
}

#[test]
fn fence_is_created_exported_imported_and_released() {
    let mut m = manager(Platform::Linux);
    let request = m.create_exportable_fence();
    assert_eq!(request, FenceRequest { flags: 0, export_handle_types: 1 });
    let fence = vk::Fence::from_raw(90);
    assert_eq!(request.created(Ok(fence)).unwrap(), fence);
    let error = request.created(Err(vk::Result::ERROR_OUT_OF_DEVICE_MEMORY.as_raw())).unwrap_err();
    assert_eq!(api_error(error), "Failed to create fence: ERROR_OUT_OF_DEVICE_MEMORY");

    assert!(matches!(m.export_fence_win32(fence), Err(GeyserError::OperationNotSupported)));
    let pending = m.export_fence_fd(fence).unwrap();
    assert_eq!(pending.fence, fence);
    assert_eq!(pending.handle_type, 1);
    let error = m.complete_export_fence(pending, Err(vk::Result::ERROR_TOO_MANY_OBJECTS.as_raw())).unwrap_err();
    assert_eq!(api_error(error), "Failed to export fence: ERROR_TOO_MANY_OBJECTS");
    let handle = m.complete_export_fence(pending, Ok(RawHandle::Fd(44))).unwrap();
    assert_eq!(handle, VulkanFenceHandle { raw_handle: 44, handle_type: 1 });

    assert!(matches!(m.import_fence_win32(&handle), Err(GeyserError::OperationNotSupported)));
    let pending = m.import_fence_fd(&handle).unwrap();
    assert_eq!(
        pending,
        PendingFenceImport {
            request: FenceRequest { flags: 0, export_handle_types: 1 },
            handle: RawHandle::Fd(44),
            handle_type: 1,
        }
    );
    let other = vk::Fence::from_raw(91);
    let import = pending.created(Ok(other)).unwrap();
    assert_eq!(import.fence, other);
    assert_eq!(import.handle, RawHandle::Fd(44));
    assert_eq!(import.imported(Ok(())).unwrap(), other);
    let failed =
        pending.created(Ok(other)).unwrap().imported(Err(vk::Result::ERROR_DEVICE_LOST.as_raw())).unwrap_err();
    assert_eq!(failed.leftover, other);
    assert_eq!(api_error(failed.error), "Failed to import fence: ERROR_DEVICE_LOST");
    let error = pending.created(Err(-1)).unwrap_err();
    assert_eq!(api_error(error), "Failed to create fence: ERROR_OUT_OF_HOST_MEMORY");

    // Semaphores and fences are registered apart from each other.
    let semaphore_handle = VulkanSemaphoreHandle { raw_handle: 44, handle_type: 1, is_timeline: false };
    assert_eq!(m.release_semaphore(&semaphore_handle).unwrap(), None);
    assert_eq!(m.release_fence(&handle).unwrap(), Some(fence));
    assert_eq!(m.release_fence(&handle).unwrap(), None);

    let mut w = manager(Platform::Windows);
    assert!(matches!(w.export_fence_fd(fence), Err(GeyserError::OperationNotSupported)));
    assert!(matches!(w.import_fence_fd(&handle), Err(GeyserError::OperationNotSupported)));
    let pending = w.export_fence_win32(fence).unwrap();
    let handle = w.complete_export_fence(pending, Ok(RawHandle::Win32(9))).unwrap();
    assert_eq!(handle, VulkanFenceHandle { raw_handle: 9, handle_type: 2 });
    let pending = w.import_fence_win32(&handle).unwrap();
    assert_eq!(pending.handle, RawHandle::Win32(9));
    assert_eq!(pending.request.export_handle_types, 2);
}

#[test]
fn timeline_requests_carry_what_they_were_asked_with() {
    let m = manager(Platform::Linux);
    let semaphore = vk::Semaphore::from_raw(100);
    let signal = m.signal_timeline_semaphore(semaphore, 5);
    assert_eq!((signal.semaphore, signal.value), (semaphore, 5));
    let wait = m.wait_timeline_semaphore(semaphore, 6, 1_000_000);
    assert_eq!((wait.semaphore, wait.value, wait.timeout), (semaphore, 6, 1_000_000));
    let query = m.get_timeline_semaphore_value(semaphore);
    assert_eq!(query.semaphore, semaphore);

    assert!(signal.signaled(Ok(())).is_ok());
    let error = signal.signaled(Err(vk::Result::ERROR_DEVICE_LOST.as_raw())).unwrap_err();
    assert_eq!(api_error(error), "Failed to signal timeline semaphore: ERROR_DEVICE_LOST");

    assert!(wait.finished(vk::Result::SUCCESS.as_raw()).is_ok());
    match wait.finished(vk::Result::TIMEOUT.as_raw()) {
        Err(GeyserError::Other(message)) => assert_eq!(message, "Timeline semaphore wait timed out"),
        other => panic!("{:?}", other),
    }
    let error = wait.finished(vk::Result::ERROR_DEVICE_LOST.as_raw()).unwrap_err();
    assert_eq!(api_error(error), "Failed to wait for timeline semaphore: ERROR_DEVICE_LOST");
    let error = wait.finished(vk::Result::NOT_READY.as_raw()).unwrap_err();
    assert_eq!(api_error(error), "Failed to wait for timeline semaphore: NOT_READY");

    assert_eq!(query.answered(Ok(0)).unwrap(), 0);
    assert_eq!(query.answered(Ok(u64::MAX)).unwrap(), u64::MAX);
    let error = query.answered(Err(vk::Result::ERROR_DEVICE_LOST.as_raw())).unwrap_err();
    assert_eq!(api_error(error), "Failed to get timeline semaphore value: ERROR_DEVICE_LOST");
}
