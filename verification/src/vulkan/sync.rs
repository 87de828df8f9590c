//! Semaphores and fences that two Vulkan contexts share, and timeline
//! semaphores with their counters.
//!
//! The operations follow those on textures. A primitive is created marked as
//! exportable; exporting it fetches a platform handle and enters the
//! primitive into the registry; importing creates a primitive of this context
//! first and then imports the handle into it; releasing takes the primitive
//! out of the registry for the backend to destroy.

use vstd::prelude::*;
use crate::error::{vk_result_name, GeyserError, GeyserErrorView, Unwound};
use crate::vulkan::texture::RawHandle;
use crate::vulkan::{
    Platform, VulkanFenceHandle, VulkanSemaphoreHandle, VulkanTextureShareManager,
    HANDLE_TYPE_OPAQUE_FD, HANDLE_TYPE_OPAQUE_WIN32,
};

verus! {

/// The result code of a driver call that succeeded.
pub const VK_SUCCESS: i32 = 0;

/// The result code of a wait that ran out of time.
pub const VK_TIMEOUT: i32 = 2;

/// The parameters of `vkCreateSemaphore`. `export_handle_types` goes into
/// the `VkExportSemaphoreCreateInfo` chained to them. With an initial value
/// the semaphore is a timeline semaphore that starts at that value; without,
/// it is a binary semaphore.
#[derive(Debug, Clone, Copy, PartialEq, Eq, Structural)]
pub struct SemaphoreRequest {
    pub flags: u32,
    pub export_handle_types: u32,
    pub timeline_initial_value: Option<u64>,
}

/// The parameters of `vkCreateFence`. `export_handle_types` goes into the
/// `VkExportFenceCreateInfo` chained to them.
#[derive(Debug, Clone, Copy, PartialEq, Eq, Structural)]
pub struct FenceRequest {
    pub flags: u32,
    pub export_handle_types: u32,
}

/// An export of a semaphore whose platform handle is still to be fetched.
#[derive(Debug, Clone, Copy)]
pub struct PendingSemaphoreExport {
    pub semaphore: ash::vk::Semaphore,
    /// The `VkExternalSemaphoreHandleTypeFlags` bit to ask the handle as.
    pub handle_type: u32,
    pub is_timeline: bool,
}

/// An import of a semaphore: the semaphore that takes the handle is to be
/// created as `request` says.
#[derive(Debug, Clone, Copy, PartialEq, Eq, Structural)]
pub struct PendingSemaphoreImport {
    pub request: SemaphoreRequest,
    pub handle: RawHandle,
    pub handle_type: u32,
}

/// The parameters of `vkImportSemaphoreFdKHR` or
/// `vkImportSemaphoreWin32HandleKHR`.
#[derive(Debug, Clone, Copy)]
pub struct SemaphoreImport {
    pub semaphore: ash::vk::Semaphore,
    pub flags: u32,
    pub handle_type: u32,
    pub handle: RawHandle,
}

/// An export of a fence whose platform handle is still to be fetched.
#[derive(Debug, Clone, Copy)]
pub struct PendingFenceExport {
    pub fence: ash::vk::Fence,
    /// The `VkExternalFenceHandleTypeFlags` bit to ask the handle as.
    pub handle_type: u32,
}

/// An import of a fence: the fence that takes the handle is to be created as
/// `request` says.
#[derive(Debug, Clone, Copy, PartialEq, Eq, Structural)]
pub struct PendingFenceImport {
    pub request: FenceRequest,
    pub handle: RawHandle,
    pub handle_type: u32,
}

/// The parameters of `vkImportFenceFdKHR` or `vkImportFenceWin32HandleKHR`.
#[derive(Debug, Clone, Copy)]
pub struct FenceImport {
    pub fence: ash::vk::Fence,
    pub flags: u32,
    pub handle_type: u32,
    pub handle: RawHandle,
}

/// The parameters of `vkSignalSemaphore`.
#[derive(Debug, Clone, Copy)]
pub struct TimelineSignal {
    pub semaphore: ash::vk::Semaphore,
    pub value: u64,
}

/// The parameters of `vkWaitSemaphores` on one semaphore.
#[derive(Debug, Clone, Copy)]
pub struct TimelineWait {
    pub semaphore: ash::vk::Semaphore,
    pub value: u64,
    /// The longest time to wait, in nanoseconds.
    pub timeout: u64,
}

/// The parameters of `vkGetSemaphoreCounterValue`.
#[derive(Debug, Clone, Copy)]
pub struct TimelineQuery {
    pub semaphore: ash::vk::Semaphore,
}

/// The error of a wait that ran out of time. No other failure is reported
/// as this one.
pub open spec fn wait_timed_out() -> GeyserErrorView {
    GeyserErrorView::Other("Timeline semaphore wait timed out"@)
}

impl SemaphoreRequest {
    /// Takes the outcome of `vkCreateSemaphore`: the semaphore, or a failure
    /// to create it with the result code.
    pub fn created(
        self,
        reply: Result<ash::vk::Semaphore, i32>,
    ) -> (semaphore: Result<ash::vk::Semaphore, GeyserError>)
        ensures
            match reply {
                Ok(s) => semaphore == Ok::<ash::vk::Semaphore, GeyserError>(s),
                Err(code) => semaphore matches Err(error) && error@ == GeyserErrorView::VulkanApiError(
                    "Failed to create semaphore: "@ + vk_result_name(code),
                ),
            },
    {
        match reply {
            Ok(s) => Ok(s),
            Err(code) => Err(GeyserError::vulkan_call_failed("Failed to create semaphore: ", code)),
        }
    }
}

impl FenceRequest {
    /// Takes the outcome of `vkCreateFence`: the fence, or a failure to
    /// create it with the result code.
    pub fn created(self, reply: Result<ash::vk::Fence, i32>) -> (fence: Result<ash::vk::Fence, GeyserError>)
        ensures
            match reply {
                Ok(f) => fence == Ok::<ash::vk::Fence, GeyserError>(f),
                Err(code) => fence matches Err(error) && error@ == GeyserErrorView::VulkanApiError(
                    "Failed to create fence: "@ + vk_result_name(code),
                ),
            },
    {
        match reply {
            Ok(f) => Ok(f),
            Err(code) => Err(GeyserError::vulkan_call_failed("Failed to create fence: ", code)),
        }
    }
}

impl PendingSemaphoreImport {
    /// Takes the outcome of creating the semaphore. With a semaphore the next
    /// step is to import the handle into it; with a result code the import
    /// fails as a failure to create a semaphore.
    pub fn created(
        self,
        reply: Result<ash::vk::Semaphore, i32>,
    ) -> (next: Result<SemaphoreImport, GeyserError>)
        ensures
            match reply {
                Ok(s) => next matches Ok(import) && import.semaphore == s && import.flags == 0
                    && import.handle_type == self.handle_type && import.handle == self.handle,
                Err(code) => next matches Err(error) && error@ == GeyserErrorView::VulkanApiError(
                    "Failed to create semaphore: "@ + vk_result_name(code),
                ),
            },
    {
        match reply {
            Ok(s) => Ok(
                SemaphoreImport {
                    semaphore: s,
                    flags: 0,
                    handle_type: self.handle_type,
                    handle: self.handle,
                },
            ),
            Err(code) => Err(GeyserError::vulkan_call_failed("Failed to create semaphore: ", code)),
        }
    }
}

impl SemaphoreImport {
    /// Takes the outcome of importing the handle. Imported, the semaphore is
    /// ready. Else the import fails with the result code, and the semaphore
    /// that was created for it is left to destroy.
    pub fn imported(
        self,
        reply: Result<(), i32>,
    ) -> (semaphore: Result<ash::vk::Semaphore, Unwound<ash::vk::Semaphore>>)
        ensures
            match reply {
                Ok(_) => semaphore matches Ok(s) && s == self.semaphore,
                Err(code) => semaphore matches Err(failed) && failed.leftover == self.semaphore
                    && failed.error@ == GeyserErrorView::VulkanApiError(
                    "Failed to import semaphore: "@ + vk_result_name(code),
                ),
            },
    {
        match reply {
            Ok(_) => Ok(self.semaphore),
            Err(code) => Err(
                Unwound {
                    error: GeyserError::vulkan_call_failed("Failed to import semaphore: ", code),
                    leftover: self.semaphore,
                },
            ),
        }
    }
}

impl PendingFenceImport {
    /// Takes the outcome of creating the fence. With a fence the next step is
    /// to import the handle into it; with a result code the import fails as a
    /// failure to create a fence.
    pub fn created(self, reply: Result<ash::vk::Fence, i32>) -> (next: Result<FenceImport, GeyserError>)
        ensures
            match reply {
                Ok(f) => next matches Ok(import) && import.fence == f && import.flags == 0
                    && import.handle_type == self.handle_type && import.handle == self.handle,
                Err(code) => next matches Err(error) && error@ == GeyserErrorView::VulkanApiError(
                    "Failed to create fence: "@ + vk_result_name(code),
                ),
            },
    {
        match reply {
            Ok(f) => Ok(
                FenceImport { fence: f, flags: 0, handle_type: self.handle_type, handle: self.handle },
            ),
            Err(code) => Err(GeyserError::vulkan_call_failed("Failed to create fence: ", code)),
        }
    }
}

impl FenceImport {
    /// Takes the outcome of importing the handle. Imported, the fence is
    /// ready. Else the import fails with the result code, and the fence that
    /// was created for it is left to destroy.
    pub fn imported(self, reply: Result<(), i32>) -> (fence: Result<ash::vk::Fence, Unwound<ash::vk::Fence>>)
        ensures
            match reply {
                Ok(_) => fence matches Ok(f) && f == self.fence,
                Err(code) => fence matches Err(failed) && failed.leftover == self.fence && failed.error@
                    == GeyserErrorView::VulkanApiError(
                    "Failed to import fence: "@ + vk_result_name(code),
                ),
            },
    {
        match reply {
            Ok(_) => Ok(self.fence),
            Err(code) => Err(
                Unwound {
                    error: GeyserError::vulkan_call_failed("Failed to import fence: ", code),
                    leftover: self.fence,
                },
            ),
        }
    }
}

impl TimelineSignal {
    /// Takes the outcome of `vkSignalSemaphore`.
    pub fn signaled(self, reply: Result<(), i32>) -> (done: Result<(), GeyserError>)
        ensures
            match reply {
                Ok(_) => done is Ok,
                Err(code) => done matches Err(error) && error@ == GeyserErrorView::VulkanApiError(
                    "Failed to signal timeline semaphore: "@ + vk_result_name(code),
                ),
            },
    {
        match reply {
            Ok(_) => Ok(()),
            Err(code) => Err(
                GeyserError::vulkan_call_failed("Failed to signal timeline semaphore: ", code),
            ),
        }
    }
}

impl TimelineWait {
    /// Takes the result code of `vkWaitSemaphores`. The wait succeeded
    /// exactly if the code is `VK_SUCCESS`: the counter has then reached the
    /// value. `VK_TIMEOUT` is reported as the time-out that it is, every
    /// other code as a failed driver call.
    pub fn finished(self, code: i32) -> (done: Result<(), GeyserError>)
        ensures
            code == VK_SUCCESS ==> done is Ok,
            code == VK_TIMEOUT ==> (done matches Err(error) && error@ == wait_timed_out()),
            code != VK_SUCCESS && code != VK_TIMEOUT ==> (done matches Err(error) && error@
                == GeyserErrorView::VulkanApiError(
                "Failed to wait for timeline semaphore: "@ + vk_result_name(code),
            )),
    {
        if code == VK_SUCCESS {
            Ok(())
        } else if code == VK_TIMEOUT {
            Err(GeyserError::Other(String::from_str("Timeline semaphore wait timed out")))
        } else {
            Err(GeyserError::vulkan_call_failed("Failed to wait for timeline semaphore: ", code))
        }
    }
}

impl TimelineQuery {
    /// Takes the outcome of `vkGetSemaphoreCounterValue`: the counter, or a
    /// failure with the result code.
    pub fn answered(self, reply: Result<u64, i32>) -> (value: Result<u64, GeyserError>)
        ensures
            match reply {
                Ok(v) => value == Ok::<u64, GeyserError>(v),
                Err(code) => value matches Err(error) && error@ == GeyserErrorView::VulkanApiError(
                    "Failed to get timeline semaphore value: "@ + vk_result_name(code),
                ),
            },
    {
        match reply {
            Ok(v) => Ok(v),
            Err(code) => Err(
                GeyserError::vulkan_call_failed("Failed to get timeline semaphore value: ", code),
            ),
        }
    }
}

/// The share handle that the export of a semaphore gives out.
pub open spec fn exported_semaphore(
    pending: PendingSemaphoreExport,
    handle: RawHandle,
) -> VulkanSemaphoreHandle {
    VulkanSemaphoreHandle {
        raw_handle: handle.spec_value(),
        handle_type: pending.handle_type,
        is_timeline: pending.is_timeline,
    }
}

/// The share handle that the export of a fence gives out.
pub open spec fn exported_fence(pending: PendingFenceExport, handle: RawHandle) -> VulkanFenceHandle {
    VulkanFenceHandle { raw_handle: handle.spec_value(), handle_type: pending.handle_type }
}

/// The semaphore to create for the import of `handle` on `platform`: a
/// timeline semaphore that starts at 0 where the handle is one of a timeline
/// semaphore, else a binary one.
pub open spec fn semaphore_for_import(platform: Platform, handle: VulkanSemaphoreHandle) -> SemaphoreRequest {
    SemaphoreRequest {
        flags: 0,
        export_handle_types: platform.spec_handle_types(),
        timeline_initial_value: if handle.is_timeline {
            Some(0u64)
        } else {
            None
        },
    }
}

impl VulkanTextureShareManager {
    /// The parameters of a binary semaphore that can be exported: marked at
    /// creation with the handle type of the platform.
    pub fn create_exportable_semaphore(&self) -> (request: SemaphoreRequest)
        ensures
            request == (SemaphoreRequest {
                flags: 0,
                export_handle_types: self.platform().spec_handle_types(),
                timeline_initial_value: None,
            }),
    {
        SemaphoreRequest {
            flags: 0,
            export_handle_types: self.target_platform().handle_types(),
            timeline_initial_value: None,
        }
    }

    /// The parameters of a timeline semaphore that can be exported and whose
    /// counter starts at `initial_value`.
    pub fn create_exportable_timeline_semaphore(&self, initial_value: u64) -> (request: SemaphoreRequest)
        ensures
            request == (SemaphoreRequest {
                flags: 0,
                export_handle_types: self.platform().spec_handle_types(),
                timeline_initial_value: Some(initial_value),
            }),
    {
        SemaphoreRequest {
            flags: 0,
            export_handle_types: self.target_platform().handle_types(),
            timeline_initial_value: Some(initial_value),
        }
    }

    /// Begins an export of `semaphore` as the handle type that `wanted`
    /// exports, which only a manager for that platform supports.
    fn begin_semaphore_export(
        &self,
        semaphore: ash::vk::Semaphore,
        wanted: Platform,
        is_timeline: bool,
    ) -> (pending: Result<
        PendingSemaphoreExport,
        GeyserError,
    >)
        requires
            wanted != Platform::Other,
        ensures
            if self.platform() == wanted {
                pending matches Ok(p) && p.semaphore == semaphore && p.handle_type
                    == wanted.spec_handle_types() && p.is_timeline == is_timeline
            } else {
                pending matches Err(error) && error@ == GeyserErrorView::OperationNotSupported
            },
    {
        if self.target_platform() == wanted {
            Ok(PendingSemaphoreExport { semaphore, handle_type: wanted.handle_types(), is_timeline })
        } else {
            Err(GeyserError::OperationNotSupported)
        }
    }

    /// Begins the export of a binary semaphore as a POSIX file descriptor.
    /// Only a manager for Linux supports it.
    pub fn export_semaphore_fd(&self, semaphore: ash::vk::Semaphore) -> (pending: Result<
        PendingSemaphoreExport,
        GeyserError,
    >)
        ensures
            if self.platform() == Platform::Linux {
                pending matches Ok(p) && p.semaphore == semaphore && p.handle_type == HANDLE_TYPE_OPAQUE_FD
                    && !p.is_timeline
            } else {
                pending matches Err(error) && error@ == GeyserErrorView::OperationNotSupported
            },
    {
        self.begin_semaphore_export(semaphore, Platform::Linux, false)
    }

    /// Begins the export of a binary semaphore as a Win32 handle. Only a
    /// manager for Windows supports it.
    pub fn export_semaphore_win32(&self, semaphore: ash::vk::Semaphore) -> (pending: Result<
        PendingSemaphoreExport,
        GeyserError,
    >)
        ensures
            if self.platform() == Platform::Windows {
                pending matches Ok(p) && p.semaphore == semaphore && p.handle_type
                    == HANDLE_TYPE_OPAQUE_WIN32 && !p.is_timeline
            } else {
                pending matches Err(error) && error@ == GeyserErrorView::OperationNotSupported
            },
    {
        self.begin_semaphore_export(semaphore, Platform::Windows, false)
    }

    /// Begins the export of a timeline semaphore as a POSIX file descriptor.
    /// Only a manager for Linux supports it.
    pub fn export_timeline_semaphore_fd(&self, semaphore: ash::vk::Semaphore) -> (pending: Result<
        PendingSemaphoreExport,
        GeyserError,
    >)
        ensures
            if self.platform() == Platform::Linux {
                pending matches Ok(p) && p.semaphore == semaphore && p.handle_type == HANDLE_TYPE_OPAQUE_FD
                    && p.is_timeline
            } else {
                pending matches Err(error) && error@ == GeyserErrorView::OperationNotSupported
            },
    {
        self.begin_semaphore_export(semaphore, Platform::Linux, true)
    }

    /// Begins the export of a timeline semaphore as a Win32 handle. Only a
    /// manager for Windows supports it.
    pub fn export_timeline_semaphore_win32(&self, semaphore: ash::vk::Semaphore) -> (pending: Result<
        PendingSemaphoreExport,
        GeyserError,
    >)
        ensures
            if self.platform() == Platform::Windows {
                pending matches Ok(p) && p.semaphore == semaphore && p.handle_type
                    == HANDLE_TYPE_OPAQUE_WIN32 && p.is_timeline
            } else {
                pending matches Err(error) && error@ == GeyserErrorView::OperationNotSupported
            },
    {
        self.begin_semaphore_export(semaphore, Platform::Windows, true)
    }

    /// Takes the outcome of fetching the platform handle of a semaphore and
    /// completes the export. With a handle, the share handle carries its
    /// value, and the semaphore enters the registry under that value. With a
    /// result code the export fails and the registry stays as it was.
    pub fn complete_export_semaphore(
        &mut self,
        pending: PendingSemaphoreExport,
        reply: Result<RawHandle, i32>,
    ) -> (handle: Result<
        VulkanSemaphoreHandle,
        GeyserError,
    >)
        ensures
            final(self).platform() == old(self).platform(),
            final(self).spec_queue_family_index() == old(self).spec_queue_family_index(),
            final(self).resources() == old(self).resources(),
            final(self).fences() == old(self).fences(),
            match reply {
                Ok(raw) => handle == Ok::<VulkanSemaphoreHandle, GeyserError>(
                    exported_semaphore(pending, raw),
                ) && final(self).semaphores() == old(self).semaphores().insert(
                    raw.spec_value(),
                    pending.semaphore,
                ),
                Err(code) => handle matches Err(error) && error@ == GeyserErrorView::VulkanApiError(
                    "Failed to export semaphore: "@ + vk_result_name(code),
                ) && final(self).semaphores() == old(self).semaphores(),
            },
    {
        match reply {
            Ok(raw) => {
                let raw_handle = raw.value();
                self.keep_semaphore(raw_handle, pending.semaphore);
                Ok(
                    VulkanSemaphoreHandle {
                        raw_handle,
                        handle_type: pending.handle_type,
                        is_timeline: pending.is_timeline,
                    },
                )
            },
            Err(code) => Err(GeyserError::vulkan_call_failed("Failed to export semaphore: ", code)),
        }
    }

    /// Begins an import of the semaphore behind `handle` on `wanted`.
    fn begin_semaphore_import(&self, handle: &VulkanSemaphoreHandle, wanted: Platform) -> (pending: Result<
        PendingSemaphoreImport,
        GeyserError,
    >)
        requires
            wanted != Platform::Other,
        ensures
            if self.platform() == wanted {
                pending matches Ok(p) && p.request == semaphore_for_import(wanted, *handle) && Some(p.handle)
                    == RawHandle::spec_of_value(wanted, handle.raw_handle) && p.handle_type
                    == wanted.spec_handle_types()
            } else {
                pending matches Err(error) && error@ == GeyserErrorView::OperationNotSupported
            },
    {
        if self.target_platform() == wanted {
            match RawHandle::of_value(wanted, handle.raw_handle) {
                Some(raw) => Ok(
                    PendingSemaphoreImport {
                        request: SemaphoreRequest {
                            flags: 0,
                            export_handle_types: wanted.handle_types(),
                            timeline_initial_value: if handle.is_timeline {
                                Some(0)
                            } else {
                                None
                            },
                        },
                        handle: raw,
                        handle_type: wanted.handle_types(),
                    },
                ),
                None => Err(GeyserError::OperationNotSupported),
            }
        } else {
            Err(GeyserError::OperationNotSupported)
        }
    }

    /// Begins the import of a semaphore from a POSIX file descriptor. Only a
    /// manager for Linux supports it. The semaphore to create first is
    /// exportable like any other of this manager, and of the kind that the
    /// handle says; the descriptor to import into it is the low 32 bits of
    /// the handle's raw value.
    pub fn import_semaphore_fd(&self, handle: &VulkanSemaphoreHandle) -> (pending: Result<
        PendingSemaphoreImport,
        GeyserError,
    >)
        ensures
            if self.platform() == Platform::Linux {
                pending == Ok::<PendingSemaphoreImport, GeyserError>(
                    PendingSemaphoreImport {
                        request: semaphore_for_import(Platform::Linux, *handle),
                        handle: RawHandle::Fd(handle.raw_handle as i32),
                        handle_type: HANDLE_TYPE_OPAQUE_FD,
                    },
                )
            } else {
                pending matches Err(error) && error@ == GeyserErrorView::OperationNotSupported
            },
    {
        self.begin_semaphore_import(handle, Platform::Linux)
    }

    /// Begins the import of a semaphore from a Win32 handle. Only a manager
    /// for Windows supports it.
    pub fn import_semaphore_win32(&self, handle: &VulkanSemaphoreHandle) -> (pending: Result<
        PendingSemaphoreImport,
        GeyserError,
    >)
        ensures
            if self.platform() == Platform::Windows {
                pending == Ok::<PendingSemaphoreImport, GeyserError>(
                    PendingSemaphoreImport {
                        request: semaphore_for_import(Platform::Windows, *handle),
                        handle: RawHandle::Win32(handle.raw_handle as isize),
                        handle_type: HANDLE_TYPE_OPAQUE_WIN32,
                    },
                )
            } else {
                pending matches Err(error) && error@ == GeyserErrorView::OperationNotSupported
            },
    {
        self.begin_semaphore_import(handle, Platform::Windows)
    }

    /// The parameters of a fence that can be exported: marked at creation
    /// with the handle type of the platform.
    pub fn create_exportable_fence(&self) -> (request: FenceRequest)
        ensures
            request == (FenceRequest { flags: 0, export_handle_types: self.platform().spec_handle_types() }),
    {
        FenceRequest { flags: 0, export_handle_types: self.target_platform().handle_types() }
    }

    /// Begins an export of `fence` as the handle type that `wanted` exports.
    fn begin_fence_export(&self, fence: ash::vk::Fence, wanted: Platform) -> (pending: Result<
        PendingFenceExport,
        GeyserError,
    >)
        requires
            wanted != Platform::Other,
        ensures
            if self.platform() == wanted {
                pending matches Ok(p) && p.fence == fence && p.handle_type == wanted.spec_handle_types()
            } else {
                pending matches Err(error) && error@ == GeyserErrorView::OperationNotSupported
            },
    {
        if self.target_platform() == wanted {
            Ok(PendingFenceExport { fence, handle_type: wanted.handle_types() })
        } else {
            Err(GeyserError::OperationNotSupported)
        }
    }

    /// Begins the export of a fence as a POSIX file descriptor. Only a
    /// manager for Linux supports it.
    pub fn export_fence_fd(&self, fence: ash::vk::Fence) -> (pending: Result<PendingFenceExport, GeyserError>)
        ensures
            if self.platform() == Platform::Linux {
                pending matches Ok(p) && p.fence == fence && p.handle_type == HANDLE_TYPE_OPAQUE_FD
            } else {
                pending matches Err(error) && error@ == GeyserErrorView::OperationNotSupported
            },
    {
        self.begin_fence_export(fence, Platform::Linux)
    }

    /// Begins the export of a fence as a Win32 handle. Only a manager for
    /// Windows supports it.
    pub fn export_fence_win32(
        &self,
        fence: ash::vk::Fence,
    ) -> (pending: Result<PendingFenceExport, GeyserError>)
        ensures
            if self.platform() == Platform::Windows {
                pending matches Ok(p) && p.fence == fence && p.handle_type == HANDLE_TYPE_OPAQUE_WIN32
            } else {
                pending matches Err(error) && error@ == GeyserErrorView::OperationNotSupported
            },
    {
        self.begin_fence_export(fence, Platform::Windows)
    }

    /// Takes the outcome of fetching the platform handle of a fence and
    /// completes the export. With a handle, the share handle carries its
    /// value, and the fence enters the registry under that value. With a
    /// result code the export fails and the registry stays as it was.
    pub fn complete_export_fence(
        &mut self,
        pending: PendingFenceExport,
        reply: Result<RawHandle, i32>,
    ) -> (handle: Result<
        VulkanFenceHandle,
        GeyserError,
    >)
        ensures
            final(self).platform() == old(self).platform(),
            final(self).spec_queue_family_index() == old(self).spec_queue_family_index(),
            final(self).resources() == old(self).resources(),
            final(self).semaphores() == old(self).semaphores(),
            match reply {
                Ok(raw) => handle == Ok::<VulkanFenceHandle, GeyserError>(exported_fence(pending, raw))
                    && final(self).fences() == old(self).fences().insert(raw.spec_value(), pending.fence),
                Err(code) => handle matches Err(error) && error@ == GeyserErrorView::VulkanApiError(
                    "Failed to export fence: "@ + vk_result_name(code),
                ) && final(self).fences() == old(self).fences(),
            },
    {
        match reply {
            Ok(raw) => {
                let raw_handle = raw.value();
                self.keep_fence(raw_handle, pending.fence);
                Ok(VulkanFenceHandle { raw_handle, handle_type: pending.handle_type })
            },
            Err(code) => Err(GeyserError::vulkan_call_failed("Failed to export fence: ", code)),
        }
    }

    /// Begins an import of the fence behind `handle` on `wanted`.
    fn begin_fence_import(&self, handle: &VulkanFenceHandle, wanted: Platform) -> (pending: Result<
        PendingFenceImport,
        GeyserError,
    >)
        requires
            wanted != Platform::Other,
        ensures
            if self.platform() == wanted {
                pending matches Ok(p) && p.request == (FenceRequest {
                    flags: 0,
                    export_handle_types: wanted.spec_handle_types(),
                }) && Some(p.handle) == RawHandle::spec_of_value(wanted, handle.raw_handle)
                    && p.handle_type == wanted.spec_handle_types()
            } else {
                pending matches Err(error) && error@ == GeyserErrorView::OperationNotSupported
            },
    {
        if self.target_platform() == wanted {
            match RawHandle::of_value(wanted, handle.raw_handle) {
                Some(raw) => Ok(
                    PendingFenceImport {
                        request: FenceRequest { flags: 0, export_handle_types: wanted.handle_types() },
                        handle: raw,
                        handle_type: wanted.handle_types(),
                    },
                ),
                None => Err(GeyserError::OperationNotSupported),
            }
        } else {
            Err(GeyserError::OperationNotSupported)
        }
    }

    /// Begins the import of a fence from a POSIX file descriptor. Only a
    /// manager for Linux supports it. The fence to create first is exportable
    /// like any other of this manager; the descriptor to import into it is
    /// the low 32 bits of the handle's raw value.
    pub fn import_fence_fd(
        &self,
        handle: &VulkanFenceHandle,
    ) -> (pending: Result<PendingFenceImport, GeyserError>)
        ensures
            if self.platform() == Platform::Linux {
                pending == Ok::<PendingFenceImport, GeyserError>(
                    PendingFenceImport {
                        request: FenceRequest { flags: 0, export_handle_types: HANDLE_TYPE_OPAQUE_FD },
                        handle: RawHandle::Fd(handle.raw_handle as i32),
                        handle_type: HANDLE_TYPE_OPAQUE_FD,
                    },
                )
            } else {
                pending matches Err(error) && error@ == GeyserErrorView::OperationNotSupported
            },
    {
        self.begin_fence_import(handle, Platform::Linux)
    }

    /// Begins the import of a fence from a Win32 handle. Only a manager for
    /// Windows supports it.
    pub fn import_fence_win32(&self, handle: &VulkanFenceHandle) -> (pending: Result<
        PendingFenceImport,
        GeyserError,
    >)
        ensures
            if self.platform() == Platform::Windows {
                pending == Ok::<PendingFenceImport, GeyserError>(
                    PendingFenceImport {
                        request: FenceRequest { flags: 0, export_handle_types: HANDLE_TYPE_OPAQUE_WIN32 },
                        handle: RawHandle::Win32(handle.raw_handle as isize),
                        handle_type: HANDLE_TYPE_OPAQUE_WIN32,
                    },
                )
            } else {
                pending matches Err(error) && error@ == GeyserErrorView::OperationNotSupported
            },
    {
        self.begin_fence_import(handle, Platform::Windows)
    }

    /// Releases the semaphore that the registry holds under the raw value of
    /// `handle`, and hands it back for the backend to destroy. Where the
    /// registry holds none, nothing is handed back and nothing changes. It
    /// never fails.
    pub fn release_semaphore(&mut self, handle: &VulkanSemaphoreHandle) -> (released: Result<
        Option<ash::vk::Semaphore>,
        GeyserError,
    >)
        ensures
            final(self).platform() == old(self).platform(),
            final(self).spec_queue_family_index() == old(self).spec_queue_family_index(),
            final(self).resources() == old(self).resources(),
            final(self).fences() == old(self).fences(),
            final(self).semaphores() == old(self).semaphores().remove(handle.raw_handle),
            released == Ok::<Option<ash::vk::Semaphore>, GeyserError>(
                if old(self).semaphores().contains_key(handle.raw_handle) {
                    Some(old(self).semaphores()[handle.raw_handle])
                } else {
                    None
                },
            ),
    {
        Ok(self.take_semaphore(handle.raw_handle))
    }

    /// Releases the fence that the registry holds under the raw value of
    /// `handle`, and hands it back for the backend to destroy. Where the
    /// registry holds none, nothing is handed back and nothing changes. It
    /// never fails.
    pub fn release_fence(&mut self, handle: &VulkanFenceHandle) -> (released: Result<
        Option<ash::vk::Fence>,
        GeyserError,
    >)
        ensures
            final(self).platform() == old(self).platform(),
            final(self).spec_queue_family_index() == old(self).spec_queue_family_index(),
            final(self).resources() == old(self).resources(),
            final(self).semaphores() == old(self).semaphores(),
            final(self).fences() == old(self).fences().remove(handle.raw_handle),
            released == Ok::<Option<ash::vk::Fence>, GeyserError>(
                if old(self).fences().contains_key(handle.raw_handle) {
                    Some(old(self).fences()[handle.raw_handle])
                } else {
                    None
                },
            ),
    {
        Ok(self.take_fence(handle.raw_handle))
    }

    /// The request that sets the counter of a timeline semaphore to `value`.
    /// The counter never goes down: a value below what it has reached is not
    /// for the caller to signal, and the manager neither holds signals back
    /// nor reorders them.
    pub fn signal_timeline_semaphore(
        &self,
        semaphore: ash::vk::Semaphore,
        value: u64,
    ) -> (request: TimelineSignal)
        ensures
            request.semaphore == semaphore,
            request.value == value,
    {
        TimelineSignal { semaphore, value }
    }

    /// The request that blocks the calling thread until the counter of a
    /// timeline semaphore has reached `value`, or until `timeout`
    /// nanoseconds have passed.
    pub fn wait_timeline_semaphore(
        &self,
        semaphore: ash::vk::Semaphore,
        value: u64,
        timeout: u64,
    ) -> (request: TimelineWait)
        ensures
            request.semaphore == semaphore,
            request.value == value,
            request.timeout == timeout,
    {
        TimelineWait { semaphore, value, timeout }
    }

    /// The request for the counter of a timeline semaphore as it stands,
    /// without blocking.
    pub fn get_timeline_semaphore_value(&self, semaphore: ash::vk::Semaphore) -> (request: TimelineQuery)
        ensures
            request.semaphore == semaphore,
    {
        TimelineQuery { semaphore }
    }
}

} // verus!
