//! The error type of the library, and the mapping of native failures to it.

use vstd::prelude::*;
use crate::common::TextureFormat;

verus! {

/// Everything that can go wrong in a sharing operation.
#[derive(Debug)]
pub enum GeyserError {
    /// The Vulkan context could not be set up.
    VulkanInitializationError(String),
    /// A Vulkan driver call failed.
    VulkanApiError(String),
    /// The Metal context could not be set up.
    MetalInitializationError(String),
    /// A Metal call failed.
    MetalApiError(String),
    /// The descriptor's format has no native mapping on this backend.
    UnsupportedTextureFormat(String),
    /// A native format has no abstract counterpart.
    UnsupportedFormat(String),
    /// The feature is not there yet.
    NotImplemented(String),
    /// The handle belongs to another backend, or is of the wrong kind.
    InvalidTextureHandle,
    /// The resource is in use and cannot be shared.
    ResourceInUse,
    /// The platform has no such operation.
    OperationNotSupported,
    /// Any other failure.
    Other(String),
}

pub type Result<T> = std::result::Result<T, GeyserError>;

/// A step that failed after native objects were made: the error to report,
/// and what the backend has to destroy or let go of before it reports it.
#[derive(Debug)]
pub struct Unwound<T> {
    pub error: GeyserError,
    pub leftover: T,
}

/// A `GeyserError` with its messages as sequences of characters.
pub enum GeyserErrorView {
    VulkanInitializationError(Seq<char>),
    VulkanApiError(Seq<char>),
    MetalInitializationError(Seq<char>),
    MetalApiError(Seq<char>),
    UnsupportedTextureFormat(Seq<char>),
    UnsupportedFormat(Seq<char>),
    NotImplemented(Seq<char>),
    InvalidTextureHandle,
    ResourceInUse,
    OperationNotSupported,
    Other(Seq<char>),
}

impl View for GeyserError {
    type V = GeyserErrorView;

    open spec fn view(&self) -> GeyserErrorView {
        match self {
            GeyserError::VulkanInitializationError(m) => GeyserErrorView::VulkanInitializationError(m@),
            GeyserError::VulkanApiError(m) => GeyserErrorView::VulkanApiError(m@),
            GeyserError::MetalInitializationError(m) => GeyserErrorView::MetalInitializationError(m@),
            GeyserError::MetalApiError(m) => GeyserErrorView::MetalApiError(m@),
            GeyserError::UnsupportedTextureFormat(m) => GeyserErrorView::UnsupportedTextureFormat(m@),
            GeyserError::UnsupportedFormat(m) => GeyserErrorView::UnsupportedFormat(m@),
            GeyserError::NotImplemented(m) => GeyserErrorView::NotImplemented(m@),
            GeyserError::InvalidTextureHandle => GeyserErrorView::InvalidTextureHandle,
            GeyserError::ResourceInUse => GeyserErrorView::ResourceInUse,
            GeyserError::OperationNotSupported => GeyserErrorView::OperationNotSupported,
            GeyserError::Other(m) => GeyserErrorView::Other(m@),
        }
    }
}

impl GeyserErrorView {
    /// The text that the error is shown as.
    pub open spec fn text(self) -> Seq<char> {
        match self {
            GeyserErrorView::VulkanInitializationError(m) => "Failed to initialize Vulkan: "@ + m,
            GeyserErrorView::VulkanApiError(m) => "Vulkan API error: "@ + m,
            GeyserErrorView::MetalInitializationError(m) => "Failed to initialize Metal: "@ + m,
            GeyserErrorView::MetalApiError(m) => "Metal API error: "@ + m,
            GeyserErrorView::UnsupportedTextureFormat(m) => "Unsupported texture format: "@ + m,
            GeyserErrorView::UnsupportedFormat(m) => "Unsupported format: "@ + m,
            GeyserErrorView::NotImplemented(m) => "Not implemented: "@ + m,
            GeyserErrorView::InvalidTextureHandle => "Invalid handle provided for import/export"@,
            GeyserErrorView::ResourceInUse => "Resource already in use or cannot be shared"@,
            GeyserErrorView::OperationNotSupported => "Operation not supported on current platform or API"@,
            GeyserErrorView::Other(m) => "Other error: "@ + m,
        }
    }
}

/// The text of `head` followed by the text of `tail`.
pub(crate) fn join(head: &str, tail: &str) -> (text: String)
    ensures
        text@ == head@ + tail@,
{
    String::from_str(head).concat(tail)
}

/// How ash prints the Vulkan result code `code` with `{:?}`.
pub uninterp spec fn vk_result_name(code: i32) -> Seq<char>;

/// Calls the `Debug` implementation that ash gives `vk::Result`, on the result
/// that `vk::Result::from_raw` makes of `code`. What it prints depends on the
/// code alone: the name of the code where ash knows one, else the number. The
/// contract gives that text the name `vk_result_name(code)` and says no more
/// of it.
#[verifier::external_body]
fn format_vk_result(code: i32) -> (text: String)
    ensures
        text@ == vk_result_name(code),
{
    format!("{:?}", ash::vk::Result::from_raw(code))
}

/// The error type of gpu-allocator. The library carries such an error from
/// the backend to the functions that report it, and never looks into it.
#[verifier::external_type_specification]
#[verifier::external_body]
pub struct ExAllocationError(gpu_allocator::AllocationError);

/// The message of an allocator error: what gpu-allocator prints it as with
/// `{}`.
pub uninterp spec fn allocation_error_message(error: gpu_allocator::AllocationError) -> Seq<char>;

/// Calls the `Display` implementation of `gpu_allocator::AllocationError`,
/// which gives the error's message. The message is made of the variant and
/// of the text that the variant carries, so it depends on the error alone.
/// The contract gives it the name `allocation_error_message(*error)` and
/// says no more of it.
#[verifier::external_body]
fn display_allocation_error(error: &gpu_allocator::AllocationError) -> (text: String)
    ensures
        text@ == allocation_error_message(*error),
{
    format!("{}", error)
}

/// An allocator error as a developer sees it: what gpu-allocator prints it as
/// with `{:?}`.
pub uninterp spec fn allocation_error_debug(error: gpu_allocator::AllocationError) -> Seq<char>;

/// Calls the `Debug` implementation that `gpu_allocator::AllocationError`
/// derives, which prints the variant and the text that it carries, so the
/// text depends on the error alone. The contract gives it the name
/// `allocation_error_debug(*error)` and says no more of it.
#[verifier::external_body]
fn debug_allocation_error(error: &gpu_allocator::AllocationError) -> (text: String)
    ensures
        text@ == allocation_error_debug(*error),
{
    format!("{:?}", error)
}

/// The error for a format that a backend has no native format for: it names
/// the format.
pub open spec fn unsupported_texture_format(format: TextureFormat) -> GeyserErrorView {
    GeyserErrorView::UnsupportedTextureFormat(format.spec_name())
}

impl GeyserError {
    /// The message of the error.
    pub fn to_string(&self) -> (text: String)
        ensures
            text@ == self@.text(),
    {
        match self {
            GeyserError::VulkanInitializationError(m) => join("Failed to initialize Vulkan: ", m.as_str()),
            GeyserError::VulkanApiError(m) => join("Vulkan API error: ", m.as_str()),
            GeyserError::MetalInitializationError(m) => join("Failed to initialize Metal: ", m.as_str()),
            GeyserError::MetalApiError(m) => join("Metal API error: ", m.as_str()),
            GeyserError::UnsupportedTextureFormat(m) => join("Unsupported texture format: ", m.as_str()),
            GeyserError::UnsupportedFormat(m) => join("Unsupported format: ", m.as_str()),
            GeyserError::NotImplemented(m) => join("Not implemented: ", m.as_str()),
            GeyserError::InvalidTextureHandle => String::from_str(
                "Invalid handle provided for import/export",
            ),
            GeyserError::ResourceInUse => String::from_str("Resource already in use or cannot be shared"),
            GeyserError::OperationNotSupported => String::from_str(
                "Operation not supported on current platform or API",
            ),
            GeyserError::Other(m) => join("Other error: ", m.as_str()),
        }
    }

    /// A Vulkan API error whose message is `context` followed by the name of
    /// the result code `code`.
    pub fn vulkan_call_failed(context: &str, code: i32) -> (error: GeyserError)
        ensures
            error@ == GeyserErrorView::VulkanApiError(context@ + vk_result_name(code)),
    {
        let name = format_vk_result(code);
        GeyserError::VulkanApiError(join(context, name.as_str()))
    }

    /// The error for a Vulkan result code that no operation gave a context.
    pub fn from_vk_result(code: i32) -> (error: GeyserError)
        ensures
            error@ == GeyserErrorView::VulkanApiError("Vulkan Error: "@ + vk_result_name(code)),
    {
        GeyserError::vulkan_call_failed("Vulkan Error: ", code)
    }

    /// The error for an allocator failure that no operation gave a context:
    /// a Vulkan API error whose message is "GPU Allocator Error: " followed
    /// by the failure as the allocator prints it for a developer.
    pub fn from_allocation_error(failure: &gpu_allocator::AllocationError) -> (error: GeyserError)
        ensures
            error@ == GeyserErrorView::VulkanApiError(
                "GPU Allocator Error: "@ + allocation_error_debug(*failure),
            ),
    {
        let detail = debug_allocation_error(failure);
        GeyserError::VulkanApiError(join("GPU Allocator Error: ", detail.as_str()))
    }

    /// The error for an allocator that could not be created: a Vulkan
    /// initialization error whose message is "Failed to create GPU
    /// allocator: " followed by the allocator's message.
    pub fn allocator_unavailable(failure: &gpu_allocator::AllocationError) -> (error: GeyserError)
        ensures
            error@ == GeyserErrorView::VulkanInitializationError(
                "Failed to create GPU allocator: "@ + allocation_error_message(*failure),
            ),
    {
        let detail = display_allocation_error(failure);
        GeyserError::VulkanInitializationError(
            join("Failed to create GPU allocator: ", detail.as_str()),
        )
    }

    /// An error of the allocator met while `context` was under way: a Vulkan
    /// API error whose message is `context` followed by the allocator's
    /// message.
    pub fn allocation_failed(context: &str, failure: &gpu_allocator::AllocationError) -> (error: GeyserError)
        ensures
            error@ == GeyserErrorView::VulkanApiError(context@ + allocation_error_message(*failure)),
    {
        let detail = display_allocation_error(failure);
        GeyserError::VulkanApiError(join(context, detail.as_str()))
    }
}

} // verus!
