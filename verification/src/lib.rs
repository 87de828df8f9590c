//! Geyser: the verified core of a GPU texture-sharing library.
//!
//! Two GPU contexts share one texture by exporting the memory behind it as a
//! platform handle and importing that handle on the other side. This crate
//! holds every decision of that exchange: the translation tables between the
//! abstract formats and each backend's native codes, the parameters of every
//! native object, the registries that keep exported and imported memory alive,
//! and the mapping of native failures to errors. The calls into the driver
//! themselves are left to the embedding backend, which hands their results
//! back to the functions here.

pub mod bevy_plugin;
pub mod common;
pub mod error;
pub mod metal;
pub mod vulkan;

pub use common::{ApiTextureHandle, TextureDescriptor, TextureFormat, TextureUsage};
pub use error::{GeyserError, Result};
pub use vulkan::VulkanTextureShareManager;

use vstd::prelude::*;
use crate::common::TextureDescriptorView;

verus! {

/// A texture that can be shared or that was imported: a wrapper of one
/// backend around its native texture.
pub trait SharedTexture {
    /// The descriptor that the texture was made with.
    spec fn descriptor(&self) -> TextureDescriptorView;

    /// The width of the texture.
    fn width(&self) -> (width: u32)
        ensures
            width == self.descriptor().width,
    ;

    /// The height of the texture.
    fn height(&self) -> (height: u32)
        ensures
            height == self.descriptor().height,
    ;

    /// The format of the texture.
    fn format(&self) -> (format: TextureFormat)
        ensures
            format == self.descriptor().format,
    ;

    /// The usages of the texture.
    fn usage(&self) -> (usage: &[TextureUsage])
        ensures
            usage@ == self.descriptor().usage,
    ;
}

/// The texture operations of a sharing context, the same for every backend.
///
/// An operation that needs the driver comes in two parts. The method here
/// checks the request and hands out what the backend must ask of the driver;
/// the value it hands out then takes the driver's answer and completes the
/// operation. Synchronization primitives are not part of this trait: their
/// handles differ too much between platforms, so each backend offers them on
/// its own type.
pub trait TextureShareManager {
    /// The textures of the backend.
    type Texture: SharedTexture;

    /// A texture whose native objects are still to be made.
    type PendingTexture;

    /// An export whose platform handle is still to be fetched.
    type PendingExport;

    /// What a release hands back for the backend to free.
    type Released;

    /// Whether the handle is one of this backend.
    spec fn accepts(handle: ApiTextureHandle) -> bool;

    /// The value that identifies what stands behind the handle.
    spec fn key(handle: ApiTextureHandle) -> u64;

    /// The identifying values of the handles that the registry holds
    /// something for.
    spec fn registered(&self) -> Set<u64>;

    /// Whether the memory of the texture is the texture's own to export.
    spec fn owns_memory(texture: &Self::Texture) -> bool;

    /// Whether the backend has a native format for the abstract format.
    spec fn supports(format: TextureFormat) -> bool;

    /// Whether the export of the texture can begin in this context: whether
    /// its memory is its own and the context can hand it out.
    spec fn can_export(&self, texture: &Self::Texture) -> bool;

    /// Whether the import of the texture behind the handle, as a texture of
    /// the format, can begin in this context.
    spec fn can_import(&self, handle: ApiTextureHandle, format: TextureFormat) -> bool;

    /// Begins a new texture that can be exported. It can be begun exactly if
    /// the backend has a native format for the descriptor's format; a format
    /// without one is refused as unsupported, before anything is asked of the
    /// driver. The registry is not touched: a texture is not tracked before
    /// it is exported.
    fn create_shareable_texture(
        &self,
        descriptor: &TextureDescriptor,
    ) -> (pending: Result<Self::PendingTexture>)
        ensures
            pending is Ok <==> Self::supports(descriptor@.format),
            !Self::supports(descriptor@.format) ==> (pending matches Err(error) && error@
                == crate::error::unsupported_texture_format(descriptor@.format)),
    ;

    /// Begins the export of a texture. It begins exactly where it can. A
    /// texture without memory of its own, such as an imported one, is always
    /// refused.
    fn export_texture(&self, texture: &Self::Texture) -> (pending: Result<Self::PendingExport>)
        ensures
            pending is Ok <==> self.can_export(texture),
            !Self::owns_memory(texture) ==> pending is Err,
    ;

    /// Begins the import of the texture behind `handle`. It begins exactly
    /// where it can. A handle of another backend is always refused as
    /// invalid, and a descriptor whose format the backend has no native
    /// format for as unsupported.
    fn import_texture(
        &self,
        handle: ApiTextureHandle,
        descriptor: &TextureDescriptor,
    ) -> (pending: Result<Self::PendingTexture>)
        ensures
            pending is Ok <==> self.can_import(handle, descriptor@.format),
            !Self::accepts(handle) ==> (pending matches Err(error) && error@
                == crate::error::GeyserErrorView::InvalidTextureHandle),
            Self::accepts(handle) && !Self::supports(descriptor@.format) ==> (pending
                matches Err(error) && error@ == crate::error::unsupported_texture_format(
                descriptor@.format,
            )),
    ;

    /// Releases what the registry holds for `handle`. A handle that nothing is
    /// held for is no error: releasing twice is the same as releasing once.
    /// Only a handle of another backend is refused, and then nothing changes.
    fn release_texture_handle(&mut self, handle: ApiTextureHandle) -> (released: Result<Self::Released>)
        ensures
            Self::accepts(handle) ==> released is Ok && final(self).registered() == old(
                self,
            ).registered().remove(Self::key(handle)),
            !Self::accepts(handle) ==> final(self).registered() == old(self).registered() && (released
                matches Err(error) && error@ == crate::error::GeyserErrorView::InvalidTextureHandle),
    ;
}

} // verus!
