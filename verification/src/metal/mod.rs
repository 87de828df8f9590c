//! Metal backend for texture sharing.

pub mod tables;

use std::collections::HashMap;
use std::marker::PhantomData;
use vstd::prelude::*;
use crate::common::{ApiTextureHandle, TextureDescriptor, TextureDescriptorView, TextureFormat, TextureUsage};
use crate::error::{join, GeyserError, GeyserErrorView, Unwound};
use crate::metal::tables::{element_bytes, mtl_format, mtl_usage, MTL_STORAGE_MODE_SHARED};
use crate::{SharedTexture, TextureShareManager};

verus! {

/// What a Metal context needs to find a shared texture: the identifier of the
/// IOSurface behind it, which is the same in every process.
#[derive(Debug, Clone, Copy, PartialEq, Eq, Structural)]
pub struct MetalTextureShareHandle {
    pub io_surface_id: u32,
}

/// What a Metal context needs to find a shared event.
#[derive(Debug, Clone, Copy, PartialEq, Eq, Structural)]
pub struct MetalEventHandle {
    pub shared_event_id: u64,
}

/// The properties that a new IOSurface is created with.
#[derive(Debug, Clone, Copy, PartialEq, Eq, Structural)]
pub struct SurfaceRequest {
    pub width: usize,
    pub height: usize,
    pub bytes_per_element: usize,
}

/// The descriptor that a texture over a surface is created with, in Metal's
/// own numbers.
#[derive(Debug, Clone, Copy, PartialEq, Eq, Structural)]
pub struct TextureRequest {
    pub pixel_format: u64,
    pub width: u64,
    pub height: u64,
    pub usage: u64,
    pub storage_mode: u64,
}

/// The surface that a descriptor asks for.
pub open spec fn surface_request(descriptor: TextureDescriptorView) -> SurfaceRequest {
    SurfaceRequest {
        width: descriptor.width as usize,
        height: descriptor.height as usize,
        bytes_per_element: element_bytes(descriptor.format),
    }
}

/// The texture that a descriptor asks for: of the descriptor's size, with
/// the Metal codes of its format and usages, in shared storage.
pub open spec fn texture_request(descriptor: TextureDescriptorView) -> TextureRequest {
    TextureRequest {
        pixel_format: mtl_format(descriptor.format),
        width: descriptor.width as u64,
        height: descriptor.height as u64,
        usage: mtl_usage(descriptor.usage) as u64,
        storage_mode: MTL_STORAGE_MODE_SHARED,
    }
}

/// Where the surface of a texture under construction comes from.
#[derive(Debug, Clone, Copy, PartialEq, Eq, Structural)]
pub enum SurfaceSource {
    /// A new surface, created with these properties.
    Create(SurfaceRequest),
    /// The surface that the system knows under the identifier of a handle.
    Lookup(MetalTextureShareHandle),
}

/// First step of a texture: its surface is to be created or looked up.
#[derive(Debug)]
pub struct PendingSurface {
    pub source: SurfaceSource,
    pub texture: TextureRequest,
    pub descriptor: TextureDescriptor,
}

/// Second step of a texture: the surface is there, the texture over it is to
/// be created as `request` says.
#[derive(Debug)]
pub struct PendingTexture<S> {
    pub request: TextureRequest,
    pub surface: S,
    pub descriptor: TextureDescriptor,
    pub imported: Option<MetalTextureShareHandle>,
}

/// A texture of a Metal context that can be shared, or that was imported.
/// `T` is the native texture, `S` the native surface behind it.
#[derive(Debug)]
pub struct MetalSharedTexture<T, S> {
    pub texture: T,
    /// The surface behind the texture.
    pub io_surface: Option<S>,
    pub descriptor: TextureDescriptor,
    /// The handle that the texture was imported under.
    pub exported_handle: Option<MetalTextureShareHandle>,
}

/// The request to set the counter of a shared event.
#[derive(Debug)]
pub struct EventSignal<E> {
    pub event: E,
    pub value: u64,
}

/// An export under way: `surface` is to be asked for its identifier.
#[derive(Debug)]
pub struct PendingSurfaceExport<S> {
    pub surface: S,
}

/// The sharing state of one Metal context: the registries of the surfaces and
/// events that stand behind handles. `T` is the native texture, `S` the
/// native surface, `E` the native shared event. A copy of a surface is one
/// more reference to the same native surface.
pub struct MetalTextureShareManager<T, S, E> {
    exported_surfaces: HashMap<u32, S>,
    exported_events: HashMap<u64, E>,
    textures: PhantomData<T>,
}

impl PendingSurface {
    /// Takes the outcome of creating or looking up the surface. With a
    /// surface the next step is the texture over it. Without, a surface that
    /// could not be created is an initialization error, and one that the
    /// system does not know is an API error.
    pub fn surface_ready<S>(self, reply: Option<S>) -> (next: Result<PendingTexture<S>, GeyserError>)
        ensures
            match reply {
                Some(surface) => next matches Ok(pending) && pending.request == self.texture
                    && pending.surface == surface && pending.descriptor@ == self.descriptor@
                    && pending.imported == (match self.source {
                    SurfaceSource::Create(_) => None,
                    SurfaceSource::Lookup(handle) => Some(handle),
                }),
                None => next matches Err(error) && error@ == (match self.source {
                    SurfaceSource::Create(_) => GeyserErrorView::MetalInitializationError(
                        "Failed to create IOSurface"@,
                    ),
                    SurfaceSource::Lookup(_) => GeyserErrorView::MetalApiError(
                        "Failed to lookup IOSurface by ID"@,
                    ),
                }),
            },
    {
        match reply {
            Some(surface) => Ok(
                PendingTexture {
                    request: self.texture,
                    surface,
                    descriptor: self.descriptor,
                    imported: match self.source {
                        SurfaceSource::Create(_) => None,
                        SurfaceSource::Lookup(handle) => Some(handle),
                    },
                },
            ),
            None => match self.source {
                SurfaceSource::Create(_) => Err(
                    GeyserError::MetalInitializationError(String::from_str("Failed to create IOSurface")),
                ),
                SurfaceSource::Lookup(_) => Err(
                    GeyserError::MetalApiError(String::from_str("Failed to lookup IOSurface by ID")),
                ),
            },
        }
    }
}

impl<S: Clone> PendingTexture<S> {
    /// Takes the outcome of creating the texture over the surface.
    ///
    /// With a texture the operation is done: the texture has the descriptor
    /// it was asked with and holds its surface. A new texture leaves the
    /// registry as it was. An imported one carries the handle it came from,
    /// and a reference to its surface enters the registry under the handle's
    /// identifier, where it stays until the handle is released.
    ///
    /// Without a texture the operation fails, the surface is left to let go
    /// of, and the registry stays as it was.
    pub fn texture_created<T, E>(
        self,
        manager: &mut MetalTextureShareManager<T, S, E>,
        reply: Option<T>,
    ) -> (texture: Result<MetalSharedTexture<T, S>, Unwound<S>>)
        ensures
            final(manager).events() == old(manager).events(),
            match reply {
                Some(native) => texture matches Ok(t) && t.texture == native && t.io_surface == Some(
                    self.surface,
                ) && t.descriptor@ == self.descriptor@ && t.exported_handle == self.imported && (
                match self.imported {
                    None => final(manager).surfaces() == old(manager).surfaces(),
                    Some(handle) => exists|reference: S|
                        cloned(self.surface, reference) && final(manager).surfaces() == old(
                            manager,
                        ).surfaces().insert(handle.io_surface_id, reference),
                }),
                None => texture matches Err(failed) && failed.leftover == self.surface
                    && final(manager).surfaces() == old(manager).surfaces() && failed.error@ == (
                match self.imported {
                    None => GeyserErrorView::MetalApiError("Failed to create MTLTexture from IOSurface"@),
                    Some(_) => GeyserErrorView::MetalApiError(
                        "Failed to create MTLTexture from imported IOSurface"@,
                    ),
                }),
            },
    {
        match reply {
            Some(native) => {
                match self.imported {
                    Some(handle) => {
                        let reference = self.surface.clone();
                        let ghost kept = reference;
                        manager.exported_surfaces.insert(handle.io_surface_id, reference);
                        proof {
                            assert(cloned(self.surface, kept));
                            assert(manager.surfaces() == old(manager).surfaces().insert(
                                handle.io_surface_id,
                                kept,
                            ));
                        }
                    },
                    None => {},
                }
                Ok(
                    MetalSharedTexture {
                        texture: native,
                        io_surface: Some(self.surface),
                        descriptor: self.descriptor,
                        exported_handle: self.imported,
                    },
                )
            },
            None => {
                let error = match self.imported {
                    None => GeyserError::MetalApiError(
                        String::from_str("Failed to create MTLTexture from IOSurface"),
                    ),
                    Some(_) => GeyserError::MetalApiError(
                        String::from_str("Failed to create MTLTexture from imported IOSurface"),
                    ),
                };
                Err(Unwound { error, leftover: self.surface })
            },
        }
    }
}

/// The decimal digit `digit`, as text.
pub open spec fn digit_text(digit: nat) -> Seq<char> {
    if digit == 0 {
        "0"@
    } else if digit == 1 {
        "1"@
    } else if digit == 2 {
        "2"@
    } else if digit == 3 {
        "3"@
    } else if digit == 4 {
        "4"@
    } else if digit == 5 {
        "5"@
    } else if digit == 6 {
        "6"@
    } else if digit == 7 {
        "7"@
    } else if digit == 8 {
        "8"@
    } else {
        "9"@
    }
}

/// The number `n` written in decimal, without leading zeros.
pub open spec fn decimal_text(n: nat) -> Seq<char>
    decreases n,
{
    if n < 10 {
        digit_text(n)
    } else {
        decimal_text(n / 10) + digit_text(n % 10)
    }
}

/// The decimal digit `digit`, as text.
fn digit(d: u64) -> (text: &'static str)
    requires
        d < 10,
    ensures
        text@ == digit_text(d as nat),
{
    if d == 0 {
        "0"
    } else if d == 1 {
        "1"
    } else if d == 2 {
        "2"
    } else if d == 3 {
        "3"
    } else if d == 4 {
        "4"
    } else if d == 5 {
        "5"
    } else if d == 6 {
        "6"
    } else if d == 7 {
        "7"
    } else if d == 8 {
        "8"
    } else {
        "9"
    }
}

/// The number `n` written in decimal, without leading zeros.
pub fn decimal(n: u64) -> (text: String)
    ensures
        text@ == decimal_text(n as nat),
    decreases n,
{
    if n < 10 {
        String::from_str(digit(n))
    } else {
        decimal(n / 10).concat(digit(n % 10))
    }
}

/// The error for an event that is waited for before it was signaled.
pub open spec fn event_not_signaled() -> GeyserErrorView {
    GeyserErrorView::Other("Event not signaled to requested value yet"@)
}

/// The texture behind the handle cannot be exported: its surface is not its
/// own.
pub open spec fn surface_not_owned() -> GeyserErrorView {
    GeyserErrorView::MetalApiError("Cannot export a Metal texture not backed by an owned IOSurface"@)
}

impl<T, S> MetalSharedTexture<T, S> {
    /// Whether the texture is one that this context made over a surface of
    /// its own, and not one that it imported.
    pub open spec fn owns_surface(self) -> bool {
        self.io_surface is Some && self.exported_handle is None
    }
}

impl<T, S> SharedTexture for MetalSharedTexture<T, S> {
    open spec fn descriptor(&self) -> TextureDescriptorView {
        self.descriptor@
    }

    fn width(&self) -> u32 {
        self.descriptor.width
    }

    fn height(&self) -> u32 {
        self.descriptor.height
    }

    fn format(&self) -> TextureFormat {
        self.descriptor.format
    }

    fn usage(&self) -> &[TextureUsage] {
        self.descriptor.usage.as_slice()
    }
}

impl<T, S, E> MetalTextureShareManager<T, S, E> {
    /// The registry of surfaces: what is kept alive under each surface
    /// identifier.
    pub closed spec fn surfaces(&self) -> Map<u32, S> {
        self.exported_surfaces@
    }

    /// The registry of shared events.
    pub closed spec fn events(&self) -> Map<u64, E> {
        self.exported_events@
    }

    /// A manager with nothing in its registries.
    pub fn new() -> (manager: Result<MetalTextureShareManager<T, S, E>, GeyserError>)
        ensures
            manager matches Ok(m) && m.surfaces() == Map::<u32, S>::empty() && m.events() == Map::<
                u64,
                E,
            >::empty(),
    {
        Ok(
            MetalTextureShareManager {
                exported_surfaces: HashMap::new(),
                exported_events: HashMap::new(),
                textures: PhantomData,
            },
        )
    }

    /// The `MTLPixelFormat` code of an abstract format. Every abstract format
    /// has one, and no two have the same.
    pub fn map_texture_format_to_mtl(&self, format: TextureFormat) -> (code: Result<u64, GeyserError>)
        ensures
            code == Ok::<u64, GeyserError>(mtl_format(format)),
    {
        Ok(
            match format {
                TextureFormat::Rgba8Unorm => tables::MTL_PIXEL_FORMAT_RGBA8_UNORM,
                TextureFormat::Bgra8Unorm => tables::MTL_PIXEL_FORMAT_BGRA8_UNORM,
                TextureFormat::Rgba8Srgb => tables::MTL_PIXEL_FORMAT_RGBA8_UNORM_SRGB,
                TextureFormat::Bgra8Srgb => tables::MTL_PIXEL_FORMAT_BGRA8_UNORM_SRGB,
                TextureFormat::R8Unorm => tables::MTL_PIXEL_FORMAT_R8_UNORM,
                TextureFormat::Rg8Unorm => tables::MTL_PIXEL_FORMAT_RG8_UNORM,
                TextureFormat::R16Float => tables::MTL_PIXEL_FORMAT_R16_FLOAT,
                TextureFormat::Rg16Float => tables::MTL_PIXEL_FORMAT_RG16_FLOAT,
                TextureFormat::Rgba16Float => tables::MTL_PIXEL_FORMAT_RGBA16_FLOAT,
                TextureFormat::R16Uint => tables::MTL_PIXEL_FORMAT_R16_UINT,
                TextureFormat::R16Sint => tables::MTL_PIXEL_FORMAT_R16_SINT,
                TextureFormat::R32Float => tables::MTL_PIXEL_FORMAT_R32_FLOAT,
                TextureFormat::Rg32Float => tables::MTL_PIXEL_FORMAT_RG32_FLOAT,
                TextureFormat::Rgba32Float => tables::MTL_PIXEL_FORMAT_RGBA32_FLOAT,
                TextureFormat::R32Uint => tables::MTL_PIXEL_FORMAT_R32_UINT,
                TextureFormat::R32Sint => tables::MTL_PIXEL_FORMAT_R32_SINT,
                TextureFormat::Depth32Float => tables::MTL_PIXEL_FORMAT_DEPTH32_FLOAT,
                TextureFormat::Depth24Plus => tables::MTL_PIXEL_FORMAT_DEPTH24_UNORM_STENCIL8,
                TextureFormat::Depth24PlusStencil8 => tables::MTL_PIXEL_FORMAT_DEPTH32_FLOAT_STENCIL8,
                TextureFormat::Rgb10a2Unorm => tables::MTL_PIXEL_FORMAT_RGB10A2_UNORM,
                TextureFormat::Rg11b10Float => tables::MTL_PIXEL_FORMAT_RG11B10_FLOAT,
            },
        )
    }

    /// The number of bytes that one element of a surface of the format takes.
    pub fn bytes_per_element(&self, format: TextureFormat) -> (bytes: usize)
        ensures
            bytes == element_bytes(format),
    {
        match format {
            TextureFormat::R8Unorm => 1,
            TextureFormat::Rg8Unorm => 2,
            TextureFormat::Rgba8Unorm | TextureFormat::Bgra8Unorm | TextureFormat::Rgba8Srgb
            | TextureFormat::Bgra8Srgb => 4,
            TextureFormat::R16Float | TextureFormat::R16Uint | TextureFormat::R16Sint => 2,
            TextureFormat::Rg16Float => 4,
            TextureFormat::Rgba16Float => 8,
            TextureFormat::R32Float | TextureFormat::R32Uint | TextureFormat::R32Sint => 4,
            TextureFormat::Rg32Float => 8,
            TextureFormat::Rgba32Float => 16,
            TextureFormat::Depth32Float => 4,
            TextureFormat::Depth24Plus => 4,
            TextureFormat::Depth24PlusStencil8 => 8,
            TextureFormat::Rgb10a2Unorm => 4,
            TextureFormat::Rg11b10Float => 4,
        }
    }

    /// The `MTLTextureUsage` of a list of usages: the union of the bits of
    /// each.
    pub fn map_texture_usage_to_mtl(&self, usages: &[TextureUsage]) -> (bits: u32)
        ensures
            bits == mtl_usage(usages@),
    {
        let mut mtl_usage: u32 = 0;
        let mut i: usize = 0;
        while i < usages.len()
            invariant
                i <= usages.len(),
                mtl_usage == crate::metal::tables::mtl_usage(usages@.subrange(0, i as int)),
            decreases usages.len() - i,
        {
            proof {
                let next = usages@.subrange(0, i + 1);
                assert(next.drop_last() =~= usages@.subrange(0, i as int));
                assert(next.last() == usages@[i as int]);
            }
            match usages[i] {
                TextureUsage::CopySrc => mtl_usage = mtl_usage | tables::MTL_TEXTURE_USAGE_SHADER_READ,
                TextureUsage::CopyDst => mtl_usage = mtl_usage | tables::MTL_TEXTURE_USAGE_SHADER_WRITE,
                TextureUsage::TextureBinding => mtl_usage = mtl_usage
                    | tables::MTL_TEXTURE_USAGE_SHADER_READ,
                TextureUsage::RenderAttachment => mtl_usage = mtl_usage
                    | tables::MTL_TEXTURE_USAGE_RENDER_TARGET,
                TextureUsage::StorageBinding => mtl_usage = mtl_usage
                    | tables::MTL_TEXTURE_USAGE_SHADER_WRITE,
            }
            i = i + 1;
        }
        assert(usages@.subrange(0, i as int) =~= usages@);
        mtl_usage
    }

    /// The texture that `descriptor` asks for.
    fn plan_texture(&self, descriptor: &TextureDescriptor) -> (request: Result<TextureRequest, GeyserError>)
        ensures
            request == Ok::<TextureRequest, GeyserError>(texture_request(descriptor@)),
    {
        let pixel_format = match self.map_texture_format_to_mtl(descriptor.format) {
            Ok(pixel_format) => pixel_format,
            Err(error) => {
                return Err(error);
            },
        };
        let usage = self.map_texture_usage_to_mtl(descriptor.usage.as_slice());
        Ok(
            TextureRequest {
                pixel_format,
                width: descriptor.width as u64,
                height: descriptor.height as u64,
                usage: usage as u64,
                storage_mode: MTL_STORAGE_MODE_SHARED,
            },
        )
    }

    /// Takes the identifier that the system gave the surface of an export,
    /// and completes the export: the reference to the surface enters the
    /// registry under the identifier, and the handle carries the identifier.
    pub fn complete_export_texture(
        &mut self,
        pending: PendingSurfaceExport<S>,
        io_surface_id: u32,
    ) -> (handle: ApiTextureHandle)
        ensures
            handle == ApiTextureHandle::Metal(MetalTextureShareHandle { io_surface_id }),
            final(self).surfaces() == old(self).surfaces().insert(io_surface_id, pending.surface),
            final(self).events() == old(self).events(),
    {
        self.exported_surfaces.insert(io_surface_id, pending.surface);
        ApiTextureHandle::Metal(MetalTextureShareHandle { io_surface_id })
    }

    /// Takes the outcome of creating a shared event: the event, or an API
    /// error where the device made none.
    pub fn create_shared_event(&self, reply: Option<E>) -> (event: Result<E, GeyserError>)
        ensures
            match reply {
                Some(e) => event matches Ok(made) && made == e,
                None => event matches Err(error) && error@ == GeyserErrorView::MetalApiError(
                    "Failed to create shared event"@,
                ),
            },
    {
        match reply {
            Some(e) => Ok(e),
            None => Err(GeyserError::MetalApiError(String::from_str("Failed to create shared event"))),
        }
    }

    /// Exports a shared event: `event`, a reference to it, enters the
    /// registry under the identifier `shared_event_id` that the system gave
    /// the event, and the handle carries the identifier. It never fails.
    pub fn export_shared_event(&mut self, event: E, shared_event_id: u64) -> (handle: Result<
        MetalEventHandle,
        GeyserError,
    >)
        ensures
            handle == Ok::<MetalEventHandle, GeyserError>(MetalEventHandle { shared_event_id }),
            final(self).events() == old(self).events().insert(shared_event_id, event),
            final(self).surfaces() == old(self).surfaces(),
    {
        self.exported_events.insert(shared_event_id, event);
        Ok(MetalEventHandle { shared_event_id })
    }

    /// Takes the outcome of making a shared event from the identifier of
    /// `handle`: the event, or an API error that names the identifier.
    pub fn import_shared_event(
        &self,
        handle: &MetalEventHandle,
        reply: Option<E>,
    ) -> (event: Result<E, GeyserError>)
        ensures
            match reply {
                Some(e) => event matches Ok(made) && made == e,
                None => event matches Err(error) && error@ == GeyserErrorView::MetalApiError(
                    "Failed to import shared event with handle "@ + decimal_text(
                        handle.shared_event_id as nat,
                    ),
                ),
            },
    {
        match reply {
            Some(e) => Ok(e),
            None => {
                let id = decimal(handle.shared_event_id);
                Err(
                    GeyserError::MetalApiError(
                        join("Failed to import shared event with handle ", id.as_str()),
                    ),
                )
            },
        }
    }

    /// The request that sets the counter of `event` to `value`.
    pub fn signal_event(&self, event: E, value: u64) -> (request: EventSignal<E>)
        ensures
            request.event == event,
            request.value == value,
    {
        EventSignal { event, value }
    }

    /// Whether an event whose counter stands at `signaled_value` has reached
    /// `value`. It does not block: an event that is not there yet is an
    /// error.
    pub fn wait_for_event(&self, signaled_value: u64, value: u64) -> (reached: Result<(), GeyserError>)
        ensures
            signaled_value >= value ==> reached is Ok,
            signaled_value < value ==> (reached matches Err(error) && error@ == event_not_signaled()),
    {
        if signaled_value >= value {
            Ok(())
        } else {
            Err(GeyserError::Other(String::from_str("Event not signaled to requested value yet")))
        }
    }

    /// Releases the event that the registry holds under the identifier of
    /// `handle`, and hands it back for the backend to let go of. Where the
    /// registry holds none, nothing is handed back and nothing changes. It
    /// never fails.
    pub fn release_shared_event(
        &mut self,
        handle: &MetalEventHandle,
    ) -> (released: Result<Option<E>, GeyserError>)
        ensures
            final(self).surfaces() == old(self).surfaces(),
            final(self).events() == old(self).events().remove(handle.shared_event_id),
            released == Ok::<Option<E>, GeyserError>(
                if old(self).events().contains_key(handle.shared_event_id) {
                    Some(old(self).events()[handle.shared_event_id])
                } else {
                    None
                },
            ),
    {
        Ok(self.exported_events.remove(&handle.shared_event_id))
    }
}

impl<T, S: Clone, E> TextureShareManager for MetalTextureShareManager<T, S, E> {
    type Texture = MetalSharedTexture<T, S>;

    type PendingTexture = PendingSurface;

    type PendingExport = PendingSurfaceExport<S>;

    type Released = Option<S>;

    open spec fn accepts(handle: ApiTextureHandle) -> bool {
        handle is Metal
    }

    open spec fn key(handle: ApiTextureHandle) -> u64 {
        match handle {
            ApiTextureHandle::Vulkan(h) => h.raw_handle,
            ApiTextureHandle::Metal(h) => h.io_surface_id as u64,
        }
    }

    open spec fn registered(&self) -> Set<u64> {
        Set::new(|key: u64| key <= u32::MAX && self.surfaces().contains_key(key as u32))
    }

    open spec fn owns_memory(texture: &MetalSharedTexture<T, S>) -> bool {
        texture.owns_surface()
    }

    open spec fn supports(format: TextureFormat) -> bool {
        true
    }

    open spec fn can_export(&self, texture: &MetalSharedTexture<T, S>) -> bool {
        texture.owns_surface()
    }

    open spec fn can_import(&self, handle: ApiTextureHandle, format: TextureFormat) -> bool {
        handle is Metal
    }

    /// Begins a new texture. It always can be begun: the surface to create
    /// has the descriptor's size and the element size of its format, and the
    /// texture over it is the one that the descriptor asks for.
    fn create_shareable_texture(&self, descriptor: &TextureDescriptor) -> (pending: Result<
        PendingSurface,
        GeyserError,
    >)
        ensures
            pending matches Ok(p) && p.source == SurfaceSource::Create(surface_request(descriptor@))
                && p.texture == texture_request(descriptor@) && p.descriptor@ == descriptor@,
    {
        let texture = match self.plan_texture(descriptor) {
            Ok(texture) => texture,
            Err(error) => {
                return Err(error);
            },
        };
        let surface = SurfaceRequest {
            width: descriptor.width as usize,
            height: descriptor.height as usize,
            bytes_per_element: self.bytes_per_element(descriptor.format),
        };
        Ok(PendingSurface { source: SurfaceSource::Create(surface), texture, descriptor: descriptor.clone() })
    }

    /// Begins the export of a texture's surface. Only a texture that this
    /// context made over a surface of its own can be exported: an imported
    /// texture is refused, so a surface is never exported again by a context
    /// that does not own it. What is handed out is one more reference to the
    /// surface, for the registry to keep.
    fn export_texture(&self, texture: &MetalSharedTexture<T, S>) -> (pending: Result<
        PendingSurfaceExport<S>,
        GeyserError,
    >)
        ensures
            if texture.owns_surface() {
                pending matches Ok(p) && cloned(texture.io_surface->0, p.surface)
            } else {
                pending matches Err(error) && error@ == surface_not_owned()
            },
    {
        match (&texture.io_surface, &texture.exported_handle) {
            (Some(surface), None) => Ok(PendingSurfaceExport { surface: surface.clone() }),
            _ => Err(
                GeyserError::MetalApiError(
                    String::from_str("Cannot export a Metal texture not backed by an owned IOSurface"),
                ),
            ),
        }
    }

    /// Begins the import of the texture behind `handle`. The handle must be
    /// a Metal handle. The surface is then the one that the system knows
    /// under the handle's identifier, and the texture over it is the one
    /// that the descriptor asks for.
    fn import_texture(&self, handle: ApiTextureHandle, descriptor: &TextureDescriptor) -> (pending: Result<
        PendingSurface,
        GeyserError,
    >)
        ensures
            match handle {
                ApiTextureHandle::Metal(h) => pending matches Ok(p) && p.source == SurfaceSource::Lookup(h)
                    && p.texture == texture_request(descriptor@) && p.descriptor@ == descriptor@,
                ApiTextureHandle::Vulkan(_) => pending matches Err(error) && error@
                    == GeyserErrorView::InvalidTextureHandle,
            },
    {
        let metal_handle = match handle {
            ApiTextureHandle::Metal(h) => h,
            ApiTextureHandle::Vulkan(_) => {
                return Err(GeyserError::InvalidTextureHandle);
            },
        };
        let texture = match self.plan_texture(descriptor) {
            Ok(texture) => texture,
            Err(error) => {
                return Err(error);
            },
        };
        Ok(
            PendingSurface {
                source: SurfaceSource::Lookup(metal_handle),
                texture,
                descriptor: descriptor.clone(),
            },
        )
    }

    /// Releases the surface that the registry holds under the identifier of
    /// `handle`, and hands it back for the backend to let go of. Where the
    /// registry holds none, nothing is handed back and nothing changes.
    fn release_texture_handle(
        &mut self,
        handle: ApiTextureHandle,
    ) -> (released: Result<Option<S>, GeyserError>)
        ensures
            final(self).events() == old(self).events(),
            match handle {
                ApiTextureHandle::Metal(h) => final(self).surfaces() == old(self).surfaces().remove(
                    h.io_surface_id,
                ) && released == Ok::<Option<S>, GeyserError>(
                    if old(self).surfaces().contains_key(h.io_surface_id) {
                        Some(old(self).surfaces()[h.io_surface_id])
                    } else {
                        None
                    },
                ),
                ApiTextureHandle::Vulkan(_) => final(self).surfaces() == old(self).surfaces(),
            },
    {
        let io_surface_id = match handle {
            ApiTextureHandle::Metal(h) => h.io_surface_id,
            ApiTextureHandle::Vulkan(_) => {
                return Err(GeyserError::InvalidTextureHandle);
            },
        };
        let released = self.exported_surfaces.remove(&io_surface_id);
        proof {
            assert(final(self).registered() =~= old(self).registered().remove(io_surface_id as u64));
        }
        Ok(released)
    }
}

} // verus!
