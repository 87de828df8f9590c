//! What a rendering engine built on wgpu needs from this library: the
//! translation between the abstract formats and usages and those of wgpu,
//! and the stand-in that the engine shows for an imported texture until the
//! texture itself is bound. The engine's own plugin lives outside this crate.

pub mod wgpu_bridge;

use vstd::prelude::*;
use crate::bevy_plugin::wgpu_bridge::{WgpuFormat, WgpuFormatView};
use crate::common::TextureFormat;

verus! {

/// One pixel of the stand-in image: opaque black, as red, green, blue, alpha.
pub const STAND_IN_PIXEL: [u8; 4] = [0, 0, 0, 255];

/// The format of the stand-in image for a texture of format `format`, and
/// whether it is the texture's own format. The stand-in is filled by the CPU
/// with 8-bit pixels, so its format is 8-bit RGBA whatever the texture has;
/// for every other format the engine is told that the stand-in differs.
pub fn stand_in_format(format: TextureFormat) -> (stand_in: (WgpuFormat, bool))
    ensures
        stand_in.0@ == WgpuFormatView::Rgba8Unorm,
        stand_in.1 == (format == TextureFormat::Rgba8Unorm),
{
    match format {
        TextureFormat::Rgba8Unorm => (WgpuFormat::Rgba8Unorm, true),
        _ => (WgpuFormat::Rgba8Unorm, false),
    }
}

} // verus!
