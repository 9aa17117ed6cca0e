//! The pixel format that the device-context platform asks for.

use vstd::prelude::*;

verus! {

/// The buffer can draw to a window.
pub const PFD_DRAW_TO_WINDOW: u32 = 0x0000_0004;

/// The buffer can draw to a memory bitmap.
pub const PFD_DRAW_TO_BITMAP: u32 = 0x0000_0008;

/// The buffer supports OpenGL drawing.
pub const PFD_SUPPORT_OPENGL: u32 = 0x0000_0020;

/// The format is accelerated by a device driver.
pub const PFD_GENERIC_ACCELERATED: u32 = 0x0000_1000;

/// The buffer is double-buffered.
pub const PFD_DOUBLEBUFFER: u32 = 0x0000_0001;

/// Layer planes are swapped together with the main plane.
pub const PFD_SWAP_LAYER_BUFFERS: u32 = 0x0000_0800;

/// Pixels hold red, green, blue and alpha values.
pub const PFD_TYPE_RGBA: u8 = 0;

/// Version of the descriptor's layout.
pub const DESCRIPTOR_VERSION: u16 = 1;

/// What is asked of a pixel format. Every field that a native descriptor has
/// and this one lacks is zero.
#[derive(Clone, Copy, Debug, PartialEq, Eq, Structural)]
pub struct PixelFormatDescriptor {
    pub version: u16,
    pub flags: u32,
    pub pixel_type: u8,
    pub color_bits: u8,
    pub red_bits: u8,
    pub green_bits: u8,
    pub blue_bits: u8,
    pub alpha_bits: u8,
    pub depth_bits: u8,
    pub stencil_bits: u8,
}

/// The properties that the desktop request asks for, as one set of flags.
pub open spec fn requested_flags() -> u32 {
    PFD_DRAW_TO_WINDOW | PFD_DRAW_TO_BITMAP | PFD_SUPPORT_OPENGL | PFD_GENERIC_ACCELERATED
        | PFD_DOUBLEBUFFER | PFD_SWAP_LAYER_BUFFERS
}

/// The desktop request: a double-buffered, accelerated format with RGBA
/// colour of eight bits per channel, a depth buffer of 32 bits and a stencil
/// buffer of 8 bits.
pub open spec fn requested_format() -> PixelFormatDescriptor {
    PixelFormatDescriptor {
        version: DESCRIPTOR_VERSION,
        flags: requested_flags(),
        pixel_type: PFD_TYPE_RGBA,
        color_bits: 32,
        red_bits: 8,
        green_bits: 8,
        blue_bits: 8,
        alpha_bits: 8,
        depth_bits: 32,
        stencil_bits: 8,
    }
}

/// Whether a set of flags holds every bit of `flag`.
pub open spec fn has_flag(flags: u32, flag: u32) -> bool {
    flags & flag == flag
}

/// The requested flags are the six named properties and nothing else.
pub proof fn lemma_requested_flags()
    ensures
        requested_flags() == 0x0000_182D,
        has_flag(requested_flags(), PFD_DRAW_TO_WINDOW),
        has_flag(requested_flags(), PFD_DRAW_TO_BITMAP),
        has_flag(requested_flags(), PFD_SUPPORT_OPENGL),
        has_flag(requested_flags(), PFD_GENERIC_ACCELERATED),
        has_flag(requested_flags(), PFD_DOUBLEBUFFER),
        has_flag(requested_flags(), PFD_SWAP_LAYER_BUFFERS),
{
    assert(0x0000_0004u32 | 0x0000_0008u32 | 0x0000_0020u32 | 0x0000_1000u32 | 0x0000_0001u32
        | 0x0000_0800u32 == 0x0000_182Du32) by (bit_vector);
    assert(0x0000_182Du32 & 0x0000_0004u32 == 0x0000_0004u32) by (bit_vector);
    assert(0x0000_182Du32 & 0x0000_0008u32 == 0x0000_0008u32) by (bit_vector);
    assert(0x0000_182Du32 & 0x0000_0020u32 == 0x0000_0020u32) by (bit_vector);
    assert(0x0000_182Du32 & 0x0000_1000u32 == 0x0000_1000u32) by (bit_vector);
    assert(0x0000_182Du32 & 0x0000_0001u32 == 0x0000_0001u32) by (bit_vector);
    assert(0x0000_182Du32 & 0x0000_0800u32 == 0x0000_0800u32) by (bit_vector);
}

/// Builds the desktop request, which goes with every
/// [`crate::protocol::Request::ChoosePixelFormat`] and
/// [`crate::protocol::Request::SetPixelFormat`].
pub fn desktop_request() -> (descriptor: PixelFormatDescriptor)
    ensures
        descriptor == requested_format(),
        descriptor.flags == 0x0000_182D,
{
    proof {
        lemma_requested_flags();
    }
    let flags: u32 = PFD_DRAW_TO_WINDOW | PFD_DRAW_TO_BITMAP | PFD_SUPPORT_OPENGL
        | PFD_GENERIC_ACCELERATED | PFD_DOUBLEBUFFER | PFD_SWAP_LAYER_BUFFERS;
    PixelFormatDescriptor {
        version: DESCRIPTOR_VERSION,
        flags,
        pixel_type: PFD_TYPE_RGBA,
        color_bits: 32,
        red_bits: 8,
        green_bits: 8,
        blue_bits: 8,
        alpha_bits: 8,
        depth_bits: 32,
        stencil_bits: 8,
    }
}

} // verus!
