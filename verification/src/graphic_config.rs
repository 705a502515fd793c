//! The frame-buffer description handed from the boot loader to the kernel:
//! pixel layout and screen geometry.

use vstd::prelude::*;

verus! {

#[derive(Copy, Clone, PartialEq, Eq, Hash, Debug, Structural)]
pub enum PixelFormat {
    Rgb,
    Bgr,
}

impl PixelFormat {
    pub fn bytes_per_pixel(&self) -> (n: usize)
        ensures
            n == 4,
    {
        4
    }

    /// Byte offset of the red channel within a pixel.
    pub fn r_offset(&self) -> (n: u8)
        ensures
            n == (match *self {
                PixelFormat::Rgb => 0u8,
                PixelFormat::Bgr => 2u8,
            }),
    {
        match self {
            PixelFormat::Rgb => 0,
            PixelFormat::Bgr => 2,
        }
    }

    /// Byte offset of the green channel within a pixel.
    pub fn g_offset(&self) -> (n: u8)
        ensures
            n == 1,
    {
        match self {
            PixelFormat::Rgb => 1,
            PixelFormat::Bgr => 1,
        }
    }

    /// Byte offset of the blue channel within a pixel.
    pub fn b_offset(&self) -> (n: u8)
        ensures
            n == (match *self {
                PixelFormat::Rgb => 2u8,
                PixelFormat::Bgr => 0u8,
            }),
    {
        match self {
            PixelFormat::Rgb => 2,
            PixelFormat::Bgr => 0,
        }
    }
}

/// Where and how the frame buffer is laid out; the buffer's base address is
/// carried as a plain integer, and only the platform layer turns it into a
/// pointer.
pub struct GraphicConfig {
    pub frame_buffer_base: u64,
    pub frame_buffer_size: usize,
    pub pixel_format: PixelFormat,
    pub horisontal_resolution: usize,
    pub vertical_resolution: usize,
    pub stride: usize,
}

} // verus!
