//! What the boot loader hands the kernel.
use vstd::prelude::*;

use crate::memory::UsableMemory;

verus! {

/// Byte order of a framebuffer pixel.
#[derive(Clone, Copy, Debug, PartialEq, Eq, Structural)]
pub enum PixelFormat {
    Rgb,
    Bgr,
}

/// The framebuffer the firmware set up: its address, size in pixels and
/// pixels per line.
#[derive(Clone, Copy, Debug)]
pub struct FrameBuffer {
    pub frame_buffer: usize,
    pub width: usize,
    pub height: usize,
    pub stride: usize,
    pub pixl_format: PixelFormat,
}

/// Everything the boot loader passes to the kernel.
pub struct BootInfo {
    pub usable_memory: UsableMemory,
    pub frame_buffer: Option<FrameBuffer>,
    pub rsdp: Option<u64>,
    pub bzimage_addr: u64,
    pub bzimage_size: u64,
    pub rootfs_addr: u64,
    pub rootfs_size: u64,
}

} // verus!
