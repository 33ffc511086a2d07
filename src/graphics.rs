//! The text console drawn on the framebuffer: geometry and the lines it
//! shows. Drawing the glyphs is left to the caller.
use vstd::prelude::*;

use crate::boot::{FrameBuffer as RawFrameBuffer, PixelFormat};

verus! {

/// Width of a glyph cell in pixels.
pub const GLYPH_WIDTH: usize = 8;
/// Height of a glyph cell in pixels.
pub const GLYPH_HEIGHT: usize = 14;

/// The console on a framebuffer.
pub struct FrameBuffer {
    pub frame_buffer: usize,
    pub width: usize,
    pub height: usize,
    pub stride: usize,
    pub pixel_format: PixelFormat,
    pub background_color: (u8, u8, u8),
    pub text_cursor: (usize, usize),
    pub text_buffer: Vec<Vec<char>>,
    pub textscreen_width: usize,
    pub textscreen_height: usize,
}

/// Every pixel's byte offset fits in a `usize`.
pub open spec fn geometry_ok(width: usize, height: usize, stride: usize) -> bool {
    (height * stride + width) * 4 <= usize::MAX
}

impl FrameBuffer {
    pub open spec fn wf(&self) -> bool {
        &&& geometry_ok(self.width, self.height, self.stride)
        &&& self.text_buffer@.len() <= self.textscreen_height
    }

    /// A console with no text on the framebuffer `raw_buffer`, with as
    /// many 8 by 14 cells as fit.
    pub fn from_raw_buffer(raw_buffer: &RawFrameBuffer, background_color: (u8, u8, u8)) -> (r: Self)
        requires
            geometry_ok(raw_buffer.width, raw_buffer.height, raw_buffer.stride),
        ensures
            r.wf(),
            r.frame_buffer == raw_buffer.frame_buffer,
            r.width == raw_buffer.width && r.height == raw_buffer.height && r.stride == raw_buffer.stride,
            r.pixel_format == raw_buffer.pixl_format,
            r.background_color == background_color,
            r.text_cursor == (0usize, 0usize),
            r.text_buffer@.len() == 0,
            r.textscreen_width == raw_buffer.width / 8,
            r.textscreen_height == raw_buffer.height / 14,
    {
        FrameBuffer {
            frame_buffer: raw_buffer.frame_buffer,
            width: raw_buffer.width,
            height: raw_buffer.height,
            stride: raw_buffer.stride,
            pixel_format: raw_buffer.pixl_format,
            background_color,
            text_cursor: (0, 0),
            text_buffer: Vec::new(),
            textscreen_width: raw_buffer.width / GLYPH_WIDTH,
            textscreen_height: raw_buffer.height / GLYPH_HEIGHT,
        }
    }

    /// Byte offset of pixel (`x`, `y`), or `None` off the screen.
    pub fn pixel_index(&self, x: usize, y: usize) -> (r: Option<usize>)
        requires
            self.wf(),
        ensures
            x < self.width && y < self.height ==> r == Some(((y * self.stride + x) * 4) as usize),
            !(x < self.width && y < self.height) ==> r is None,
    {
        if x < self.width && y < self.height {
            proof {
                assert(y * self.stride <= self.height * self.stride) by (nonlinear_arith)
                    requires
                        y < self.height,
                ;
            }
            Some((y * self.stride + x) * 4)
        } else {
            None
        }
    }

    /// Appends a line of text, scrolling the oldest line out when the
    /// screen is full.
    pub fn add_text_line(&mut self, text: Vec<char>)
        requires
            old(self).wf(),
            old(self).textscreen_height > 0,
        ensures
            final(self).wf(),
            final(self).textscreen_height == old(self).textscreen_height,
            old(self).text_buffer@.len() < old(self).textscreen_height ==> final(self).text_buffer@
                == old(self).text_buffer@.push(text),
            old(self).text_buffer@.len() >= old(self).textscreen_height ==> final(self).text_buffer@
                == old(self).text_buffer@.drop_first().push(text),
    {
        if self.text_buffer.len() >= self.textscreen_height {
            self.text_buffer.remove(0);
            assert(self.text_buffer@ =~= old(self).text_buffer@.drop_first());
        }
        self.text_buffer.push(text);
    }

    /// Forgets all text and puts the cursor home.
    pub fn clear_text(&mut self)
        requires
            old(self).wf(),
        ensures
            final(self).wf(),
            final(self).text_buffer@.len() == 0,
            final(self).text_cursor == (0usize, 0usize),
            final(self).textscreen_height == old(self).textscreen_height,
    {
        self.text_cursor = (0, 0);
        self.text_buffer.clear();
    }
}

} // verus!
