//! Where the buffer and the status bar stand in a window.
//!
//! The window is divided into two areas with a padding around each: the
//! status bar at the bottom, as high as one line of text, and the buffer in
//! the space above it. The buffer area shows as many lines as fit into it
//! whole, one below the other from its top.

use vstd::prelude::*;

verus! {

/// The space left free around each area, in pixels.
pub const PADDING: u32 = 25;

/// A rectangle of the window: its top left corner and its size, in pixels.
#[derive(Debug, Clone, Copy, PartialEq, Eq, Structural)]
pub struct Area {
    /// The distance of the left edge from the left edge of the window.
    pub x: i32,
    /// The distance of the top edge from the top edge of the window.
    pub y: i32,
    /// The width.
    pub width: u32,
    /// The height.
    pub height: u32,
}

/// The areas of the window.
#[derive(Debug, Clone, Copy, PartialEq, Eq, Structural)]
pub struct Layout {
    /// Where the status bar stands.
    pub statusbar: Area,
    /// Where the lines of the buffer stand.
    pub buffer: Area,
}

/// Whether a window of this size has room for both areas and their padding,
/// with a status bar of the given height.
pub open spec fn has_room(width: u32, height: u32, status_height: u32) -> bool {
    &&& width >= 2 * PADDING
    &&& height >= status_height + 3 * PADDING
    &&& height <= i32::MAX
}

/// The areas of a window of the given size. The status bar is `status_height`
/// high and stands one padding above the bottom edge; the buffer fills the
/// space above it, one padding below the top edge and one above the status
/// bar. Both keep one padding to the left and to the right.
pub open spec fn arranged(width: u32, height: u32, status_height: u32) -> Layout {
    Layout {
        statusbar: Area {
            x: PADDING as i32,
            y: (height - status_height - PADDING) as i32,
            width: (width - 2 * PADDING) as u32,
            height: status_height,
        },
        buffer: Area {
            x: PADDING as i32,
            y: PADDING as i32,
            width: (width - 2 * PADDING) as u32,
            height: (height - status_height - 3 * PADDING) as u32,
        },
    }
}

impl Area {
    /// The area at the origin that covers nothing.
    pub open spec fn empty() -> Area {
        Area { x: 0, y: 0, width: 0, height: 0 }
    }
}

impl Default for Layout {
    /// The layout before the window's size is known: both areas empty.
    fn default() -> (layout: Layout)
        ensures
            layout == (Layout { statusbar: Area::empty(), buffer: Area::empty() }),
    {
        let empty = Area { x: 0, y: 0, width: 0, height: 0 };
        Layout { statusbar: empty, buffer: empty }
    }
}

impl Layout {
    /// How many lines of height `line_height` fit whole into the buffer area.
    pub open spec fn rows(self, line_height: u16) -> int {
        self.buffer.height as int / line_height as int
    }

    /// The bottom edge of the buffer area lies within what a coordinate can
    /// express.
    pub open spec fn wf(self) -> bool {
        0 <= self.buffer.y && self.buffer.y + self.buffer.height <= i32::MAX
    }

    /// Whether the bottom edge of the buffer area lies within what a
    /// coordinate can express.
    pub fn is_valid(&self) -> (valid: bool)
        ensures
            valid == self.wf(),
    {
        self.buffer.y >= 0 && self.buffer.height <= i32::MAX as u32 && self.buffer.height as i32
            <= i32::MAX - self.buffer.y
    }

    /// Whether a window of this size has room for both areas and their
    /// padding, with a status bar of the given height.
    pub fn has_room(width: u32, height: u32, status_height: u32) -> (room: bool)
        ensures
            room == has_room(width, height, status_height),
    {
        width >= 2 * PADDING && height <= i32::MAX as u32 && height >= 3 * PADDING && height - 3
            * PADDING >= status_height
    }

    /// Arranges the areas for a window of the given size, with a status bar
    /// of the given height.
    pub fn calculate(&mut self, width: u32, height: u32, status_height: u32)
        requires
            has_room(width, height, status_height),
        ensures
            *final(self) == arranged(width, height, status_height),
            final(self).wf(),
    {
        self.buffer = Area {
            x: PADDING as i32,
            y: PADDING as i32,
            width: width - PADDING * 2,
            height: height - status_height - PADDING * 3,
        };
        self.statusbar = Area {
            x: PADDING as i32,
            y: (height - status_height - PADDING) as i32,
            width: width - PADDING * 2,
            height: status_height,
        };
    }

    /// How many of `line_count` lines are shown: as many as fit whole into
    /// the buffer area, and no more than there are.
    pub fn visible_lines(&self, line_height: u16, line_count: usize) -> (shown: usize)
        requires
            line_height > 0,
        ensures
            shown == if self.rows(line_height) < line_count {
                self.rows(line_height)
            } else {
                line_count as int
            },
    {
        let rows = self.buffer.height / line_height as u32;
        if (rows as usize) < line_count {
            rows as usize
        } else {
            line_count
        }
    }

    /// The top edge of a shown line: the lines stand one below the other from
    /// the top of the buffer area.
    pub fn line_top(&self, row: usize, line_height: u16) -> (y: i32)
        requires
            self.wf(),
            line_height > 0,
            row < self.rows(line_height),
        ensures
            y == self.buffer.y + row * line_height,
            self.buffer.y <= y,
            y + line_height <= self.buffer.y + self.buffer.height,
    {
        proof {
            let rows = self.rows(line_height);
            assert(rows * line_height <= self.buffer.height) by (nonlinear_arith)
                requires
                    rows == self.buffer.height as int / line_height as int,
                    line_height > 0,
            ;
            assert((row + 1) * line_height <= rows * line_height) by (nonlinear_arith)
                requires
                    row + 1 <= rows,
                    line_height > 0,
            ;
            assert((row + 1) * line_height == row * line_height + line_height)
                by (nonlinear_arith);
        }
        let offset = row as u32 * line_height as u32;
        self.buffer.y + offset as i32
    }
}

} // verus!
