//! Pixels, the viewport, and how the half-resolution passes map onto it.

use vstd::prelude::*;

verus! {

/// Side of the square tile of pixels one workgroup shades.
pub const TILE: u32 = 8;

/// A pixel of the screen, or a width and a height in pixels.
#[derive(Clone, Copy, Debug, PartialEq, Eq, Structural)]
pub struct ScreenPos {
    pub x: u32,
    pub y: u32,
}

/// A position that may lie off the screen.
#[derive(Clone, Copy, Debug, PartialEq, Eq, Structural)]
pub struct Offset {
    pub x: i64,
    pub y: i64,
}

/// The viewport a camera renders to.
#[derive(Clone, Copy, Debug, PartialEq, Eq, Structural)]
pub struct Camera {
    pub viewport_size: ScreenPos,
}

/// The sub-pixel of its two-by-two block that a half-resolution cell shades
/// in the given frame. The four frames of a cycle visit (0,0), (1,1), (0,1)
/// and (1,0).
pub open spec fn sub_pixel(frame: u32) -> ScreenPos {
    let phase = frame % 4;
    if phase == 0 {
        ScreenPos { x: 0, y: 0 }
    } else if phase == 1 {
        ScreenPos { x: 1, y: 1 }
    } else if phase == 2 {
        ScreenPos { x: 0, y: 1 }
    } else {
        ScreenPos { x: 1, y: 0 }
    }
}

/// The full-resolution pixel that half-resolution cell `cell` shades in the
/// given frame.
pub open spec fn upsampled(cell: ScreenPos, frame: u32) -> ScreenPos {
    ScreenPos {
        x: (2 * cell.x + sub_pixel(frame).x) as u32,
        y: (2 * cell.y + sub_pixel(frame).y) as u32,
    }
}

/// Number of tiles needed to cover `extent` pixels.
pub open spec fn tiles_covering(extent: int) -> int {
    (extent + (TILE - 1)) / (TILE as int)
}

/// `v` brought into `0..extent`.
pub open spec fn clamped(v: int, extent: int) -> int {
    if v < 0 {
        0
    } else if v >= extent {
        extent - 1
    } else {
        v
    }
}

/// The full-resolution pixel that half-resolution cell `cell` shades in the
/// given frame.
pub fn upsample(cell: ScreenPos, frame: u32) -> (pixel: ScreenPos)
    requires
        cell.x < 0x8000_0000,
        cell.y < 0x8000_0000,
    ensures
        pixel == upsampled(cell, frame),
        pixel.x / 2 == cell.x,
        pixel.y / 2 == cell.y,
{
    let phase: u32 = frame % 4;
    let (dx, dy): (u32, u32) = if phase == 0 {
        (0, 0)
    } else if phase == 1 {
        (1, 1)
    } else if phase == 2 {
        (0, 1)
    } else {
        (1, 0)
    };
    ScreenPos { x: 2 * cell.x + dx, y: 2 * cell.y + dy }
}

/// Number of workgroups, along each axis, that cover `size` pixels with
/// tiles.
pub fn covering_tiles(size: ScreenPos) -> (tiles: ScreenPos)
    ensures
        tiles.x == tiles_covering(size.x as int),
        tiles.y == tiles_covering(size.y as int),
{
    ScreenPos {
        x: size.x / TILE + if size.x % TILE == 0 {
            0
        } else {
            1
        },
        y: size.y / TILE + if size.y % TILE == 0 {
            0
        } else {
            1
        },
    }
}

impl Camera {
    /// Whether the viewport has pixels and their indices fit the machine.
    pub open spec fn is_valid(self) -> bool {
        &&& self.viewport_size.x > 0
        &&& self.viewport_size.y > 0
        &&& self.viewport_size.x * self.viewport_size.y <= usize::MAX
    }

    /// Whether `pos` lies in the viewport.
    pub open spec fn holds(self, pos: ScreenPos) -> bool {
        pos.x < self.viewport_size.x && pos.y < self.viewport_size.y
    }

    /// Width and height of the half-resolution grid, which covers the
    /// viewport with two-by-two blocks.
    pub open spec fn half_size(self) -> ScreenPos {
        ScreenPos {
            x: ((self.viewport_size.x + 1) / 2) as u32,
            y: ((self.viewport_size.y + 1) / 2) as u32,
        }
    }

    /// Whether `cell` lies in the half-resolution grid.
    pub open spec fn holds_cell(self, cell: ScreenPos) -> bool {
        cell.x < self.half_size().x && cell.y < self.half_size().y
    }

    /// A camera for a viewport of the given size, if such a viewport can be
    /// rendered to.
    pub fn new(width: u32, height: u32) -> (camera: Option<Camera>)
        ensures
            camera is Some <==> (Camera { viewport_size: ScreenPos { x: width, y: height } }).is_valid(),
            camera is Some ==> camera->0.viewport_size == (ScreenPos { x: width, y: height }),
    {
        if width == 0 || height == 0 {
            return None;
        }
        assert(width as int * height as int <= u32::MAX as int * u32::MAX as int)
            by (nonlinear_arith)
            requires
                0 <= width as int <= u32::MAX as int,
                0 <= height as int <= u32::MAX as int,
        ;
        let area: u64 = (width as u64) * (height as u64);
        if area > usize::MAX as u64 {
            return None;
        }
        Some(Camera { viewport_size: ScreenPos { x: width, y: height } })
    }

    /// Whether `pos` lies in the viewport.
    pub fn contains(&self, pos: ScreenPos) -> (inside: bool)
        ensures
            inside == self.holds(pos),
    {
        pos.x < self.viewport_size.x && pos.y < self.viewport_size.y
    }

    /// The pixel of the viewport nearest to `pos`.
    pub fn contain(&self, pos: Offset) -> (pixel: ScreenPos)
        requires
            self.is_valid(),
        ensures
            pixel.x == clamped(pos.x as int, self.viewport_size.x as int),
            pixel.y == clamped(pos.y as int, self.viewport_size.y as int),
            self.holds(pixel),
    {
        let x: u32 = if pos.x < 0 {
            0
        } else if pos.x >= self.viewport_size.x as i64 {
            self.viewport_size.x - 1
        } else {
            pos.x as u32
        };
        let y: u32 = if pos.y < 0 {
            0
        } else if pos.y >= self.viewport_size.y as i64 {
            self.viewport_size.y - 1
        } else {
            pos.y as u32
        };
        ScreenPos { x, y }
    }

    /// Index of pixel `pos` in a buffer that holds the viewport row by row.
    pub fn screen_to_idx(&self, pos: ScreenPos) -> (idx: usize)
        requires
            self.is_valid(),
            self.holds(pos),
        ensures
            idx == pos.y * self.viewport_size.x + pos.x,
            idx < self.viewport_size.x * self.viewport_size.y,
    {
        assert(pos.y * self.viewport_size.x + pos.x < self.viewport_size.x
            * self.viewport_size.y) by (nonlinear_arith)
            requires
                pos.x < self.viewport_size.x,
                pos.y < self.viewport_size.y,
        ;
        assert(0 <= pos.y * self.viewport_size.x) by (nonlinear_arith);
        let idx: u64 = (pos.y as u64) * (self.viewport_size.x as u64) + (pos.x as u64);
        idx as usize
    }

    /// Index of half-resolution cell `cell` in a buffer that holds the
    /// half-resolution grid row by row.
    pub fn half_screen_to_idx(&self, cell: ScreenPos) -> (idx: usize)
        requires
            self.is_valid(),
            self.holds_cell(cell),
        ensures
            idx == cell.y * self.half_size().x + cell.x,
            idx < self.half_size().x * self.half_size().y,
    {
        let half_width: u32 = self.viewport_size.x / 2 + self.viewport_size.x % 2;
        let ghost half = self.half_size();
        assert(half_width == half.x);
        assert(cell.y * half.x + cell.x < half.x * half.y) by (nonlinear_arith)
            requires
                cell.x < half.x,
                cell.y < half.y,
        ;
        assert(half.x * half.y <= self.viewport_size.x * self.viewport_size.y)
            by (nonlinear_arith)
            requires
                0 <= half.x <= self.viewport_size.x,
                0 <= half.y <= self.viewport_size.y,
        ;
        assert(0 <= cell.y * half.x) by (nonlinear_arith);
        let idx: u64 = (cell.y as u64) * (half_width as u64) + (cell.x as u64);
        idx as usize
    }
}

/// The tiles dispatched for a viewport cover it, and none of them lies
/// wholly beyond it: every pixel has a thread of its own.
pub proof fn tiles_cover_every_pixel(extent: int)
    requires
        0 <= extent,
    ensures
        (TILE as int) * tiles_covering(extent) >= extent,
        (TILE as int) * (tiles_covering(extent) - 1) < extent,
{
}

/// The frame of a cycle of four in which the cell of `pixel` shades
/// `pixel`.
pub open spec fn phase_of(pixel: ScreenPos) -> u32 {
    if pixel.x % 2 == 0 && pixel.y % 2 == 0 {
        0
    } else if pixel.x % 2 == 1 && pixel.y % 2 == 1 {
        1
    } else if pixel.x % 2 == 0 {
        2
    } else {
        3
    }
}

/// Over four frames the half-resolution passes shade every pixel once:
/// every pixel is shaded by its cell in one frame of the cycle, and in no
/// other.
pub proof fn four_frames_shade_every_pixel(pixel: ScreenPos, frame: u32)
    ensures
        upsampled(ScreenPos { x: pixel.x / 2, y: pixel.y / 2 }, frame) == pixel <==> frame % 4
            == phase_of(pixel),
{
}

} // verus!
