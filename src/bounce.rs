use vstd::prelude::*;

verus! {

/// Columns of the window's frame.
pub const WIDTH: u32 = 512;

/// Rows of the window's frame.
pub const HEIGHT: u32 = 256;

/// Side of the moving box, in pixels.
pub const BOX_SIZE: i16 = 64;

/// The largest column or row the box's corner reaches on a side of `extent`.
pub open spec fn far_edge(extent: int) -> int {
    extent - BOX_SIZE + 1
}

/// A box that moves one pixel a step along each axis and bounces off the
/// edges of the frame.
#[derive(Debug, Clone, Copy, PartialEq, Eq, Structural)]
pub struct Render {
    pub box_x: i16,
    pub box_y: i16,
    pub velocity_x: i16,
    pub velocity_y: i16,
}

/// One axis of the box stays on the frame and moves one pixel a step; at each
/// edge it is already moving outward, and the next step turns it back.
pub open spec fn axis_ok(pos: int, vel: int, extent: int) -> bool {
    &&& 0 <= pos <= far_edge(extent)
    &&& vel == 1 || vel == -1
    &&& pos == 0 ==> vel == -1
    &&& pos == far_edge(extent) ==> vel == 1
}

/// One axis after a step: the velocity flips at an edge, then the position
/// moves by it.
pub open spec fn axis_step(pos: int, vel: int, extent: int) -> (int, int) {
    let v = if pos <= 0 || pos + BOX_SIZE > extent {
        -vel
    } else {
        vel
    };
    (pos + v, v)
}

impl Render {
    /// The box stays on the frame on both axes.
    pub open spec fn wf(&self) -> bool {
        &&& axis_ok(self.box_x as int, self.velocity_x as int, WIDTH as int)
        &&& axis_ok(self.box_y as int, self.velocity_y as int, HEIGHT as int)
    }

    /// The box at `(24, 16)`, moving right and down.
    pub fn new() -> (r: Render)
        ensures
            r.wf(),
            r == (Render { box_x: 24, box_y: 16, velocity_x: 1, velocity_y: 1 }),
    {
        Render { box_x: 24, box_y: 16, velocity_x: 1, velocity_y: 1 }
    }

    /// Moves the box one step; where it touches an edge it turns back first.
    pub fn update(&mut self)
        requires
            old(self).wf(),
        ensures
            final(self).wf(),
            (final(self).box_x as int, final(self).velocity_x as int) == axis_step(
                old(self).box_x as int,
                old(self).velocity_x as int,
                WIDTH as int,
            ),
            (final(self).box_y as int, final(self).velocity_y as int) == axis_step(
                old(self).box_y as int,
                old(self).velocity_y as int,
                HEIGHT as int,
            ),
    {
        let w: i16 = WIDTH as i16;
        let h: i16 = HEIGHT as i16;
        if self.box_x <= 0 || self.box_x + BOX_SIZE > w {
            self.velocity_x = -self.velocity_x;
        }
        if self.box_y <= 0 || self.box_y + BOX_SIZE > h {
            self.velocity_y = -self.velocity_y;
        }
        self.box_x = self.box_x + self.velocity_x;
        self.box_y = self.box_y + self.velocity_y;
    }
}

} // verus!
