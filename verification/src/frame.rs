use vstd::prelude::*;

verus! {

pub const FRAME_WIDTH: usize = 256;

pub const FRAME_HEIGHT: usize = 240;

/// A 256x240 picture: packed RGB bytes, row-major with no padding, and a
/// parallel transparency mask the sprite compositor consults.
pub struct Frame {
    pub data: Vec<u8>,
    pub transparency: Vec<bool>,
}

impl Frame {
    /// The frame keeps its fixed dimensions.
    pub open spec fn wf(self) -> bool {
        &&& self.data.len() == FRAME_WIDTH * FRAME_HEIGHT * 3
        &&& self.transparency.len() == FRAME_WIDTH * FRAME_HEIGHT
    }

    /// The byte offset of pixel (x, y) in the packed RGB data.
    pub open spec fn spec_coord(x: int, y: int) -> int {
        y * 768 + x * 3
    }

    /// Relates the frame after pixel (x, y) is painted with `color` and its
    /// transparency mark set to `trans` to the frame before; out-of-range
    /// coordinates leave the frame unchanged.
    pub open spec fn spec_set_pixel(self, post: Frame, trans: bool, x: int, y: int, color: (u8, u8, u8)) -> bool {
        let c = Self::spec_coord(x, y);
        if c + 2 < self.data.len() {
            &&& post.data@ == self.data@.update(c, color.0).update(c + 1, color.1).update(
                c + 2,
                color.2,
            )
            &&& post.transparency@ == self.transparency@.update(c / 3, trans)
        } else {
            &&& post.data@ == self.data@
            &&& post.transparency@ == self.transparency@
        }
    }

    /// Whether a compositor write with background-priority flag `priority`
    /// lands on the pixel: either the sprite is in front, or what lies there
    /// is transparent background.
    pub open spec fn spec_may_overwrite(self, priority: bool, x: int, y: int) -> bool {
        let c = Self::spec_coord(x, y);
        priority || self.transparency[c / 3]
    }

    pub fn new() -> (r: Self)
        ensures
            r.wf(),
            r.data@ == Seq::new((FRAME_WIDTH * FRAME_HEIGHT * 3) as nat, |i: int| 0u8),
            r.transparency@ == Seq::new((FRAME_WIDTH * FRAME_HEIGHT) as nat, |i: int| true),
    {
        let mut data: Vec<u8> = Vec::new();
        let mut i: usize = 0;
        while i < FRAME_WIDTH * FRAME_HEIGHT * 3
            invariant
                i <= FRAME_WIDTH * FRAME_HEIGHT * 3,
                data@ == Seq::new(i as nat, |j: int| 0u8),
            decreases FRAME_WIDTH * FRAME_HEIGHT * 3 - i,
        {
            data.push(0);
            assert(data@ =~= Seq::new((i + 1) as nat, |j: int| 0u8));
            i += 1;
        }
        let mut transparency: Vec<bool> = Vec::new();
        let mut k: usize = 0;
        while k < FRAME_WIDTH * FRAME_HEIGHT
            invariant
                k <= FRAME_WIDTH * FRAME_HEIGHT,
                transparency@ == Seq::new(k as nat, |j: int| true),
            decreases FRAME_WIDTH * FRAME_HEIGHT - k,
        {
            transparency.push(true);
            assert(transparency@ =~= Seq::new((k + 1) as nat, |j: int| true));
            k += 1;
        }
        Frame { data, transparency }
    }

    /// Paints pixel (x, y) only where the compositor is allowed to: when the
    /// sprite has priority over the background or the pixel underneath is
    /// transparent.
    pub fn check_and_set(&mut self, trans: bool, priority: bool, x: usize, y: usize, color: (u8, u8, u8))
        requires
            old(self).wf(),
            x < 0x10000,
            y < 0x10000,
        ensures
            final(self).wf(),
            old(self).spec_may_overwrite(priority, x as int, y as int) ==> old(self).spec_set_pixel(
                *final(self),
                trans,
                x as int,
                y as int,
                color,
            ),
            !old(self).spec_may_overwrite(priority, x as int, y as int) ==> *final(self) == *old(
                self,
            ),
    {
        let actual_coord = (y * 768) + (x * 3);
        if actual_coord + 2 < self.data.len() && (priority || self.transparency[actual_coord / 3])
        {
            self.transparency[actual_coord / 3] = trans;
            self.data[actual_coord] = color.0;
            self.data[actual_coord + 1] = color.1;
            self.data[actual_coord + 2] = color.2;
        } else {
            // The transparency mask has one entry for every three data bytes,
            // so an in-range pixel always has an in-range mask slot.
            assert(self.wf() && actual_coord + 2 < self.data.len() ==> actual_coord / 3
                < self.transparency.len());
        }
    }

    /// Paints pixel (x, y) unconditionally (background rendering).
    pub fn set_pixel(&mut self, trans: bool, x: usize, y: usize, color: (u8, u8, u8))
        requires
            old(self).wf(),
            x < 0x10000,
            y < 0x10000,
        ensures
            final(self).wf(),
            old(self).spec_set_pixel(*final(self), trans, x as int, y as int, color),
    {
        let actual_coord = (y * 768) + (x * 3);
        if actual_coord + 2 < self.data.len() {
            self.transparency[actual_coord / 3] = trans;
            self.data[actual_coord] = color.0;
            self.data[actual_coord + 1] = color.1;
            self.data[actual_coord + 2] = color.2;
        }
    }
}

} // verus!
