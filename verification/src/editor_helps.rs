//! The guide layer behind the scene: background grid lines and the two
//! centered reference frames. The host draws them; their coordinates
//! are computed here.

use vstd::prelude::*;

use crate::editor_state::COORD_LIMIT;
use crate::geometry::Point;

verus! {

/// The help/guide layer of the editor.
pub struct EditorHelps {}

impl EditorHelps {
    /// Every multiple of `size` from zero through `extent`: the
    /// coordinates of the background grid lines across one axis.
    pub fn grid_lines(extent: i64, size: i64) -> (r: Vec<i64>)
        requires
            0 < size <= COORD_LIMIT,
            0 <= extent <= COORD_LIMIT,
        ensures
            r@.len() == extent / size + 1,
            forall|i: int| 0 <= i < r@.len() ==> r@[i] == size * i,
    {
        let mut r: Vec<i64> = Vec::new();
        let mut v: i64 = 0;
        proof {
            assert(size * 0 == 0) by (nonlinear_arith);
        }
        while v <= extent
            invariant
                0 < size <= COORD_LIMIT,
                0 <= extent <= COORD_LIMIT,
                0 <= v <= extent + size,
                v == size * r@.len(),
                r@.len() > 0 ==> size * (r@.len() - 1) <= extent,
                forall|i: int| 0 <= i < r@.len() ==> r@[i] == size * i,
            decreases extent - v + size,
        {
            r.push(v);
            proof {
                assert(size * (r@.len() as int) == size * (r@.len() - 1) + size)
                    by (nonlinear_arith);
            }
            v = v + size;
        }
        proof {
            let k = r@.len() - 1;
            assert(extent as int / size as int == k) by (nonlinear_arith)
                requires
                    0 < size,
                    0 <= k,
                    size * k <= extent,
                    extent < size * (k + 1),
            ;
        }
        r
    }

    /// The top-left corner of a reference frame of size `fw` x `fh`
    /// centered on the canvas.
    pub fn frame_origin(width: i64, height: i64, fw: i64, fh: i64) -> (p: Point)
        requires
            0 <= width <= COORD_LIMIT,
            0 <= height <= COORD_LIMIT,
            0 <= fw <= 2000,
            0 <= fh <= 2000,
        ensures
            p.x == width as int / 2 - fw as int / 2,
            p.y == height as int / 2 - fh as int / 2,
    {
        Point { x: width / 2 - fw / 2, y: height / 2 - fh / 2 }
    }
}

} // verus!
