//! The placement of electrodes on the board grid.
use vstd::prelude::*;

use crate::location::{Location, Rectangle};
use crate::N_PINS;

verus! {

/// The electrode at column `x` of row `y` of `grid`, where the grid holds one
/// of the array's electrodes there; negative entries mark places without one.
pub open spec fn pin_at(grid: Seq<Seq<i32>>, x: int, y: int) -> Option<int> {
    if 0 <= y < grid.len() && 0 <= x < grid[y].len() && 0 <= grid[y][x] < N_PINS {
        Some(grid[y][x] as int)
    } else {
        None
    }
}

/// The grid position `(x, y)` lies in `rect`.
pub open spec fn in_rect(rect: Rectangle, x: int, y: int) -> bool {
    rect.location.x <= x < rect.location.x + rect.dimensions.x && rect.location.y <= y
        < rect.location.y + rect.dimensions.y
}

/// `(x, y)` lies in `rect` in a row before `row`, or in row `row` before column `col`,
/// both counted from the rectangle's corner.
pub open spec fn visited(rect: Rectangle, x: int, y: int, row: int, col: int) -> bool {
    in_rect(rect, x, y) && (y - rect.location.y < row || (y - rect.location.y == row && x
        - rect.location.x < col))
}

/// The rows of electrode numbers of a board, indexed by `y` then `x`.
pub struct BoardLayout {
    pins: Vec<Vec<i32>>,
}

impl View for BoardLayout {
    type V = Seq<Seq<i32>>;

    closed spec fn view(&self) -> Seq<Seq<i32>> {
        self.pins@.map_values(|row: Vec<i32>| row@)
    }
}

impl BoardLayout {
    /// A layout with the given rows.
    pub fn new(pins: Vec<Vec<i32>>) -> (b: BoardLayout)
        ensures
            b@ == pins@.map_values(|row: Vec<i32>| row@),
    {
        BoardLayout { pins }
    }

    fn pin_at_xy(&self, x: i64, y: i64) -> (r: Option<usize>)
        ensures
            r matches Some(p) ==> pin_at(self@, x as int, y as int) == Some(p as int),
            r is None ==> pin_at(self@, x as int, y as int) is None,
    {
        if y < 0 || y as u64 >= self.pins.len() as u64 {
            return None;
        }
        let row = &self.pins[y as usize];
        assert(self@[y as int] == row@);
        if x < 0 || x as u64 >= row.len() as u64 {
            return None;
        }
        let v = row[x as usize];
        if v < 0 || v as usize >= N_PINS {
            None
        } else {
            Some(v as usize)
        }
    }

    /// The electrode at `loc`, if there is one.
    pub fn get_pin(&self, loc: Location) -> (r: Option<usize>)
        ensures
            r matches Some(p) ==> pin_at(self@, loc.x as int, loc.y as int) == Some(p as int),
            r is None ==> pin_at(self@, loc.x as int, loc.y as int) is None,
    {
        self.pin_at_xy(loc.x as i64, loc.y as i64)
    }

    /// The 128 electrode states in which exactly the electrodes under `rect`
    /// are enabled, or `None` where a position of `rect` has no electrode.
    pub fn rect_pins(&self, rect: Rectangle) -> (r: Option<Vec<bool>>)
        ensures
            r is Some <==> forall|x: int, y: int|
                in_rect(rect, x, y) ==> #[trigger] pin_at(self@, x, y) is Some,
            r matches Some(v) ==> v@.len() == N_PINS && forall|p: int|
                0 <= p < N_PINS ==> (#[trigger] v@[p] <==> exists|x: int, y: int|
                    in_rect(rect, x, y) && #[trigger] pin_at(self@, x, y) == Some(p)),
    {
        let mut v: Vec<bool> = Vec::new();
        let mut i: usize = 0;
        while i < N_PINS
            invariant
                i <= N_PINS,
                v@ == Seq::new(i as nat, |j: int| false),
            decreases N_PINS - i,
        {
            v.push(false);
            i = i + 1;
        }
        let x0 = rect.location.x as i64;
        let y0 = rect.location.y as i64;
        let w = rect.dimensions.x as i64;
        let h = rect.dimensions.y as i64;
        let mut dy: i64 = 0;
        while dy < h
            invariant
                0 <= dy,
                h <= 0 || dy <= h,
                x0 == rect.location.x,
                y0 == rect.location.y,
                w == rect.dimensions.x,
                h == rect.dimensions.y,
                v@.len() == N_PINS,
                forall|x: int, y: int|
                    visited(rect, x, y, dy as int, 0) ==> (#[trigger] pin_at(self@, x, y)) is Some && v@[pin_at(self@, x, y)->0],
                forall|p: int|
                    0 <= p < N_PINS ==> #[trigger] v@[p] ==> exists|x: int, y: int|
                        visited(rect, x, y, dy as int, 0) && #[trigger] pin_at(self@, x, y) == Some(p),
            decreases h - dy,
        {
            let mut dx: i64 = 0;
            while dx < w
                invariant
                    0 <= dy < h,
                    0 <= dx,
                    w <= 0 || dx <= w,
                    x0 == rect.location.x,
                    y0 == rect.location.y,
                    w == rect.dimensions.x,
                    h == rect.dimensions.y,
                    v@.len() == N_PINS,
                    forall|x: int, y: int|
                        visited(rect, x, y, dy as int, dx as int) ==> (#[trigger] pin_at(self@, x, y)) is Some && v@[pin_at(self@, x, y)->0],
                    forall|p: int|
                        0 <= p < N_PINS ==> #[trigger] v@[p] ==> exists|x: int, y: int|
                            visited(rect, x, y, dy as int, dx as int) && #[trigger] pin_at(self@, x, y)
                                == Some(p),
                decreases w - dx,
            {
                let x = x0 + dx;
                let y = y0 + dy;
                match self.pin_at_xy(x, y) {
                    None => {
                        assert(in_rect(rect, x as int, y as int));
                        return None;
                    },
                    Some(p) => {
                        let ghost old_v = v@;
                        v.set(p, true);
                        proof {
                            assert forall|xx: int, yy: int|
                                visited(rect, xx, yy, dy as int, dx + 1) implies (#[trigger] pin_at(self@, xx, yy)) is Some && v@[pin_at(self@, xx, yy)->0] by {
                                if !(xx == x && yy == y) {
                                    assert(visited(rect, xx, yy, dy as int, dx as int));
                                }
                            }
                            assert forall|q: int|
                                0 <= q < N_PINS && #[trigger] v@[q] implies exists|xx: int, yy: int|
                                    visited(rect, xx, yy, dy as int, dx + 1) && #[trigger] pin_at(
                                        self@,
                                        xx,
                                        yy,
                                    ) == Some(q) by {
                                if q == p {
                                    assert(visited(rect, x as int, y as int, dy as int, dx + 1));
                                    assert(pin_at(self@, x as int, y as int) == Some(q));
                                } else {
                                    assert(old_v[q]);
                                    let (xx, yy) = choose|xx: int, yy: int|
                                        visited(rect, xx, yy, dy as int, dx as int) && #[trigger] pin_at(
                                            self@,
                                            xx,
                                            yy,
                                        ) == Some(q);
                                    assert(visited(rect, xx, yy, dy as int, dx + 1));
                                }
                            }
                        }
                    },
                }
                dx = dx + 1;
            }
            proof {
                assert forall|x: int, y: int|
                    #[trigger] visited(rect, x, y, dy + 1, 0) == visited(rect, x, y, dy as int, dx as int) by {}
            }
            dy = dy + 1;
        }
        proof {
            assert forall|x: int, y: int| #[trigger] visited(rect, x, y, dy as int, 0) == in_rect(rect, x, y) by {}
        }
        Some(v)
    }
}

} // verus!
