//! The dense depth frame: a fixed-size grid of readings, some of them holes.

use vstd::prelude::*;

verus! {

/// A pixel position: `x` is the column, `y` the row.
#[derive(Clone, Copy, Debug, PartialEq, Eq, Structural)]
pub struct Pixel {
    pub x: usize,
    pub y: usize,
}

/// Why a frame could not be built.
#[derive(Clone, Copy, Debug, PartialEq, Eq, Structural)]
pub enum FrameError {
    /// The width or the height is zero.
    EmptyView,
    /// The number of cells is not width times height.
    CellCountMismatch,
}

/// What a frame holds: its dimensions and its cells in row-major order.
pub ghost struct FrameView {
    pub width: nat,
    pub height: nat,
    pub cells: Seq<Option<u32>>,
}

impl FrameView {
    /// Position in `cells` of the pixel at column `x`, row `y`.
    pub open spec fn index_of(self, x: int, y: int) -> int {
        y * self.width + x
    }

    /// Cell `i` exists and holds a measured depth.
    pub open spec fn valid_at(self, i: int) -> bool {
        0 <= i < self.cells.len() && self.cells[i] is Some
    }

    /// The depth measured at cell `i` (meaningful where `valid_at(i)`).
    pub open spec fn raw(self, i: int) -> int {
        self.cells[i]->0 as int
    }

    pub open spec fn has_valid(self) -> bool {
        exists|i: int| self.valid_at(i)
    }

    /// Cell `i` holds the smallest measured depth of the frame, and is the
    /// first such cell in row-major order. Holes take no part.
    pub open spec fn is_nearest(self, i: int) -> bool {
        &&& self.valid_at(i)
        &&& forall|j: int| #[trigger] self.valid_at(j) ==> self.raw(i) <= self.raw(j)
        &&& forall|j: int| 0 <= j < i && #[trigger] self.valid_at(j) ==> self.raw(i) < self.raw(j)
    }
}

/// A dense depth frame. Its dimensions are positive and its cell count is
/// their product, for as long as it exists.
pub struct DepthFrame {
    width: usize,
    height: usize,
    cells: Vec<Option<u32>>,
}

impl View for DepthFrame {
    type V = FrameView;

    closed spec fn view(&self) -> FrameView {
        FrameView { width: self.width as nat, height: self.height as nat, cells: self.cells@ }
    }
}

impl DepthFrame {
    #[verifier::type_invariant]
    spec fn shape_holds(&self) -> bool {
        &&& self.width > 0
        &&& self.height > 0
        &&& self.cells@.len() == self.width * self.height
    }

    /// Builds a frame of `width` columns and `height` rows from its cells in
    /// row-major order.
    pub fn new(width: usize, height: usize, cells: Vec<Option<u32>>) -> (r: Result<
        DepthFrame,
        FrameError,
    >)
        ensures
            width > 0 && height > 0 && cells@.len() == width * height <==> r is Ok,
            width == 0 || height == 0 <==> r == Err::<DepthFrame, FrameError>(FrameError::EmptyView),
            width > 0 && height > 0 && cells@.len() != width * height <==> r == Err::<
                DepthFrame,
                FrameError,
            >(FrameError::CellCountMismatch),
            r matches Ok(f) ==> f@ == (FrameView {
                width: width as nat,
                height: height as nat,
                cells: cells@,
            }),
    {
        if width == 0 || height == 0 {
            return Err(FrameError::EmptyView);
        }
        let count = cells.len();
        match width.checked_mul(height) {
            Some(n) => {
                if n == count {
                    Ok(DepthFrame { width, height, cells })
                } else {
                    Err(FrameError::CellCountMismatch)
                }
            },
            None => Err(FrameError::CellCountMismatch),
        }
    }

    pub fn width(&self) -> (r: usize)
        ensures
            r == self@.width,
    {
        self.width
    }

    pub fn height(&self) -> (r: usize)
        ensures
            r == self@.height,
    {
        self.height
    }

    /// The reading at column `x`, row `y`.
    pub fn at(&self, x: usize, y: usize) -> (r: Option<u32>)
        requires
            x < self@.width,
            y < self@.height,
        ensures
            r == self@.cells[self@.index_of(x as int, y as int)],
    {
        let n = self.cells.len();
        proof {
            use_type_invariant(self);
            assert(y * self.width + x < self.width * self.height && y * self.width >= 0)
                by (nonlinear_arith)
                requires
                    x < self.width,
                    y < self.height,
            ;
        }
        self.cells[y * self.width + x]
    }

    /// The nearest measured point of the frame and its depth: the first cell
    /// in row-major order that holds the smallest depth, or `None` where the
    /// frame holds holes only.
    pub fn nearest(&self) -> (r: Option<(Pixel, u32)>)
        ensures
            r is None <==> !self@.has_valid(),
            r matches Some((p, d)) ==> {
                &&& p.x < self@.width
                &&& p.y < self@.height
                &&& self@.is_nearest(self@.index_of(p.x as int, p.y as int))
                &&& d == self@.raw(self@.index_of(p.x as int, p.y as int))
            },
    {
        proof {
            use_type_invariant(self);
        }
        let w = self.width;
        let h = self.height;
        let n = self.cells.len();
        let ghost v = self@;
        let mut best: Option<(Pixel, u32)> = None;
        let ghost mut best_i: int = 0;
        let mut i: usize = 0;
        let mut y: usize = 0;
        while y < h
            invariant
                v == self@,
                w == v.width,
                h == v.height,
                v.cells.len() == w * h,
                n == v.cells.len(),
                y <= h,
                i == y * w,
                best is None ==> forall|j: int| 0 <= j < i ==> !v.valid_at(j),
                best matches Some((p, d)) ==> {
                    &&& p.x < w
                    &&& p.y < y
                    &&& best_i == v.index_of(p.x as int, p.y as int)
                    &&& 0 <= best_i < i
                    &&& v.valid_at(best_i)
                    &&& d == v.raw(best_i)
                    &&& forall|j: int| 0 <= j < i && #[trigger] v.valid_at(j) ==> d <= v.raw(j)
                    &&& forall|j: int| 0 <= j < best_i && #[trigger] v.valid_at(j) ==> d < v.raw(j)
                },
            decreases h - y,
        {
            proof {
                assert(y * w + w <= w * h) by (nonlinear_arith)
                    requires
                        y < h,
                ;
            }
            let mut x: usize = 0;
            while x < w
                invariant
                    v == self@,
                    w == v.width,
                    h == v.height,
                    v.cells.len() == w * h,
                    n == v.cells.len(),
                    y < h,
                    y * w + w <= w * h,
                    x <= w,
                    i == y * w + x,
                    best is None ==> forall|j: int| 0 <= j < i ==> !v.valid_at(j),
                    best matches Some((p, d)) ==> {
                        &&& p.x < w
                        &&& p.y <= y
                        &&& best_i == v.index_of(p.x as int, p.y as int)
                        &&& 0 <= best_i < i
                        &&& v.valid_at(best_i)
                        &&& d == v.raw(best_i)
                        &&& forall|j: int| 0 <= j < i && #[trigger] v.valid_at(j) ==> d <= v.raw(j)
                        &&& forall|j: int|
                            0 <= j < best_i && #[trigger] v.valid_at(j) ==> d < v.raw(j)
                    },
                decreases w - x,
            {
                assert(i < v.cells.len());
                if let Some(depth) = self.cells[i] {
                    let closer = match best {
                        None => true,
                        Some((_, d)) => depth < d,
                    };
                    if closer {
                        best = Some((Pixel { x, y }, depth));
                        proof {
                            best_i = i as int;
                        }
                    }
                }
                i = i + 1;
                x = x + 1;
            }
            proof {
                assert((y + 1) * w == y * w + w) by (nonlinear_arith);
            }
            y = y + 1;
        }
        proof {
            assert(i == v.cells.len()) by (nonlinear_arith)
                requires
                    i == y * w,
                    y == h,
                    v.cells.len() == w * h,
            ;
            if best is None {
                if v.has_valid() {
                    let j = choose|j: int| v.valid_at(j);
                    assert(!v.valid_at(j));
                }
            }
        }
        best
    }
}

} // verus!
