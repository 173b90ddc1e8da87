//! Row-major enumeration of the tiles in a rectangle of the tile grid.
use vstd::prelude::*;

use vstd::arithmetic::div_mod::lemma_fundamental_div_mod_converse;
use vstd::arithmetic::mul::{lemma_mul_inequality, lemma_mul_is_distributive_add_other_way};

use crate::source::TailServerUrl;

verus! {

/// Where a scan stands: at the next tile to emit, or past the last one.
#[derive(Debug, Eq, PartialEq, Clone, Copy)]
enum Cursor {
    At { x: u64, y: u64 },
    Exhausted,
}

/// The URLs of the tiles in the rectangle of columns `x0..=x1` and rows
/// `y1..=y0` (rows grow southward, so `y1` is the northern row), produced one
/// by one from the northern row to the southern one, each row from west to east.
#[derive(Debug, Eq, PartialEq, Clone)]
pub struct TailServerUrlIter {
    tsu: TailServerUrl,
    cursor: Cursor,
    x0: u64,
    y0: u64,
    x1: u64,
    y1: u64,
}

impl TailServerUrlIter {
    /// The server whose URLs are produced.
    pub closed spec fn server(&self) -> TailServerUrl {
        self.tsu
    }

    /// The western (smallest) column.
    pub closed spec fn west(&self) -> int {
        self.x0 as int
    }

    /// The eastern (largest) column.
    pub closed spec fn east(&self) -> int {
        self.x1 as int
    }

    /// The northern (smallest) row.
    pub closed spec fn north(&self) -> int {
        self.y1 as int
    }

    /// The southern (largest) row.
    pub closed spec fn south(&self) -> int {
        self.y0 as int
    }

    /// The number of tiles already produced.
    pub closed spec fn produced(&self) -> int {
        match self.cursor {
            Cursor::At { x, y } => (y - self.y1) * self.width() + (x - self.x0),
            Cursor::Exhausted => self.width() * self.height(),
        }
    }

    /// The corners are ordered, each side's length fits in a `u64`, and the
    /// cursor lies in the rectangle.
    pub closed spec fn wf(&self) -> bool {
        &&& self.x0 <= self.x1
        &&& self.y1 <= self.y0
        &&& self.x1 - self.x0 < u64::MAX
        &&& self.y0 - self.y1 < u64::MAX
        &&& match self.cursor {
            Cursor::At { x, y } => self.x0 <= x <= self.x1 && self.y1 <= y <= self.y0,
            Cursor::Exhausted => true,
        }
    }

    /// The number of columns.
    pub open spec fn width(&self) -> int {
        self.east() - self.west() + 1
    }

    /// The number of rows.
    pub open spec fn height(&self) -> int {
        self.south() - self.north() + 1
    }

    /// The tile at position `k` of the row-major scan.
    pub open spec fn cell(&self, k: int) -> (int, int) {
        (self.west() + k % self.width(), self.north() + k / self.width())
    }

    /// The URLs still to come, in order.
    pub open spec fn urls_left(&self) -> Seq<Seq<char>> {
        Seq::new(
            (self.width() * self.height() - self.produced()) as nat,
            |k: int|
                self.server().url_spec(
                    self.cell(self.produced() + k).0 as nat,
                    self.cell(self.produced() + k).1 as nat,
                ),
        )
    }

    /// A scan of the rectangle spanned by the tiles `(x0, y0)` and `(x1, y1)`.
    /// The corners may come in either order: the rectangle runs from the
    /// smaller to the larger column and row of the two.
    pub fn new(tsu: TailServerUrl, x0: u64, y0: u64, x1: u64, y1: u64) -> (r: TailServerUrlIter)
        requires
            x1 - x0 < u64::MAX,
            x0 - x1 < u64::MAX,
            y1 - y0 < u64::MAX,
            y0 - y1 < u64::MAX,
        ensures
            r.wf(),
            r.server() == tsu,
            r.west() == if x0 <= x1 { x0 } else { x1 },
            r.east() == if x0 <= x1 { x1 } else { x0 },
            r.north() == if y1 <= y0 { y1 } else { y0 },
            r.south() == if y1 <= y0 { y0 } else { y1 },
            r.produced() == 0,
    {
        let (west, east) = if x0 <= x1 { (x0, x1) } else { (x1, x0) };
        let (north, south) = if y1 <= y0 { (y1, y0) } else { (y0, y1) };
        let r = TailServerUrlIter {
            tsu,
            cursor: Cursor::At { x: west, y: north },
            x0: west,
            y0: south,
            x1: east,
            y1: north,
        };
        assert(0int * r.width() == 0) by (nonlinear_arith);
        r
    }

    /// The number of columns and the number of rows of the rectangle.
    pub fn size(&self) -> (r: (u64, u64))
        requires
            self.wf(),
        ensures
            r.0 == self.width(),
            r.1 == self.height(),
    {
        (self.x1 - self.x0 + 1, self.y0 - self.y1 + 1)
    }

    /// The URL of the next tile, or `None` once every tile has been produced;
    /// from then on every call returns `None` and changes nothing.
    pub fn next(&mut self) -> (r: Option<String>)
        requires
            old(self).wf(),
        ensures
            final(self).wf(),
            final(self).server() == old(self).server(),
            final(self).west() == old(self).west(),
            final(self).east() == old(self).east(),
            final(self).north() == old(self).north(),
            final(self).south() == old(self).south(),
            old(self).urls_left().len() == 0 ==> r is None && *final(self) == *old(self),
            old(self).urls_left().len() > 0 ==> {
                &&& r is Some
                &&& r->0@ == old(self).urls_left()[0]
                &&& final(self).produced() == old(self).produced() + 1
                &&& final(self).urls_left() == old(self).urls_left().drop_first()
            },
    {
        match self.cursor {
            Cursor::Exhausted => None,
            Cursor::At { x, y } => {
                let ghost old_self = *self;
                let ghost w = self.width();
                let ghost h = self.height();
                let ghost p = self.produced();
                proof {
                    lemma_fundamental_div_mod_converse(p, w, y - self.y1, x - self.x0);
                    lemma_mul_inequality(y - self.y1 + 1, h, w);
                    lemma_mul_is_distributive_add_other_way(w, y - self.y1, 1);
                    assert(h * w == w * h) by (nonlinear_arith);
                }
                let u = self.tsu.url(x, y);
                if x < self.x1 {
                    self.cursor = Cursor::At { x: x + 1, y };
                } else if y < self.y0 {
                    self.cursor = Cursor::At { x: self.x0, y: y + 1 };
                } else {
                    self.cursor = Cursor::Exhausted;
                }
                assert(self.produced() == p + 1);
                assert(self.urls_left() =~= old_self.urls_left().drop_first());
                Some(u)
            },
        }
    }
}

/// A fresh scan of the rectangle from column `a` to column `c` and from row `d`
/// (north) to row `b` (south) reports `c - a + 1` columns and `b - d + 1` rows,
/// and calling `next` until it returns `None` yields exactly columns times rows
/// URLs.
pub proof fn lemma_box_size_and_count(it: TailServerUrlIter, a: u64, b: u64, c: u64, d: u64)
    requires
        it.wf(),
        it.produced() == 0,
        it.west() == a,
        it.south() == b,
        it.east() == c,
        it.north() == d,
        a <= c,
        d <= b,
    ensures
        it.width() == c - a + 1,
        it.height() == b - d + 1,
        it.urls_left().len() == (c - a + 1) * (b - d + 1),
{
    assert(it.width() * it.height() >= 0) by (nonlinear_arith)
        requires
            it.width() >= 1,
            it.height() >= 1,
    ;
}

/// A fresh scan whose corners are the same tile has one column and one row,
/// and yields exactly that tile's URL.
pub proof fn lemma_single_cell(it: TailServerUrlIter)
    requires
        it.wf(),
        it.produced() == 0,
        it.west() == it.east(),
        it.north() == it.south(),
    ensures
        it.width() == 1,
        it.height() == 1,
        it.urls_left() == seq![it.server().url_spec(it.west() as nat, it.north() as nat)],
{
    assert(it.cell(0) == (it.west(), it.north()));
    assert(it.urls_left() =~= seq![it.server().url_spec(it.west() as nat, it.north() as nat)]);
}

} // verus!
