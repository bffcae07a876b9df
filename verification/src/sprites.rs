//! Sprite sheets: where each frame of a sheet lies, which frames an idle
//! animation shows, and how an animation steps through them.
use vstd::prelude::*;

verus! {

/// How the frames of a sheet are arranged.
#[derive(Clone, Copy, Debug, PartialEq, Eq)]
pub enum LayoutType {
    /// `rows` rows of `cols` frames, read row by row from the top.
    Grid { cols: u32, rows: u32 },
    /// One row, left to right.
    Horizontal,
    /// One column, top to bottom.
    Vertical,
}

/// The layout of a sprite sheet.
#[derive(Clone, Copy, Debug, PartialEq, Eq)]
pub struct FrameLayout {
    /// Width and height of one frame, in pixels.
    pub frame_size: (u32, u32),
    /// Number of frames of a single-row or single-column sheet.
    pub frame_count: u32,
    pub layout: LayoutType,
}

/// The frame origins of one grid row, counted from the top as `row`, in a
/// sheet of `rows` rows: the origin's y is measured from the bottom.
pub open spec fn grid_row(cols: nat, rows: nat, row: nat, w: nat, h: nat) -> Seq<(int, int)> {
    Seq::new(cols, |c: int| (c * w, (rows - 1 - row) * h))
}

/// The frame origins of the first `n` rows of a grid, row by row.
pub open spec fn grid_rows(cols: nat, rows: nat, n: nat, w: nat, h: nat) -> Seq<(int, int)>
    decreases n,
{
    if n == 0 {
        seq![]
    } else {
        grid_rows(cols, rows, (n - 1) as nat, w, h) + grid_row(cols, rows, (n - 1) as nat, w, h)
    }
}

/// The bottom-left pixel origin of each frame of a sheet, in frame order
/// (the sprite rectangle's origin is at the bottom left of the sheet).
pub open spec fn frame_origins(l: FrameLayout) -> Seq<(int, int)> {
    let w = l.frame_size.0 as nat;
    let h = l.frame_size.1 as nat;
    match l.layout {
        LayoutType::Grid { cols, rows } => grid_rows(cols as nat, rows as nat, rows as nat, w, h),
        LayoutType::Horizontal => Seq::new(l.frame_count as nat, |i: int| (i * w, 0)),
        LayoutType::Vertical => Seq::new(l.frame_count as nat, |i: int| (0, (l.frame_count - 1 - i) * h)),
    }
}

/// Views of pixel origins.
pub open spec fn origin_views(v: Seq<(u64, u64)>) -> Seq<(int, int)> {
    v.map_values(|p: (u64, u64)| (p.0 as int, p.1 as int))
}

proof fn lemma_product_fits(a: u32, b: u32)
    ensures
        (a as int) * (b as int) <= u64::MAX,
        0 <= (a as int) * (b as int),
{
    assert((a as int) * (b as int) <= 0xFFFF_FFFF * 0xFFFF_FFFF) by (nonlinear_arith)
        requires
            a <= 0xFFFF_FFFF,
            b <= 0xFFFF_FFFF,
    ;
    assert(0 <= (a as int) * (b as int)) by (nonlinear_arith);
}

/// The pixel origin of every frame of a sheet (`generate_grid_coordinates`).
pub fn generate_grid_coordinates(l: &FrameLayout) -> (r: Vec<(u64, u64)>)
    ensures
        origin_views(r@) == frame_origins(*l),
{
    let w = l.frame_size.0;
    let h = l.frame_size.1;
    let mut r: Vec<(u64, u64)> = Vec::new();
    match l.layout {
        LayoutType::Grid { cols, rows } => {
            for row in 0..rows
                invariant
                    origin_views(r@) == grid_rows(cols as nat, rows as nat, row as nat, w as nat, h as nat),
            {
                let inv_row = rows - 1 - row;
                let ghost before = origin_views(r@);
                for col in 0..cols
                    invariant
                        inv_row == rows - 1 - row,
                        origin_views(r@) == before + grid_row(cols as nat, rows as nat, row as nat, w as nat, h as nat).take(col as int),
                {
                    proof {
                        lemma_product_fits(col, w);
                        lemma_product_fits(inv_row, h);
                    }
                    let x = (col as u64) * (w as u64);
                    let y = (inv_row as u64) * (h as u64);
                    let ghost rv = origin_views(r@);
                    r.push((x, y));
                    proof {
                        assert(origin_views(r@) =~= rv.push((x as int, y as int)));
                        assert(x as int == col as int * w as int);
                        assert(y as int == (rows - 1 - row) * h as int);
                        let g = grid_row(cols as nat, rows as nat, row as nat, w as nat, h as nat);
                        assert(g.take(col + 1) =~= g.take(col as int).push(g[col as int]));
                        assert(origin_views(r@) =~= before + g.take(col + 1));
                    }
                }
                proof {
                    let g = grid_row(cols as nat, rows as nat, row as nat, w as nat, h as nat);
                    assert(g.take(cols as int) =~= g);
                }
            }
        },
        LayoutType::Horizontal => {
            for i in 0..l.frame_count
                invariant
                    w == l.frame_size.0,
                    origin_views(r@) == Seq::new(i as nat, |j: int| (j * w, 0int)),
            {
                proof {
                    lemma_product_fits(i, w);
                }
                let x = (i as u64) * (w as u64);
                let ghost rv = origin_views(r@);
                r.push((x, 0));
                assert(origin_views(r@) =~= rv.push((x as int, 0int)));
                assert(origin_views(r@) =~= Seq::new((i + 1) as nat, |j: int| (j * w, 0int)));
            }
        },
        LayoutType::Vertical => {
            let n = l.frame_count;
            for i in 0..n
                invariant
                    h == l.frame_size.1,
                    n == l.frame_count,
                    origin_views(r@) == Seq::new(i as nat, |j: int| (0int, (n - 1 - j) * h)),
            {
                let inv_i = n - 1 - i;
                proof {
                    lemma_product_fits(inv_i, h);
                }
                let y = (inv_i as u64) * (h as u64);
                let ghost rv = origin_views(r@);
                r.push((0, y));
                assert(origin_views(r@) =~= rv.push((0int, y as int)));
                assert(origin_views(r@) =~= Seq::new((i + 1) as nat, |j: int| (0int, (n - 1 - j) * h)));
            }
        },
    }
    r
}

proof fn lemma_grid_rows(cols: nat, rows: nat, n: nat, w: nat, h: nat)
    ensures
        grid_rows(cols, rows, n, w, h).len() == n * cols,
        forall|r: nat, c: nat| r < n && c < cols ==> #[trigger] grid_rows(cols, rows, n, w, h)[(r * cols + c) as int]
            == ((c * w) as int, (rows - 1 - r) * h),
    decreases n,
{
    if n > 0 {
        let m = (n - 1) as nat;
        lemma_grid_rows(cols, rows, m, w, h);
        assert(m * cols + cols == n * cols) by (nonlinear_arith)
            requires
                m + 1 == n,
        ;
        assert(grid_rows(cols, rows, n, w, h) == grid_rows(cols, rows, m, w, h) + grid_row(cols, rows, m, w, h));
        assert(grid_row(cols, rows, m, w, h).len() == cols);
        assert forall|r: nat, c: nat| r < n && c < cols implies #[trigger] grid_rows(cols, rows, n, w, h)[(r * cols + c) as int]
            == ((c * w) as int, (rows - 1 - r) * h) by {
            let g = grid_rows(cols, rows, n, w, h);
            if r < m {
                assert(r * cols + c < m * cols) by (nonlinear_arith)
                    requires
                        r < m,
                        c < cols,
                ;
                assert(g[(r * cols + c) as int] == grid_rows(cols, rows, m, w, h)[(r * cols + c) as int]);
            } else {
                assert(r == m);
                assert(g[(r * cols + c) as int] == grid_row(cols, rows, m, w, h)[c as int]);
            }
        }
    } else {
        assert(0 * cols == 0) by (nonlinear_arith);
    }
}

/// A grid sheet has `rows * cols` frames, and the frame in row `r` (from
/// the top) and column `c` is number `r * cols + c`, at `(c * w, (rows - 1
/// - r) * h)` for frames of `w` by `h` pixels.
pub proof fn law_grid_frame_position(l: FrameLayout, cols: u32, rows: u32, r: nat, c: nat)
    requires
        l.layout == (LayoutType::Grid { cols, rows }),
        r < rows,
        c < cols,
    ensures
        frame_origins(l).len() == rows * cols,
        frame_origins(l)[r * cols + c] == (c * l.frame_size.0, (rows - 1 - r) * l.frame_size.1),
{
    let w = l.frame_size.0 as nat;
    let h = l.frame_size.1 as nat;
    lemma_grid_rows(cols as nat, rows as nat, rows as nat, w, h);
    assert(grid_rows(cols as nat, rows as nat, rows as nat, w, h)[(r * (cols as nat) + c) as int] == ((c * w) as int, (rows - 1 - r) * h));
}

/// The origins an animation shows, one per entry of `frames`: each frame
/// number clamped to the last frame of the sheet.
pub open spec fn idle_origins(frames: Seq<usize>, origins: Seq<(int, int)>) -> Seq<(int, int)> {
    Seq::new(frames.len(), |i: int| origins[if frames[i] < origins.len() { frames[i] as int } else { origins.len() - 1 }])
}

/// The origins of the frames an animation shows, in order; a frame number
/// past the sheet shows the last frame.
pub fn idle_frame_coords(frames: &Vec<usize>, coords: &Vec<(u64, u64)>) -> (r: Vec<(u64, u64)>)
    requires
        coords@.len() > 0 || frames@.len() == 0,
    ensures
        origin_views(r@) == idle_origins(frames@, origin_views(coords@)),
{
    let mut r: Vec<(u64, u64)> = Vec::new();
    let last = if coords.len() > 0 { coords.len() - 1 } else { 0 };
    for k in 0..frames.len()
        invariant
            coords@.len() > 0 || frames@.len() == 0,
            last == (if coords@.len() > 0 { coords@.len() - 1 } else { 0 }),
            origin_views(r@) == idle_origins(frames@, origin_views(coords@)).take(k as int),
    {
        let idx = frames[k];
        let i = if idx < last { idx } else { last };
        let ghost rv = origin_views(r@);
        r.push(coords[i]);
        proof {
            let t = idle_origins(frames@, origin_views(coords@));
            assert(t.take(k + 1) =~= t.take(k as int).push(t[k as int]));
            assert(origin_views(r@) =~= rv.push((coords@[i as int].0 as int, coords@[i as int].1 as int)));
        }
    }
    proof {
        let t = idle_origins(frames@, origin_views(coords@));
        assert(t.take(frames@.len() as int) =~= t);
    }
    r
}

/// The next frame of a looping animation of `frame_count` frames.
pub fn next_animation_frame(current: usize, frame_count: usize) -> (r: usize)
    requires
        frame_count > 0,
        current < usize::MAX,
    ensures
        r == (current + 1) % (frame_count as int),
        r < frame_count,
{
    (current + 1) % frame_count
}

/// The sheet frame an animation shows at step `current`: its frame list
/// taken cyclically, or `current` itself when the list is empty.
pub fn sheet_frame_index(frames: &Vec<usize>, current: usize) -> (r: usize)
    ensures
        r == (if frames@.len() == 0 { current } else { frames@[(current as int) % (frames@.len() as int)] }),
{
    if frames.len() > 0 {
        frames[current % frames.len()]
    } else {
        current
    }
}

/// The sheet frame shown first when a critter appears: the first frame of
/// its animation, or frame 0.
pub fn first_sheet_frame(frames: &Vec<usize>) -> (r: usize)
    ensures
        r == (if frames@.len() == 0 { 0 } else { frames@[0] }),
{
    if frames.len() > 0 {
        frames[0]
    } else {
        0
    }
}

/// The largest origin coordinate a sheet of 32-bit sizes can have.
pub open spec fn origin_bound() -> int {
    0xFFFF_FFFE_0000_0001
}

/// The rectangle of sheet frame `index` of frames `frame_size` big: from
/// its origin to its origin plus the frame size; `None` past the sheet.
pub open spec fn frame_rect_of(origins: Seq<(int, int)>, index: int, frame_size: (u32, u32)) -> Option<((int, int), (int, int))> {
    if 0 <= index < origins.len() {
        Some((origins[index], (origins[index].0 + frame_size.0, origins[index].1 + frame_size.1)))
    } else {
        None
    }
}

/// The rectangle a sprite shows for sheet frame `index`.
pub fn frame_rect(coords: &Vec<(u64, u64)>, index: usize, frame_size: (u32, u32)) -> (r: Option<((u64, u64), (u64, u64))>)
    requires
        forall|i: int| 0 <= i < coords@.len() ==> coords@[i].0 <= origin_bound() && coords@[i].1 <= origin_bound(),
    ensures
        match r {
            Some(((x0, y0), (x1, y1))) => frame_rect_of(origin_views(coords@), index as int, frame_size)
                == Some(((x0 as int, y0 as int), (x1 as int, y1 as int))),
            None => frame_rect_of(origin_views(coords@), index as int, frame_size) is None,
        },
{
    if index < coords.len() {
        let (x, y) = coords[index];
        Some(((x, y), (x + frame_size.0 as u64, y + frame_size.1 as u64)))
    } else {
        None
    }
}

/// Every origin of a sheet stays within [`origin_bound`].
pub proof fn lemma_origins_bounded(l: FrameLayout)
    ensures
        forall|i: int| 0 <= i < frame_origins(l).len() ==> 0 <= #[trigger] frame_origins(l)[i].0 <= origin_bound()
            && 0 <= frame_origins(l)[i].1 <= origin_bound(),
{
    let w = l.frame_size.0 as nat;
    let h = l.frame_size.1 as nat;
    match l.layout {
        LayoutType::Grid { cols, rows } => {
            lemma_grid_rows_bounded(cols as nat, rows as nat, rows as nat, w, h);
        },
        LayoutType::Horizontal => {
            assert forall|i: int| 0 <= i < frame_origins(l).len() implies 0 <= #[trigger] frame_origins(l)[i].0 <= origin_bound()
                && 0 <= frame_origins(l)[i].1 <= origin_bound() by {
                lemma_small_product(i, w as int);
            }
        },
        LayoutType::Vertical => {
            assert forall|i: int| 0 <= i < frame_origins(l).len() implies 0 <= #[trigger] frame_origins(l)[i].0 <= origin_bound()
                && 0 <= frame_origins(l)[i].1 <= origin_bound() by {
                lemma_small_product(l.frame_count - 1 - i, h as int);
            }
        },
    }
}

proof fn lemma_small_product(a: int, b: int)
    requires
        0 <= a < 0x1_0000_0000,
        0 <= b < 0x1_0000_0000,
    ensures
        0 <= a * b <= origin_bound(),
{
    assert(0 <= a * b <= 0xFFFF_FFFF * 0xFFFF_FFFF) by (nonlinear_arith)
        requires
            0 <= a <= 0xFFFF_FFFF,
            0 <= b <= 0xFFFF_FFFF,
    ;
}

proof fn lemma_grid_rows_bounded(cols: nat, rows: nat, n: nat, w: nat, h: nat)
    requires
        cols < 0x1_0000_0000,
        rows < 0x1_0000_0000,
        n <= rows,
        w < 0x1_0000_0000,
        h < 0x1_0000_0000,
    ensures
        forall|i: int| 0 <= i < grid_rows(cols, rows, n, w, h).len() ==> 0 <= #[trigger] grid_rows(cols, rows, n, w, h)[i].0 <= origin_bound()
            && 0 <= grid_rows(cols, rows, n, w, h)[i].1 <= origin_bound(),
    decreases n,
{
    if n > 0 {
        let m = (n - 1) as nat;
        lemma_grid_rows_bounded(cols, rows, m, w, h);
        let g = grid_rows(cols, rows, n, w, h);
        let prev = grid_rows(cols, rows, m, w, h);
        let row = grid_row(cols, rows, m, w, h);
        assert(g == prev + row);
        assert forall|i: int| 0 <= i < g.len() implies 0 <= #[trigger] g[i].0 <= origin_bound() && 0 <= g[i].1 <= origin_bound() by {
            if i < prev.len() {
                assert(g[i] == prev[i]);
            } else {
                let c = i - prev.len();
                assert(g[i] == row[c]);
                lemma_small_product(c, w as int);
                lemma_small_product(rows - 1 - m, h as int);
            }
        }
    }
}

} // verus!
