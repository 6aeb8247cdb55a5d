use vstd::prelude::*;
use crate::grid::PixelGrid;

verus! {

/// Magnitude of the difference of two samples.
pub open spec fn diff_mag(a: u8, b: u8) -> int {
    if a >= b {
        a - b
    } else {
        b - a
    }
}

/// `|dx| + |dy|` at interior pixel `(x, y)`: the absolute horizontal and
/// vertical central first differences of the row-major samples `d`.
pub open spec fn grad_at(d: Seq<u8>, w: int, x: int, y: int) -> int {
    diff_mag(d[y * w + x + 1], d[y * w + x - 1]) + diff_mag(d[(y + 1) * w + x], d[(y - 1) * w + x])
}

/// Gradient magnitudes of row `y`, summed over columns `1 <= x < k`.
pub open spec fn row_energy_to(d: Seq<u8>, w: int, y: int, k: int) -> int
    decreases k,
{
    if k <= 1 {
        0
    } else {
        row_energy_to(d, w, y, k - 1) + grad_at(d, w, k - 1, y)
    }
}

/// Interior rows `1 <= y < m`, each summed over columns `1 <= x < w - 1`.
pub open spec fn rows_energy_to(d: Seq<u8>, w: int, m: int) -> int
    decreases m,
{
    if m <= 1 {
        0
    } else {
        rows_energy_to(d, w, m - 1) + row_energy_to(d, w, m - 1, w - 1)
    }
}

/// Total gradient energy of a `w` by `h` grid: the sum of `|dx| + |dy|`
/// over all interior pixels, and 0 when there is no interior.  The
/// reported frequency-energy figure equals this total divided by the
/// full area `w·h`, so the integer total carries it exactly.
pub open spec fn gradient_total_of(w: int, h: int, d: Seq<u8>) -> int {
    if w < 3 || h < 3 {
        0
    } else {
        rows_energy_to(d, w, h - 1)
    }
}

/// A grid with no interior — width or height below 3 — has gradient
/// energy exactly 0; in particular every 1×1, 1×N and N×1 grid does.
pub proof fn lemma_no_interior_zero_energy(w: int, h: int, d: Seq<u8>)
    requires
        w < 3 || h < 3,
    ensures
        gradient_total_of(w, h, d) == 0,
{
}

/// All four neighbor indices read at an interior pixel stay inside the
/// sample vector.
proof fn lemma_interior_index_bounds(w: int, h: int, x: int, y: int)
    requires
        3 <= w,
        3 <= h,
        1 <= x <= w - 2,
        1 <= y <= h - 2,
    ensures
        1 <= y * w + x - 1,
        y * w + x + 1 < w * h,
        1 <= (y - 1) * w + x,
        (y - 1) * w + x < w * h,
        (y + 1) * w + x < w * h,
{
    assert(1 <= y * w + x - 1 && y * w + x + 1 < w * h && 1 <= (y - 1) * w + x && (y - 1) * w + x
        < w * h && (y + 1) * w + x < w * h) by (nonlinear_arith)
        requires
            3 <= w,
            3 <= h,
            1 <= x <= w - 2,
            1 <= y <= h - 2,
    ;
}

/// On a uniform grid every central difference vanishes, row by row.
proof fn lemma_uniform_row_zero(d: Seq<u8>, w: int, h: int, c: u8, y: int, k: int)
    requires
        3 <= w,
        3 <= h,
        d.len() == w * h,
        forall|i: int| 0 <= i < d.len() ==> d[i] == c,
        1 <= y <= h - 2,
        k <= w - 1,
    ensures
        row_energy_to(d, w, y, k) == 0,
    decreases k,
{
    if k > 1 {
        lemma_uniform_row_zero(d, w, h, c, y, k - 1);
        lemma_interior_index_bounds(w, h, k - 1, y);
        assert(d[y * w + (k - 1) + 1] == c);
        assert(d[y * w + (k - 1) - 1] == c);
        assert(d[(y + 1) * w + (k - 1)] == c);
        assert(d[(y - 1) * w + (k - 1)] == c);
        assert(grad_at(d, w, k - 1, y) == 0);
    }
}

proof fn lemma_uniform_rows_zero(d: Seq<u8>, w: int, h: int, c: u8, m: int)
    requires
        3 <= w,
        3 <= h,
        d.len() == w * h,
        forall|i: int| 0 <= i < d.len() ==> d[i] == c,
        m <= h - 1,
    ensures
        rows_energy_to(d, w, m) == 0,
    decreases m,
{
    if m > 1 {
        lemma_uniform_rows_zero(d, w, h, c, m - 1);
        lemma_uniform_row_zero(d, w, h, c, m - 1, w - 1);
    }
}

/// A uniform grid — every sample equal to `c` — has gradient energy 0.
pub proof fn lemma_uniform_zero_energy(w: int, h: int, d: Seq<u8>, c: u8)
    requires
        1 <= w,
        1 <= h,
        d.len() == w * h,
        forall|i: int| 0 <= i < d.len() ==> d[i] == c,
    ensures
        gradient_total_of(w, h, d) == 0,
{
    if w >= 3 && h >= 3 {
        lemma_uniform_rows_zero(d, w, h, c, h - 1);
    }
}

/// Sums `|dx| + |dy|` over every interior pixel of the grid in one
/// row-major pass, reading no sample outside the grid.
pub fn gradient_total(g: &PixelGrid) -> (t: u64)
    requires
        g.wf(),
    ensures
        t == gradient_total_of(g.width as int, g.height as int, g.data@),
        t <= 510 * g.spec_area(),
{
    let w = g.width;
    let h = g.height;
    proof {
        assert(0 <= (w as int) * (h as int)) by (nonlinear_arith)
            requires
                1 <= w as int,
                1 <= h as int,
        ;
    }
    if w < 3 || h < 3 {
        return 0;
    }
    let n = g.data.len();
    let mut acc: u64 = 0;
    let mut y: usize = 1;
    while y < h - 1
        invariant
            w == g.width,
            h == g.height,
            3 <= w,
            3 <= h,
            (w as int) * (h as int) <= crate::AREA_MAX,
            g.data@.len() == (w as int) * (h as int),
            n == g.data@.len(),
            1 <= y <= h - 1,
            acc == rows_energy_to(g.data@, w as int, y as int),
            acc <= 510 * ((y - 1) * ((w - 2) as int)),
        decreases h - y,
    {
        let mut x: usize = 1;
        while x < w - 1
            invariant
                w == g.width,
                h == g.height,
                3 <= w,
                3 <= h,
                (w as int) * (h as int) <= crate::AREA_MAX,
                g.data@.len() == (w as int) * (h as int),
                n == g.data@.len(),
                1 <= y <= h - 2,
                1 <= x <= w - 1,
                acc == rows_energy_to(g.data@, w as int, y as int) + row_energy_to(
                    g.data@,
                    w as int,
                    y as int,
                    x as int,
                ),
                acc <= 510 * ((y - 1) * ((w - 2) as int) + (x - 1)),
            decreases w - x,
        {
            proof {
                lemma_interior_index_bounds(w as int, h as int, x as int, y as int);
                assert(510 * ((y - 1) * ((w - 2) as int) + x) <= 510 * ((w as int) * (h as int)))
                    by (nonlinear_arith)
                    requires
                        3 <= w as int,
                        3 <= h as int,
                        1 <= x as int <= w - 2,
                        1 <= y as int <= h - 2,
                ;
            }
            let i_right = y * w + x + 1;
            let i_left = y * w + x - 1;
            let i_down = (y + 1) * w + x;
            let i_up = (y - 1) * w + x;
            let pa = g.data[i_right];
            let pb = g.data[i_left];
            let pc = g.data[i_down];
            let pe = g.data[i_up];
            let dx: u64 = if pa >= pb {
                (pa - pb) as u64
            } else {
                (pb - pa) as u64
            };
            let dy: u64 = if pc >= pe {
                (pc - pe) as u64
            } else {
                (pe - pc) as u64
            };
            proof {
                assert(dx + dy == grad_at(g.data@, w as int, x as int, y as int));
                assert(row_energy_to(g.data@, w as int, y as int, x + 1) == row_energy_to(
                    g.data@,
                    w as int,
                    y as int,
                    x as int,
                ) + grad_at(g.data@, w as int, x as int, y as int));
            }
            acc = acc + dx + dy;
            x = x + 1;
        }
        proof {
            assert(rows_energy_to(g.data@, w as int, y + 1) == rows_energy_to(
                g.data@,
                w as int,
                y as int,
            ) + row_energy_to(g.data@, w as int, y as int, (w - 1) as int));
            assert((y - 1) * ((w - 2) as int) + ((w - 2) as int) == y * ((w - 2) as int))
                by (nonlinear_arith);
        }
        y = y + 1;
    }
    proof {
        assert(510 * ((h - 2) as int * ((w - 2) as int)) <= 510 * ((w as int) * (h as int)))
            by (nonlinear_arith)
            requires
                3 <= w as int,
                3 <= h as int,
        ;
    }
    acc
}

} // verus!
