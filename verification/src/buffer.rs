//! In-memory pixel buffers and the primitive spatial operations on them.
//!
//! A buffer is modeled as a grid of pixels, each pixel a short sequence of
//! bytes; the operations only rearrange pixels, so bit depth and channel count
//! pass through unchanged.

use vstd::prelude::*;

verus! {

/// The mathematical model of a pixel buffer: the byte count of one pixel
/// together with the grid of pixels, indexed `grid[y][x]`.
pub ghost struct GridView {
    pub bpp: nat,
    pub width: nat,
    pub grid: Seq<Seq<Seq<u8>>>,
}

impl GridView {
    pub open spec fn height(self) -> nat {
        self.grid.len()
    }

    /// Every row has the stated width and every pixel the stated byte count.
    pub open spec fn wf(self) -> bool {
        &&& forall|y: int|
            0 <= y < self.grid.len() ==> (#[trigger] self.grid[y]).len() == self.width
        &&& forall|y: int, x: int|
            0 <= y < self.grid.len() && 0 <= x < self.width
                ==> (#[trigger] self.grid[y][x]).len() == self.bpp
    }
}

/// The grid described by a row-major byte sequence: pixel `(x, y)` occupies the
/// bytes at `(y * width + x) * bpp` onward.
pub open spec fn grid_of(width: nat, height: nat, bpp: nat, bytes: Seq<u8>) -> GridView {
    GridView {
        bpp: bpp,
        width: width,
        grid: Seq::new(
            height,
            |y: int|
                Seq::new(
                    width,
                    |x: int| Seq::new(bpp, |k: int| bytes[(y * width + x) * bpp + k]),
                ),
        ),
    }
}

/// A grid built from a byte sequence is well formed, whatever the bytes.
pub proof fn lemma_grid_of_wf(width: nat, height: nat, bpp: nat, bytes: Seq<u8>)
    ensures
        grid_of(width, height, bpp, bytes).wf(),
        grid_of(width, height, bpp, bytes).width == width,
        grid_of(width, height, bpp, bytes).height() == height,
        grid_of(width, height, bpp, bytes).bpp == bpp,
{
}

/// The grid reads only the first `width * height * bpp` bytes, so a sequence
/// and its exact prefix describe the same grid.
pub proof fn lemma_grid_of_prefix(width: nat, height: nat, bpp: nat, bytes: Seq<u8>, n: nat)
    requires
        n == width * height * bpp,
        n <= bytes.len(),
    ensures
        grid_of(width, height, bpp, bytes.subrange(0, n as int)) == grid_of(
            width,
            height,
            bpp,
            bytes,
        ),
{
    let a = grid_of(width, height, bpp, bytes.subrange(0, n as int));
    let c = grid_of(width, height, bpp, bytes);
    assert forall|y: int, x: int|
        0 <= y < height && 0 <= x < width implies #[trigger] a.grid[y][x] == c.grid[y][x] by {
        lemma_pixel_index(x, y, width as int, height as int, bpp as int);
        assert forall|k: int| 0 <= k < bpp implies a.grid[y][x][k] == c.grid[y][x][k] by {
            assert(0 <= (y * width + x) * bpp + k < n);
        }
        assert(a.grid[y][x] =~= c.grid[y][x]);
    }
    assert(a.grid =~~= c.grid);
}

/// One primitive spatial operation on a pixel grid. Rotations are clockwise
/// quarter- or half-turns.
#[derive(Clone, Copy, PartialEq, Eq, Structural, Debug)]
pub enum Operation {
    FlipHorizontal,
    FlipVertical,
    Rotate90,
    Rotate180,
    Rotate270,
}

/// Width of the result of `op` on a `w`-by-`h` grid: quarter-turns swap the sides.
pub open spec fn out_width(op: Operation, w: nat, h: nat) -> nat {
    match op {
        Operation::Rotate90 | Operation::Rotate270 => h,
        _ => w,
    }
}

/// Height of the result of `op` on a `w`-by-`h` grid.
pub open spec fn out_height(op: Operation, w: nat, h: nat) -> nat {
    match op {
        Operation::Rotate90 | Operation::Rotate270 => w,
        _ => h,
    }
}

/// The x coordinate in a `w`-by-`h` source grid of the pixel that `op` places
/// at `(x, y)` of its result.
pub open spec fn src_x(op: Operation, x: int, y: int, w: int, h: int) -> int {
    match op {
        Operation::FlipHorizontal => w - 1 - x,
        Operation::FlipVertical => x,
        Operation::Rotate90 => y,
        Operation::Rotate180 => w - 1 - x,
        Operation::Rotate270 => w - 1 - y,
    }
}

/// The y coordinate in a `w`-by-`h` source grid of the pixel that `op` places
/// at `(x, y)` of its result.
pub open spec fn src_y(op: Operation, x: int, y: int, w: int, h: int) -> int {
    match op {
        Operation::FlipHorizontal => y,
        Operation::FlipVertical => h - 1 - y,
        Operation::Rotate90 => h - 1 - x,
        Operation::Rotate180 => h - 1 - y,
        Operation::Rotate270 => x,
    }
}

/// The result of one primitive operation on a grid: pixel `(x, y)` of the
/// result is pixel `(src_x, src_y)` of the source.
pub open spec fn remap_grid(op: Operation, g: GridView) -> GridView {
    let w = g.width as int;
    let h = g.height() as int;
    GridView {
        bpp: g.bpp,
        width: out_width(op, g.width, g.height()),
        grid: Seq::new(
            out_height(op, g.width, g.height()),
            |y: int|
                Seq::new(
                    out_width(op, g.width, g.height()),
                    |x: int| g.grid[src_y(op, x, y, w, h)][src_x(op, x, y, w, h)],
                ),
        ),
    }
}

/// The source coordinates of every in-range result position are themselves in
/// range, and the remapped grid is well formed with the expected dimensions.
pub proof fn lemma_remap_wf(op: Operation, g: GridView)
    requires
        g.wf(),
    ensures
        remap_grid(op, g).wf(),
        remap_grid(op, g).bpp == g.bpp,
        remap_grid(op, g).width == out_width(op, g.width, g.height()),
        remap_grid(op, g).height() == out_height(op, g.width, g.height()),
{
    let r = remap_grid(op, g);
    let w = g.width as int;
    let h = g.height() as int;
    assert forall|y: int, x: int|
        0 <= y < r.grid.len() && 0 <= x < r.width implies (#[trigger] r.grid[y][x]).len()
        == r.bpp by {
        let sx = src_x(op, x, y, w, h);
        let sy = src_y(op, x, y, w, h);
        assert(0 <= sy < h && 0 <= sx < w);
        assert(g.grid[sy].len() == g.width);
    }
}

/// Pixel `(x, y)` of a remapped grid, written out over the source grid.
pub proof fn lemma_remap_pixel(op: Operation, g: GridView, x: int, y: int)
    requires
        g.wf(),
        0 <= y < out_height(op, g.width, g.height()),
        0 <= x < out_width(op, g.width, g.height()),
    ensures
        ({
            let w = g.width as int;
            let h = g.height() as int;
            &&& 0 <= src_y(op, x, y, w, h) < h
            &&& 0 <= src_x(op, x, y, w, h) < w
            &&& remap_grid(op, g).grid[y][x] == g.grid[src_y(op, x, y, w, h)][src_x(
                op,
                x,
                y,
                w,
                h,
            )]
        }),
{
}

/// A decoded image: `width * height` pixels of `bytes_per_pixel` bytes each,
/// stored row-major.
#[derive(Debug, Clone, PartialEq, Eq)]
pub struct PixelBuffer {
    pub width: usize,
    pub height: usize,
    pub bytes_per_pixel: usize,
    pub data: Vec<u8>,
}

impl View for PixelBuffer {
    type V = GridView;

    open spec fn view(&self) -> GridView {
        grid_of(
            self.width as nat,
            self.height as nat,
            self.bytes_per_pixel as nat,
            self.data@,
        )
    }
}

proof fn lemma_mul_le(a: int, b: int, c: int)
    requires
        a <= b,
        0 <= c,
    ensures
        a * c <= b * c,
{
    assert(a * c <= b * c) by (nonlinear_arith)
        requires
            a <= b,
            0 <= c,
    ;
}

/// Bounds of the byte range of pixel `(x, y)` inside a `w`-by-`h` grid of
/// `b`-byte pixels laid out row-major.
pub proof fn lemma_pixel_index(x: int, y: int, w: int, h: int, b: int)
    requires
        0 <= x < w,
        0 <= y < h,
        0 <= b,
    ensures
        0 <= y * w + x < w * h,
        0 <= (y * w + x) * b,
        (y * w + x) * b + b <= w * h * b,
{
    assert(0 <= y * w + x < w * h) by (nonlinear_arith)
        requires
            0 <= x < w,
            0 <= y < h,
    ;
    assert((y * w + x) * b + b == (y * w + x + 1) * b) by (nonlinear_arith);
    lemma_mul_le(y * w + x + 1, w * h, b);
    assert(0 <= (y * w + x) * b) by (nonlinear_arith)
        requires
            0 <= y * w + x,
            0 <= b,
    ;
}

/// Pixel `(x1, y1)` comes strictly before pixel `(x2, y2)` in row-major order,
/// so its byte range ends no later than the other's begins.
proof fn lemma_pixel_order(y1: int, x1: int, y2: int, x2: int, cols: int, b: int)
    requires
        0 <= x1 < cols,
        0 <= x2,
        0 <= y1,
        0 <= b,
        y1 < y2 || (y1 == y2 && x1 < x2),
    ensures
        (y1 * cols + x1) * b + b <= (y2 * cols + x2) * b,
{
    assert(y1 * cols + x1 + 1 <= y2 * cols + x2) by (nonlinear_arith)
        requires
            0 <= x1 < cols,
            0 <= x2,
            0 <= y1,
            y1 < y2 || (y1 == y2 && x1 < x2),
    ;
    assert((y1 * cols + x1) * b + b == (y1 * cols + x1 + 1) * b) by (nonlinear_arith);
    lemma_mul_le(y1 * cols + x1 + 1, y2 * cols + x2, b);
}

impl PixelBuffer {
    /// The stored bytes are exactly enough for the stated dimensions, and the
    /// pixel count fits in a machine word.
    pub open spec fn wf(self) -> bool {
        &&& self.data@.len() == self.width * self.height * self.bytes_per_pixel
        &&& self.width * self.height <= usize::MAX
    }

    /// Builds a buffer when the byte count matches the dimensions exactly.
    pub fn new(width: usize, height: usize, bytes_per_pixel: usize, data: Vec<u8>) -> (r: Option<
        PixelBuffer,
    >)
        ensures
            (r is Some) <==> (data@.len() == width * height * bytes_per_pixel && width * height
                <= usize::MAX),
            r matches Some(b) ==> b.wf() && b@ == grid_of(
                width as nat,
                height as nat,
                bytes_per_pixel as nat,
                data@,
            ),
    {
        let len = data.len();
        match width.checked_mul(height) {
            Some(p) => match p.checked_mul(bytes_per_pixel) {
                Some(n) => {
                    if len == n {
                        Some(PixelBuffer { width, height, bytes_per_pixel, data })
                    } else {
                        None
                    }
                },
                None => None,
            },
            None => None,
        }
    }

    pub fn width(&self) -> (r: usize)
        ensures
            r == self@.width,
    {
        self.width
    }

    pub fn height(&self) -> (r: usize)
        ensures
            r == self@.height(),
    {
        self.height
    }

    pub fn bytes_per_pixel(&self) -> (r: usize)
        ensures
            r == self@.bpp,
    {
        self.bytes_per_pixel
    }

    /// The row-major bytes of the buffer: byte `k` of pixel `(x, y)` is at
    /// index `(y * width + x) * bytes_per_pixel + k`.
    pub fn as_bytes(&self) -> (r: &[u8])
        ensures
            r@ == self.data@,
            self.wf() ==> r@.len() == self@.width * self@.height() * self@.bpp,
            forall|y: int, x: int, k: int|
                0 <= y < self@.height() && 0 <= x < self@.width && 0 <= k < self@.bpp
                    ==> #[trigger] self@.grid[y][x][k] == r@[(y * self@.width + x) * self@.bpp + k],
    {
        self.data.as_slice()
    }

    /// Applies one primitive operation, producing the remapped buffer.
    #[verifier::spinoff_prover]
    pub fn remap(&self, op: Operation) -> (r: PixelBuffer)
        requires
            self.wf(),
        ensures
            r.wf(),
            r@ == remap_grid(op, self@),
    {
        let w = self.width;
        let h = self.height;
        let b = self.bytes_per_pixel;
        let (ow, oh) = match op {
            Operation::Rotate90 | Operation::Rotate270 => (h, w),
            _ => (w, h),
        };
        let ghost gv = self@;
        let dlen = self.data.len();
        proof {
            lemma_grid_of_wf(w as nat, h as nat, b as nat, self.data@);
        }
        let mut out: Vec<u8> = Vec::new();
        let mut oy: usize = 0;
        proof {
            assert(0 * (ow as int) * (b as int) == 0) by (nonlinear_arith);
        }
        while oy < oh
            invariant
                self.wf(),
                self.data@.len() == dlen,
                w == self.width,
                h == self.height,
                b == self.bytes_per_pixel,
                gv == self@,
                ow as nat == out_width(op, gv.width, gv.height()),
                oh as nat == out_height(op, gv.width, gv.height()),
                ow * oh == w * h,
                oy <= oh,
                out@.len() == oy * ow * b,
                forall|y: int, x: int, k: int|
                    0 <= y < oy && 0 <= x < ow && 0 <= k < b ==> #[trigger] out@[(y * ow + x) * b
                        + k] == self.data@[(src_y(op, x, y, w as int, h as int) * w + src_x(
                        op,
                        x,
                        y,
                        w as int,
                        h as int,
                    )) * b + k],
            decreases oh - oy,
        {
            let mut ox: usize = 0;
            while ox < ow
                invariant
                    self.wf(),
                    self.data@.len() == dlen,
                    w == self.width,
                    h == self.height,
                    b == self.bytes_per_pixel,
                    gv == self@,
                    ow as nat == out_width(op, gv.width, gv.height()),
                    oh as nat == out_height(op, gv.width, gv.height()),
                    ow * oh == w * h,
                    oy < oh,
                    ox <= ow,
                    out@.len() == (oy * ow + ox) * b,
                    forall|y: int, x: int, k: int|
                        (0 <= y < oy && 0 <= x < ow && 0 <= k < b) || (y == oy && 0 <= x < ox && 0
                            <= k < b) ==> #[trigger] out@[(y * ow + x) * b + k] == self.data@[(
                        src_y(op, x, y, w as int, h as int) * w + src_x(
                            op,
                            x,
                            y,
                            w as int,
                            h as int,
                        )) * b + k],
                decreases ow - ox,
            {
                let (sx, sy) = match op {
                    Operation::FlipHorizontal => (w - 1 - ox, oy),
                    Operation::FlipVertical => (ox, h - 1 - oy),
                    Operation::Rotate90 => (oy, h - 1 - ox),
                    Operation::Rotate180 => (w - 1 - ox, h - 1 - oy),
                    Operation::Rotate270 => (w - 1 - oy, ox),
                };
                proof {
                    assert(sx as int == src_x(op, ox as int, oy as int, w as int, h as int));
                    assert(sy as int == src_y(op, ox as int, oy as int, w as int, h as int));
                    lemma_pixel_index(sx as int, sy as int, w as int, h as int, b as int);
                    lemma_pixel_index(ox as int, oy as int, ow as int, oh as int, b as int);
                }
                let base = (sy * w + sx) * b;
                let ghost obase = (oy * ow + ox) * b;
                let mut k: usize = 0;
                while k < b
                    invariant
                        self.wf(),
                        self.data@.len() == dlen,
                        w == self.width,
                        h == self.height,
                        b == self.bytes_per_pixel,
                        gv == self@,
                        ow as nat == out_width(op, gv.width, gv.height()),
                        oh as nat == out_height(op, gv.width, gv.height()),
                        ow * oh == w * h,
                        oy < oh,
                        ox < ow,
                        k <= b,
                        sx as int == src_x(op, ox as int, oy as int, w as int, h as int),
                        sy as int == src_y(op, ox as int, oy as int, w as int, h as int),
                        0 <= sx < w,
                        0 <= sy < h,
                        base == (sy * w + sx) * b,
                        base + b <= self.data@.len(),
                        obase == (oy * ow + ox) * b,
                        out@.len() == obase + k,
                        forall|j: int| 0 <= j < k ==> #[trigger] out@[obase + j] == self.data@[base
                            + j],
                        forall|y: int, x: int, kk: int|
                            (0 <= y < oy && 0 <= x < ow && 0 <= kk < b) || (y == oy && 0 <= x < ox
                                && 0 <= kk < b) ==> #[trigger] out@[(y * ow + x) * b + kk]
                                == self.data@[(src_y(op, x, y, w as int, h as int) * w + src_x(
                                op,
                                x,
                                y,
                                w as int,
                                h as int,
                            )) * b + kk],
                    decreases b - k,
                {
                    let v = self.data[base + k];
                    out.push(v);
                    proof {
                        assert forall|y: int, x: int, kk: int|
                            (0 <= y < oy && 0 <= x < ow && 0 <= kk < b) || (y == oy && 0 <= x < ox
                                && 0 <= kk < b) implies #[trigger] out@[(y * ow + x) * b + kk]
                            == self.data@[(src_y(op, x, y, w as int, h as int) * w + src_x(
                            op,
                            x,
                            y,
                            w as int,
                            h as int,
                        )) * b + kk] by {
                            lemma_pixel_order(y, x, oy as int, ox as int, ow as int, b as int);
                            lemma_pixel_index(x, y, ow as int, oh as int, b as int);
                        }
                    }
                    k = k + 1;
                }
                ox = ox + 1;
                proof {
                    assert((oy * ow + (ox - 1)) * b + b == (oy * ow + ox) * b) by (nonlinear_arith);
                }
            }
            oy = oy + 1;
            proof {
                assert(((oy - 1) * ow + ow) * b == (oy * ow) * b) by (nonlinear_arith);
                assert((oy * ow) * b == oy * ow * b) by (nonlinear_arith);
            }
        }
        let r = PixelBuffer { width: ow, height: oh, bytes_per_pixel: b, data: out };
        proof {
            let target = remap_grid(op, gv);
            lemma_remap_wf(op, gv);
            assert(r.data@.len() == ow * oh * b) by (nonlinear_arith)
                requires
                    r.data@.len() == oh * ow * b,
            ;
            assert forall|y: int, x: int|
                0 <= y < oh && 0 <= x < ow implies #[trigger] r@.grid[y][x] == target.grid[y][x] by {
                lemma_remap_pixel(op, gv, x, y);
                let sxi = src_x(op, x, y, w as int, h as int);
                let syi = src_y(op, x, y, w as int, h as int);
                lemma_pixel_index(sxi, syi, w as int, h as int, b as int);
                lemma_pixel_index(x, y, ow as int, oh as int, b as int);
                assert forall|k: int| 0 <= k < b implies r@.grid[y][x][k] == target.grid[y][x][k] by {
                    assert(r@.grid[y][x][k] == r.data@[(y * ow + x) * b + k]);
                    assert(target.grid[y][x][k] == gv.grid[syi][sxi][k]);
                    assert(gv.grid[syi][sxi][k] == self.data@[(syi * w + sxi) * b + k]);
                }
                assert(r@.grid[y][x] =~= target.grid[y][x]);
            }
            assert(r@.grid =~~= target.grid);
            assert(r@ == target);
        }
        r
    }
}

/// Law: the grid model determines a well-formed buffer completely — two
/// well-formed buffers with the same model have the same dimensions, the same
/// pixel size and the same stored bytes.
#[verifier::spinoff_prover]
pub proof fn lemma_view_determines_buffer(a: PixelBuffer, c: PixelBuffer)
    requires
        a.wf(),
        c.wf(),
        a@ == c@,
    ensures
        a.width == c.width,
        a.height == c.height,
        a.bytes_per_pixel == c.bytes_per_pixel,
        a.data@ == c.data@,
{
    assert(a@.grid.len() == c@.grid.len());
    assert(a@.grid.len() == a.height as nat);
    assert(c@.grid.len() == c.height as nat);
    assert(a@.width == c@.width && a@.bpp == c@.bpp);
    let w = a.width as int;
    let h = a.height as int;
    let b = a.bytes_per_pixel as int;
    assert(c.width as int == w);
    assert(c.height as int == h);
    assert(c.bytes_per_pixel as int == b);
    assert forall|i: int| 0 <= i < a.data@.len() implies a.data@[i] == c.data@[i] by {
        assert(0 < w && 0 < h && 0 < b) by (nonlinear_arith)
            requires
                0 <= i < w * h * b,
                0 <= w,
                0 <= h,
                0 <= b,
        ;
        let wb = w * b;
        assert(0 < wb) by (nonlinear_arith)
            requires
                0 < w,
                0 < b,
                wb == w * b,
        ;
        assert(i < h * wb) by (nonlinear_arith)
            requires
                i < w * h * b,
                wb == w * b,
        ;
        vstd::arithmetic::div_mod::lemma_remainder(i, wb);
        let y = i / wb;
        let m = i - y * wb;
        vstd::arithmetic::div_mod::lemma_remainder(m, b);
        let x = m / b;
        let k = m - x * b;
        assert(0 <= y && y < h) by (nonlinear_arith)
            requires
                y * wb == i - m,
                0 <= m < wb,
                0 <= i,
                i < w * h * b,
                wb == w * b,
                0 < wb,
        ;
        assert(0 <= x && x < w) by (nonlinear_arith)
            requires
                x * b == m - k,
                0 <= k < b,
                0 <= m < w * b,
                0 < b,
        ;
        assert(i == (y * w + x) * b + k) by (nonlinear_arith)
            requires
                m == x * b + k,
                i == y * (w * b) + m,
        ;
        assert(a@.grid[y][x][k] == a.data@[(y * w + x) * b + k]);
        assert(c@.grid[y][x][k] == c.data@[(y * w + x) * b + k]);
    }
    assert(a.data@ =~= c.data@);
}

} // verus!
