//! The pixels of a planar 4:2:0 frame without the padding of its rows.

use vstd::prelude::*;

verus! {

/// One plane of a frame: rows of bytes, `stride` bytes from one row to the next.
#[derive(Clone, Copy)]
pub struct Plane<'a> {
    pub data: &'a [u8],
    pub stride: usize,
}

/// The `width` bytes at the front of row `row`.
pub open spec fn row_pixels(data: Seq<u8>, stride: int, width: int, row: int) -> Seq<u8> {
    data.subrange(row * stride, row * stride + width)
}

/// The fronts of the first `rows` rows, one after the other.
pub open spec fn plane_pixels(data: Seq<u8>, stride: int, width: int, rows: int) -> Seq<u8>
    decreases rows,
{
    if rows <= 0 {
        Seq::empty()
    } else {
        plane_pixels(data, stride, width, rows - 1) + row_pixels(data, stride, width, rows - 1)
    }
}

/// Whether `len` bytes hold the front of each of the first `rows` rows.
pub open spec fn holds_rows(len: int, stride: int, width: int, rows: int) -> bool {
    rows > 0 ==> (rows - 1) * stride + width <= len
}

impl<'a> Plane<'a> {
    /// The pixels of the plane, row by row.
    pub open spec fn pixels(self, width: int, rows: int) -> Seq<u8> {
        plane_pixels(self.data@, self.stride as int, width, rows)
    }

    /// Whether the plane holds `rows` rows of `width` pixels.
    pub open spec fn covers(self, width: int, rows: int) -> bool {
        holds_rows(self.data@.len() as int, self.stride as int, width, rows)
    }

    /// Whether the plane holds `rows` rows of `width` pixels.
    pub fn holds(&self, width: u32, rows: u32) -> (r: bool)
        ensures
            r == self.covers(width as int, rows as int),
    {
        if rows == 0 {
            return true;
        }
        let last: u128 = (rows - 1) as u128;
        let stride: u128 = self.stride as u128;
        assert(0 <= last * stride <= 0xffff_ffff * 0xffff_ffff_ffff_ffff) by (nonlinear_arith)
            requires
                0 <= last <= 0xffff_ffff,
                0 <= stride <= 0xffff_ffff_ffff_ffff,
        ;
        last * stride + width as u128 <= self.data.len() as u128
    }
}

/// The pixels of a planar 4:2:0 frame: the luma plane at full size, then the
/// two chroma planes at half its width and half its height, rounded down.
pub open spec fn yuv420_pixels(width: int, height: int, y: Plane, u: Plane, v: Plane) -> Seq<u8> {
    y.pixels(width, height) + u.pixels(width / 2, height / 2) + v.pixels(width / 2, height / 2)
}

/// Whether the planes hold every pixel of a frame of this size.
pub open spec fn yuv420_covered(width: int, height: int, y: Plane, u: Plane, v: Plane) -> bool {
    &&& y.covers(width, height)
    &&& u.covers(width / 2, height / 2)
    &&& v.covers(width / 2, height / 2)
}

/// The number of pixel bytes of a planar 4:2:0 frame.
pub open spec fn yuv420_size(width: int, height: int) -> int {
    width * height + 2 * ((width / 2) * (height / 2))
}

/// Appends the pixels of one plane to `out`.
fn append_plane(out: &mut Vec<u8>, plane: &Plane, width: usize, rows: u32)
    requires
        plane.covers(width as int, rows as int),
    ensures
        final(out)@ == old(out)@ + plane.pixels(width as int, rows as int),
{
    let ghost before = out@;
    let stride: usize = plane.stride;
    let len: usize = plane.data.len();
    assert(out@ =~= before + plane.pixels(width as int, 0));
    for row in 0..rows
        invariant
            stride == plane.stride,
            len == plane.data@.len(),
            plane.covers(width as int, rows as int),
            out@ == before + plane.pixels(width as int, row as int),
    {
        proof {
            assert(row * stride + width <= len) by {
                assert(row * stride <= (rows - 1) * stride) by (nonlinear_arith)
                    requires
                        row <= rows - 1,
                        0 <= stride,
                ;
            }
            assert(0 <= row * stride) by (nonlinear_arith)
                requires
                    0 <= row,
                    0 <= stride,
            ;
        }
        let start: usize = row as usize * stride;
        let end: usize = start + width;
        out.extend_from_slice(&plane.data[start..end]);
        assert(out@ =~= before + plane.pixels(width as int, row + 1));
    }
}

/// Copies the pixels of a planar 4:2:0 frame out of its planes, without the
/// padding at the ends of their rows.
pub fn extract_yuv420(width: u32, height: u32, y: &Plane, u: &Plane, v: &Plane) -> (r: Vec<u8>)
    requires
        yuv420_covered(width as int, height as int, *y, *u, *v),
    ensures
        r@ == yuv420_pixels(width as int, height as int, *y, *u, *v),
        r@.len() == yuv420_size(width as int, height as int),
        r@.len() == width * height + 2 * ((width / 2) * (height / 2)),
{
    let mut out: Vec<u8> = Vec::new();
    append_plane(&mut out, y, width as usize, height);
    append_plane(&mut out, u, (width / 2) as usize, height / 2);
    append_plane(&mut out, v, (width / 2) as usize, height / 2);
    proof {
        law_yuv420_size(width as int, height as int, *y, *u, *v);
        assert(out@ =~= yuv420_pixels(width as int, height as int, *y, *u, *v));
    }
    out
}

/// Whether the planes hold every pixel of a frame of this size.
pub fn planes_hold_frame(width: u32, height: u32, y: &Plane, u: &Plane, v: &Plane) -> (r: bool)
    ensures
        r == yuv420_covered(width as int, height as int, *y, *u, *v),
{
    y.holds(width, height) && u.holds(width / 2, height / 2) && v.holds(width / 2, height / 2)
}

/// A plane holds a number of rows exactly if the pixels of every single one of
/// them end within its bytes.
pub proof fn law_rows_held(plane: Plane, width: int, rows: int)
    requires
        0 <= width,
    ensures
        plane.covers(width, rows) <==> forall|row: int|
            0 <= row < rows ==> #[trigger] (row * plane.stride) + width <= plane.data@.len(),
{
    let stride = plane.stride as int;
    if plane.covers(width, rows) {
        assert forall|row: int| 0 <= row < rows implies #[trigger] (row * plane.stride) + width
            <= plane.data@.len() by {
            assert(row * stride <= (rows - 1) * stride) by (nonlinear_arith)
                requires
                    row <= rows - 1,
                    0 <= stride,
            ;
        }
    }
    if rows > 0 {
        let last = rows - 1;
        assert(last * plane.stride == (rows - 1) * stride);
    }
}

/// The planes hold a frame exactly if the luma plane holds all of its rows and
/// each chroma plane holds half as many of half the width.
pub proof fn law_frame_held(width: int, height: int, y: Plane, u: Plane, v: Plane)
    ensures
        yuv420_covered(width, height, y, u, v) <==> y.covers(width, height) && u.covers(
            width / 2,
            height / 2,
        ) && v.covers(width / 2, height / 2),
{
}

/// A plane has `width` pixels in each of its rows.
pub proof fn law_plane_size(data: Seq<u8>, stride: int, width: int, rows: int)
    requires
        0 <= stride,
        0 <= width,
        0 <= rows,
        holds_rows(data.len() as int, stride, width, rows),
    ensures
        plane_pixels(data, stride, width, rows).len() == rows * width,
    decreases rows,
{
    if rows > 0 {
        assert((rows - 1) * stride >= 0 && (rows - 2) * stride <= (rows - 1) * stride && rows
            * width == (rows - 1) * width + width) by (nonlinear_arith)
            requires
                rows >= 1,
                stride >= 0,
        ;
        law_plane_size(data, stride, width, rows - 1);
    } else {
        assert(rows * width == 0) by (nonlinear_arith)
            requires
                rows == 0,
        ;
    }
}

/// Each pixel of a plane stands at its place: column `col` of row `row` is the
/// byte `col` places after the start of that row.
pub proof fn law_plane_pixel(
    data: Seq<u8>,
    stride: int,
    width: int,
    rows: int,
    row: int,
    col: int,
)
    requires
        0 <= stride,
        0 <= row < rows,
        0 <= col < width,
        holds_rows(data.len() as int, stride, width, rows),
    ensures
        0 <= row * width + col < plane_pixels(data, stride, width, rows).len(),
        plane_pixels(data, stride, width, rows)[row * width + col] == data[row * stride + col],
    decreases rows,
{
    let front = plane_pixels(data, stride, width, rows - 1);
    assert((rows - 1) * stride >= 0 && (rows - 2) * stride <= (rows - 1) * stride && rows * width
        == (rows - 1) * width + width && 0 <= row * width) by (nonlinear_arith)
        requires
            rows >= 1,
            stride >= 0,
            row >= 0,
            width >= 0,
    ;
    law_plane_size(data, stride, width, rows);
    law_plane_size(data, stride, width, rows - 1);
    if row < rows - 1 {
        law_plane_pixel(data, stride, width, rows - 1, row, col);
        assert(plane_pixels(data, stride, width, rows)[row * width + col] == front[row * width
            + col]);
    }
}

/// A frame has one luma byte for each pixel and two chroma bytes for each
/// whole block of two by two pixels.
pub proof fn law_yuv420_size(width: int, height: int, y: Plane, u: Plane, v: Plane)
    requires
        0 <= width,
        0 <= height,
        yuv420_covered(width, height, y, u, v),
    ensures
        yuv420_pixels(width, height, y, u, v).len() == yuv420_size(width, height),
        yuv420_pixels(width, height, y, u, v).len() == width * height + 2 * ((width / 2) * (height
            / 2)),
{
    law_plane_size(y.data@, y.stride as int, width, height);
    law_plane_size(u.data@, u.stride as int, width / 2, height / 2);
    law_plane_size(v.data@, v.stride as int, width / 2, height / 2);
    assert(height * width == width * height) by (nonlinear_arith);
    assert((height / 2) * (width / 2) == (width / 2) * (height / 2)) by (nonlinear_arith);
}

/// The luma of the pixel in column `col` of row `row` stands at that place of
/// the frame, counted row by row.
pub proof fn law_luma_place(
    width: int,
    height: int,
    y: Plane,
    u: Plane,
    v: Plane,
    row: int,
    col: int,
)
    requires
        yuv420_covered(width, height, y, u, v),
        0 <= row < height,
        0 <= col < width,
    ensures
        0 <= row * width + col < yuv420_pixels(width, height, y, u, v).len(),
        yuv420_pixels(width, height, y, u, v)[row * width + col] == y.data@[row * y.stride + col],
{
    law_plane_pixel(y.data@, y.stride as int, width, height, row, col);
}

/// The chroma of a block of two by two pixels follows the luma: first all of
/// the one kind, then all of the other, each counted row by row.
pub proof fn law_chroma_place(
    width: int,
    height: int,
    y: Plane,
    u: Plane,
    v: Plane,
    row: int,
    col: int,
)
    requires
        0 <= width,
        0 <= height,
        yuv420_covered(width, height, y, u, v),
        0 <= row < height / 2,
        0 <= col < width / 2,
    ensures
        ({
            let frame = yuv420_pixels(width, height, y, u, v);
            let place = width * height + row * (width / 2) + col;
            let block = (width / 2) * (height / 2);
            &&& 0 <= place < place + block < frame.len()
            &&& frame[place] == u.data@[row * u.stride + col]
            &&& frame[place + block] == v.data@[row * v.stride + col]
        }),
{
    let w = width / 2;
    let h = height / 2;
    law_plane_size(y.data@, y.stride as int, width, height);
    law_plane_size(u.data@, u.stride as int, w, h);
    law_plane_size(v.data@, v.stride as int, w, h);
    law_plane_pixel(u.data@, u.stride as int, w, h, row, col);
    law_plane_pixel(v.data@, v.stride as int, w, h, row, col);
    assert(height * width == width * height && h * w == w * h && 0 <= width * height && 0 < w
        * h) by (nonlinear_arith)
        requires
            0 <= width,
            0 <= height,
            0 < w,
            0 < h,
    ;
}

/// Padding is never copied: planes that agree on the pixels of the frame give
/// the same bytes, whatever their strides and whatever stands after the pixels
/// of a row.
pub proof fn law_padding_is_left_out(
    a: Seq<u8>,
    a_stride: int,
    b: Seq<u8>,
    b_stride: int,
    width: int,
    rows: int,
)
    requires
        0 <= a_stride,
        0 <= b_stride,
        0 <= width,
        0 <= rows,
        holds_rows(a.len() as int, a_stride, width, rows),
        holds_rows(b.len() as int, b_stride, width, rows),
        forall|row: int, col: int|
            0 <= row < rows && 0 <= col < width ==> #[trigger] a[row * a_stride + col]
                == b[row * b_stride + col],
    ensures
        plane_pixels(a, a_stride, width, rows) == plane_pixels(b, b_stride, width, rows),
    decreases rows,
{
    if rows > 0 {
        let last = rows - 1;
        assert(0 <= last * a_stride && 0 <= last * b_stride) by (nonlinear_arith)
            requires
                0 <= last,
                0 <= a_stride,
                0 <= b_stride,
        ;
        assert((last - 1) * a_stride <= last * a_stride && (last - 1) * b_stride <= last
            * b_stride) by (nonlinear_arith)
            requires
                0 <= a_stride,
                0 <= b_stride,
        ;
        law_padding_is_left_out(a, a_stride, b, b_stride, width, last);
        assert(row_pixels(a, a_stride, width, last) =~= row_pixels(b, b_stride, width, last)) by {
            assert forall|col: int| 0 <= col < width implies row_pixels(
                a,
                a_stride,
                width,
                last,
            )[col] == row_pixels(b, b_stride, width, last)[col] by {
                assert(a[last * a_stride + col] == b[last * b_stride + col]);
            }
        }
    }
}

/// A planar 4:2:0 frame takes at most half the bytes of the same frame with
/// three bytes for each pixel.
pub proof fn law_half_of_rgb(width: int, height: int)
    requires
        0 <= width,
        0 <= height,
    ensures
        2 * yuv420_size(width, height) <= 3 * (width * height),
        width % 2 == 0 && height % 2 == 0 ==> 2 * yuv420_size(width, height) == 3 * (width
            * height),
{
    let w = width / 2;
    let h = height / 2;
    assert(4 * (w * h) <= width * height) by (nonlinear_arith)
        requires
            0 <= 2 * w <= width,
            0 <= 2 * h <= height,
    ;
    if width % 2 == 0 && height % 2 == 0 {
        assert(4 * (w * h) == width * height) by (nonlinear_arith)
            requires
                2 * w == width,
                2 * h == height,
        ;
    }
}

} // verus!
