//! Canvas helpers for the render collaborator: pure pixel-buffer
//! construction, independent of any graphics API.

use vstd::prelude::*;

verus! {

/// The four bytes of the pixel at column `x`, row `y` of the generated
/// image: red runs with the column, green with the row, blue is the
/// complement of red, and the image is half transparent.
pub open spec fn pixel_at(s: Seq<u8>, width: int, y: int, x: int) -> bool {
    let ix = (y * width + x) * 4;
    &&& s[ix] as int == x % 256
    &&& s[ix + 1] as int == y % 256
    &&& s[ix + 2] as int == 255 - (x % 256)
    &&& s[ix + 3] as int == 127
}

proof fn lemma_not_u8(b: u8)
    ensures
        (!b) as int == 255 - b as int,
{
    assert((!b) as int == 255 - b as int) by (bit_vector);
}

proof fn lemma_trunc_u8(x: usize)
    ensures
        (x as u8) as int == x as int % 256,
{
    assert(x as u8 == (x % 256) as u8) by (bit_vector);
}

proof fn lemma_row_bound(yy: int, xx: int, y: int, width: int)
    requires
        0 <= yy < y,
        0 <= xx < width,
    ensures
        (yy * width + xx) * 4 + 3 < y * width * 4,
{
    assert((yy * width + xx) * 4 + 3 < y * width * 4) by (nonlinear_arith)
        requires
            0 <= yy < y,
            0 <= xx < width,
    ;
}

/// Builds a `width` by `height` RGBA image buffer, row-major, four bytes
/// per pixel, with the gradient pattern of [`pixel_at`].
pub fn make_image_data(width: usize, height: usize) -> (result: Vec<u8>)
    requires
        width * height * 4 <= usize::MAX,
    ensures
        result@.len() == width * height * 4,
        forall|y: int, x: int|
            0 <= y < height && 0 <= x < width ==> pixel_at(result@, width as int, y, x),
{
    let mut result: Vec<u8> = Vec::new();
    let mut y: usize = 0;
    while y < height
        invariant
            y <= height,
            result@.len() == y * width * 4,
            forall|yy: int, xx: int|
                0 <= yy < y && 0 <= xx < width ==> pixel_at(result@, width as int, yy, xx),
        decreases height - y,
    {
        let mut x: usize = 0;
        while x < width
            invariant
                x <= width,
                y < height,
                result@.len() == y * width * 4 + x * 4,
                forall|yy: int, xx: int|
                    0 <= yy < y && 0 <= xx < width ==> pixel_at(result@, width as int, yy, xx),
                forall|xx: int| 0 <= xx < x ==> pixel_at(result@, width as int, y as int, xx),
            decreases width - x,
        {
            let r = #[verifier::truncate] (x as u8);
            let g = #[verifier::truncate] (y as u8);
            let b = !r;
            let ghost before = result@;
            result.push(r);
            result.push(g);
            result.push(b);
            result.push(127);
            proof {
                lemma_trunc_u8(x);
                lemma_trunc_u8(y);
                lemma_not_u8(r);
                assert(y * width * 4 + (x + 1) * 4 == y * width * 4 + x * 4 + 4) by (nonlinear_arith);
                assert((y * width + x) * 4 == y * width * 4 + x * 4) by (nonlinear_arith);
                let n = before.len() as int;
                assert(result@[n] == r);
                assert(result@[n + 1] == g);
                assert(result@[n + 2] == b);
                assert(result@[n + 3] == 127u8);
                assert(n == (y * width + x) * 4);
                assert(pixel_at(result@, width as int, y as int, x as int));
                assert forall|yy: int, xx: int|
                    0 <= yy < y && 0 <= xx < width implies pixel_at(
                    result@,
                    width as int,
                    yy,
                    xx,
                ) by {
                    lemma_row_bound(yy, xx, y as int, width as int);
                    assert(pixel_at(before, width as int, yy, xx));
                }
                assert forall|xx: int| 0 <= xx < x + 1 implies pixel_at(
                    result@,
                    width as int,
                    y as int,
                    xx,
                ) by {
                    if xx < x {
                        assert((y * width + xx) * 4 + 3 < y * width * 4 + x * 4) by (
                        nonlinear_arith)
                            requires
                                0 <= xx < x,
                                0 <= y,
                                0 <= width,
                        ;
                        assert(pixel_at(before, width as int, y as int, xx));
                    }
                }
            }
            x = x + 1;
        }
        proof {
            assert(y * width * 4 + width * 4 == (y + 1) * width * 4) by (nonlinear_arith);
        }
        y = y + 1;
    }
    proof {
        assert(height * width * 4 == width * height * 4) by (nonlinear_arith);
    }
    result
}

} // verus!
