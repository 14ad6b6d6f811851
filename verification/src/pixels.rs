//! Normalizing a captured frame's pixel buffer.
//!
//! The window server hands a captured frame over as BGRA bytes whose rows
//! may carry padding at the end. An image wants tightly packed RGBA bytes:
//! each row trimmed to its pixels, and red and blue swapped within each
//! pixel. That rearrangement is pure byte shuffling and is done here.

use vstd::prelude::*;
use vstd::arithmetic::div_mod::lemma_fundamental_div_mod_converse;

verus! {

/// The BGRA channel that byte `c` of an RGBA pixel comes from: red and
/// blue swap places, green and alpha stay where they are.
pub open spec fn bgra_source_channel(c: int) -> int {
    if c == 0 {
        2
    } else if c == 2 {
        0
    } else {
        c
    }
}

/// Where byte `i` of the packed RGBA output comes from in a BGRA frame
/// whose rows are `bytes_per_row` bytes long and hold `width` pixels each.
pub open spec fn bgra_source_index(i: int, width: int, bytes_per_row: int) -> int {
    let pixel = i / 4;
    let channel = i % 4;
    let row = pixel / width;
    let col = pixel % width;
    row * bytes_per_row + 4 * col + bgra_source_channel(channel)
}

/// Whether `len` bytes of data hold a BGRA frame of `width` by `height`
/// pixels with `bytes_per_row` bytes per row.
pub open spec fn frame_fits(len: nat, width: nat, height: nat, bytes_per_row: nat) -> bool {
    &&& 4 * width <= bytes_per_row
    &&& height * bytes_per_row <= len
}

proof fn lemma_source_index_at(y: int, x: int, c: int, width: int, bytes_per_row: int)
    requires
        0 <= y,
        0 <= x < width,
        0 <= c < 4,
    ensures
        bgra_source_index(4 * (y * width + x) + c, width, bytes_per_row) == y * bytes_per_row + 4
            * x + bgra_source_channel(c),
{
    let i = 4 * (y * width + x) + c;
    lemma_fundamental_div_mod_converse(i, 4, y * width + x, c);
    lemma_fundamental_div_mod_converse(y * width + x, width, y, x);
}

/// Repack a captured BGRA frame, whose rows may carry padding, as the
/// tightly packed RGBA bytes of a `width` by `height` image. Returns
/// `None` exactly when the buffer is too small for that geometry.
pub fn normalize_bgra_frame(data: &Vec<u8>, width: u32, height: u32, bytes_per_row: usize) -> (r:
    Option<Vec<u8>>)
    ensures
        r is Some <==> frame_fits(data@.len(), width as nat, height as nat, bytes_per_row as nat),
        r matches Some(v) ==> {
            &&& v@.len() == 4 * (width as int) * (height as int)
            &&& forall|i: int|
                0 <= i < v@.len() ==> v@[i] == data@[bgra_source_index(
                    i,
                    width as int,
                    bytes_per_row as int,
                )]
        },
{
    let data_len: usize = data.len();
    let row_need: usize = match (width as usize).checked_mul(4) {
        Some(n) => n,
        None => {
            return None;
        },
    };
    if bytes_per_row < row_need {
        return None;
    }
    let need: usize = match (height as usize).checked_mul(bytes_per_row) {
        Some(n) => n,
        None => {
            proof {
                assert(data@.len() < (height as int) * (bytes_per_row as int));
            }
            return None;
        },
    };
    if data_len < need {
        return None;
    }
    let mut out: Vec<u8> = Vec::new();
    let mut y: usize = 0;
    while y < height as usize
        invariant
            4 * (width as int) <= bytes_per_row as int,
            (height as int) * (bytes_per_row as int) <= data@.len(),
            data@.len() <= usize::MAX,
            y <= height as usize,
            out@.len() == 4 * (width as int) * (y as int),
            forall|i: int|
                0 <= i < out@.len() ==> out@[i] == data@[bgra_source_index(
                    i,
                    width as int,
                    bytes_per_row as int,
                )],
        decreases height as int - y as int,
    {
        let mut x: usize = 0;
        proof {
            assert((y as int) * (bytes_per_row as int) + (bytes_per_row as int) <= (height as int)
                * (bytes_per_row as int)) by (nonlinear_arith)
                requires
                    (y as int) < (height as int),
                    0 <= (bytes_per_row as int),
            ;
            assert(4 * (width as int) * (y as int) == 4 * ((y as int) * (width as int) + 0))
                by (nonlinear_arith);
        }
        while x < width as usize
            invariant
                4 * (width as int) <= bytes_per_row as int,
                (height as int) * (bytes_per_row as int) <= data@.len(),
                data@.len() <= usize::MAX,
                y < height as usize,
                (y as int) * (bytes_per_row as int) + (bytes_per_row as int) <= data@.len(),
                x <= width as usize,
                out@.len() == 4 * ((y as int) * (width as int) + (x as int)),
                forall|i: int|
                    0 <= i < out@.len() ==> out@[i] == data@[bgra_source_index(
                        i,
                        width as int,
                        bytes_per_row as int,
                    )],
            decreases width as int - x as int,
        {
            let base: usize = y * bytes_per_row + 4 * x;
            let blue = data[base];
            let green = data[base + 1];
            let red = data[base + 2];
            let alpha = data[base + 3];
            let ghost before = out@;
            out.push(red);
            out.push(green);
            out.push(blue);
            out.push(alpha);
            proof {
                let w = width as int;
                let b = bytes_per_row as int;
                let yy = y as int;
                let xx = x as int;
                assert forall|i: int| 0 <= i < out@.len() implies out@[i] == data@[
                    bgra_source_index(i, w, b)] by {
                    if i < before.len() {
                        assert(out@[i] == before[i]);
                    } else {
                        let c = i - before.len();
                        lemma_source_index_at(yy, xx, c, w, b);
                        assert(i == 4 * (yy * w + xx) + c);
                    }
                }
            }
            x = x + 1;
        }
        proof {
            assert(4 * ((y as int) * (width as int) + (width as int)) == 4 * (width as int) * (
            y as int + 1)) by (nonlinear_arith);
        }
        y = y + 1;
    }
    proof {
        assert(frame_fits(
            data@.len(),
            width as nat,
            height as nat,
            bytes_per_row as nat,
        ));
    }
    Some(out)
}

} // verus!
