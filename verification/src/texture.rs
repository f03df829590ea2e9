//! The texture decoder: turns a palette-indexed bitmap into a flat RGBA
//! pixel buffer, honoring the transparency sentinel.

use vstd::prelude::*;

use crate::palette::Palette;

verus! {

/// The reserved palette index that means "fully transparent": it is never
/// looked up in the palette.
pub const SENTINEL: u8 = 0xff;

/// The indexed pixel sequence did not hold exactly `width * height` bytes.
/// Carries the offending length for the diagnostic.
#[derive(Debug)]
pub struct ShapeMismatchError {
    /// The number of index bytes the input actually held.
    pub actual_len: usize,
}

/// Byte `c` of output pixel `k` in a flat 4-bytes-per-pixel buffer.
pub open spec fn out_byte(buf: Seq<u8>, k: int, c: int) -> u8 {
    buf[4 * k + c]
}

/// What byte `c` (0 = red, 1 = green, 2 = blue, 3 = alpha) of the decoded
/// pixel for palette index `idx` must be: all zero for the sentinel,
/// otherwise the palette's three channels followed by an opaque alpha.
pub open spec fn rgba_byte(pal: Seq<u8>, idx: u8, c: int) -> u8 {
    if idx == SENTINEL {
        0u8
    } else if c == 3 {
        0xffu8
    } else {
        pal[3 * (idx as int) + c]
    }
}

/// Decodes a row-major grid of palette indices into a tightly packed RGBA
/// buffer of length `4 * width * height`. Succeeds exactly when `pixels`
/// holds `width * height` bytes; any other length is refused with the
/// length it saw, and no partial buffer is ever produced. Every output
/// byte is pinned: sentinel pixels become four zero bytes whatever the
/// palette holds, and every other pixel becomes the palette's three
/// channels for its index followed by `0xff`.
pub fn decode(palette: &Palette, pixels: &Vec<u8>, width: u32, height: u32) -> (r: Result<
    Vec<u8>,
    ShapeMismatchError,
>)
    requires
        palette.wf(),
    ensures
        pixels@.len() == (width as int) * (height as int) <==> r is Ok,
        r matches Ok(buf) ==> {
            &&& buf@.len() == 4 * pixels@.len()
            &&& buf@.len() == 4 * ((width as int) * (height as int))
            &&& forall|k: int, c: int|
                0 <= k < pixels@.len() && 0 <= c < 4 ==> #[trigger] out_byte(buf@, k, c)
                    == rgba_byte(palette@, pixels@[k], c)
        },
        r matches Err(e) ==> e.actual_len == pixels@.len(),
{
    proof {
        assert((width as int) * (height as int) <= 0xffff_ffff * 0xffff_ffff) by (nonlinear_arith)
            requires
                width <= 0xffff_ffff,
                height <= 0xffff_ffff,
        ;
    }
    if pixels.len() as u64 != (width as u64) * (height as u64) {
        return Err(ShapeMismatchError { actual_len: pixels.len() });
    }
    let mut buf: Vec<u8> = Vec::new();
    let mut k: usize = 0;
    while k < pixels.len()
        invariant
            palette.wf(),
            k <= pixels@.len(),
            buf@.len() == 4 * k,
            forall|j: int, c: int|
                0 <= j < k && 0 <= c < 4 ==> #[trigger] out_byte(buf@, j, c) == rgba_byte(
                    palette@,
                    pixels@[j],
                    c,
                ),
        decreases pixels@.len() - k,
    {
        let ghost buf0 = buf@;
        let idx = pixels[k];
        if idx != SENTINEL {
            buf.push(palette.lookup(idx, 0));
            buf.push(palette.lookup(idx, 1));
            buf.push(palette.lookup(idx, 2));
            buf.push(0xff);
        } else {
            buf.push(0);
            buf.push(0);
            buf.push(0);
            buf.push(0);
        }
        proof {
            assert forall|j: int, c: int|
                0 <= j < k + 1 && 0 <= c < 4 implies #[trigger] out_byte(buf@, j, c) == rgba_byte(
                palette@,
                pixels@[j],
                c,
            ) by {
                if j < k {
                    assert(out_byte(buf0, j, c) == rgba_byte(palette@, pixels@[j], c));
                    assert(buf@[4 * j + c] == buf0[4 * j + c]);
                } else {
                    assert(buf@[4 * j + c] == rgba_byte(palette@, pixels@[j], c));
                }
            }
        }
        k = k + 1;
    }
    Ok(buf)
}

/// A sentinel pixel decodes to four zero bytes regardless of palette
/// contents: any two palettes give the same, fully transparent, result.
pub proof fn lemma_sentinel_ignores_palette(pal1: Seq<u8>, pal2: Seq<u8>, c: int)
    requires
        0 <= c < 4,
    ensures
        rgba_byte(pal1, SENTINEL, c) == 0,
        rgba_byte(pal1, SENTINEL, c) == rgba_byte(pal2, SENTINEL, c),
{
}

} // verus!
