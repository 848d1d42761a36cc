//! Conversion of packed RGB24 pictures into the `0RGB` `u32` pixels that a
//! desktop framebuffer window expects.

use vstd::prelude::*;

verus! {

/// Factor by which the display window enlarges the decoded picture.
pub const DISPLAY_SCALE: u32 = 3;

/// The `0RGB` pixel made of one red, one green and one blue byte:
/// red in bits 16..24, green in bits 8..16, blue in bits 0..8.
pub open spec fn pack_rgb(r: u8, g: u8, b: u8) -> u32 {
    (r as int * 65536 + g as int * 256 + b as int) as u32
}

/// Number of complete three-byte pixels in an RGB24 byte run.
pub open spec fn rgb24_pixel_total(rgb: Seq<u8>) -> int {
    rgb.len() as int / 3
}

/// The `i`-th complete RGB24 pixel of `rgb`, packed as `0RGB`.
pub open spec fn rgb24_pixel(rgb: Seq<u8>, i: int) -> u32 {
    pack_rgb(rgb[3 * i], rgb[3 * i + 1], rgb[3 * i + 2])
}

/// The framebuffer of `pixel_count` pixels filled from `rgb`: pixel `i` is the
/// `i`-th complete RGB24 triple where there is one, and black (`0`) beyond
/// the end of the picture data.  A trailing partial triple is ignored.
pub open spec fn rgb24_framebuffer(rgb: Seq<u8>, pixel_count: nat) -> Seq<u32> {
    Seq::new(
        pixel_count,
        |i: int|
            if i < rgb24_pixel_total(rgb) {
                rgb24_pixel(rgb, i)
            } else {
                0u32
            },
    )
}

proof fn lemma_shift_or_is_sum(r: u32, g: u32, b: u32)
    requires
        r < 256,
        g < 256,
        b < 256,
    ensures
        (r << 16u32) | (g << 8u32) | b == r * 65536 + g * 256 + b,
{
    assert((r << 16u32) | (g << 8u32) | b == r * 65536 + g * 256 + b) by (bit_vector)
        requires
            r < 256,
            g < 256,
            b < 256,
    ;
}

/// Packing loses nothing: the red, green and blue bytes are recovered from
/// bits 16..24, 8..16 and 0..8 of the packed pixel, and the top byte of
/// every packed pixel is zero.
pub proof fn lemma_pack_rgb_channels(r: u8, g: u8, b: u8)
    ensures
        (pack_rgb(r, g, b) >> 16u32) & 0xffu32 == r as u32,
        (pack_rgb(r, g, b) >> 8u32) & 0xffu32 == g as u32,
        pack_rgb(r, g, b) & 0xffu32 == b as u32,
        pack_rgb(r, g, b) < 0x0100_0000u32,
{
    let rr = r as u32;
    let gg = g as u32;
    let bb = b as u32;
    let p = pack_rgb(r, g, b);
    assert(p == rr * 65536 + gg * 256 + bb);
    assert((p >> 16u32) & 0xffu32 == rr && (p >> 8u32) & 0xffu32 == gg && p & 0xffu32 == bb
        && p < 0x0100_0000u32) by (bit_vector)
        requires
            rr < 256,
            gg < 256,
            bb < 256,
            p == rr * 65536 + gg * 256 + bb,
    ;
}

/// Two colours pack to the same pixel only when they are the same colour.
pub proof fn lemma_pack_rgb_injective(r1: u8, g1: u8, b1: u8, r2: u8, g2: u8, b2: u8)
    requires
        pack_rgb(r1, g1, b1) == pack_rgb(r2, g2, b2),
    ensures
        r1 == r2,
        g1 == g2,
        b1 == b2,
{
    lemma_pack_rgb_channels(r1, g1, b1);
    lemma_pack_rgb_channels(r2, g2, b2);
}

/// Every pixel of the framebuffer inside the picture data carries the red,
/// green and blue bytes of its triple in bits 16..24, 8..16 and 0..8, with a
/// zero top byte; every pixel past the picture data is black.
pub proof fn lemma_framebuffer_pixel_bytes(rgb: Seq<u8>, pixel_count: nat, i: int)
    requires
        0 <= i < pixel_count,
    ensures
        rgb24_framebuffer(rgb, pixel_count).len() == pixel_count,
        i < rgb.len() / 3 ==> {
            let p = rgb24_framebuffer(rgb, pixel_count)[i];
            &&& (p >> 16u32) & 0xffu32 == rgb[3 * i] as u32
            &&& (p >> 8u32) & 0xffu32 == rgb[3 * i + 1] as u32
            &&& p & 0xffu32 == rgb[3 * i + 2] as u32
            &&& p < 0x0100_0000u32
        },
        i >= rgb.len() / 3 ==> rgb24_framebuffer(rgb, pixel_count)[i] == 0u32,
{
    if i < rgb.len() / 3 {
        lemma_pack_rgb_channels(rgb[3 * i], rgb[3 * i + 1], rgb[3 * i + 2]);
    }
}

/// Converts a packed RGB24 picture into a framebuffer of `pixel_count`
/// `0RGB` pixels (see `rgb24_framebuffer`).
pub fn rgb24_to_u32_buffer(rgb_bytes: &[u8], pixel_count: usize) -> (buffer: Vec<u32>)
    ensures
        buffer@ == rgb24_framebuffer(rgb_bytes@, pixel_count as nat),
        buffer@.len() == pixel_count,
        forall|i: int|
            0 <= i < pixel_count && i < rgb_bytes@.len() / 3 ==> {
                &&& (#[trigger] buffer@[i] >> 16u32) & 0xffu32 == rgb_bytes@[3 * i] as u32
                &&& (buffer@[i] >> 8u32) & 0xffu32 == rgb_bytes@[3 * i + 1] as u32
                &&& buffer@[i] & 0xffu32 == rgb_bytes@[3 * i + 2] as u32
                &&& buffer@[i] < 0x0100_0000u32
            },
        forall|i: int|
            0 <= i < pixel_count && i >= rgb_bytes@.len() / 3 ==> #[trigger] buffer@[i] == 0u32,
{
    let len = rgb_bytes.len();
    let total = len / 3;
    let mut buffer: Vec<u32> = Vec::new();
    let mut i: usize = 0;
    while i < pixel_count
        invariant
            i <= pixel_count,
            len == rgb_bytes@.len(),
            total == rgb24_pixel_total(rgb_bytes@),
            buffer@.len() == i,
            forall|k: int|
                0 <= k < i ==> #[trigger] buffer@[k] == rgb24_framebuffer(
                    rgb_bytes@,
                    pixel_count as nat,
                )[k],
        decreases pixel_count - i,
    {
        if i < total {
            assert(3 * i + 2 < len);
            let r = rgb_bytes[3 * i] as u32;
            let g = rgb_bytes[3 * i + 1] as u32;
            let b = rgb_bytes[3 * i + 2] as u32;
            proof {
                lemma_shift_or_is_sum(r, g, b);
            }
            buffer.push((r << 16u32) | (g << 8u32) | b);
        } else {
            buffer.push(0u32);
        }
        i = i + 1;
    }
    assert(buffer@ =~= rgb24_framebuffer(rgb_bytes@, pixel_count as nat));
    assert forall|i: int| 0 <= i < pixel_count implies {
        &&& (i < rgb_bytes@.len() / 3 ==> {
            &&& (#[trigger] buffer@[i] >> 16u32) & 0xffu32 == rgb_bytes@[3 * i] as u32
            &&& (buffer@[i] >> 8u32) & 0xffu32 == rgb_bytes@[3 * i + 1] as u32
            &&& buffer@[i] & 0xffu32 == rgb_bytes@[3 * i + 2] as u32
            &&& buffer@[i] < 0x0100_0000u32
        })
        &&& (i >= rgb_bytes@.len() / 3 ==> buffer@[i] == 0u32)
    } by {
        lemma_framebuffer_pixel_bytes(rgb_bytes@, pixel_count as nat, i);
    }
    buffer
}

/// Size of the display window for a decoded picture of `width` by `height`
/// pixels: each side `DISPLAY_SCALE` times as long.
pub fn display_size(width: u32, height: u32) -> (size: (u32, u32))
    requires
        width as int * DISPLAY_SCALE as int <= u32::MAX,
        height as int * DISPLAY_SCALE as int <= u32::MAX,
    ensures
        size.0 == width as int * DISPLAY_SCALE as int,
        size.1 == height as int * DISPLAY_SCALE as int,
{
    (width * DISPLAY_SCALE, height * DISPLAY_SCALE)
}

/// Number of pixels of a `width` by `height` framebuffer.
pub fn framebuffer_pixel_count(width: u32, height: u32) -> (count: usize)
    requires
        width as int * height as int <= u32::MAX,
    ensures
        count == width as int * height as int,
{
    let count: u32 = width * height;
    count as usize
}

} // verus!
