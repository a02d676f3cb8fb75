//! Packing an RGBA raster into the display's fixed monochrome bitmap: a
//! constant header followed by one bit per pixel, bottom row first, eight
//! pixels per byte with the leftmost pixel in the most significant bit.
use vstd::prelude::*;

verus! {

pub const WIDTH: usize = 800;
pub const HEIGHT: usize = 480;
pub const PIXELS_PER_BYTE: usize = 8;
pub const PIXEL_BUFFER_SIZE: usize = 48000;
pub const HEADER_SIZE: usize = 62;
pub const IMAGE_SIZE: usize = 48062;
/// Bytes of an RGBA raster of the display's size.
pub const RASTER_SIZE: usize = 1536000;

/// The bitmap header: file header, info header (800 by 480, one bit per
/// pixel, bottom-up rows) and the two-entry palette, black then white.
pub open spec fn bmp_header() -> Seq<u8> {
    seq![
        0x42, 0x4d, 0xbe, 0xbb, 0x00, 0x00, 0x00, 0x00, 0x00, 0x00, 0x3e, 0x00, 0x00, 0x00,
        0x28, 0x00, 0x00, 0x00, 0x20, 0x03, 0x00, 0x00, 0xe0, 0x01, 0x00, 0x00, 0x01, 0x00,
        0x01, 0x00, 0x00, 0x00, 0x00, 0x00, 0x80, 0xbb, 0x00, 0x00, 0x00, 0x00, 0x00, 0x00,
        0x00, 0x00, 0x00, 0x00, 0x02, 0x00, 0x00, 0x00, 0x00, 0x00, 0x00, 0x00,
        0x00, 0x00, 0x00, 0x00, 0xff, 0xff, 0xff, 0x00,
    ]
}

/// Whether pixel `idx` of the raster is present and exactly opaque white.
pub open spec fn pixel_is_white(pixels: Seq<u8>, idx: int) -> bool {
    &&& 4 * idx + 4 <= pixels.len()
    &&& pixels[4 * idx] == 255
    &&& pixels[4 * idx + 1] == 255
    &&& pixels[4 * idx + 2] == 255
    &&& pixels[4 * idx + 3] == 255
}

/// The raster pixel that lands at position `f` of the bottom-up output order.
pub open spec fn source_pixel(f: int) -> int {
    (HEIGHT as int - 1 - f / WIDTH as int) * WIDTH as int + f % WIDTH as int
}

/// The bit at output position `f`: set exactly for an opaque white pixel.
pub open spec fn packed_bit(pixels: Seq<u8>, f: int) -> bool {
    pixel_is_white(pixels, source_pixel(f))
}

/// The number whose binary digits, most significant first, are `bits`.
pub open spec fn bits_value(bits: Seq<bool>) -> nat
    decreases bits.len(),
{
    if bits.len() == 0 {
        0
    } else {
        2 * bits_value(bits.drop_last()) + if bits.last() { 1nat } else { 0nat }
    }
}

/// The bits of output byte `j`, most significant first.
pub open spec fn byte_bits(pixels: Seq<u8>, j: int) -> Seq<bool> {
    Seq::new(8, |b: int| packed_bit(pixels, 8 * j + b))
}

/// Output byte `j` of the pixel region.
pub open spec fn packed_byte(pixels: Seq<u8>, j: int) -> u8 {
    bits_value(byte_bits(pixels, j)) as u8
}

/// The whole bitmap for a raster.
pub open spec fn bmp_of(pixels: Seq<u8>) -> Seq<u8> {
    bmp_header() + Seq::new(PIXEL_BUFFER_SIZE as nat, |j: int| packed_byte(pixels, j))
}

proof fn lemma_bits_value_bound(bits: Seq<bool>)
    ensures
        bits_value(bits) < vstd::arithmetic::power2::pow2(bits.len()),
    decreases bits.len(),
{
    if bits.len() > 0 {
        lemma_bits_value_bound(bits.drop_last());
        vstd::arithmetic::power2::lemma_pow2_unfold(bits.len());
    } else {
        vstd::arithmetic::power2::lemma2_to64();
    }
}

proof fn lemma_source_pixel_bounds(f: int)
    requires
        0 <= f < PIXEL_BUFFER_SIZE * 8,
    ensures
        0 <= source_pixel(f) < PIXEL_BUFFER_SIZE * 8,
{
    assert(0 <= f / 800 < 480) by (nonlinear_arith)
        requires 0 <= f < 384000;
    assert(0 <= f % 800 < 800) by (nonlinear_arith)
        requires 0 <= f;
    let row = f / 800;
    let col = f % 800;
    assert(0 <= (479 - row) * 800 + col < 384000) by (nonlinear_arith)
        requires 0 <= row < 480, 0 <= col < 800;
}

/// The header that precedes the pixel region.
pub fn bmp_header_bytes() -> (r: Vec<u8>)
    ensures
        r@ == bmp_header(),
{
    let r: Vec<u8> = vec![
        0x42, 0x4d, 0xbe, 0xbb, 0x00, 0x00, 0x00, 0x00, 0x00, 0x00, 0x3e, 0x00, 0x00, 0x00,
        0x28, 0x00, 0x00, 0x00, 0x20, 0x03, 0x00, 0x00, 0xe0, 0x01, 0x00, 0x00, 0x01, 0x00,
        0x01, 0x00, 0x00, 0x00, 0x00, 0x00, 0x80, 0xbb, 0x00, 0x00, 0x00, 0x00, 0x00, 0x00,
        0x00, 0x00, 0x00, 0x00, 0x02, 0x00, 0x00, 0x00, 0x00, 0x00, 0x00, 0x00,
        0x00, 0x00, 0x00, 0x00, 0xff, 0xff, 0xff, 0x00,
    ];
    assert(r@ =~= bmp_header());
    r
}

fn is_white(pixel_data: &[u8], idx: usize) -> (r: bool)
    requires
        idx < RASTER_SIZE,
    ensures
        r == pixel_is_white(pixel_data@, idx as int),
{
    let start = 4 * idx;
    if start + 4 > pixel_data.len() {
        return false;
    }
    pixel_data[start] == 255 && pixel_data[start + 1] == 255 && pixel_data[start + 2] == 255
        && pixel_data[start + 3] == 255
}

fn pack_byte(pixel_data: &[u8], j: usize) -> (r: u8)
    requires
        j < PIXEL_BUFFER_SIZE,
    ensures
        r == packed_byte(pixel_data@, j as int),
{
    let ghost bits = byte_bits(pixel_data@, j as int);
    let mut acc: u8 = 0;
    let mut b: usize = 0;
    while b < 8
        invariant
            b <= 8,
            j < PIXEL_BUFFER_SIZE,
            bits == byte_bits(pixel_data@, j as int),
            acc as nat == bits_value(bits.subrange(0, b as int)),
        decreases 8 - b,
    {
        let f = 8 * j + b;
        proof {
            lemma_source_pixel_bounds(f as int);
        }
        let src = (HEIGHT - 1 - f / WIDTH) * WIDTH + f % WIDTH;
        let white = is_white(pixel_data, src);
        proof {
            let next = bits.subrange(0, b + 1);
            assert(next.drop_last() =~= bits.subrange(0, b as int));
            lemma_bits_value_bound(next);
            vstd::arithmetic::power2::lemma2_to64();
            if b + 1 < 8 {
                vstd::arithmetic::power2::lemma_pow2_strictly_increases((b + 1) as nat, 8);
            }
        }
        acc = 2 * acc + if white { 1u8 } else { 0u8 };
        b = b + 1;
    }
    assert(bits.subrange(0, 8) =~= bits);
    acc
}

/// Packs an RGBA raster of the display's size (row-major, top row first) into
/// the display bitmap. Pixels past the end of a shorter raster count as not
/// white.
pub fn create_bmp(pixel_data: &[u8]) -> (r: Vec<u8>)
    requires
        pixel_data@.len() <= RASTER_SIZE,
    ensures
        r@ == bmp_of(pixel_data@),
        r@.len() == IMAGE_SIZE,
{
    let mut out = bmp_header_bytes();
    let mut j: usize = 0;
    while j < PIXEL_BUFFER_SIZE
        invariant
            j <= PIXEL_BUFFER_SIZE,
            out@.len() == HEADER_SIZE + j,
            out@.subrange(0, HEADER_SIZE as int) == bmp_header(),
            forall|k: int| 0 <= k < j ==> #[trigger] out@[HEADER_SIZE + k] == packed_byte(pixel_data@, k),
        decreases PIXEL_BUFFER_SIZE - j,
    {
        let byte = pack_byte(pixel_data, j);
        let ghost before = out@;
        out.push(byte);
        assert(out@.subrange(0, HEADER_SIZE as int) =~= before.subrange(0, HEADER_SIZE as int));
        assert forall|k: int| 0 <= k < j + 1 implies #[trigger] out@[HEADER_SIZE + k] == packed_byte(pixel_data@, k) by {
            if k < j {
                assert(out@[HEADER_SIZE + k] == before[HEADER_SIZE + k]);
            }
        }
        j = j + 1;
    }
    assert(out@ =~= bmp_of(pixel_data@)) by {
        assert forall|i: int| 0 <= i < out@.len() implies out@[i] == bmp_of(pixel_data@)[i] by {
            if i < HEADER_SIZE {
                assert(out@[i] == out@.subrange(0, HEADER_SIZE as int)[i]);
            } else {
                assert(out@[HEADER_SIZE + (i - HEADER_SIZE)] == packed_byte(pixel_data@, i - HEADER_SIZE));
            }
        }
    }
    out
}

/// A raster of the display's size whose every pixel is opaque white.
pub open spec fn all_white(pixels: Seq<u8>) -> bool {
    &&& pixels.len() == RASTER_SIZE
    &&& forall|i: int| 0 <= i < pixels.len() ==> #[trigger] pixels[i] == 255
}

/// A raster of the display's size whose every pixel is opaque black.
pub open spec fn all_black(pixels: Seq<u8>) -> bool {
    &&& pixels.len() == RASTER_SIZE
    &&& forall|i: int| 0 <= i < pixels.len() ==> #[trigger] pixels[i] == if i % 4 == 3 { 255u8 } else { 0u8 }
}

proof fn lemma_bits_value_uniform(n: nat, bit: bool)
    ensures
        bits_value(Seq::new(n, |b: int| bit)) == if bit { (vstd::arithmetic::power2::pow2(n) - 1) as nat } else { 0 },
    decreases n,
{
    vstd::arithmetic::power2::lemma_pow2_pos(n);
    if n > 0 {
        assert(Seq::new(n, |b: int| bit).drop_last() =~= Seq::new((n - 1) as nat, |b: int| bit));
        lemma_bits_value_uniform((n - 1) as nat, bit);
        vstd::arithmetic::power2::lemma_pow2_unfold(n);
        assert(Seq::new(n, |b: int| bit).last() == bit);
    } else {
        vstd::arithmetic::power2::lemma2_to64();
    }
}

/// The bitmap always has the fixed length; an all-white raster packs to set
/// bits only and an all-black raster to clear bits only.
pub proof fn lemma_uniform_rasters(pixels: Seq<u8>)
    ensures
        bmp_of(pixels).len() == IMAGE_SIZE,
        all_white(pixels) ==> forall|j: int| 0 <= j < PIXEL_BUFFER_SIZE ==> #[trigger] bmp_of(pixels)[HEADER_SIZE + j] == 255,
        all_black(pixels) ==> forall|j: int| 0 <= j < PIXEL_BUFFER_SIZE ==> #[trigger] bmp_of(pixels)[HEADER_SIZE + j] == 0,
{
    vstd::arithmetic::power2::lemma2_to64();
    lemma_bits_value_uniform(8, true);
    lemma_bits_value_uniform(8, false);
    assert forall|j: int| 0 <= j < PIXEL_BUFFER_SIZE implies
        (all_white(pixels) ==> #[trigger] bmp_of(pixels)[HEADER_SIZE + j] == 255)
        && (all_black(pixels) ==> bmp_of(pixels)[HEADER_SIZE + j] == 0) by {
        assert(bmp_of(pixels)[HEADER_SIZE + j] == packed_byte(pixels, j));
        assert forall|b: int| 0 <= b < 8 implies 0 <= #[trigger] source_pixel(8 * j + b) < PIXEL_BUFFER_SIZE * 8 by {
            lemma_source_pixel_bounds(8 * j + b);
        }
        if all_white(pixels) {
            assert forall|b: int| 0 <= b < 8 implies #[trigger] packed_bit(pixels, 8 * j + b) by {
                let s = source_pixel(8 * j + b);
                assert(0 <= s < PIXEL_BUFFER_SIZE * 8);
                assert(pixels[4 * s] == 255 && pixels[4 * s + 1] == 255);
                assert(pixels[4 * s + 2] == 255 && pixels[4 * s + 3] == 255);
            }
            assert(byte_bits(pixels, j) =~= Seq::new(8, |b: int| true));
        }
        if all_black(pixels) {
            assert forall|b: int| 0 <= b < 8 implies !#[trigger] packed_bit(pixels, 8 * j + b) by {
                let s = source_pixel(8 * j + b);
                assert(0 <= s < PIXEL_BUFFER_SIZE * 8);
                assert((4 * s) % 4 == 0) by (nonlinear_arith);
                assert(pixels[4 * s] == 0);
            }
            assert(byte_bits(pixels, j) =~= Seq::new(8, |b: int| false));
        }
    }
}

} // verus!
