//! Pixels as 32-bit words: `0xAARRGGBB`, alpha in the high byte and blue in
//! the low one, whatever the machine's byte order.
use vstd::prelude::*;

verus! {

/// The word of one RGBA pixel.
pub open spec fn word_of(r: u8, g: u8, b: u8, a: u8) -> u32 {
    (a as int * 0x1000000 + r as int * 0x10000 + g as int * 0x100 + b as int) as u32
}

/// Byte `k` (0 red, 1 green, 2 blue, 3 alpha) of a pixel word.
pub open spec fn channel_of(w: u32, k: int) -> u8 {
    if k == 0 {
        ((w as int / 0x10000) % 0x100) as u8
    } else if k == 1 {
        ((w as int / 0x100) % 0x100) as u8
    } else if k == 2 {
        (w as int % 0x100) as u8
    } else {
        (w as int / 0x1000000) as u8
    }
}

/// One word for each four RGBA bytes.
pub open spec fn packed_words(p: Seq<u8>) -> Seq<u32> {
    Seq::new(p.len() / 4, |i: int| word_of(p[4 * i], p[4 * i + 1], p[4 * i + 2], p[4 * i + 3]))
}

/// Four RGBA bytes for each word.
pub open spec fn unpacked_words(ws: Seq<u32>) -> Seq<u8> {
    Seq::new(4 * ws.len(), |j: int| channel_of(ws[j / 4], j % 4))
}

/// The word of one pixel and its bytes.
fn pack_pixel(r: u8, g: u8, b: u8, a: u8) -> (w: u32)
    ensures
        w == word_of(r, g, b, a),
{
    (a as u32) * 0x1000000 + (r as u32) * 0x10000 + (g as u32) * 0x100 + (b as u32)
}

/// A word read back gives the bytes it was made of.
pub proof fn lemma_channels_of_word(r: u8, g: u8, b: u8, a: u8)
    ensures
        channel_of(word_of(r, g, b, a), 0) == r,
        channel_of(word_of(r, g, b, a), 1) == g,
        channel_of(word_of(r, g, b, a), 2) == b,
        channel_of(word_of(r, g, b, a), 3) == a,
{
    let w = a as int * 0x1000000 + r as int * 0x10000 + g as int * 0x100 + b as int;
    assert(w / 0x10000 == a as int * 0x100 + r as int) by (nonlinear_arith)
        requires w == a as int * 0x1000000 + r as int * 0x10000 + g as int * 0x100 + b as int,
            0 <= g < 256, 0 <= b < 256, 0 <= r < 256, 0 <= a < 256;
    assert(w / 0x100 == a as int * 0x10000 + r as int * 0x100 + g as int) by (nonlinear_arith)
        requires w == a as int * 0x1000000 + r as int * 0x10000 + g as int * 0x100 + b as int,
            0 <= b < 256;
    assert(w / 0x1000000 == a as int) by (nonlinear_arith)
        requires w == a as int * 0x1000000 + r as int * 0x10000 + g as int * 0x100 + b as int,
            0 <= g < 256, 0 <= b < 256, 0 <= r < 256;
    assert((a as int * 0x100 + r as int) % 0x100 == r as int) by (nonlinear_arith)
        requires 0 <= r < 256, 0 <= a;
    assert((a as int * 0x10000 + r as int * 0x100 + g as int) % 0x100 == g as int) by (nonlinear_arith)
        requires 0 <= g < 256, 0 <= a, 0 <= r;
    assert(w % 0x100 == b as int) by (nonlinear_arith)
        requires w == a as int * 0x1000000 + r as int * 0x10000 + g as int * 0x100 + b as int,
            0 <= b < 256, 0 <= a, 0 <= r, 0 <= g;
}

/// Packs RGBA bytes into one word per pixel.
pub fn u8_vec_to_u32_vec(input: &Vec<u8>) -> (r: Vec<u32>)
    requires
        input.len() % 4 == 0,
    ensures
        r@ == packed_words(input@),
{
    let count = input.len() / 4;
    let mut r: Vec<u32> = Vec::with_capacity(count);
    let mut i: usize = 0;
    while i < count
        invariant
            count == input.len() / 4,
            input.len() % 4 == 0,
            i <= count,
            r@ =~= packed_words(input@).take(i as int),
        decreases count - i,
    {
        let w = pack_pixel(input[4 * i], input[4 * i + 1], input[4 * i + 2], input[4 * i + 3]);
        r.push(w);
        i = i + 1;
        assert(r@ =~= packed_words(input@).take(i as int));
    }
    assert(r@ =~= packed_words(input@));
    r
}

/// Unpacks words into four RGBA bytes each.
pub fn u32_vec_to_u8_vec(input: Vec<u32>) -> (r: Vec<u8>)
    requires
        input.len() <= 0x10000000,
    ensures
        r@ == unpacked_words(input@),
{
    let n = input.len();
    let mut r: Vec<u8> = Vec::with_capacity(4 * n);
    let mut i: usize = 0;
    while i < n
        invariant
            n == input.len() <= 0x10000000,
            i <= n,
            r@ =~= unpacked_words(input@).take(4 * i),
        decreases n - i,
    {
        let w = input[i];
        r.push(((w / 0x10000) % 0x100) as u8);
        r.push(((w / 0x100) % 0x100) as u8);
        r.push((w % 0x100) as u8);
        r.push((w / 0x1000000) as u8);
        i = i + 1;
        proof {
            let u = unpacked_words(input@);
            assert(r@ =~= u.take(4 * i)) by {
                assert forall|j: int| 4 * i - 4 <= j < 4 * i implies r@[j] == u[j] by {
                    assert(j / 4 == i - 1);
                }
            }
        }
    }
    assert(r@ =~= unpacked_words(input@));
    r
}

/// Unpacking packed bytes gives back the same bytes.
pub proof fn lemma_unpack_of_pack(p: Seq<u8>)
    requires
        p.len() % 4 == 0,
    ensures
        unpacked_words(packed_words(p)) == p,
{
    let ws = packed_words(p);
    let u = unpacked_words(ws);
    assert forall|j: int| 0 <= j < p.len() implies u[j] == p[j] by {
        let i = j / 4;
        let k = j % 4;
        assert(j == 4 * i + k);
        lemma_channels_of_word(p[4 * i], p[4 * i + 1], p[4 * i + 2], p[4 * i + 3]);
    }
    assert(u =~= p);
}

} // verus!
