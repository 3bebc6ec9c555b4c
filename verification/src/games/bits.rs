use vstd::prelude::*;

verus! {

/// Whether bit `j` of `x` is set.
pub open spec fn alive(x: u64, j: u64) -> bool {
    (x >> j) & 1u64 == 1u64
}

/// `x` rotated left by `n` bits.
pub open spec fn rotl(x: u64, n: u64) -> u64 {
    if n % 64 == 0 {
        x
    } else {
        (x << (n % 64)) | (x >> ((64 - n % 64) as u64))
    }
}

/// `x` rotated right by `n` bits.
pub open spec fn rotr(x: u64, n: u64) -> u64 {
    if n % 64 == 0 {
        x
    } else {
        (x >> (n % 64)) | (x << ((64 - n % 64) as u64))
    }
}

pub fn rotate_left(x: u64, n: u32) -> (r: u64)
    ensures
        r == rotl(x, n as u64),
{
    let k = (n % 64) as u64;
    if k == 0 {
        x
    } else {
        (x << k) | (x >> (64 - k))
    }
}

pub fn rotate_right(x: u64, n: u32) -> (r: u64)
    ensures
        r == rotr(x, n as u64),
{
    let k = (n % 64) as u64;
    if k == 0 {
        x
    } else {
        (x >> k) | (x << (64 - k))
    }
}

/// Bitwise operators act on each bit alone.
pub proof fn lemma_bitwise(a: u64, b: u64, j: u64)
    requires
        j < 64,
    ensures
        alive(a ^ b, j) == (alive(a, j) != alive(b, j)),
        alive(a & b, j) == (alive(a, j) && alive(b, j)),
        alive(a | b, j) == (alive(a, j) || alive(b, j)),
        alive(!a, j) == !alive(a, j),
{
    assert(((a ^ b) >> j) & 1u64 == 1u64 <==> (((a >> j) & 1u64 == 1u64) != ((b >> j) & 1u64 == 1u64)))
        by (bit_vector)
        requires
            j < 64,
    ;
    assert(((a & b) >> j) & 1u64 == 1u64 <==> (((a >> j) & 1u64 == 1u64) && ((b >> j) & 1u64 == 1u64)))
        by (bit_vector)
        requires
            j < 64,
    ;
    assert(((a | b) >> j) & 1u64 == 1u64 <==> (((a >> j) & 1u64 == 1u64) || ((b >> j) & 1u64 == 1u64)))
        by (bit_vector)
        requires
            j < 64,
    ;
    assert(((!a) >> j) & 1u64 == 1u64 <==> !((a >> j) & 1u64 == 1u64)) by (bit_vector)
        requires
            j < 64,
    ;
}

/// Rotating by one moves each bit to the neighbouring position, wrapping
/// around the 64 bits.
pub proof fn lemma_rotate_one(x: u64, j: u64)
    requires
        j < 64,
    ensures
        alive(rotl(x, 1), j) == alive(x, if j == 0 { 63 } else { (j - 1) as u64 }),
        alive(rotr(x, 1), j) == alive(x, if j == 63 { 0 } else { (j + 1) as u64 }),
{
    assert(rotl(x, 1) == (x << 1u64) | (x >> 63u64));
    assert(rotr(x, 1) == (x >> 1u64) | (x << 63u64));
    if j == 0 {
        assert(((((x << 1u64) | (x >> 63u64)) >> 0u64) & 1u64 == 1u64) == ((x >> 63u64) & 1u64 == 1u64))
            by (bit_vector);
        assert(((((x >> 1u64) | (x << 63u64)) >> 0u64) & 1u64 == 1u64) == ((x >> 1u64) & 1u64 == 1u64))
            by (bit_vector);
    } else if j == 63 {
        assert(((((x << 1u64) | (x >> 63u64)) >> 63u64) & 1u64 == 1u64) == ((x >> 62u64) & 1u64 == 1u64))
            by (bit_vector);
        assert(((((x >> 1u64) | (x << 63u64)) >> 63u64) & 1u64 == 1u64) == ((x >> 0u64) & 1u64 == 1u64))
            by (bit_vector);
    } else {
        let jm = (j - 1) as u64;
        let jp = (j + 1) as u64;
        assert(((((x << 1u64) | (x >> 63u64)) >> j) & 1u64 == 1u64) == ((x >> jm) & 1u64 == 1u64))
            by (bit_vector)
            requires
                0 < j < 63,
                jm == j - 1,
        ;
        assert(((((x >> 1u64) | (x << 63u64)) >> j) & 1u64 == 1u64) == ((x >> jp) & 1u64 == 1u64))
            by (bit_vector)
            requires
                0 < j < 63,
                jp == j + 1,
        ;
    }
}

} // verus!
