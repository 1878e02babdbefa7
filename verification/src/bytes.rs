use vstd::prelude::*;

verus! {

/// The four bytes of `x`, most significant first.
pub open spec fn be32(x: u32) -> Seq<u8> {
    seq![(x / 0x1000000) as u8, ((x / 0x10000) % 0x100) as u8, ((x / 0x100) % 0x100) as u8, (x % 0x100) as u8]
}

/// The value of four bytes, most significant first.
pub open spec fn u32_of_be(b0: u8, b1: u8, b2: u8, b3: u8) -> int {
    b0 * 0x1000000 + b1 * 0x10000 + b2 * 0x100 + b3
}

/// The value of two bytes, most significant first.
pub open spec fn u16_of_be(b0: u8, b1: u8) -> int {
    b0 * 0x100 + b1
}

/// The two's complement value of a 24 bit sample held in three bytes, most significant
/// first.
pub open spec fn i24_of_be(b0: u8, b1: u8, b2: u8) -> int {
    b0 * 0x10000 + b1 * 0x100 + b2 - (if b0 >= 0x80 { 0x1000000int } else { 0int })
}

/// The two's complement value of a 16 bit sample held in two bytes, most significant
/// first.
pub open spec fn i16_of_be(b0: u8, b1: u8) -> int {
    b0 * 0x100 + b1 - (if b0 >= 0x80 { 0x10000int } else { 0int })
}

/// The low 24 bits of `x` in three bytes, most significant first.
pub open spec fn be24(x: i32) -> Seq<u8> {
    let u = ((x as int) % 0x1000000) as nat;
    seq![(u / 0x10000) as u8, ((u / 0x100) % 0x100) as u8, (u % 0x100) as u8]
}

/// The low 16 bits of `x` in two bytes, most significant first.
pub open spec fn be16(x: i32) -> Seq<u8> {
    let u = ((x as int) % 0x10000) as nat;
    seq![(u / 0x100) as u8, (u % 0x100) as u8]
}

/// The four bytes of `x`, most significant first.
pub fn u32_to_be(x: u32) -> (b: [u8; 4])
    ensures
        b@ == be32(x),
{
    let b0 = (x >> 24) as u8;
    let b1 = ((x >> 16) & 0xFF) as u8;
    let b2 = ((x >> 8) & 0xFF) as u8;
    let b3 = (x & 0xFF) as u8;
    assert(b0 == (x / 0x1000000) as u8 && b1 == ((x / 0x10000) % 0x100) as u8 && b2 == ((x
        / 0x100) % 0x100) as u8 && b3 == (x % 0x100) as u8) by (bit_vector)
        requires
            b0 == (x >> 24) as u8,
            b1 == ((x >> 16) & 0xFF) as u8,
            b2 == ((x >> 8) & 0xFF) as u8,
            b3 == (x & 0xFF) as u8,
    ;
    let b = [b0, b1, b2, b3];
    assert(b@ =~= be32(x));
    b
}

/// The value of four bytes, most significant first.
pub fn u32_from_be(b0: u8, b1: u8, b2: u8, b3: u8) -> (x: u32)
    ensures
        x == u32_of_be(b0, b1, b2, b3),
{
    let x = ((b0 as u32) << 24) | ((b1 as u32) << 16) | ((b2 as u32) << 8) | (b3 as u32);
    assert(x == b0 as u32 * 0x1000000 + b1 as u32 * 0x10000 + b2 as u32 * 0x100 + b3 as u32)
        by (bit_vector)
        requires
            x == ((b0 as u32) << 24) | ((b1 as u32) << 16) | ((b2 as u32) << 8) | (b3 as u32),
    ;
    x
}

/// The value of two bytes, most significant first.
pub fn u16_from_be(b0: u8, b1: u8) -> (x: u16)
    ensures
        x == u16_of_be(b0, b1),
{
    let x = ((b0 as u16) << 8) | (b1 as u16);
    assert(x == b0 as u16 * 0x100 + b1 as u16) by (bit_vector)
        requires
            x == ((b0 as u16) << 8) | (b1 as u16),
    ;
    x
}

/// The signed value of a 24 bit sample in three bytes, most significant first: the
/// bytes are widened with a top byte of 0xFF when the sample's sign bit is set and of
/// 0 otherwise.
pub fn i24_from_be(b0: u8, b1: u8, b2: u8) -> (x: i32)
    ensures
        x == i24_of_be(b0, b1, b2),
{
    let u: u32 = if b0 & 0x80 != 0 {
        0xFF000000u32 | ((b0 as u32) << 16) | ((b1 as u32) << 8) | (b2 as u32)
    } else {
        ((b0 as u32) << 16) | ((b1 as u32) << 8) | (b2 as u32)
    };
    let x = u as i32;
    assert(x == b0 as i32 * 0x10000 + b1 as i32 * 0x100 + b2 as i32 - (if b0 >= 0x80 {
        0x1000000i32
    } else {
        0i32
    })) by (bit_vector)
        requires
            u == (if b0 & 0x80 != 0 {
                0xFF000000u32 | ((b0 as u32) << 16) | ((b1 as u32) << 8) | (b2 as u32)
            } else {
                ((b0 as u32) << 16) | ((b1 as u32) << 8) | (b2 as u32)
            }),
            x == u as i32,
    ;
    x
}

/// The signed value of a 16 bit sample in two bytes, most significant first: the
/// bytes are widened with 0xFFFF on top when the sign bit is set and 0 otherwise.
pub fn i16_from_be(b0: u8, b1: u8) -> (x: i32)
    ensures
        x == i16_of_be(b0, b1),
{
    let u: u32 = if b0 & 0x80 != 0 {
        0xFFFF0000u32 | ((b0 as u32) << 8) | (b1 as u32)
    } else {
        ((b0 as u32) << 8) | (b1 as u32)
    };
    let x = u as i32;
    assert(x == b0 as i32 * 0x100 + b1 as i32 - (if b0 >= 0x80 {
        0x10000i32
    } else {
        0i32
    })) by (bit_vector)
        requires
            u == (if b0 & 0x80 != 0 {
                0xFFFF0000u32 | ((b0 as u32) << 8) | (b1 as u32)
            } else {
                ((b0 as u32) << 8) | (b1 as u32)
            }),
            x == u as i32,
    ;
    x
}

/// The low 24 bits of `x` in three bytes, most significant first.
pub fn i24_to_be(x: i32) -> (b: [u8; 3])
    ensures
        b@ == be24(x),
{
    let b0 = (x >> 16) as u8;
    let b1 = (x >> 8) as u8;
    let b2 = x as u8;
    let u = x as u32;
    let v = u % 0x1000000;
    assert(b0 == ((u % 0x1000000) / 0x10000) as u8 && b1 == (((u % 0x1000000) / 0x100) % 0x100)
        as u8 && b2 == ((u % 0x1000000) % 0x100) as u8) by (bit_vector)
        requires
            b0 == (x >> 16) as u8,
            b1 == (x >> 8) as u8,
            b2 == x as u8,
            u == x as u32,
    ;
    proof {
        lemma_mod_of_wrapped(x, 0x1000000);
    }
    assert(v as nat == ((x as int) % 0x1000000) as nat);
    let b = [b0, b1, b2];
    assert(b@ =~= be24(x));
    b
}

/// The low 16 bits of `x` in two bytes, most significant first.
pub fn i16_to_be(x: i32) -> (b: [u8; 2])
    ensures
        b@ == be16(x),
{
    let b0 = (x >> 8) as u8;
    let b1 = x as u8;
    let u = x as u32;
    let v = u % 0x10000;
    assert(b0 == ((u % 0x10000) / 0x100) as u8 && b1 == ((u % 0x10000) % 0x100) as u8)
        by (bit_vector)
        requires
            b0 == (x >> 8) as u8,
            b1 == x as u8,
            u == x as u32,
    ;
    proof {
        lemma_mod_of_wrapped(x, 0x10000);
    }
    assert(v as nat == ((x as int) % 0x10000) as nat);
    let b = [b0, b1];
    assert(b@ =~= be16(x));
    b
}

/// Reducing the unsigned reading of `x` modulo a power of two that divides 2^32 gives
/// the same as reducing `x` itself.
proof fn lemma_mod_of_wrapped(x: i32, m: int)
    requires
        m == 0x1000000 || m == 0x10000,
    ensures
        ((x as u32) as int) % m == (x as int) % m,
{
    assert((x as u32) as u64 == if x >= 0 {
        x as u64
    } else {
        (x as i64 + 0x100000000i64) as u64
    }) by (bit_vector);
    if x < 0 {
        assert(0x100000000int == m * (0x100000000int / m));
        vstd::arithmetic::div_mod::lemma_mod_multiples_vanish(0x100000000int / m, x as int, m);
    }
}

/// Three bytes read back as a 24 bit sample give the value they were written from,
/// for every value that fits in 24 bits.
pub proof fn lemma_i24_round_trip(x: i32)
    requires
        -0x800000 <= x < 0x800000,
    ensures
        i24_of_be(be24(x)[0], be24(x)[1], be24(x)[2]) == x,
{
    let u = ((x as int) % 0x1000000) as nat;
    assert(u == if x >= 0 { x as int } else { x as int + 0x1000000 });
    assert(be24(x)[0] == (u / 0x10000) as u8);
    assert(u == (u / 0x10000) * 0x10000 + ((u / 0x100) % 0x100) * 0x100 + u % 0x100);
}

/// Two bytes read back as a 16 bit sample give the value they were written from,
/// for every value that fits in 16 bits.
pub proof fn lemma_i16_round_trip(x: i32)
    requires
        -0x8000 <= x < 0x8000,
    ensures
        i16_of_be(be16(x)[0], be16(x)[1]) == x,
{
    let u = ((x as int) % 0x10000) as nat;
    assert(u == if x >= 0 { x as int } else { x as int + 0x10000 });
    assert(u == (u / 0x100) * 0x100 + u % 0x100);
}

/// Four bytes written from a value read back as that value.
pub proof fn lemma_u32_round_trip(x: u32)
    ensures
        u32_of_be(be32(x)[0], be32(x)[1], be32(x)[2], be32(x)[3]) == x,
{
    assert(x as int == (x / 0x1000000) * 0x1000000 + ((x / 0x10000) % 0x100) * 0x10000 + ((x
        / 0x100) % 0x100) * 0x100 + x % 0x100);
}

/// `s` with `bytes` written over it from position `at`.
pub open spec fn write_bytes(s: Seq<u8>, at: int, bytes: Seq<u8>) -> Seq<u8> {
    Seq::new(s.len(), |i: int| if at <= i < at + bytes.len() { bytes[i - at] } else { s[i] })
}

/// Writes `x`, most significant byte first, into `buf` from position `at`.
pub fn put_u32(buf: &mut Vec<u8>, at: usize, x: u32)
    requires
        at + 4 <= old(buf).len(),
    ensures
        final(buf)@ == write_bytes(old(buf)@, at as int, be32(x)),
{
    let b = u32_to_be(x);
    buf.set(at, b[0]);
    buf.set(at + 1, b[1]);
    buf.set(at + 2, b[2]);
    buf.set(at + 3, b[3]);
    assert(buf@ =~= write_bytes(old(buf)@, at as int, be32(x)));
}

/// Writes the low 24 bits of `x`, most significant byte first, into `buf` from
/// position `at`.
pub fn put_i24(buf: &mut Vec<u8>, at: usize, x: i32)
    requires
        at + 3 <= old(buf).len(),
    ensures
        final(buf)@ == write_bytes(old(buf)@, at as int, be24(x)),
{
    let b = i24_to_be(x);
    buf.set(at, b[0]);
    buf.set(at + 1, b[1]);
    buf.set(at + 2, b[2]);
    assert(buf@ =~= write_bytes(old(buf)@, at as int, be24(x)));
}

/// Writes the low 16 bits of `x`, most significant byte first, into `buf` from
/// position `at`.
pub fn put_i16(buf: &mut Vec<u8>, at: usize, x: i32)
    requires
        at + 2 <= old(buf).len(),
    ensures
        final(buf)@ == write_bytes(old(buf)@, at as int, be16(x)),
{
    let b = i16_to_be(x);
    buf.set(at, b[0]);
    buf.set(at + 1, b[1]);
    assert(buf@ =~= write_bytes(old(buf)@, at as int, be16(x)));
}

/// The sequence number that follows `x`; the numbering wraps round to 0 after the
/// largest 32 bit value.
pub open spec fn next_seq(x: u32) -> u32 {
    if x == u32::MAX {
        0
    } else {
        (x + 1) as u32
    }
}

/// The sequence number that follows `x`.
pub fn next_sequence(x: u32) -> (y: u32)
    ensures
        y == next_seq(x),
{
    if x == u32::MAX {
        0
    } else {
        x + 1
    }
}

} // verus!
