//! The 32-bit cyclic redundancy check used to protect each chunk of the
//! container: the bit-reversed polynomial 0xEDB88320, an all-ones seed, and a
//! final bitwise inversion of the accumulator.

use vstd::prelude::*;

verus! {

/// The bit-reversed generator polynomial of the checksum.
pub const CRC_POLYNOMIAL: u32 = 0xEDB88320;

/// The all-ones value that seeds the running checksum and inverts the final
/// accumulator.
pub const CRC_SEED: u32 = 0xFFFFFFFF;

/// One shift-and-feedback round of the table construction: shift right one
/// bit, folding the polynomial in when the dropped bit was set.
pub open spec fn crc_round(c: u32) -> u32 {
    if c & 1 == 1 {
        CRC_POLYNOMIAL ^ (c >> 1)
    } else {
        c >> 1
    }
}

/// `crc_round` applied `k` times to `c`.
pub open spec fn crc_rounds(c: u32, k: nat) -> u32
    decreases k,
{
    if k == 0 {
        c
    } else {
        crc_round(crc_rounds(c, (k - 1) as nat))
    }
}

/// Entry `n` of the 256-entry lookup table: eight feedback rounds applied to
/// the byte value.
pub open spec fn crc_table_entry(n: u32) -> u32 {
    crc_rounds(n, 8)
}

/// One byte folded into the running checksum `c`.
pub open spec fn crc_update(c: u32, b: u8) -> u32 {
    crc_table_entry((c ^ (b as u32)) & 0xFF) ^ (c >> 8)
}

/// The running checksum `c` advanced over every byte of `s`, left to right.
pub open spec fn crc_accum(c: u32, s: Seq<u8>) -> u32
    decreases s.len(),
{
    if s.len() == 0 {
        c
    } else {
        crc_accum(crc_update(c, s[0]), s.drop_first())
    }
}

/// The finished checksum of a byte sequence: seeded with all ones, advanced
/// over the bytes, and inverted at the end.
pub open spec fn crc32(s: Seq<u8>) -> u32 {
    crc_accum(CRC_SEED, s) ^ CRC_SEED
}

/// A zero-length input has no failure mode: its checksum is the inverted
/// seed, which is zero.
pub proof fn lemma_crc32_empty()
    ensures
        crc32(Seq::<u8>::empty()) == 0,
{
    assert(0xFFFFFFFFu32 ^ 0xFFFFFFFFu32 == 0) by (bit_vector);
}

/// Builds the 256-entry lookup table, one entry per byte value.
pub fn gen_crc_table() -> (table: Vec<u32>)
    ensures
        table@.len() == 256,
        forall|i: int| 0 <= i < 256 ==> table@[i] == crc_table_entry(i as u32),
{
    let mut table: Vec<u32> = Vec::new();
    for n in 0..256usize
        invariant
            table@.len() == n,
            forall|i: int| 0 <= i < n ==> table@[i] == crc_table_entry(i as u32),
    {
        let mut c: u32 = n as u32;
        let mut k: usize = 0;
        while k < 8
            invariant
                k <= 8,
                c == crc_rounds(n as u32, k as nat),
            decreases 8 - k,
        {
            if c & 1 == 1 {
                c = CRC_POLYNOMIAL ^ (c >> 1);
            } else {
                c = c >> 1;
            }
            k = k + 1;
        }
        table.push(c);
    }
    table
}

/// Advances the running checksum `crc` over `buf` and inverts the result.
/// Seeding with `CRC_SEED` yields the standard checksum of `buf`.
pub fn gen_crc(crc: u32, buf: &[u8]) -> (r: u32)
    ensures
        r == crc_accum(crc, buf@) ^ CRC_SEED,
        crc == CRC_SEED ==> r == crc32(buf@),
{
    let table = gen_crc_table();
    let mut c: u32 = crc;
    let len = buf.len();
    proof {
        assert(buf@.skip(0) =~= buf@);
    }
    for n in 0..len
        invariant
            len == buf@.len(),
            table@.len() == 256,
            forall|i: int| 0 <= i < 256 ==> table@[i] == crc_table_entry(i as u32),
            crc_accum(crc, buf@) == crc_accum(c, buf@.skip(n as int)),
    {
        let b = buf[n];
        let idx = (c ^ (b as u32)) & 0xFF;
        assert((c ^ (b as u32)) & 0xFF < 256) by (bit_vector);
        proof {
            assert(buf@.skip(n as int)[0] == buf@[n as int]);
            assert(buf@.skip(n as int).drop_first() =~= buf@.skip(n + 1));
        }
        c = table[idx as usize] ^ (c >> 8);
    }
    proof {
        assert(buf@.skip(len as int) =~= Seq::<u8>::empty());
    }
    c ^ CRC_SEED
}

} // verus!
