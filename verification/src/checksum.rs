//! The 16-bit cyclic redundancy check that closes every notification frame:
//! generator polynomial `0x1021`, register preset to `0xFFFF`, bytes taken
//! most significant bit first, no reflection and no final inversion.

use vstd::prelude::*;

verus! {

/// The register after one shift: the top bit leaves, and where it was set the
/// generator polynomial is folded in.
pub open spec fn shifted(reg: u16) -> u16 {
    if reg & 0x8000 != 0 {
        (reg << 1) ^ 0x1021
    } else {
        reg << 1
    }
}

/// The register after `n` shifts.
pub open spec fn shifted_by(reg: u16, n: nat) -> u16
    decreases n,
{
    if n == 0 {
        reg
    } else {
        shifted(shifted_by(reg, (n - 1) as nat))
    }
}

/// The register after one input byte: the byte is folded into the high half,
/// then the register is shifted eight times.
pub open spec fn absorbed(reg: u16, byte: u8) -> u16 {
    shifted_by(reg ^ ((byte as u16) << 8), 8)
}

/// The checksum of a byte sequence: the register, preset to `0xFFFF`, after
/// every byte has been absorbed in order.
pub open spec fn checksum(bytes: Seq<u8>) -> u16
    decreases bytes.len(),
{
    if bytes.len() == 0 {
        0xFFFF
    } else {
        absorbed(checksum(bytes.drop_last()), bytes.last())
    }
}

/// Computes the checksum of `src`.
pub fn crc16(src: &[u8]) -> (crc: u16)
    ensures
        crc == checksum(src@),
{
    let mut crc: u16 = 0xffff;
    let mut i: usize = 0;
    while i < src.len()
        invariant
            i <= src.len(),
            crc == checksum(src@.take(i as int)),
        decreases src.len() - i,
    {
        let b: u8 = src[i];
        let ghost before: u16 = crc;
        crc = crc ^ ((b as u16) << 8);
        let mut k: u8 = 0;
        while k < 8
            invariant
                k <= 8,
                crc == shifted_by(before ^ ((b as u16) << 8), k as nat),
            decreases 8 - k,
        {
            if crc & 0x8000 != 0 {
                crc = (crc << 1) ^ 0x1021;
            } else {
                crc = crc << 1;
            }
            k = k + 1;
        }
        proof {
            let next = src@.take(i + 1);
            assert(next.drop_last() == src@.take(i as int));
            assert(next.last() == b);
        }
        i = i + 1;
    }
    proof {
        assert(src@.take(src.len() as int) == src@);
    }
    crc
}

/// The checksum of no bytes is the preset register, `0xFFFF`.
pub proof fn checksum_of_nothing()
    ensures
        checksum(Seq::<u8>::empty()) == 0xFFFF,
{
}

/// The checksum depends on nothing but the bytes: sequences that agree in
/// length and in every position have the same checksum.
pub proof fn checksum_is_function_of_bytes(a: Seq<u8>, b: Seq<u8>)
    requires
        a.len() == b.len(),
        forall|i: int| 0 <= i < a.len() ==> a[i] == b[i],
    ensures
        checksum(a) == checksum(b),
{
    assert(a =~= b);
}

/// Appending one byte absorbs it into the checksum of what came before.
pub proof fn checksum_of_push(bytes: Seq<u8>, byte: u8)
    ensures
        checksum(bytes.push(byte)) == absorbed(checksum(bytes), byte),
{
    assert(bytes.push(byte).drop_last() == bytes);
}

/// Distinct registers stay distinct under any number of shifts.
pub proof fn shifts_keep_registers_apart(a: u16, b: u16, n: nat)
    requires
        a != b,
    ensures
        shifted_by(a, n) != shifted_by(b, n),
    decreases n,
{
    if n > 0 {
        shifts_keep_registers_apart(a, b, (n - 1) as nat);
        let x = shifted_by(a, (n - 1) as nat);
        let y = shifted_by(b, (n - 1) as nat);
        assert(shifted(x) == shifted(y) ==> x == y) by (bit_vector);
    }
}

/// Absorbing the same byte into distinct registers gives distinct registers.
pub proof fn absorbing_keeps_registers_apart(a: u16, b: u16, byte: u8)
    requires
        a != b,
    ensures
        absorbed(a, byte) != absorbed(b, byte),
{
    let lifted = (byte as u16) << 8;
    assert(a ^ lifted == b ^ lifted ==> a == b) by (bit_vector);
    shifts_keep_registers_apart(a ^ lifted, b ^ lifted, 8);
}

/// Absorbing distinct bytes into the same register gives distinct registers.
pub proof fn absorbing_tells_bytes_apart(reg: u16, x: u8, y: u8)
    requires
        x != y,
    ensures
        absorbed(reg, x) != absorbed(reg, y),
{
    assert(reg ^ ((x as u16) << 8) == reg ^ ((y as u16) << 8) ==> x == y) by (bit_vector);
    shifts_keep_registers_apart(reg ^ ((x as u16) << 8), reg ^ ((y as u16) << 8), 8);
}

/// Changing any single byte of a sequence changes its checksum.
pub proof fn single_byte_change_changes_checksum(bytes: Seq<u8>, at: int, byte: u8)
    requires
        0 <= at < bytes.len(),
        byte != bytes[at],
    ensures
        checksum(bytes.update(at, byte)) != checksum(bytes),
    decreases bytes.len(),
{
    let changed = bytes.update(at, byte);
    if at == bytes.len() - 1 {
        assert(changed.drop_last() == bytes.drop_last());
        absorbing_tells_bytes_apart(checksum(bytes.drop_last()), byte, bytes[at]);
    } else {
        assert(changed.drop_last() == bytes.drop_last().update(at, byte));
        single_byte_change_changes_checksum(bytes.drop_last(), at, byte);
        absorbing_keeps_registers_apart(
            checksum(changed.drop_last()),
            checksum(bytes.drop_last()),
            bytes.last(),
        );
    }
}

/// Eight shifts, written out one after the other.
pub open spec fn eight_shifts(reg: u16) -> u16 {
    shifted(shifted(shifted(shifted(shifted(shifted(shifted(shifted(reg))))))))
}

/// Absorbing a byte is folding it in and shifting eight times.
pub proof fn absorbing_is_eight_shifts(reg: u16, byte: u8)
    ensures
        absorbed(reg, byte) == eight_shifts(reg ^ ((byte as u16) << 8)),
{
    reveal_with_fuel(shifted_by, 9);
}

/// The checksum of the ASCII digits `1` to `9` is `0x29B1`.
pub proof fn checksum_of_digits()
    ensures
        checksum(seq![0x31u8, 0x32u8, 0x33u8, 0x34u8, 0x35u8, 0x36u8, 0x37u8, 0x38u8, 0x39u8])
            == 0x29B1,
{
    let s0 = Seq::<u8>::empty();
    let s1 = s0.push(0x31);
    let s2 = s1.push(0x32);
    let s3 = s2.push(0x33);
    let s4 = s3.push(0x34);
    let s5 = s4.push(0x35);
    let s6 = s5.push(0x36);
    let s7 = s6.push(0x37);
    let s8 = s7.push(0x38);
    let s9 = s8.push(0x39);
    checksum_of_push(s0, 0x31);
    absorbing_is_eight_shifts(0xFFFF, 0x31);
    assert(eight_shifts(0xFFFFu16 ^ (0x31u16 << 8)) == 0xC782u16) by (bit_vector);
    checksum_of_push(s1, 0x32);
    absorbing_is_eight_shifts(0xC782, 0x32);
    assert(eight_shifts(0xC782u16 ^ (0x32u16 << 8)) == 0x3DBAu16) by (bit_vector);
    checksum_of_push(s2, 0x33);
    absorbing_is_eight_shifts(0x3DBA, 0x33);
    assert(eight_shifts(0x3DBAu16 ^ (0x33u16 << 8)) == 0x5BCEu16) by (bit_vector);
    checksum_of_push(s3, 0x34);
    absorbing_is_eight_shifts(0x5BCE, 0x34);
    assert(eight_shifts(0x5BCEu16 ^ (0x34u16 << 8)) == 0x5349u16) by (bit_vector);
    checksum_of_push(s4, 0x35);
    absorbing_is_eight_shifts(0x5349, 0x35);
    assert(eight_shifts(0x5349u16 ^ (0x35u16 << 8)) == 0x4560u16) by (bit_vector);
    checksum_of_push(s5, 0x36);
    absorbing_is_eight_shifts(0x4560, 0x36);
    assert(eight_shifts(0x4560u16 ^ (0x36u16 << 8)) == 0x2EF4u16) by (bit_vector);
    checksum_of_push(s6, 0x37);
    absorbing_is_eight_shifts(0x2EF4, 0x37);
    assert(eight_shifts(0x2EF4u16 ^ (0x37u16 << 8)) == 0x7718u16) by (bit_vector);
    checksum_of_push(s7, 0x38);
    absorbing_is_eight_shifts(0x7718, 0x38);
    assert(eight_shifts(0x7718u16 ^ (0x38u16 << 8)) == 0xA12Bu16) by (bit_vector);
    checksum_of_push(s8, 0x39);
    absorbing_is_eight_shifts(0xA12B, 0x39);
    assert(eight_shifts(0xA12Bu16 ^ (0x39u16 << 8)) == 0x29B1u16) by (bit_vector);
    assert(s9 =~= seq![0x31u8, 0x32u8, 0x33u8, 0x34u8, 0x35u8, 0x36u8, 0x37u8, 0x38u8, 0x39u8]);
}

} // verus!
