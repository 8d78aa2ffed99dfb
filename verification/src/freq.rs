//! Carrier-frequency codec.
//!
//! The two carrier frequencies are stored by the chip as 24-bit unsigned
//! words in units of the reference-clock rate divided by 2^20, i.e.
//! 32_000_000 / 1_048_576 Hz (about 30.5 Hz) per least-significant bit.
//! Decoding multiplies the register word by that ratio and truncates to
//! whole Hz; encoding multiplies a Hz value by the inverse ratio and
//! truncates to a 24-bit word.

use vstd::prelude::*;

verus! {

/// The 24-bit register word formed by the high, middle and low frequency
/// register bytes.
pub open spec fn frf_word(frfh: u8, frfm: u8, frfl: u8) -> int {
    frfh * 0x10000 + frfm * 0x100 + frfl
}

/// Frequency in Hz represented by the 24-bit register word `w`.
pub open spec fn hz_of_frf(w: int) -> int {
    w * 32_000_000 / 1_048_576
}

/// 24-bit register word that encodes the frequency `hz`, truncated to the
/// register width.
pub open spec fn frf_of_hz(hz: int) -> int {
    hz * 1_048_576 / 32_000_000 % 0x1000000
}

/// Decodes the three frequency register bytes (most significant first)
/// into a frequency in Hz.
pub fn freq_to_u32(frfh: u8, frfm: u8, frfl: u8) -> (hz: u32)
    ensures
        hz == hz_of_frf(frf_word(frfh, frfm, frfl)),
{
    let w: u64 = (frfh as u64) * 0x10000 + (frfm as u64) * 0x100 + (frfl as u64);
    proof {
        assert(w <= 0xFFFFFF);
        assert(w * 32_000_000 <= 0xFFFFFF * 32_000_000) by (nonlinear_arith)
            requires w <= 0xFFFFFF;
        vstd::arithmetic::div_mod::lemma_div_is_ordered(
            (w * 32_000_000) as int, (0xFFFFFF * 32_000_000) as int, 1_048_576);
    }
    ((w * 32_000_000) / 1_048_576) as u32
}

/// Encodes a frequency in Hz into the three frequency register bytes,
/// most significant first.
pub fn u32_to_freq(freq: u32) -> (r: (u8, u8, u8))
    ensures
        ({
            let c = frf_of_hz(freq as int);
            r.0 == c / 0x10000 && r.1 == c / 0x100 % 0x100 && r.2 == c % 0x100
        }),
{
    let c: u64 = (freq as u64) * 1_048_576 / 32_000_000 % 0x1000000;
    proof {
        vstd::arithmetic::div_mod::lemma_mod_bound(
            ((freq as u64) * 1_048_576 / 32_000_000) as int, 0x1000000);
        vstd::arithmetic::div_mod::lemma_div_is_ordered(c as int, 0xFFFFFF, 0x10000);
        vstd::arithmetic::div_mod::lemma_mod_bound((c / 0x100) as int, 0x100);
        vstd::arithmetic::div_mod::lemma_mod_bound(c as int, 0x100);
    }
    ((c / 0x10000) as u8, (c / 0x100 % 0x100) as u8, (c % 0x100) as u8)
}

/// A register word that is a multiple of 512 survives a decode/encode
/// round trip exactly.  (For such words the decoded Hz value is exact:
/// `w * 32_000_000 / 1_048_576 == (w / 512) * 15_625` with no remainder.)
pub proof fn lemma_freq_encode_decode(w: int)
    requires
        0 <= w < 0x1000000,
        w % 512 == 0,
    ensures
        frf_of_hz(hz_of_frf(w)) == w,
{
    let k = w / 512;
    assert(w == 512 * k);
    assert(w * 32_000_000 == k * 16_384_000_000) by (nonlinear_arith)
        requires w == 512 * k;
    assert(k * 16_384_000_000 == (k * 15_625) * 1_048_576) by (nonlinear_arith);
    vstd::arithmetic::div_mod::lemma_div_by_multiple(k * 15_625, 1_048_576);
    assert(hz_of_frf(w) == k * 15_625);
    assert((k * 15_625) * 1_048_576 == (k * 512) * 32_000_000) by (nonlinear_arith);
    vstd::arithmetic::div_mod::lemma_div_by_multiple(k * 512, 32_000_000);
    assert(hz_of_frf(w) * 1_048_576 / 32_000_000 == k * 512);
    vstd::arithmetic::div_mod::lemma_small_mod((k * 512) as nat, 0x1000000);
}

/// Encoding and then decoding a Hz value loses at most one quantization
/// step: the round-tripped frequency never exceeds the original and falls
/// short of it by at most 31 Hz.
pub proof fn lemma_freq_decode_encode(hz: int)
    requires
        0 <= hz < 512_000_000,
    ensures
        hz - 31 <= hz_of_frf(frf_of_hz(hz)) <= hz,
{
    let c0 = hz * 1_048_576 / 32_000_000;
    assert(hz * 1_048_576 < 512_000_000 * 1_048_576) by (nonlinear_arith)
        requires hz < 512_000_000;
    vstd::arithmetic::div_mod::lemma_div_is_ordered(
        hz * 1_048_576, 512_000_000 * 1_048_576 - 1, 32_000_000);
    assert(c0 < 0x1000000);
    assert(hz * 1_048_576 >= 0) by (nonlinear_arith)
        requires hz >= 0;
    vstd::arithmetic::div_mod::lemma_div_is_ordered(0, hz * 1_048_576, 32_000_000);
    vstd::arithmetic::div_mod::lemma_small_mod(c0 as nat, 0x1000000);
    assert(frf_of_hz(hz) == c0);
    // Floor bounds for c0 = hz * 2^20 / 32e6.
    vstd::arithmetic::div_mod::lemma_fundamental_div_mod(hz * 1_048_576, 32_000_000);
    vstd::arithmetic::div_mod::lemma_mod_bound(hz * 1_048_576, 32_000_000);
    assert(c0 * 32_000_000 <= hz * 1_048_576);
    assert(hz * 1_048_576 < c0 * 32_000_000 + 32_000_000);
    // Upper bound: c0 * 32e6 <= hz * 2^20, so floor(c0 * 32e6 / 2^20) <= hz.
    vstd::arithmetic::div_mod::lemma_div_is_ordered(c0 * 32_000_000, hz * 1_048_576, 1_048_576);
    vstd::arithmetic::div_mod::lemma_div_by_multiple(hz, 1_048_576);
    assert(hz * 1_048_576 / 1_048_576 == hz);
    assert(hz_of_frf(c0) <= hz);
    // Lower bound: c0 * 32e6 > hz * 2^20 - 32e6 >= (hz - 31) * 2^20 + 505_857,
    // hence floor(c0 * 32e6 / 2^20) >= hz - 31.
    assert((hz - 31) * 1_048_576 == hz * 1_048_576 - 32_505_856) by (nonlinear_arith);
    assert(c0 * 32_000_000 > hz * 1_048_576 - 32_000_000);
    assert(c0 * 32_000_000 >= (hz - 31) * 1_048_576 + 505_857);
    vstd::arithmetic::div_mod::lemma_div_is_ordered(
        (hz - 31) * 1_048_576, c0 * 32_000_000, 1_048_576);
    vstd::arithmetic::div_mod::lemma_div_multiples_vanish(hz - 31, 1_048_576);
    assert(hz_of_frf(c0) >= hz - 31);
}

/// Reassembling the three bytes of a 24-bit word gives the word back.
pub proof fn lemma_frf_bytes(c: int)
    requires
        0 <= c < 0x1000000,
    ensures
        (c / 0x10000) * 0x10000 + ((c / 0x100) % 0x100) * 0x100 + c % 0x100 == c,
        0 <= c / 0x10000 < 0x100,
        0 <= (c / 0x100) % 0x100 < 0x100,
        0 <= c % 0x100 < 0x100,
{
    vstd::arithmetic::div_mod::lemma_fundamental_div_mod(c, 0x100);
    vstd::arithmetic::div_mod::lemma_mod_bound(c, 0x100);
    vstd::arithmetic::div_mod::lemma_fundamental_div_mod(c / 0x100, 0x100);
    vstd::arithmetic::div_mod::lemma_mod_bound(c / 0x100, 0x100);
    vstd::arithmetic::div_mod::lemma_div_is_ordered(c, 0xFFFFFF, 0x100);
    vstd::arithmetic::div_mod::lemma_div_is_ordered(c / 0x100, 0xFFFF, 0x100);
    vstd::arithmetic::div_mod::lemma_div_denominator(c, 0x100, 0x100);
    assert(c / 0x100 / 0x100 == c / 0x10000);
    vstd::arithmetic::div_mod::lemma_div_is_ordered(0, c, 0x100);
    vstd::arithmetic::div_mod::lemma_div_is_ordered(0, c / 0x100, 0x100);
}

} // verus!
