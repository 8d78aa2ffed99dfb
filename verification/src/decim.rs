//! Decimation/interpolation-factor codec.
//!
//! The chip stores the factor `r` as a packed triple: a one-bit mantissa
//! selector (8 or 9), a one-bit power-of-3 exponent `m`, and a three-bit
//! power-of-2 exponent `n`, so that `r = mant * 3^m * 2^n`.  Exactly 28
//! distinct factors are legal: mantissa 8 or 9, `m` 0 or 1, `n` 0 to 6.
//! Decoding is total over the packed bits; encoding is a table lookup that
//! fails for every integer outside the 28-value set.

use vstd::prelude::*;
use crate::fields::SxError;

verus! {

/// 3 raised to the one-bit exponent `m` (any larger `m` means 3^1: callers
/// never pass one).
pub open spec fn pow3_m(m: u8) -> int {
    if m == 0 {
        1
    } else {
        3
    }
}

/// 2 raised to the three-bit exponent `n`.
pub open spec fn pow2_n(n: u8) -> int {
    if n == 0 {
        1
    } else if n == 1 {
        2
    } else if n == 2 {
        4
    } else if n == 3 {
        8
    } else if n == 4 {
        16
    } else if n == 5 {
        32
    } else if n == 6 {
        64
    } else {
        128
    }
}

/// The factor represented by a packed (mantissa, m, n) triple:
/// `mant * 3^m * 2^n`.
pub open spec fn spec_calc_r(mant: u8, m: u8, n: u8) -> int {
    mant * pow3_m(m) * pow2_n(n)
}

/// Is `r` one of the 28 legal decimation/interpolation factors?
pub open spec fn is_legal_r(r: u32) -> bool {
    ||| r == 8
    ||| r == 16
    ||| r == 24
    ||| r == 32
    ||| r == 48
    ||| r == 64
    ||| r == 96
    ||| r == 128
    ||| r == 192
    ||| r == 256
    ||| r == 384
    ||| r == 512
    ||| r == 768
    ||| r == 1536
    ||| r == 9
    ||| r == 18
    ||| r == 27
    ||| r == 36
    ||| r == 54
    ||| r == 72
    ||| r == 108
    ||| r == 144
    ||| r == 216
    ||| r == 288
    ||| r == 432
    ||| r == 576
    ||| r == 864
    ||| r == 1728
}

/// The packed (mantissa, m, n) triple that encodes a legal factor `r`.
/// Meaningful only when `is_legal_r(r)` holds.
pub open spec fn spec_r_triple(r: u32) -> (u8, u8, u8) {
    if r == 8 {
        (8u8, 0u8, 0u8)
    } else if r == 16 {
        (8u8, 0u8, 1u8)
    } else if r == 24 {
        (8u8, 1u8, 0u8)
    } else if r == 32 {
        (8u8, 0u8, 2u8)
    } else if r == 48 {
        (8u8, 1u8, 1u8)
    } else if r == 64 {
        (8u8, 0u8, 3u8)
    } else if r == 96 {
        (8u8, 1u8, 2u8)
    } else if r == 128 {
        (8u8, 0u8, 4u8)
    } else if r == 192 {
        (8u8, 1u8, 3u8)
    } else if r == 256 {
        (8u8, 0u8, 5u8)
    } else if r == 384 {
        (8u8, 1u8, 4u8)
    } else if r == 512 {
        (8u8, 0u8, 6u8)
    } else if r == 768 {
        (8u8, 1u8, 5u8)
    } else if r == 1536 {
        (8u8, 1u8, 6u8)
    } else if r == 9 {
        (9u8, 0u8, 0u8)
    } else if r == 18 {
        (9u8, 0u8, 1u8)
    } else if r == 27 {
        (9u8, 1u8, 0u8)
    } else if r == 36 {
        (9u8, 0u8, 2u8)
    } else if r == 54 {
        (9u8, 1u8, 1u8)
    } else if r == 72 {
        (9u8, 0u8, 3u8)
    } else if r == 108 {
        (9u8, 1u8, 2u8)
    } else if r == 144 {
        (9u8, 0u8, 4u8)
    } else if r == 216 {
        (9u8, 1u8, 3u8)
    } else if r == 288 {
        (9u8, 0u8, 5u8)
    } else if r == 432 {
        (9u8, 1u8, 4u8)
    } else if r == 576 {
        (9u8, 0u8, 6u8)
    } else if r == 864 {
        (9u8, 1u8, 5u8)
    } else {
        (9u8, 1u8, 6u8)
    }
}

/// Decodes a packed (mantissa, m, n) triple into the factor
/// `mant * 3^m * 2^n`.  Total over the packed register bits: `m` is a
/// one-bit field and `n` a three-bit field, so every extracted pattern has
/// some value, legal or not.
pub fn calc_r(mant: u8, m: u8, n: u8) -> (r: u32)
    requires
        m <= 1,
        n <= 7,
    ensures
        r == spec_calc_r(mant, m, n),
{
    let p3: u32 = if m == 0 { 1 } else { 3 };
    let p2: u32 = match n {
        0 => 1,
        1 => 2,
        2 => 4,
        3 => 8,
        4 => 16,
        5 => 32,
        6 => 64,
        _ => 128,
    };
    proof {
        assert((mant as u32) * p3 * p2 <= 255 * 3 * 128) by (nonlinear_arith)
            requires mant <= 255 && 1 <= p3 <= 3 && 1 <= p2 <= 128;
    }
    (mant as u32) * p3 * p2
}

/// Encodes a legal factor into its packed (mantissa, m, n) triple by table
/// lookup.  Callers that cannot guarantee legality use [`encode_r`].
pub fn r_to_mant_m_n(r: u32) -> (t: (u8, u8, u8))
    requires
        is_legal_r(r),
    ensures
        t == spec_r_triple(r),
{
    match r {
        8 => (8, 0, 0),
        16 => (8, 0, 1),
        24 => (8, 1, 0),
        32 => (8, 0, 2),
        48 => (8, 1, 1),
        64 => (8, 0, 3),
        96 => (8, 1, 2),
        128 => (8, 0, 4),
        192 => (8, 1, 3),
        256 => (8, 0, 5),
        384 => (8, 1, 4),
        512 => (8, 0, 6),
        768 => (8, 1, 5),
        1536 => (8, 1, 6),
        9 => (9, 0, 0),
        18 => (9, 0, 1),
        27 => (9, 1, 0),
        36 => (9, 0, 2),
        54 => (9, 1, 1),
        72 => (9, 0, 3),
        108 => (9, 1, 2),
        144 => (9, 0, 4),
        216 => (9, 1, 3),
        288 => (9, 0, 5),
        432 => (9, 1, 4),
        576 => (9, 0, 6),
        864 => (9, 1, 5),
        _ => (9, 1, 6),
    }
}

/// Tests `r` for membership in the 28-value legal set.
pub fn is_valid_r(r: u32) -> (ok: bool)
    ensures
        ok == is_legal_r(r),
{
    match r {
        8 | 16 | 24 | 32 | 48 | 64 | 96 | 128 | 192 | 256 | 384 | 512 | 768 | 1536 => true,
        9 | 18 | 27 | 36 | 54 | 72 | 108 | 144 | 216 | 288 | 432 | 576 | 864 | 1728 => true,
        _ => false,
    }
}

/// Encodes a factor into its packed triple, failing with an
/// unsupported-factor error for any integer outside the 28-value legal
/// set.  The failure is never a silent approximation.
pub fn encode_r(r: u32) -> (res: Result<(u8, u8, u8), SxError>)
    ensures
        res is Ok <==> is_legal_r(r),
        is_legal_r(r) ==> res == Ok::<_, SxError>(spec_r_triple(r)),
        !is_legal_r(r) ==> res == Err::<(u8, u8, u8), _>(SxError::UnsupportedFactor { value: r }),
{
    if is_valid_r(r) {
        Ok(r_to_mant_m_n(r))
    } else {
        Err(SxError::UnsupportedFactor { value: r })
    }
}

/// Decoding inverts encoding on every legal factor: the packed triple of a
/// legal `r` multiplies back out to exactly `r`.
pub proof fn lemma_r_round_trip(r: u32)
    requires
        is_legal_r(r),
    ensures
        ({
            let (mant, m, n) = spec_r_triple(r);
            spec_calc_r(mant, m, n) == r
        }),
{
}

/// Every packed triple within the register bit spans (mantissa 8 or 9,
/// `m` at most 1, `n` at most 6) decodes to a legal factor, and the table
/// maps that factor back to exactly the same triple.
pub proof fn lemma_calc_r_in_table(mant: u8, m: u8, n: u8)
    requires
        mant == 8 || mant == 9,
        m <= 1,
        n <= 6,
    ensures
        ({
            let r = spec_calc_r(mant, m, n) as u32;
            is_legal_r(r) && spec_r_triple(r) == (mant, m, n) && spec_calc_r(mant, m, n) == r
        }),
{
    if mant == 8 {
        if m == 0 {
            if n == 0 {
                assert(spec_calc_r(mant, m, n) == 8);
            } else if n == 1 {
                assert(spec_calc_r(mant, m, n) == 16);
            } else if n == 2 {
                assert(spec_calc_r(mant, m, n) == 32);
            } else if n == 3 {
                assert(spec_calc_r(mant, m, n) == 64);
            } else if n == 4 {
                assert(spec_calc_r(mant, m, n) == 128);
            } else if n == 5 {
                assert(spec_calc_r(mant, m, n) == 256);
            } else {
                assert(spec_calc_r(mant, m, n) == 512);
            }
        } else {
            if n == 0 {
                assert(spec_calc_r(mant, m, n) == 24);
            } else if n == 1 {
                assert(spec_calc_r(mant, m, n) == 48);
            } else if n == 2 {
                assert(spec_calc_r(mant, m, n) == 96);
            } else if n == 3 {
                assert(spec_calc_r(mant, m, n) == 192);
            } else if n == 4 {
                assert(spec_calc_r(mant, m, n) == 384);
            } else if n == 5 {
                assert(spec_calc_r(mant, m, n) == 768);
            } else {
                assert(spec_calc_r(mant, m, n) == 1536);
            }
        }
    } else {
        if m == 0 {
            if n == 0 {
                assert(spec_calc_r(mant, m, n) == 9);
            } else if n == 1 {
                assert(spec_calc_r(mant, m, n) == 18);
            } else if n == 2 {
                assert(spec_calc_r(mant, m, n) == 36);
            } else if n == 3 {
                assert(spec_calc_r(mant, m, n) == 72);
            } else if n == 4 {
                assert(spec_calc_r(mant, m, n) == 144);
            } else if n == 5 {
                assert(spec_calc_r(mant, m, n) == 288);
            } else {
                assert(spec_calc_r(mant, m, n) == 576);
            }
        } else {
            if n == 0 {
                assert(spec_calc_r(mant, m, n) == 27);
            } else if n == 1 {
                assert(spec_calc_r(mant, m, n) == 54);
            } else if n == 2 {
                assert(spec_calc_r(mant, m, n) == 108);
            } else if n == 3 {
                assert(spec_calc_r(mant, m, n) == 216);
            } else if n == 4 {
                assert(spec_calc_r(mant, m, n) == 432);
            } else if n == 5 {
                assert(spec_calc_r(mant, m, n) == 864);
            } else {
                assert(spec_calc_r(mant, m, n) == 1728);
            }
        }
    }
}

/// The packed triple of a legal factor always lies within the register bit
/// spans: mantissa 8 or 9, `m` at most 1, `n` at most 6.
pub proof fn lemma_r_triple_fits(r: u32)
    requires
        is_legal_r(r),
    ensures
        ({
            let (mant, m, n) = spec_r_triple(r);
            (mant == 8 || mant == 9) && m <= 1 && n <= 6
        }),
{
}

} // verus!
