//! The register map: bit-exact packing and unpacking between the device
//! state and the chip's twenty 8-bit registers.
//!
//! Register layout (index = register address):
//!
//! | idx  | register   | fields (bit spans)                                       |
//! |------|------------|----------------------------------------------------------|
//! | 0x00 | MODE       | driver_enable 3, tx_enable 2, rx_enable 1, ref_enable 0  |
//! | 0x01 | FRFH_RX    | Rx frequency word bits 23..16                            |
//! | 0x02 | FRFM_RX    | Rx frequency word bits 15..8                             |
//! | 0x03 | FRFL_RX    | Rx frequency word bits 7..0                              |
//! | 0x04 | FRFH_TX    | Tx frequency word bits 23..16                            |
//! | 0x05 | FRFM_TX    | Tx frequency word bits 15..8                             |
//! | 0x06 | FRFL_TX    | Tx frequency word bits 7..0                              |
//! | 0x07 | VERSION    | version code (read-only)                                 |
//! | 0x08 | TXFE1      | tx_dac_gain 6..4, tx_mixer_gain 3..0                     |
//! | 0x09 | TXFE2      | tx_mixer_tank_cap 5..3, tx_mixer_tank_res 2..0           |
//! | 0x0A | TXFE3      | tx_pll_bw 6..5, tx_filter_bw 3..0                        |
//! | 0x0B | TXFE4      | tx_dac_bw 2..0                                           |
//! | 0x0C | RXFE1      | rx_lna_gain 7..5, rx_pga_gain 4..1, rx_zin_200 0         |
//! | 0x0D | RXFE2      | rx_adc_bw 7..5, rx_adc_trim 4..2, rx_pga_bw 1..0         |
//! | 0x0E | RXFE3      | rx_pll_bw 2..1, rx_adc_temp 0                            |
//! | 0x0F | IO_MAP     | iomap0 7..6, iomap1 5..4, iomap2 3..2, iomap3 1..0       |
//! | 0x10 | CK_SEL     | dig_loopback_en 3, rf_loopback_en 2, ckout_enable 1,     |
//! |      |            | ck_select_tx_dac 0                                       |
//! | 0x11 | STAT       | eol 3, xosc_ready 2, pll_lock_rx 1, pll_lock_tx 0        |
//! |      |            | (all read-only)                                          |
//! | 0x12 | IISM       | iism_rx_disable 7, iism_tx_disable 6, iism_mode 5..4,    |
//! |      |            | iism_clk_div 3..0                                        |
//! | 0x13 | DIG_BRIDGE | mantissa selector 7, m 6, n 5..3, iism_truncation 2,     |
//! |      |            | iism_status_flag 1 (read-only)                           |
//!
//! Decoding is total: every 20-byte pattern yields some state.  Encoding
//! range-checks every field against its bit span first and fails rather
//! than silently truncate; the two read-only registers are emitted as zero
//! and must never be written to the device.

use vstd::prelude::*;
use crate::decim::{
    calc_r, is_legal_r, lemma_calc_r_in_table, lemma_r_round_trip, lemma_r_triple_fits,
    r_to_mant_m_n, spec_calc_r, spec_r_triple,
};
use crate::fields::{FieldId, SxError};
use crate::freq::{
    freq_to_u32, frf_of_hz, frf_word, hz_of_frf, lemma_freq_decode_encode,
    lemma_freq_encode_decode, lemma_frf_bytes, u32_to_freq,
};
use crate::state::{fits_registers, same_writable_except_freq, SX1255Info};

verus! {

/// Number of registers the chip exposes.
pub const REG_COUNT: usize = 20;

/// 1 for true, 0 for false: the single-bit register form of a flag.
pub open spec fn bool_bit(flag: bool) -> u8 {
    if flag {
        1
    } else {
        0
    }
}

/// Converts a flag to its single-bit register form.
pub fn bool_to_u8(flag: bool) -> (r: u8)
    ensures
        r == bool_bit(flag),
{
    if flag {
        1
    } else {
        0
    }
}

/// The state denoted by a 20-byte register image.
pub open spec fn spec_decode(regs: Seq<u8>) -> SX1255Info {
    SX1255Info {
        driver_enable: (regs[0] & 0b00001000) != 0,
        tx_enable: (regs[0] & 0b00000100) != 0,
        rx_enable: (regs[0] & 0b00000010) != 0,
        ref_enable: (regs[0] & 0b00000001) != 0,
        rx_freq: hz_of_frf(frf_word(regs[1], regs[2], regs[3])) as u32,
        tx_freq: hz_of_frf(frf_word(regs[4], regs[5], regs[6])) as u32,
        version: regs[7],
        tx_dac_gain: (regs[8] & 0b01110000) >> 4,
        tx_mixer_gain: regs[8] & 0b00001111,
        tx_mixer_tank_cap: (regs[9] & 0b00111000) >> 3,
        tx_mixer_tank_res: regs[9] & 0b00000111,
        tx_pll_bw: (regs[10] & 0b01100000) >> 5,
        tx_filter_bw: regs[10] & 0b00001111,
        tx_dac_bw: regs[11] & 0b00000111,
        rx_lna_gain: (regs[12] & 0b11100000) >> 5,
        rx_pga_gain: (regs[12] & 0b00011110) >> 1,
        rx_zin_200: regs[12] & 0b00000001,
        rx_adc_bw: (regs[13] & 0b11100000) >> 5,
        rx_adc_trim: (regs[13] & 0b00011100) >> 2,
        rx_pga_bw: regs[13] & 0b00000011,
        rx_pll_bw: (regs[14] & 0b00000110) >> 1,
        rx_adc_temp: (regs[14] & 0b00000001) != 0,
        iomap0: (regs[15] & 0b11000000) >> 6,
        iomap1: (regs[15] & 0b00110000) >> 4,
        iomap2: (regs[15] & 0b00001100) >> 2,
        iomap3: regs[15] & 0b00000011,
        dig_loopback_en: (regs[16] & 0b00001000) != 0,
        rf_loopback_en: (regs[16] & 0b00000100) != 0,
        ckout_enable: (regs[16] & 0b00000010) >> 1,
        ck_select_tx_dac: regs[16] & 0b00000001,
        eol: (regs[17] & 0b00001000) >> 3,
        xosc_ready: (regs[17] & 0b00000100) != 0,
        pll_lock_rx: (regs[17] & 0b00000010) != 0,
        pll_lock_tx: (regs[17] & 0b00000001) != 0,
        iism_rx_disable: (regs[18] & 0b10000000) != 0,
        iism_tx_disable: (regs[18] & 0b01000000) != 0,
        iism_mode: (regs[18] & 0b00110000) >> 4,
        iism_clk_div: regs[18] & 0b00001111,
        r: spec_calc_r(
            if (regs[19] & 0b10000000) != 0 {
                9u8
            } else {
                8u8
            },
            (regs[19] & 0b01000000) >> 6,
            (regs[19] & 0b00111000) >> 3,
        ) as u32,
        iism_truncation: (regs[19] & 0b00000100) >> 2,
        iism_status_flag: (regs[19] & 0b00000010) >> 1,
    }
}

/// Reconstructs a device state from the twenty register bytes read from
/// the chip, in address order.  Total: every bit pattern decodes.
pub fn decode_registers(regs: &[u8; 20]) -> (info: SX1255Info)
    ensures
        info == spec_decode(regs@),
{
    let mant: u8 = if (regs[19] & 0b10000000) != 0 { 9 } else { 8 };
    let m: u8 = (regs[19] & 0b01000000) >> 6;
    let n: u8 = (regs[19] & 0b00111000) >> 3;
    proof {
        let b = regs@[19];
        assert((b & 0b01000000) >> 6 <= 1 && (b & 0b00111000) >> 3 <= 7) by (bit_vector);
    }
    let r: u32 = calc_r(mant, m, n);
    SX1255Info {
        driver_enable: (regs[0] & 0b00001000) != 0,
        tx_enable: (regs[0] & 0b00000100) != 0,
        rx_enable: (regs[0] & 0b00000010) != 0,
        ref_enable: (regs[0] & 0b00000001) != 0,
        rx_freq: freq_to_u32(regs[1], regs[2], regs[3]),
        tx_freq: freq_to_u32(regs[4], regs[5], regs[6]),
        version: regs[7],
        tx_dac_gain: (regs[8] & 0b01110000) >> 4,
        tx_mixer_gain: regs[8] & 0b00001111,
        tx_mixer_tank_cap: (regs[9] & 0b00111000) >> 3,
        tx_mixer_tank_res: regs[9] & 0b00000111,
        tx_pll_bw: (regs[10] & 0b01100000) >> 5,
        tx_filter_bw: regs[10] & 0b00001111,
        tx_dac_bw: regs[11] & 0b00000111,
        rx_lna_gain: (regs[12] & 0b11100000) >> 5,
        rx_pga_gain: (regs[12] & 0b00011110) >> 1,
        rx_zin_200: regs[12] & 0b00000001,
        rx_adc_bw: (regs[13] & 0b11100000) >> 5,
        rx_adc_trim: (regs[13] & 0b00011100) >> 2,
        rx_pga_bw: regs[13] & 0b00000011,
        rx_pll_bw: (regs[14] & 0b00000110) >> 1,
        rx_adc_temp: (regs[14] & 0b00000001) != 0,
        iomap0: (regs[15] & 0b11000000) >> 6,
        iomap1: (regs[15] & 0b00110000) >> 4,
        iomap2: (regs[15] & 0b00001100) >> 2,
        iomap3: regs[15] & 0b00000011,
        dig_loopback_en: (regs[16] & 0b00001000) != 0,
        rf_loopback_en: (regs[16] & 0b00000100) != 0,
        ckout_enable: (regs[16] & 0b00000010) >> 1,
        ck_select_tx_dac: regs[16] & 0b00000001,
        eol: (regs[17] & 0b00001000) >> 3,
        xosc_ready: (regs[17] & 0b00000100) != 0,
        pll_lock_rx: (regs[17] & 0b00000010) != 0,
        pll_lock_tx: (regs[17] & 0b00000001) != 0,
        iism_rx_disable: (regs[18] & 0b10000000) != 0,
        iism_tx_disable: (regs[18] & 0b01000000) != 0,
        iism_mode: (regs[18] & 0b00110000) >> 4,
        iism_clk_div: regs[18] & 0b00001111,
        r,
        iism_truncation: (regs[19] & 0b00000100) >> 2,
        iism_status_flag: (regs[19] & 0b00000010) >> 1,
    }
}

/// The 20-byte register image that encodes a state.  Meaningful only when
/// `fits_registers` holds of the state.  The read-only VERSION and STAT
/// registers are emitted as zero placeholders, and the read-only interface
/// error flag of DIG_BRIDGE is emitted as zero.
pub open spec fn spec_encode(s: SX1255Info) -> Seq<u8> {
    let crx = frf_of_hz(s.rx_freq as int);
    let ctx = frf_of_hz(s.tx_freq as int);
    let trip = spec_r_triple(s.r);
    seq![
        (bool_bit(s.driver_enable) << 3) | (bool_bit(s.tx_enable) << 2)
            | (bool_bit(s.rx_enable) << 1) | bool_bit(s.ref_enable),
        (crx / 0x10000) as u8,
        ((crx / 0x100) % 0x100) as u8,
        (crx % 0x100) as u8,
        (ctx / 0x10000) as u8,
        ((ctx / 0x100) % 0x100) as u8,
        (ctx % 0x100) as u8,
        0u8,
        (s.tx_dac_gain << 4) | s.tx_mixer_gain,
        (s.tx_mixer_tank_cap << 3) | s.tx_mixer_tank_res,
        (s.tx_pll_bw << 5) | s.tx_filter_bw,
        s.tx_dac_bw,
        (s.rx_lna_gain << 5) | (s.rx_pga_gain << 1) | s.rx_zin_200,
        (s.rx_adc_bw << 5) | (s.rx_adc_trim << 2) | s.rx_pga_bw,
        (s.rx_pll_bw << 1) | bool_bit(s.rx_adc_temp),
        (s.iomap0 << 6) | (s.iomap1 << 4) | (s.iomap2 << 2) | s.iomap3,
        (bool_bit(s.dig_loopback_en) << 3) | (bool_bit(s.rf_loopback_en) << 2)
            | (s.ckout_enable << 1) | s.ck_select_tx_dac,
        0u8,
        (bool_bit(s.iism_rx_disable) << 7) | (bool_bit(s.iism_tx_disable) << 6)
            | (s.iism_mode << 4) | s.iism_clk_div,
        ((if trip.0 == 9 {
            1u8
        } else {
            0u8
        }) << 7) | (trip.1 << 6) | (trip.2 << 3) | (s.iism_truncation << 2),
    ]
}

/// The error the encoder reports for a state that does not fit the
/// registers: the first offending field in declaration order.  Meaningful
/// only when `fits_registers` fails.
pub open spec fn spec_encode_err(s: SX1255Info) -> SxError {
    if s.tx_dac_gain > 7 {
        SxError::OutOfRange { field: FieldId::TxDacGain, min: 0, max: 7 }
    } else if s.tx_mixer_gain > 15 {
        SxError::OutOfRange { field: FieldId::TxMixerGain, min: 0, max: 15 }
    } else if s.tx_mixer_tank_cap > 7 {
        SxError::OutOfRange { field: FieldId::TxMixerTankCap, min: 0, max: 7 }
    } else if s.tx_mixer_tank_res > 7 {
        SxError::OutOfRange { field: FieldId::TxMixerTankRes, min: 0, max: 7 }
    } else if s.tx_pll_bw > 3 {
        SxError::OutOfRange { field: FieldId::TxPllBw, min: 0, max: 3 }
    } else if s.tx_filter_bw > 15 {
        SxError::OutOfRange { field: FieldId::TxFilterBw, min: 0, max: 15 }
    } else if s.tx_dac_bw > 7 {
        SxError::OutOfRange { field: FieldId::TxDacBw, min: 0, max: 7 }
    } else if s.rx_lna_gain > 7 {
        SxError::OutOfRange { field: FieldId::RxLnaGain, min: 0, max: 7 }
    } else if s.rx_pga_gain > 15 {
        SxError::OutOfRange { field: FieldId::RxPgaGain, min: 0, max: 15 }
    } else if s.rx_zin_200 > 1 {
        SxError::OutOfRange { field: FieldId::RxZin200, min: 0, max: 1 }
    } else if s.rx_adc_bw > 7 {
        SxError::OutOfRange { field: FieldId::RxAdcBw, min: 0, max: 7 }
    } else if s.rx_adc_trim > 7 {
        SxError::OutOfRange { field: FieldId::RxAdcTrim, min: 0, max: 7 }
    } else if s.rx_pga_bw > 3 {
        SxError::OutOfRange { field: FieldId::RxPgaBw, min: 0, max: 3 }
    } else if s.rx_pll_bw > 3 {
        SxError::OutOfRange { field: FieldId::RxPllBw, min: 0, max: 3 }
    } else if s.iomap0 > 3 {
        SxError::OutOfRange { field: FieldId::IoMap0, min: 0, max: 3 }
    } else if s.iomap1 > 3 {
        SxError::OutOfRange { field: FieldId::IoMap1, min: 0, max: 3 }
    } else if s.iomap2 > 3 {
        SxError::OutOfRange { field: FieldId::IoMap2, min: 0, max: 3 }
    } else if s.iomap3 > 3 {
        SxError::OutOfRange { field: FieldId::IoMap3, min: 0, max: 3 }
    } else if s.ckout_enable > 1 {
        SxError::OutOfRange { field: FieldId::CkoutEnable, min: 0, max: 1 }
    } else if s.ck_select_tx_dac > 1 {
        SxError::OutOfRange { field: FieldId::CkSelectTxDac, min: 0, max: 1 }
    } else if s.iism_mode > 3 {
        SxError::OutOfRange { field: FieldId::IismMode, min: 0, max: 3 }
    } else if s.iism_clk_div > 15 {
        SxError::OutOfRange { field: FieldId::IismClkDiv, min: 0, max: 15 }
    } else if !is_legal_r(s.r) {
        SxError::UnsupportedFactor { value: s.r }
    } else {
        SxError::OutOfRange { field: FieldId::IismTruncation, min: 0, max: 1 }
    }
}

/// Packs a device state into the twenty register bytes to write, in
/// address order.
///
/// Every enumerated field is range-checked against its register bit span
/// first: a value that does not fit yields an out-of-range error naming
/// the field (never a silently truncated write), and a factor `r` outside
/// the 28-value legal set yields an unsupported-factor error.  The
/// read-only registers (VERSION at index 7, STAT at index 17) are emitted
/// as zero and are not meant to be written; the frequency fields cannot
/// fail (they are truncated to the 24-bit register width by design).
pub fn encode_registers(info: &SX1255Info) -> (res: Result<[u8; 20], SxError>)
    ensures
        res is Ok <==> fits_registers(*info),
        res matches Ok(regs) ==> regs@ == spec_encode(*info),
        res matches Err(e) ==> e == spec_encode_err(*info),
{
    if info.tx_dac_gain > 7 {
        return Err(SxError::OutOfRange { field: FieldId::TxDacGain, min: 0, max: 7 });
    }
    if info.tx_mixer_gain > 15 {
        return Err(SxError::OutOfRange { field: FieldId::TxMixerGain, min: 0, max: 15 });
    }
    if info.tx_mixer_tank_cap > 7 {
        return Err(SxError::OutOfRange { field: FieldId::TxMixerTankCap, min: 0, max: 7 });
    }
    if info.tx_mixer_tank_res > 7 {
        return Err(SxError::OutOfRange { field: FieldId::TxMixerTankRes, min: 0, max: 7 });
    }
    if info.tx_pll_bw > 3 {
        return Err(SxError::OutOfRange { field: FieldId::TxPllBw, min: 0, max: 3 });
    }
    if info.tx_filter_bw > 15 {
        return Err(SxError::OutOfRange { field: FieldId::TxFilterBw, min: 0, max: 15 });
    }
    if info.tx_dac_bw > 7 {
        return Err(SxError::OutOfRange { field: FieldId::TxDacBw, min: 0, max: 7 });
    }
    if info.rx_lna_gain > 7 {
        return Err(SxError::OutOfRange { field: FieldId::RxLnaGain, min: 0, max: 7 });
    }
    if info.rx_pga_gain > 15 {
        return Err(SxError::OutOfRange { field: FieldId::RxPgaGain, min: 0, max: 15 });
    }
    if info.rx_zin_200 > 1 {
        return Err(SxError::OutOfRange { field: FieldId::RxZin200, min: 0, max: 1 });
    }
    if info.rx_adc_bw > 7 {
        return Err(SxError::OutOfRange { field: FieldId::RxAdcBw, min: 0, max: 7 });
    }
    if info.rx_adc_trim > 7 {
        return Err(SxError::OutOfRange { field: FieldId::RxAdcTrim, min: 0, max: 7 });
    }
    if info.rx_pga_bw > 3 {
        return Err(SxError::OutOfRange { field: FieldId::RxPgaBw, min: 0, max: 3 });
    }
    if info.rx_pll_bw > 3 {
        return Err(SxError::OutOfRange { field: FieldId::RxPllBw, min: 0, max: 3 });
    }
    if info.iomap0 > 3 {
        return Err(SxError::OutOfRange { field: FieldId::IoMap0, min: 0, max: 3 });
    }
    if info.iomap1 > 3 {
        return Err(SxError::OutOfRange { field: FieldId::IoMap1, min: 0, max: 3 });
    }
    if info.iomap2 > 3 {
        return Err(SxError::OutOfRange { field: FieldId::IoMap2, min: 0, max: 3 });
    }
    if info.iomap3 > 3 {
        return Err(SxError::OutOfRange { field: FieldId::IoMap3, min: 0, max: 3 });
    }
    if info.ckout_enable > 1 {
        return Err(SxError::OutOfRange { field: FieldId::CkoutEnable, min: 0, max: 1 });
    }
    if info.ck_select_tx_dac > 1 {
        return Err(SxError::OutOfRange { field: FieldId::CkSelectTxDac, min: 0, max: 1 });
    }
    if info.iism_mode > 3 {
        return Err(SxError::OutOfRange { field: FieldId::IismMode, min: 0, max: 3 });
    }
    if info.iism_clk_div > 15 {
        return Err(SxError::OutOfRange { field: FieldId::IismClkDiv, min: 0, max: 15 });
    }
    let (mant, m, n) = match crate::decim::encode_r(info.r) {
        Ok(t) => t,
        Err(e) => {
            return Err(e);
        },
    };
    if info.iism_truncation > 1 {
        return Err(SxError::OutOfRange { field: FieldId::IismTruncation, min: 0, max: 1 });
    }
    let mode = (bool_to_u8(info.driver_enable) << 3) | (bool_to_u8(info.tx_enable) << 2)
        | (bool_to_u8(info.rx_enable) << 1) | bool_to_u8(info.ref_enable);
    let (frfh_rx, frfm_rx, frfl_rx) = u32_to_freq(info.rx_freq);
    let (frfh_tx, frfm_tx, frfl_tx) = u32_to_freq(info.tx_freq);
    let txfe1 = (info.tx_dac_gain << 4) | info.tx_mixer_gain;
    let txfe2 = (info.tx_mixer_tank_cap << 3) | info.tx_mixer_tank_res;
    let txfe3 = (info.tx_pll_bw << 5) | info.tx_filter_bw;
    let txfe4 = info.tx_dac_bw;
    let rxfe1 = (info.rx_lna_gain << 5) | (info.rx_pga_gain << 1) | info.rx_zin_200;
    let rxfe2 = (info.rx_adc_bw << 5) | (info.rx_adc_trim << 2) | info.rx_pga_bw;
    let rxfe3 = (info.rx_pll_bw << 1) | bool_to_u8(info.rx_adc_temp);
    let iomap = (info.iomap0 << 6) | (info.iomap1 << 4) | (info.iomap2 << 2) | info.iomap3;
    let ck_sel = (bool_to_u8(info.dig_loopback_en) << 3) | (bool_to_u8(info.rf_loopback_en) << 2)
        | (info.ckout_enable << 1) | info.ck_select_tx_dac;
    let iism = (bool_to_u8(info.iism_rx_disable) << 7) | (bool_to_u8(info.iism_tx_disable) << 6)
        | (info.iism_mode << 4) | info.iism_clk_div;
    let sel: u8 = if mant == 9 { 1 } else { 0 };
    let dig_bridge = (sel << 7) | (m << 6) | (n << 3) | (info.iism_truncation << 2);
    let regs: [u8; 20] = [
        mode,
        frfh_rx,
        frfm_rx,
        frfl_rx,
        frfh_tx,
        frfm_tx,
        frfl_tx,
        0,
        txfe1,
        txfe2,
        txfe3,
        txfe4,
        rxfe1,
        rxfe2,
        rxfe3,
        iomap,
        ck_sel,
        0,
        iism,
        dig_bridge,
    ];
    proof {
        assert(regs@ =~= spec_encode(*info));
    }
    Ok(regs)
}

/// The bits of each register that carry writable fields.  Encoding a
/// decoded image can only reproduce these: unused bits and read-only
/// fields are emitted as zero.
pub open spec fn writable_mask(i: int) -> u8 {
    if i == 0 {
        0x0F
    } else if 1 <= i <= 6 {
        0xFF
    } else if i == 7 {
        0x00
    } else if i == 8 {
        0x7F
    } else if i == 9 {
        0x3F
    } else if i == 10 {
        0x6F
    } else if i == 11 {
        0x07
    } else if 12 <= i <= 13 {
        0xFF
    } else if i == 14 {
        0x07
    } else if i == 15 {
        0xFF
    } else if i == 16 {
        0x0F
    } else if i == 17 {
        0x00
    } else if i == 18 {
        0xFF
    } else {
        0xFC
    }
}

/// Masking with 0xFF changes no byte.
proof fn lemma_mask_ff()
    by (bit_vector)
    ensures
        forall|x: u8| #[trigger] (x & 0xFF) == x,
{
}

/// A frequency register triple whose 24-bit word is 512-aligned (low byte
/// zero, middle byte even) survives decode followed by encode exactly,
/// byte for byte.
proof fn lemma_frf_round(h: u8, mid: u8, l: u8)
    requires
        l == 0,
        mid & 1 == 0,
    ensures
        ({
            let w = frf_word(h, mid, l);
            let hz = hz_of_frf(w);
            &&& 0 <= hz < 0x100000000
            &&& frf_of_hz(hz) == w
            &&& frf_of_hz(hz) / 0x10000 == h
            &&& (frf_of_hz(hz) / 0x100) % 0x100 == mid
            &&& frf_of_hz(hz) % 0x100 == l
        }),
{
    let w = frf_word(h, mid, l);
    let hz = hz_of_frf(w);
    // w is a multiple of 512: its low byte is zero and its middle byte even.
    assert(mid & 1 == 0 ==> mid % 2 == 0) by (bit_vector);
    vstd::arithmetic::div_mod::lemma_fundamental_div_mod(mid as int, 2);
    assert(w == (h * 128 + (mid as int) / 2) * 512);
    vstd::arithmetic::div_mod::lemma_mod_multiples_basic(h * 128 + (mid as int) / 2, 512);
    assert(w % 512 == 0);
    assert(0 <= w < 0x1000000);
    // The decoded Hz value is nonnegative and fits in 32 bits.
    assert(w * 32_000_000 >= 0) by (nonlinear_arith)
        requires w >= 0;
    assert(w * 32_000_000 <= 0xFFFFFF * 32_000_000) by (nonlinear_arith)
        requires w <= 0xFFFFFF;
    vstd::arithmetic::div_mod::lemma_div_is_ordered(0, w * 32_000_000, 1_048_576);
    vstd::arithmetic::div_mod::lemma_div_is_ordered(
        w * 32_000_000, (0xFFFFFF * 32_000_000) as int, 1_048_576);
    // Re-encoding gives the word back, and the word splits into the
    // original three bytes.
    lemma_freq_encode_decode(w);
    vstd::arithmetic::div_mod::lemma_fundamental_div_mod_converse(
        w, 0x100, h * 0x100 + mid, l as int);
    vstd::arithmetic::div_mod::lemma_fundamental_div_mod_converse(
        h * 0x100 + mid, 0x100, h as int, mid as int);
    vstd::arithmetic::div_mod::lemma_div_denominator(w, 0x100, 0x100);
}

/// Re-encoding a decoded register image reproduces every writable bit.
///
/// Encoding is the identity on what decoding preserved: for each register
/// the encoded byte equals the original masked to its writable field
/// spans.  The read-only registers (VERSION, STAT) and the read-only
/// interface error flag come back as zero, which the mask records.  Two
/// families of images are excluded because no state can reproduce them:
/// frequency words that are not multiples of 512 (the quantization to Hz
/// rounds them down), and a decimation exponent field `n` of 7 (the
/// decoded factor then lies outside the 28-value legal set, so encoding
/// refuses the state).
pub proof fn lemma_encode_of_decode(regs: Seq<u8>)
    requires
        regs.len() == 20,
        regs[3] == 0,
        regs[2] & 1 == 0,
        regs[6] == 0,
        regs[5] & 1 == 0,
        (regs[19] & 0b00111000) >> 3 != 7,
    ensures
        fits_registers(spec_decode(regs)),
        forall|i: int|
            0 <= i < 20 ==> #[trigger] spec_encode(spec_decode(regs))[i] == regs[i]
                & writable_mask(i),
{
    let s = spec_decode(regs);
    let e = spec_encode(s);
    let b0 = regs[0];
    let b8 = regs[8];
    let b9 = regs[9];
    let b10 = regs[10];
    let b11 = regs[11];
    let b12 = regs[12];
    let b13 = regs[13];
    let b14 = regs[14];
    let b15 = regs[15];
    let b16 = regs[16];
    let b18 = regs[18];
    let b19 = regs[19];
    lemma_mask_ff();
    // Every extracted field fits its span.
    assert((b8 & 0b01110000) >> 4 <= 7 && (b8 & 0b00001111) <= 15) by (bit_vector);
    assert((b9 & 0b00111000) >> 3 <= 7 && (b9 & 0b00000111) <= 7) by (bit_vector);
    assert((b10 & 0b01100000) >> 5 <= 3 && (b10 & 0b00001111) <= 15) by (bit_vector);
    assert((b11 & 0b00000111) <= 7) by (bit_vector);
    assert((b12 & 0b11100000) >> 5 <= 7 && (b12 & 0b00011110) >> 1 <= 15 && (b12 & 0b00000001)
        <= 1) by (bit_vector);
    assert((b13 & 0b11100000) >> 5 <= 7 && (b13 & 0b00011100) >> 2 <= 7 && (b13 & 0b00000011)
        <= 3) by (bit_vector);
    assert((b14 & 0b00000110) >> 1 <= 3) by (bit_vector);
    assert((b15 & 0b11000000) >> 6 <= 3 && (b15 & 0b00110000) >> 4 <= 3 && (b15 & 0b00001100)
        >> 2 <= 3 && (b15 & 0b00000011) <= 3) by (bit_vector);
    assert((b16 & 0b00000010) >> 1 <= 1 && (b16 & 0b00000001) <= 1) by (bit_vector);
    assert((b18 & 0b00110000) >> 4 <= 3 && (b18 & 0b00001111) <= 15) by (bit_vector);
    assert((b19 & 0b01000000) >> 6 <= 1 && (b19 & 0b00111000) >> 3 <= 7 && (b19 & 0b00000100)
        >> 2 <= 1) by (bit_vector);
    // The decoded factor is legal and re-encodes to the same packed triple.
    let mant0 = if (b19 & 0b10000000) != 0 {
        9u8
    } else {
        8u8
    };
    let m0 = (b19 & 0b01000000) >> 6;
    let n0 = (b19 & 0b00111000) >> 3;
    lemma_calc_r_in_table(mant0, m0, n0);
    assert(is_legal_r(s.r));
    assert(spec_r_triple(s.r) == (mant0, m0, n0));
    assert(fits_registers(s));
    // MODE
    assert((bool_bit((b0 & 0b00001000) != 0) << 3) | (bool_bit((b0 & 0b00000100) != 0) << 2)
        | (bool_bit((b0 & 0b00000010) != 0) << 1) | bool_bit((b0 & 0b00000001) != 0) == b0
        & 0x0F) by (bit_vector);
    assert(e[0] == regs[0] & writable_mask(0));
    // Frequencies
    lemma_frf_round(regs[1], regs[2], regs[3]);
    lemma_frf_round(regs[4], regs[5], regs[6]);
    assert(s.rx_freq as int == hz_of_frf(frf_word(regs[1], regs[2], regs[3])));
    assert(s.tx_freq as int == hz_of_frf(frf_word(regs[4], regs[5], regs[6])));
    assert(e[1] == regs[1] & writable_mask(1));
    assert(e[2] == regs[2] & writable_mask(2));
    assert(e[3] == regs[3] & writable_mask(3));
    assert(e[4] == regs[4] & writable_mask(4));
    assert(e[5] == regs[5] & writable_mask(5));
    assert(e[6] == regs[6] & writable_mask(6));
    assert(e[7] == regs[7] & writable_mask(7)) by {
        assert(regs[7] & 0x00 == 0) by (bit_vector);
    };
    // TXFE1..TXFE4
    assert((((b8 & 0b01110000) >> 4) << 4) | (b8 & 0b00001111) == b8 & 0x7F) by (bit_vector);
    assert(e[8] == regs[8] & writable_mask(8));
    assert((((b9 & 0b00111000) >> 3) << 3) | (b9 & 0b00000111) == b9 & 0x3F) by (bit_vector);
    assert(e[9] == regs[9] & writable_mask(9));
    assert((((b10 & 0b01100000) >> 5) << 5) | (b10 & 0b00001111) == b10 & 0x6F) by (bit_vector);
    assert(e[10] == regs[10] & writable_mask(10));
    assert(b11 & 0b00000111 == b11 & 0x07) by (bit_vector);
    assert(e[11] == regs[11] & writable_mask(11));
    // RXFE1..RXFE3
    assert((((b12 & 0b11100000) >> 5) << 5) | (((b12 & 0b00011110) >> 1) << 1) | (b12
        & 0b00000001) == b12 & 0xFF) by (bit_vector);
    assert(e[12] == regs[12] & writable_mask(12));
    assert((((b13 & 0b11100000) >> 5) << 5) | (((b13 & 0b00011100) >> 2) << 2) | (b13
        & 0b00000011) == b13 & 0xFF) by (bit_vector);
    assert(e[13] == regs[13] & writable_mask(13));
    assert((((b14 & 0b00000110) >> 1) << 1) | bool_bit((b14 & 0b00000001) != 0) == b14 & 0x07)
        by (bit_vector);
    assert(e[14] == regs[14] & writable_mask(14));
    // IO_MAP
    assert((((b15 & 0b11000000) >> 6) << 6) | (((b15 & 0b00110000) >> 4) << 4) | (((b15
        & 0b00001100) >> 2) << 2) | (b15 & 0b00000011) == b15 & 0xFF) by (bit_vector);
    assert(e[15] == regs[15] & writable_mask(15));
    // CK_SEL
    assert((bool_bit((b16 & 0b00001000) != 0) << 3) | (bool_bit((b16 & 0b00000100) != 0) << 2)
        | (((b16 & 0b00000010) >> 1) << 1) | (b16 & 0b00000001) == b16 & 0x0F) by (bit_vector);
    assert(e[16] == regs[16] & writable_mask(16));
    assert(e[17] == regs[17] & writable_mask(17)) by {
        assert(regs[17] & 0x00 == 0) by (bit_vector);
    };
    // IISM
    assert((bool_bit((b18 & 0b10000000) != 0) << 7) | (bool_bit((b18 & 0b01000000) != 0) << 6)
        | (((b18 & 0b00110000) >> 4) << 4) | (b18 & 0b00001111) == b18 & 0xFF) by (bit_vector);
    assert(e[18] == regs[18] & writable_mask(18));
    // DIG_BRIDGE
    assert(((if (b19 & 0b10000000) != 0 {
        1u8
    } else {
        0u8
    }) << 7) | (((b19 & 0b01000000) >> 6) << 6) | (((b19 & 0b00111000) >> 3) << 3) | (((b19
        & 0b00000100) >> 2) << 2) == b19 & 0xFC) by (bit_vector);
    assert(e[19] == regs[19] & writable_mask(19));
    assert(forall|i: int|
        0 <= i < 20 ==> #[trigger] spec_encode(spec_decode(regs))[i] == regs[i]
            & writable_mask(i));
}

/// Decoding an encoded state reproduces every writable field exactly,
/// except the two carrier frequencies, which come back at most one
/// quantization step (31 Hz) below the original.  The read-only status
/// fields of the decoded state are all clear, since encoding emits their
/// registers as zero.
pub proof fn lemma_decode_of_encode(s: SX1255Info)
    requires
        fits_registers(s),
        s.rx_freq < 500_000_000,
        s.tx_freq < 500_000_000,
    ensures
        ({
            let d = spec_decode(spec_encode(s));
            &&& same_writable_except_freq(d, s)
            &&& s.rx_freq - 31 <= d.rx_freq <= s.rx_freq
            &&& s.tx_freq - 31 <= d.tx_freq <= s.tx_freq
            &&& d.version == 0
            &&& d.eol == 0
            &&& !d.xosc_ready
            &&& !d.pll_lock_rx
            &&& !d.pll_lock_tx
            &&& d.iism_status_flag == 0
        }),
{
    let e = spec_encode(s);
    let d = spec_decode(e);
    // MODE
    let dd = bool_bit(s.driver_enable);
    let tt = bool_bit(s.tx_enable);
    let rr = bool_bit(s.rx_enable);
    let ff = bool_bit(s.ref_enable);
    assert(((((dd << 3) | (tt << 2) | (rr << 1) | ff) & 0b00001000) != 0 <==> dd == 1)
        && ((((dd << 3) | (tt << 2) | (rr << 1) | ff) & 0b00000100) != 0 <==> tt == 1)
        && ((((dd << 3) | (tt << 2) | (rr << 1) | ff) & 0b00000010) != 0 <==> rr == 1)
        && ((((dd << 3) | (tt << 2) | (rr << 1) | ff) & 0b00000001) != 0 <==> ff == 1))
        by (bit_vector)
        requires
            dd <= 1 && tt <= 1 && rr <= 1 && ff <= 1,
    ;
    // Frequencies
    let crx = frf_of_hz(s.rx_freq as int);
    let ctx = frf_of_hz(s.tx_freq as int);
    vstd::arithmetic::div_mod::lemma_mod_bound(
        (s.rx_freq as int) * 1_048_576 / 32_000_000, 0x1000000);
    vstd::arithmetic::div_mod::lemma_mod_bound(
        (s.tx_freq as int) * 1_048_576 / 32_000_000, 0x1000000);
    lemma_frf_bytes(crx);
    lemma_frf_bytes(ctx);
    assert(frf_word(e[1], e[2], e[3]) == crx);
    assert(frf_word(e[4], e[5], e[6]) == ctx);
    lemma_freq_decode_encode(s.rx_freq as int);
    lemma_freq_decode_encode(s.tx_freq as int);
    assert(s.rx_freq - 31 <= d.rx_freq <= s.rx_freq);
    assert(s.tx_freq - 31 <= d.tx_freq <= s.tx_freq);
    // TXFE1: dac gain / mixer gain
    let g1 = s.tx_dac_gain;
    let g2 = s.tx_mixer_gain;
    assert((((g1 << 4) | g2) & 0b01110000) >> 4 == g1 && (((g1 << 4) | g2) & 0b00001111) == g2)
        by (bit_vector)
        requires
            g1 <= 7 && g2 <= 15,
    ;
    // TXFE2: tank cap / tank res
    let c1 = s.tx_mixer_tank_cap;
    let c2 = s.tx_mixer_tank_res;
    assert((((c1 << 3) | c2) & 0b00111000) >> 3 == c1 && (((c1 << 3) | c2) & 0b00000111) == c2)
        by (bit_vector)
        requires
            c1 <= 7 && c2 <= 7,
    ;
    // TXFE3: pll bw / filter bw
    let p1 = s.tx_pll_bw;
    let p2 = s.tx_filter_bw;
    assert((((p1 << 5) | p2) & 0b01100000) >> 5 == p1 && (((p1 << 5) | p2) & 0b00001111) == p2)
        by (bit_vector)
        requires
            p1 <= 3 && p2 <= 15,
    ;
    // TXFE4: dac bw
    let q1 = s.tx_dac_bw;
    assert(q1 & 0b00000111 == q1) by (bit_vector)
        requires
            q1 <= 7,
    ;
    // RXFE1: lna gain / pga gain / zin
    let l1 = s.rx_lna_gain;
    let l2 = s.rx_pga_gain;
    let l3 = s.rx_zin_200;
    assert((((l1 << 5) | (l2 << 1) | l3) & 0b11100000) >> 5 == l1 && (((l1 << 5) | (l2 << 1)
        | l3) & 0b00011110) >> 1 == l2 && (((l1 << 5) | (l2 << 1) | l3) & 0b00000001) == l3)
        by (bit_vector)
        requires
            l1 <= 7 && l2 <= 15 && l3 <= 1,
    ;
    // RXFE2: adc bw / adc trim / pga bw
    let a1 = s.rx_adc_bw;
    let a2 = s.rx_adc_trim;
    let a3 = s.rx_pga_bw;
    assert((((a1 << 5) | (a2 << 2) | a3) & 0b11100000) >> 5 == a1 && (((a1 << 5) | (a2 << 2)
        | a3) & 0b00011100) >> 2 == a2 && (((a1 << 5) | (a2 << 2) | a3) & 0b00000011) == a3)
        by (bit_vector)
        requires
            a1 <= 7 && a2 <= 7 && a3 <= 3,
    ;
    // RXFE3: pll bw / adc temp
    let v1 = s.rx_pll_bw;
    let v2 = bool_bit(s.rx_adc_temp);
    assert((((v1 << 1) | v2) & 0b00000110) >> 1 == v1 && ((((v1 << 1) | v2) & 0b00000001) != 0
        <==> v2 == 1)) by (bit_vector)
        requires
            v1 <= 3 && v2 <= 1,
    ;
    // IO_MAP
    let i0 = s.iomap0;
    let i1 = s.iomap1;
    let i2 = s.iomap2;
    let i3 = s.iomap3;
    assert((((i0 << 6) | (i1 << 4) | (i2 << 2) | i3) & 0b11000000) >> 6 == i0 && (((i0 << 6)
        | (i1 << 4) | (i2 << 2) | i3) & 0b00110000) >> 4 == i1 && (((i0 << 6) | (i1 << 4)
        | (i2 << 2) | i3) & 0b00001100) >> 2 == i2 && (((i0 << 6) | (i1 << 4) | (i2 << 2) | i3)
        & 0b00000011) == i3) by (bit_vector)
        requires
            i0 <= 3 && i1 <= 3 && i2 <= 3 && i3 <= 3,
    ;
    // CK_SEL
    let k1 = bool_bit(s.dig_loopback_en);
    let k2 = bool_bit(s.rf_loopback_en);
    let k3 = s.ckout_enable;
    let k4 = s.ck_select_tx_dac;
    assert(((((k1 << 3) | (k2 << 2) | (k3 << 1) | k4) & 0b00001000) != 0 <==> k1 == 1)
        && ((((k1 << 3) | (k2 << 2) | (k3 << 1) | k4) & 0b00000100) != 0 <==> k2 == 1)
        && (((k1 << 3) | (k2 << 2) | (k3 << 1) | k4) & 0b00000010) >> 1 == k3 && (((k1 << 3)
        | (k2 << 2) | (k3 << 1) | k4) & 0b00000001) == k4) by (bit_vector)
        requires
            k1 <= 1 && k2 <= 1 && k3 <= 1 && k4 <= 1,
    ;
    // STAT placeholder
    assert(((0u8 & 0b00001000) >> 3) == 0 && ((0u8 & 0b00000100) != 0) == false && ((0u8
        & 0b00000010) != 0) == false && ((0u8 & 0b00000001) != 0) == false) by (bit_vector);
    // IISM
    let w1 = bool_bit(s.iism_rx_disable);
    let w2 = bool_bit(s.iism_tx_disable);
    let w3 = s.iism_mode;
    let w4 = s.iism_clk_div;
    assert(((((w1 << 7) | (w2 << 6) | (w3 << 4) | w4) & 0b10000000) != 0 <==> w1 == 1)
        && ((((w1 << 7) | (w2 << 6) | (w3 << 4) | w4) & 0b01000000) != 0 <==> w2 == 1)
        && (((w1 << 7) | (w2 << 6) | (w3 << 4) | w4) & 0b00110000) >> 4 == w3 && (((w1 << 7)
        | (w2 << 6) | (w3 << 4) | w4) & 0b00001111) == w4) by (bit_vector)
        requires
            w1 <= 1 && w2 <= 1 && w3 <= 3 && w4 <= 15,
    ;
    // DIG_BRIDGE
    lemma_r_triple_fits(s.r);
    let trip = spec_r_triple(s.r);
    let sel: u8 = if trip.0 == 9 {
        1u8
    } else {
        0u8
    };
    let m = trip.1;
    let n = trip.2;
    let tr = s.iism_truncation;
    assert(((((sel << 7) | (m << 6) | (n << 3) | (tr << 2)) & 0b10000000) != 0 <==> sel == 1)
        && (((sel << 7) | (m << 6) | (n << 3) | (tr << 2)) & 0b01000000) >> 6 == m && (((sel
        << 7) | (m << 6) | (n << 3) | (tr << 2)) & 0b00111000) >> 3 == n && (((sel << 7) | (m
        << 6) | (n << 3) | (tr << 2)) & 0b00000100) >> 2 == tr && (((sel << 7) | (m << 6) | (n
        << 3) | (tr << 2)) & 0b00000010) >> 1 == 0) by (bit_vector)
        requires
            sel <= 1 && m <= 1 && n <= 6 && tr <= 1,
    ;
    lemma_r_round_trip(s.r);
    assert(d.r == s.r);
    assert(same_writable_except_freq(d, s));
}

} // verus!
