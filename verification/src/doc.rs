//! The configuration document: a human-editable, line-oriented text form
//! of the writable device state.
//!
//! Each writable field appears as one `key = value` assignment line,
//! preceded by a comment describing its meaning and domain.  Booleans are
//! written `true`/`false`, integers in decimal.  Blank lines and `#`
//! comments (whole-line or after a value) are ignored by the reader.  A
//! missing field keeps its compiled-in default, so documents written
//! before a field existed still read cleanly; an unknown key or an
//! unparsable line is malformed.  The reader validates every assignment
//! against the field's documented domain and fails fast on the first
//! violation, naming the field and its bounds, without partially mutating
//! the caller's state.

use vstd::prelude::*;
use crate::decim::{is_legal_r, is_valid_r};
use crate::fields::{FieldId, SxError};
use crate::numtext::{
    all_digits, dec_digits, dec_value, digit_val, is_digit, lemma_dec_value_grows, u32_string,
};
use crate::state::{spec_default, SX1255Info};
use vstd::string::StrSliceExecFns;
use vstd::string::StringExecFns;

verus! {

// ---------------------------------------------------------------------
// Field metadata
// ---------------------------------------------------------------------
/// The key under which a field appears in a document.
pub open spec fn key_of(f: FieldId) -> Seq<char> {
    match f {
        FieldId::DriverEnable => "driver_enable"@,
        FieldId::TxEnable => "tx_enable"@,
        FieldId::RxEnable => "rx_enable"@,
        FieldId::RefEnable => "ref_enable"@,
        FieldId::RxFreq => "rx_freq"@,
        FieldId::TxFreq => "tx_freq"@,
        FieldId::TxDacGain => "tx_dac_gain"@,
        FieldId::TxMixerGain => "tx_mixer_gain"@,
        FieldId::TxMixerTankCap => "tx_mixer_tank_cap"@,
        FieldId::TxMixerTankRes => "tx_mixer_tank_res"@,
        FieldId::TxPllBw => "tx_pll_bw"@,
        FieldId::TxFilterBw => "tx_filter_bw"@,
        FieldId::TxDacBw => "tx_dac_bw"@,
        FieldId::RxLnaGain => "rx_lna_gain"@,
        FieldId::RxPgaGain => "rx_pga_gain"@,
        FieldId::RxZin200 => "rx_zin_200"@,
        FieldId::RxAdcBw => "rx_adc_bw"@,
        FieldId::RxAdcTrim => "rx_adc_trim"@,
        FieldId::RxPgaBw => "rx_pga_bw"@,
        FieldId::RxPllBw => "rx_pll_bw"@,
        FieldId::RxAdcTemp => "rx_adc_temp"@,
        FieldId::IoMap0 => "iomap0"@,
        FieldId::IoMap1 => "iomap1"@,
        FieldId::IoMap2 => "iomap2"@,
        FieldId::IoMap3 => "iomap3"@,
        FieldId::DigLoopbackEn => "dig_loopback_en"@,
        FieldId::RfLoopbackEn => "rf_loopback_en"@,
        FieldId::CkoutEnable => "ckout_enable"@,
        FieldId::CkSelectTxDac => "ck_select_tx_dac"@,
        FieldId::IismRxDisable => "iism_rx_disable"@,
        FieldId::IismTxDisable => "iism_tx_disable"@,
        FieldId::IismMode => "iism_mode"@,
        FieldId::IismClkDiv => "iism_clk_div"@,
        FieldId::R => "r"@,
        FieldId::IismTruncation => "iism_truncation"@,
    }
}

/// Is the field a boolean flag (written `true`/`false`)?
pub open spec fn bool_field(f: FieldId) -> bool {
    match f {
        FieldId::DriverEnable => true,
        FieldId::TxEnable => true,
        FieldId::RxEnable => true,
        FieldId::RefEnable => true,
        FieldId::RxAdcTemp => true,
        FieldId::DigLoopbackEn => true,
        FieldId::RfLoopbackEn => true,
        FieldId::IismRxDisable => true,
        FieldId::IismTxDisable => true,
        _ => false,
    }
}

/// Inclusive lower bound of a field's documented domain.
pub open spec fn field_lo(f: FieldId) -> u32 {
    match f {
        FieldId::RxFreq => 300_000_000,
        FieldId::TxFreq => 300_000_000,
        _ => 0,
    }
}

/// Inclusive upper bound of a field's documented domain.
pub open spec fn field_hi(f: FieldId) -> u32 {
    match f {
        FieldId::DriverEnable => 1,
        FieldId::TxEnable => 1,
        FieldId::RxEnable => 1,
        FieldId::RefEnable => 1,
        FieldId::RxFreq => 499_999_999,
        FieldId::TxFreq => 499_999_999,
        FieldId::TxDacGain => 7,
        FieldId::TxMixerGain => 15,
        FieldId::TxMixerTankCap => 7,
        FieldId::TxMixerTankRes => 7,
        FieldId::TxPllBw => 3,
        FieldId::TxFilterBw => 15,
        FieldId::TxDacBw => 5,
        FieldId::RxLnaGain => 7,
        FieldId::RxPgaGain => 15,
        FieldId::RxZin200 => 1,
        FieldId::RxAdcBw => 7,
        FieldId::RxAdcTrim => 7,
        FieldId::RxPgaBw => 3,
        FieldId::RxPllBw => 3,
        FieldId::RxAdcTemp => 1,
        FieldId::IoMap0 => 3,
        FieldId::IoMap1 => 3,
        FieldId::IoMap2 => 3,
        FieldId::IoMap3 => 3,
        FieldId::DigLoopbackEn => 1,
        FieldId::RfLoopbackEn => 1,
        FieldId::CkoutEnable => 1,
        FieldId::CkSelectTxDac => 1,
        FieldId::IismRxDisable => 1,
        FieldId::IismTxDisable => 1,
        FieldId::IismMode => 3,
        FieldId::IismClkDiv => 15,
        FieldId::R => 1728,
        FieldId::IismTruncation => 1,
    }
}

/// The value of a field as an unsigned integer (flags as 0 or 1).
pub open spec fn field_val(s: SX1255Info, f: FieldId) -> u32 {
    match f {
        FieldId::DriverEnable => if s.driver_enable { 1 } else { 0 },
        FieldId::TxEnable => if s.tx_enable { 1 } else { 0 },
        FieldId::RxEnable => if s.rx_enable { 1 } else { 0 },
        FieldId::RefEnable => if s.ref_enable { 1 } else { 0 },
        FieldId::RxFreq => s.rx_freq,
        FieldId::TxFreq => s.tx_freq,
        FieldId::TxDacGain => s.tx_dac_gain as u32,
        FieldId::TxMixerGain => s.tx_mixer_gain as u32,
        FieldId::TxMixerTankCap => s.tx_mixer_tank_cap as u32,
        FieldId::TxMixerTankRes => s.tx_mixer_tank_res as u32,
        FieldId::TxPllBw => s.tx_pll_bw as u32,
        FieldId::TxFilterBw => s.tx_filter_bw as u32,
        FieldId::TxDacBw => s.tx_dac_bw as u32,
        FieldId::RxLnaGain => s.rx_lna_gain as u32,
        FieldId::RxPgaGain => s.rx_pga_gain as u32,
        FieldId::RxZin200 => s.rx_zin_200 as u32,
        FieldId::RxAdcBw => s.rx_adc_bw as u32,
        FieldId::RxAdcTrim => s.rx_adc_trim as u32,
        FieldId::RxPgaBw => s.rx_pga_bw as u32,
        FieldId::RxPllBw => s.rx_pll_bw as u32,
        FieldId::RxAdcTemp => if s.rx_adc_temp { 1 } else { 0 },
        FieldId::IoMap0 => s.iomap0 as u32,
        FieldId::IoMap1 => s.iomap1 as u32,
        FieldId::IoMap2 => s.iomap2 as u32,
        FieldId::IoMap3 => s.iomap3 as u32,
        FieldId::DigLoopbackEn => if s.dig_loopback_en { 1 } else { 0 },
        FieldId::RfLoopbackEn => if s.rf_loopback_en { 1 } else { 0 },
        FieldId::CkoutEnable => s.ckout_enable as u32,
        FieldId::CkSelectTxDac => s.ck_select_tx_dac as u32,
        FieldId::IismRxDisable => if s.iism_rx_disable { 1 } else { 0 },
        FieldId::IismTxDisable => if s.iism_tx_disable { 1 } else { 0 },
        FieldId::IismMode => s.iism_mode as u32,
        FieldId::IismClkDiv => s.iism_clk_div as u32,
        FieldId::R => s.r,
        FieldId::IismTruncation => s.iism_truncation as u32,
    }
}

/// `s` with field `f` set to `v` (flags become true exactly on 1).
/// Meaningful only for `v` within the field's domain.
pub open spec fn set_field(s: SX1255Info, f: FieldId, v: u32) -> SX1255Info {
    match f {
        FieldId::DriverEnable => SX1255Info { driver_enable: v == 1, ..s },
        FieldId::TxEnable => SX1255Info { tx_enable: v == 1, ..s },
        FieldId::RxEnable => SX1255Info { rx_enable: v == 1, ..s },
        FieldId::RefEnable => SX1255Info { ref_enable: v == 1, ..s },
        FieldId::RxFreq => SX1255Info { rx_freq: v, ..s },
        FieldId::TxFreq => SX1255Info { tx_freq: v, ..s },
        FieldId::TxDacGain => SX1255Info { tx_dac_gain: v as u8, ..s },
        FieldId::TxMixerGain => SX1255Info { tx_mixer_gain: v as u8, ..s },
        FieldId::TxMixerTankCap => SX1255Info { tx_mixer_tank_cap: v as u8, ..s },
        FieldId::TxMixerTankRes => SX1255Info { tx_mixer_tank_res: v as u8, ..s },
        FieldId::TxPllBw => SX1255Info { tx_pll_bw: v as u8, ..s },
        FieldId::TxFilterBw => SX1255Info { tx_filter_bw: v as u8, ..s },
        FieldId::TxDacBw => SX1255Info { tx_dac_bw: v as u8, ..s },
        FieldId::RxLnaGain => SX1255Info { rx_lna_gain: v as u8, ..s },
        FieldId::RxPgaGain => SX1255Info { rx_pga_gain: v as u8, ..s },
        FieldId::RxZin200 => SX1255Info { rx_zin_200: v as u8, ..s },
        FieldId::RxAdcBw => SX1255Info { rx_adc_bw: v as u8, ..s },
        FieldId::RxAdcTrim => SX1255Info { rx_adc_trim: v as u8, ..s },
        FieldId::RxPgaBw => SX1255Info { rx_pga_bw: v as u8, ..s },
        FieldId::RxPllBw => SX1255Info { rx_pll_bw: v as u8, ..s },
        FieldId::RxAdcTemp => SX1255Info { rx_adc_temp: v == 1, ..s },
        FieldId::IoMap0 => SX1255Info { iomap0: v as u8, ..s },
        FieldId::IoMap1 => SX1255Info { iomap1: v as u8, ..s },
        FieldId::IoMap2 => SX1255Info { iomap2: v as u8, ..s },
        FieldId::IoMap3 => SX1255Info { iomap3: v as u8, ..s },
        FieldId::DigLoopbackEn => SX1255Info { dig_loopback_en: v == 1, ..s },
        FieldId::RfLoopbackEn => SX1255Info { rf_loopback_en: v == 1, ..s },
        FieldId::CkoutEnable => SX1255Info { ckout_enable: v as u8, ..s },
        FieldId::CkSelectTxDac => SX1255Info { ck_select_tx_dac: v as u8, ..s },
        FieldId::IismRxDisable => SX1255Info { iism_rx_disable: v == 1, ..s },
        FieldId::IismTxDisable => SX1255Info { iism_tx_disable: v == 1, ..s },
        FieldId::IismMode => SX1255Info { iism_mode: v as u8, ..s },
        FieldId::IismClkDiv => SX1255Info { iism_clk_div: v as u8, ..s },
        FieldId::R => SX1255Info { r: v, ..s },
        FieldId::IismTruncation => SX1255Info { iism_truncation: v as u8, ..s },
    }
}

/// Validates one assignment against the field's domain and applies it.
pub open spec fn apply_assign(s: SX1255Info, f: FieldId, v: u32) -> Result<SX1255Info, SxError> {
    if f == FieldId::R {
        if is_legal_r(v) {
            Ok(set_field(s, f, v))
        } else {
            Err(SxError::UnsupportedFactor { value: v })
        }
    } else if field_lo(f) <= v <= field_hi(f) {
        Ok(set_field(s, f, v))
    } else {
        Err(SxError::OutOfRange { field: f, min: field_lo(f), max: field_hi(f) })
    }
}

/// Folds a list of assignments over a starting state, failing fast on the
/// first domain violation.
pub open spec fn apply_all(s: SX1255Info, xs: Seq<(FieldId, u32)>) -> Result<SX1255Info, SxError>
    decreases xs.len(),
{
    if xs.len() == 0 {
        Ok(s)
    } else {
        match apply_assign(s, xs[0].0, xs[0].1) {
            Ok(s2) => apply_all(s2, xs.subrange(1, xs.len() as int)),
            Err(e) => Err(e),
        }
    }
}

/// The order in which the writer records the fields.
pub open spec fn field_list() -> Seq<FieldId> {
    seq![
        FieldId::DriverEnable,
        FieldId::TxEnable,
        FieldId::RxEnable,
        FieldId::RefEnable,
        FieldId::RxFreq,
        FieldId::TxFreq,
        FieldId::TxDacGain,
        FieldId::TxMixerGain,
        FieldId::TxMixerTankCap,
        FieldId::TxMixerTankRes,
        FieldId::TxPllBw,
        FieldId::TxFilterBw,
        FieldId::TxDacBw,
        FieldId::RxLnaGain,
        FieldId::RxPgaGain,
        FieldId::RxZin200,
        FieldId::RxAdcBw,
        FieldId::RxAdcTrim,
        FieldId::RxPgaBw,
        FieldId::RxPllBw,
        FieldId::RxAdcTemp,
        FieldId::IoMap0,
        FieldId::IoMap1,
        FieldId::IoMap2,
        FieldId::IoMap3,
        FieldId::DigLoopbackEn,
        FieldId::RfLoopbackEn,
        FieldId::CkoutEnable,
        FieldId::CkSelectTxDac,
        FieldId::IismRxDisable,
        FieldId::IismTxDisable,
        FieldId::IismMode,
        FieldId::IismClkDiv,
        FieldId::R,
        FieldId::IismTruncation,
    ]
}

/// The comment line (without the `# ` prefix and newline) the writer puts
/// above a field: its physical meaning and its legal domain.
pub open spec fn comment_chars(f: FieldId) -> Seq<char> {
    match f {
        FieldId::DriverEnable => "enable the PA driver"@,
        FieldId::TxEnable => "enable the complete Tx front-end (except the PA)"@,
        FieldId::RxEnable => "enable the complete Rx front-end"@,
        FieldId::RefEnable => "enable the PDS and the oscillator"@,
        FieldId::RxFreq => "Rx carrier frequency in Hz, 300000000-499999999"@,
        FieldId::TxFreq => "Tx carrier frequency in Hz, 300000000-499999999"@,
        FieldId::TxDacGain => "Tx DAC gain, 3 dB steps below maximum, test modes 4-7; 0-7"@,
        FieldId::TxMixerGain => "Tx mixer gain = -37.5 dB + 2 dB x value; 0-15"@,
        FieldId::TxMixerTankCap => "capacitance in parallel with the mixer tank, 128 fF steps; 0-7"@,
        FieldId::TxMixerTankRes => "resistance in parallel with the mixer tank, 0.95 kOhm to none; 0-7"@,
        FieldId::TxPllBw => "Tx PLL bandwidth = (value + 1) x 75 KHz; 0-3"@,
        FieldId::TxFilterBw => "Tx filter bandwidth = 17.15 MHz / (41 - value); 0-15"@,
        FieldId::TxDacBw => "Tx FIR-DAC taps = 24 + 8 x value, at most 64; 0-5"@,
        FieldId::RxLnaGain => "Rx LNA gain, 1 highest to 6 lowest, 0 and 7 unused; 0-7"@,
        FieldId::RxPgaGain => "Rx PGA gain = lowest + 2 dB x value; 0-15"@,
        FieldId::RxZin200 => "Rx input impedance, 0 for 50 Ohm, 1 for 200 Ohm; 0-1"@,
        FieldId::RxAdcBw => "Rx ADC bandwidth: 7 above 400 kHz, 5 for 200-400 kHz, 2 for 100-400 kHz; 0-7"@,
        FieldId::RxAdcTrim => "Rx ADC trim for a 36 MHz reference crystal; 0-7"@,
        FieldId::RxPgaBw => "Rx analog roofing filter, 1500/1000/750/500 kHz; 0-3"@,
        FieldId::RxPllBw => "Rx PLL bandwidth = (value + 1) x 75 KHz; 0-3"@,
        FieldId::RxAdcTemp => "put the Rx ADC into temperature measurement mode"@,
        FieldId::IoMap0 => "mapping of DIO(0): 0-2 pll_lock_rx, 3 eol; 0-3"@,
        FieldId::IoMap1 => "mapping of DIO(1): 0 pll_lock_tx, others unused; 0-3"@,
        FieldId::IoMap2 => "mapping of DIO(2): 0 xosc_ready, others unused; 0-3"@,
        FieldId::IoMap3 => "mapping of DIO(3): 0 pll_lock of the active part, others unused; 0-3"@,
        FieldId::DigLoopbackEn => "enable the digital loopback mode of the front-end"@,
        FieldId::RfLoopbackEn => "enable the RF loopback mode of the front-end"@,
        FieldId::CkoutEnable => "output clock on pad CLK_OUT, 0 disabled, 1 enabled; 0-1"@,
        FieldId::CkSelectTxDac => "Tx DAC clock, 0 internal CLK_XTAL, 1 external CLK_IN; 0-1"@,
        FieldId::IismRxDisable => "disable IISM Rx during Tx mode"@,
        FieldId::IismTxDisable => "disable IISM Tx during Rx mode"@,
        FieldId::IismMode => "IISM mode, 0 A, 1 B1, 2 B2, 3 unused; 0-3"@,
        FieldId::IismClkDiv => "XTAL/CLK_OUT division factor, 1/2/4/8/12/16/24/32/48, 9-15 unused; 0-15"@,
        FieldId::R => "decimation/interpolation factor, one of 8 16 24 32 48 64 96 128 192 256 384 512 768 1536 or 9 18 27 36 54 72 108 144 216 288 432 576 864 1728"@,
        FieldId::IismTruncation => "IISM truncation, 0 MSB truncated (LSB aligned), 1 LSB truncated (MSB aligned); 0-1"@,
    }
}

/// The text of a field's value: `true`/`false` for flags, decimal digits
/// otherwise.
pub open spec fn value_chars(s: SX1255Info, f: FieldId) -> Seq<char> {
    if bool_field(f) {
        if field_val(s, f) == 1 {
            "true"@
        } else {
            "false"@
        }
    } else {
        dec_digits(field_val(s, f) as nat)
    }
}

/// One field's document block: a blank line, the comment line, and the
/// assignment line.
pub open spec fn block_chars(s: SX1255Info, f: FieldId) -> Seq<char> {
    "\n"@ + "# "@ + comment_chars(f) + "\n"@ + key_of(f) + " = "@ + value_chars(s, f) + "\n"@
}

/// The blocks of all fields from position `i` of the field order on.
pub open spec fn render_fields(s: SX1255Info, i: int) -> Seq<char>
    decreases field_list().len() - i,
{
    if i < 0 || i >= field_list().len() {
        Seq::empty()
    } else {
        block_chars(s, field_list()[i]) + render_fields(s, i + 1)
    }
}

/// The full document text for state `s` with creation timestamp `ts`.
pub open spec fn spec_render(s: SX1255Info, ts: Seq<char>) -> Seq<char> {
    "# SX1255 configuration"@ + "\n"@ + "# created on "@ + ts + "\n"@ + render_fields(s, 0)
}

// ---------------------------------------------------------------------
// Parsing
// ---------------------------------------------------------------------
/// Space or tab.
pub open spec fn is_sp(c: char) -> bool {
    c == ' ' || c == '\t'
}

/// A character that may appear in a key: lower-case letter, digit or
/// underscore.
pub open spec fn ident_char(c: char) -> bool {
    (97 <= c as u32 <= 122) || is_digit(c) || c as u32 == 95
}

/// First index at or after `i` (up to `end`) whose character is not a
/// space or tab.
pub open spec fn skip_sp(t: Seq<char>, i: int, end: int) -> int
    decreases end - i,
{
    if i < 0 || i >= end {
        i
    } else if is_sp(t[i]) {
        skip_sp(t, i + 1, end)
    } else {
        i
    }
}

/// First index at or after `i` (up to `end`) whose character cannot appear
/// in a key.
pub open spec fn scan_ident(t: Seq<char>, i: int, end: int) -> int
    decreases end - i,
{
    if i < 0 || i >= end {
        i
    } else if ident_char(t[i]) {
        scan_ident(t, i + 1, end)
    } else {
        i
    }
}

/// First index at or after `i` (up to `end`) whose character is not a
/// decimal digit.
pub open spec fn scan_digits(t: Seq<char>, i: int, end: int) -> int
    decreases end - i,
{
    if i < 0 || i >= end {
        i
    } else if is_digit(t[i]) {
        scan_digits(t, i + 1, end)
    } else {
        i
    }
}

/// First index at or after `i` holding a newline, or the length of `t`.
pub open spec fn line_end(t: Seq<char>, i: int) -> int
    decreases t.len() - i,
{
    if i < 0 || i >= t.len() {
        t.len() as int
    } else if t[i] == '\n' {
        i
    } else {
        line_end(t, i + 1)
    }
}

/// The key under which a field is looked up, inverted: the field whose key
/// is `s`, if any.
pub open spec fn lookup(s: Seq<char>) -> Option<FieldId> {
    if s == key_of(FieldId::DriverEnable) {
        Some(FieldId::DriverEnable)
    } else if s == key_of(FieldId::TxEnable) {
        Some(FieldId::TxEnable)
    } else if s == key_of(FieldId::RxEnable) {
        Some(FieldId::RxEnable)
    } else if s == key_of(FieldId::RefEnable) {
        Some(FieldId::RefEnable)
    } else if s == key_of(FieldId::RxFreq) {
        Some(FieldId::RxFreq)
    } else if s == key_of(FieldId::TxFreq) {
        Some(FieldId::TxFreq)
    } else if s == key_of(FieldId::TxDacGain) {
        Some(FieldId::TxDacGain)
    } else if s == key_of(FieldId::TxMixerGain) {
        Some(FieldId::TxMixerGain)
    } else if s == key_of(FieldId::TxMixerTankCap) {
        Some(FieldId::TxMixerTankCap)
    } else if s == key_of(FieldId::TxMixerTankRes) {
        Some(FieldId::TxMixerTankRes)
    } else if s == key_of(FieldId::TxPllBw) {
        Some(FieldId::TxPllBw)
    } else if s == key_of(FieldId::TxFilterBw) {
        Some(FieldId::TxFilterBw)
    } else if s == key_of(FieldId::TxDacBw) {
        Some(FieldId::TxDacBw)
    } else if s == key_of(FieldId::RxLnaGain) {
        Some(FieldId::RxLnaGain)
    } else if s == key_of(FieldId::RxPgaGain) {
        Some(FieldId::RxPgaGain)
    } else if s == key_of(FieldId::RxZin200) {
        Some(FieldId::RxZin200)
    } else if s == key_of(FieldId::RxAdcBw) {
        Some(FieldId::RxAdcBw)
    } else if s == key_of(FieldId::RxAdcTrim) {
        Some(FieldId::RxAdcTrim)
    } else if s == key_of(FieldId::RxPgaBw) {
        Some(FieldId::RxPgaBw)
    } else if s == key_of(FieldId::RxPllBw) {
        Some(FieldId::RxPllBw)
    } else if s == key_of(FieldId::RxAdcTemp) {
        Some(FieldId::RxAdcTemp)
    } else if s == key_of(FieldId::IoMap0) {
        Some(FieldId::IoMap0)
    } else if s == key_of(FieldId::IoMap1) {
        Some(FieldId::IoMap1)
    } else if s == key_of(FieldId::IoMap2) {
        Some(FieldId::IoMap2)
    } else if s == key_of(FieldId::IoMap3) {
        Some(FieldId::IoMap3)
    } else if s == key_of(FieldId::DigLoopbackEn) {
        Some(FieldId::DigLoopbackEn)
    } else if s == key_of(FieldId::RfLoopbackEn) {
        Some(FieldId::RfLoopbackEn)
    } else if s == key_of(FieldId::CkoutEnable) {
        Some(FieldId::CkoutEnable)
    } else if s == key_of(FieldId::CkSelectTxDac) {
        Some(FieldId::CkSelectTxDac)
    } else if s == key_of(FieldId::IismRxDisable) {
        Some(FieldId::IismRxDisable)
    } else if s == key_of(FieldId::IismTxDisable) {
        Some(FieldId::IismTxDisable)
    } else if s == key_of(FieldId::IismMode) {
        Some(FieldId::IismMode)
    } else if s == key_of(FieldId::IismClkDiv) {
        Some(FieldId::IismClkDiv)
    } else if s == key_of(FieldId::R) {
        Some(FieldId::R)
    } else if s == key_of(FieldId::IismTruncation) {
        Some(FieldId::IismTruncation)
    } else {
        None
    }
}

/// After a value: only spaces, then either the end of the line or a `#`
/// comment.
pub open spec fn tail_ok(line: Seq<char>, x: int) -> bool {
    let y = skip_sp(line, x, line.len() as int);
    y == line.len() || line[y] == '#'
}

/// The value part of an assignment to `f`, starting at `q`.
pub open spec fn parse_value(f: FieldId, line: Seq<char>, q: int) -> Result<
    Option<(FieldId, u32)>,
    (),
> {
    let n = line.len() as int;
    if bool_field(f) {
        if q + 4 <= n && line.subrange(q, q + 4) == "true"@ && tail_ok(line, q + 4) {
            Ok(Some((f, 1u32)))
        } else if q + 5 <= n && line.subrange(q, q + 5) == "false"@ && tail_ok(line, q + 5) {
            Ok(Some((f, 0u32)))
        } else {
            Err(())
        }
    } else {
        let e = scan_digits(line, q, n);
        if e == q || !tail_ok(line, e) {
            Err(())
        } else if dec_value(line.subrange(q, e)) > 0xFFFF_FFFF {
            Err(())
        } else {
            Ok(Some((f, dec_value(line.subrange(q, e)) as u32)))
        }
    }
}

/// One line of a document: nothing (blank or comment), an assignment, or
/// a malformed line.
pub open spec fn parse_line_content(line: Seq<char>) -> Result<Option<(FieldId, u32)>, ()> {
    let n = line.len() as int;
    let j = skip_sp(line, 0, n);
    if j == n {
        Ok(None)
    } else if line[j] == '#' {
        Ok(None)
    } else {
        let k = scan_ident(line, j, n);
        if k == j {
            Err(())
        } else {
            match lookup(line.subrange(j, k)) {
                None => Err(()),
                Some(f) => {
                    let p = skip_sp(line, k, n);
                    if p == n || line[p] != '=' {
                        Err(())
                    } else {
                        let q = skip_sp(line, p + 1, n);
                        parse_value(f, line, q)
                    }
                },
            }
        }
    }
}

/// The assignments of a document, line by line, or a unit error on the
/// first malformed line.
pub open spec fn parse_lines(t: Seq<char>) -> Result<Seq<(FieldId, u32)>, ()>
    decreases t.len(),
    when t.len() >= 0
    via parse_lines_decreases
{
    if t.len() == 0 {
        Ok(Seq::empty())
    } else {
        let e = line_end(t, 0);
        let rest_start = if e < t.len() {
            e + 1
        } else {
            t.len() as int
        };
        let rest = t.subrange(rest_start, t.len() as int);
        match parse_line_content(t.subrange(0, e)) {
            Err(()) => Err(()),
            Ok(None) => parse_lines(rest),
            Ok(Some(a)) => match parse_lines(rest) {
                Err(()) => Err(()),
                Ok(xs) => Ok(seq![a] + xs),
            },
        }
    }
}

#[via_fn]
proof fn parse_lines_decreases(t: Seq<char>) {
    if t.len() != 0 {
        lemma_line_end(t, 0);
    }
}

/// What a document text denotes: the default state overlaid with the
/// document's assignments in order, each validated against its field's
/// domain; a malformed line denotes the malformed-document error.
pub open spec fn spec_read(t: Seq<char>) -> Result<SX1255Info, SxError> {
    match parse_lines(t) {
        Err(()) => Err(SxError::Malformed),
        Ok(xs) => apply_all(spec_default(), xs),
    }
}

// ---------------------------------------------------------------------
// What the scanners compute, as first-occurrence characterizations
// ---------------------------------------------------------------------
/// `skip_sp` lands on the first non-space position.
pub proof fn lemma_skip_sp(t: Seq<char>, i: int, end: int)
    requires
        0 <= i <= end <= t.len(),
    ensures
        i <= skip_sp(t, i, end) <= end,
        forall|x: int| i <= x < skip_sp(t, i, end) ==> is_sp(#[trigger] t[x]),
        skip_sp(t, i, end) < end ==> !is_sp(t[skip_sp(t, i, end)]),
    decreases end - i,
{
    if i < end && is_sp(t[i]) {
        lemma_skip_sp(t, i + 1, end);
    }
}

/// `scan_ident` lands on the first non-key position.
pub proof fn lemma_scan_ident(t: Seq<char>, i: int, end: int)
    requires
        0 <= i <= end <= t.len(),
    ensures
        i <= scan_ident(t, i, end) <= end,
        forall|x: int| i <= x < scan_ident(t, i, end) ==> ident_char(#[trigger] t[x]),
        scan_ident(t, i, end) < end ==> !ident_char(t[scan_ident(t, i, end)]),
    decreases end - i,
{
    if i < end && ident_char(t[i]) {
        lemma_scan_ident(t, i + 1, end);
    }
}

/// `scan_digits` lands on the first non-digit position.
pub proof fn lemma_scan_digits(t: Seq<char>, i: int, end: int)
    requires
        0 <= i <= end <= t.len(),
    ensures
        i <= scan_digits(t, i, end) <= end,
        forall|x: int| i <= x < scan_digits(t, i, end) ==> is_digit(#[trigger] t[x]),
        scan_digits(t, i, end) < end ==> !is_digit(t[scan_digits(t, i, end)]),
    decreases end - i,
{
    if i < end && is_digit(t[i]) {
        lemma_scan_digits(t, i + 1, end);
    }
}

/// `line_end` lands on the first newline, or the end of the text.
pub proof fn lemma_line_end(t: Seq<char>, i: int)
    requires
        0 <= i <= t.len(),
    ensures
        i <= line_end(t, i) <= t.len(),
        forall|x: int| i <= x < line_end(t, i) ==> #[trigger] t[x] != '\n',
        line_end(t, i) < t.len() ==> t[line_end(t, i)] == '\n',
    decreases t.len() - i,
{
    if i < t.len() && t[i] != '\n' {
        lemma_line_end(t, i + 1);
    }
}

/// Does `s` contain no newline?
pub open spec fn no_nl(s: Seq<char>) -> bool {
    forall|i: int| 0 <= i < s.len() ==> #[trigger] s[i] != '\n'
}

/// Pins `skip_sp` to a known position: all spaces before `k`, and `k`
/// itself (if within range) not a space.
proof fn lemma_skip_sp_at(t: Seq<char>, i: int, end: int, k: int)
    requires
        0 <= i <= k <= end <= t.len(),
        forall|x: int| i <= x < k ==> is_sp(#[trigger] t[x]),
        k < end ==> !is_sp(t[k]),
    ensures
        skip_sp(t, i, end) == k,
{
    lemma_skip_sp(t, i, end);
    let r = skip_sp(t, i, end);
    if r < k {
        assert(is_sp(t[r]));
    } else if r > k {
        assert(is_sp(t[k]));
    }
}

/// Pins `scan_ident` to a known position.
proof fn lemma_scan_ident_at(t: Seq<char>, i: int, end: int, k: int)
    requires
        0 <= i <= k <= end <= t.len(),
        forall|x: int| i <= x < k ==> ident_char(#[trigger] t[x]),
        k < end ==> !ident_char(t[k]),
    ensures
        scan_ident(t, i, end) == k,
{
    lemma_scan_ident(t, i, end);
    let r = scan_ident(t, i, end);
    if r < k {
        assert(ident_char(t[r]));
    } else if r > k {
        assert(ident_char(t[k]));
    }
}

/// Pins `scan_digits` to a known position.
proof fn lemma_scan_digits_at(t: Seq<char>, i: int, end: int, k: int)
    requires
        0 <= i <= k <= end <= t.len(),
        forall|x: int| i <= x < k ==> is_digit(#[trigger] t[x]),
        k < end ==> !is_digit(t[k]),
    ensures
        scan_digits(t, i, end) == k,
{
    lemma_scan_digits(t, i, end);
    let r = scan_digits(t, i, end);
    if r < k {
        assert(is_digit(t[r]));
    } else if r > k {
        assert(is_digit(t[k]));
    }
}

/// Pins `line_end` to a known position.
proof fn lemma_line_end_at(t: Seq<char>, i: int, k: int)
    requires
        0 <= i <= k <= t.len(),
        forall|x: int| i <= x < k ==> #[trigger] t[x] != '\n',
        k < t.len() ==> t[k] == '\n',
    ensures
        line_end(t, i) == k,
{
    lemma_line_end(t, i);
    let r = line_end(t, i);
    if r < k {
        assert(t[r] != '\n');
    } else if r > k {
        assert(t[k] != '\n');
    }
}

/// Unfolds `parse_lines` one line at a time, in terms of absolute
/// positions into the enclosing text: if `j` is the first newline at or
/// after `pos` (or the end of the text), the suffix from `pos` parses as
/// the line `[pos, j)` followed by the suffix after the newline.
proof fn lemma_parse_lines_step(t: Seq<char>, pos: int, j: int)
    requires
        0 <= pos <= j <= t.len(),
        pos < t.len(),
        forall|x: int| pos <= x < j ==> #[trigger] t[x] != '\n',
        j < t.len() ==> t[j] == '\n',
    ensures
        ({
            let rest = t.subrange(pos, t.len() as int);
            let line = t.subrange(pos, j);
            let next: int = if j < t.len() {
                j + 1
            } else {
                j
            };
            let rest2 = t.subrange(next, t.len() as int);
            parse_lines(rest) == match parse_line_content(line) {
                Err(()) => Err::<Seq<(FieldId, u32)>, ()>(()),
                Ok(None) => parse_lines(rest2),
                Ok(Some(a)) => match parse_lines(rest2) {
                    Err(()) => Err::<Seq<(FieldId, u32)>, ()>(()),
                    Ok(xs) => Ok::<Seq<(FieldId, u32)>, ()>(seq![a] + xs),
                },
            }
        }),
{
    let rest = t.subrange(pos, t.len() as int);
    let line = t.subrange(pos, j);
    let next: int = if j < t.len() {
        j + 1
    } else {
        j
    };
    let rest2 = t.subrange(next, t.len() as int);
    lemma_line_end(rest, 0);
    let e = line_end(rest, 0);
    assert(forall|y: int| 0 <= y < rest.len() ==> rest[y] == #[trigger] t[pos + y]);
    assert(e == j - pos) by {
        if e < j - pos {
            assert(rest[e] == '\n');
            assert(t[pos + e] != '\n');
        } else if e > j - pos {
            assert(j < t.len());
            assert(rest[j - pos] != '\n');
            assert(t[j] == '\n');
        }
    }
    assert(rest.subrange(0, e) =~= line);
    let rest_start: int = if e < rest.len() {
        e + 1
    } else {
        rest.len() as int
    };
    assert(rest.subrange(rest_start, rest.len() as int) =~= rest2);
    assert(rest.len() != 0);
}

// ---------------------------------------------------------------------
// Executable parsing
// ---------------------------------------------------------------------
/// The characters of a string slice, one per element.
fn chars_of(s: &str) -> (v: Vec<char>)
    ensures
        v@ == s@,
{
    let n = s.unicode_len();
    let mut v: Vec<char> = Vec::new();
    let mut i: usize = 0;
    while i < n
        invariant
            0 <= i <= n,
            n == s@.len(),
            v@ == s@.subrange(0, i as int),
        decreases n - i,
    {
        v.push(s.get_char(i));
        assert(v@ =~= s@.subrange(0, i + 1));
        i += 1;
    }
    assert(v@ =~= s@);
    v
}

fn skip_sp_exec(line: &Vec<char>, i: usize, end: usize) -> (r: usize)
    requires
        i <= end <= line@.len(),
    ensures
        r == skip_sp(line@, i as int, end as int),
        i <= r <= end,
{
    let mut j = i;
    while j < end && (line[j] == ' ' || line[j] == '\t')
        invariant
            i <= j <= end <= line@.len(),
            skip_sp(line@, i as int, end as int) == skip_sp(line@, j as int, end as int),
        decreases end - j,
    {
        j += 1;
    }
    j
}

fn scan_ident_exec(line: &Vec<char>, i: usize, end: usize) -> (r: usize)
    requires
        i <= end <= line@.len(),
    ensures
        r == scan_ident(line@, i as int, end as int),
        i <= r <= end,
{
    let mut j = i;
    while j < end && ((line[j] as u32 >= 97 && line[j] as u32 <= 122) || (line[j] as u32 >= 48
        && line[j] as u32 <= 57) || line[j] as u32 == 95)
        invariant
            i <= j <= end <= line@.len(),
            scan_ident(line@, i as int, end as int) == scan_ident(line@, j as int, end as int),
        decreases end - j,
    {
        j += 1;
    }
    j
}

fn scan_digits_exec(line: &Vec<char>, i: usize, end: usize) -> (r: usize)
    requires
        i <= end <= line@.len(),
    ensures
        r == scan_digits(line@, i as int, end as int),
        i <= r <= end,
{
    let mut j = i;
    while j < end && line[j] as u32 >= 48 && line[j] as u32 <= 57
        invariant
            i <= j <= end <= line@.len(),
            scan_digits(line@, i as int, end as int) == scan_digits(line@, j as int, end as int),
        decreases end - j,
    {
        j += 1;
    }
    j
}

/// Does the span `[j, k)` of the line spell exactly `key`?
fn match_key(line: &Vec<char>, j: usize, k: usize, key: &str) -> (r: bool)
    requires
        j <= k <= line@.len(),
    ensures
        r == (line@.subrange(j as int, k as int) == key@),
{
    let kl = key.unicode_len();
    if kl != k - j {
        assert(line@.subrange(j as int, k as int).len() == k - j);
        return false;
    }
    let mut x: usize = 0;
    while x < kl
        invariant
            0 <= x <= kl,
            kl == key@.len(),
            kl == k - j,
            j <= k <= line@.len(),
            forall|y: int| 0 <= y < x ==> line@[j + y] == key@[y],
        decreases kl - x,
    {
        if line[j + x] != key.get_char(x) {
            assert(line@.subrange(j as int, k as int)[x as int] == line@[j + x]);
            return false;
        }
        x += 1;
    }
    assert(line@.subrange(j as int, k as int) =~= key@);
    true
}

/// The field whose key occupies the span `[j, k)` of the line, if any.
fn lookup_exec(line: &Vec<char>, j: usize, k: usize) -> (r: Option<FieldId>)
    requires
        j <= k <= line@.len(),
    ensures
        r == lookup(line@.subrange(j as int, k as int)),
{
    if match_key(line, j, k, "driver_enable") {
        Some(FieldId::DriverEnable)
    } else if match_key(line, j, k, "tx_enable") {
        Some(FieldId::TxEnable)
    } else if match_key(line, j, k, "rx_enable") {
        Some(FieldId::RxEnable)
    } else if match_key(line, j, k, "ref_enable") {
        Some(FieldId::RefEnable)
    } else if match_key(line, j, k, "rx_freq") {
        Some(FieldId::RxFreq)
    } else if match_key(line, j, k, "tx_freq") {
        Some(FieldId::TxFreq)
    } else if match_key(line, j, k, "tx_dac_gain") {
        Some(FieldId::TxDacGain)
    } else if match_key(line, j, k, "tx_mixer_gain") {
        Some(FieldId::TxMixerGain)
    } else if match_key(line, j, k, "tx_mixer_tank_cap") {
        Some(FieldId::TxMixerTankCap)
    } else if match_key(line, j, k, "tx_mixer_tank_res") {
        Some(FieldId::TxMixerTankRes)
    } else if match_key(line, j, k, "tx_pll_bw") {
        Some(FieldId::TxPllBw)
    } else if match_key(line, j, k, "tx_filter_bw") {
        Some(FieldId::TxFilterBw)
    } else if match_key(line, j, k, "tx_dac_bw") {
        Some(FieldId::TxDacBw)
    } else if match_key(line, j, k, "rx_lna_gain") {
        Some(FieldId::RxLnaGain)
    } else if match_key(line, j, k, "rx_pga_gain") {
        Some(FieldId::RxPgaGain)
    } else if match_key(line, j, k, "rx_zin_200") {
        Some(FieldId::RxZin200)
    } else if match_key(line, j, k, "rx_adc_bw") {
        Some(FieldId::RxAdcBw)
    } else if match_key(line, j, k, "rx_adc_trim") {
        Some(FieldId::RxAdcTrim)
    } else if match_key(line, j, k, "rx_pga_bw") {
        Some(FieldId::RxPgaBw)
    } else if match_key(line, j, k, "rx_pll_bw") {
        Some(FieldId::RxPllBw)
    } else if match_key(line, j, k, "rx_adc_temp") {
        Some(FieldId::RxAdcTemp)
    } else if match_key(line, j, k, "iomap0") {
        Some(FieldId::IoMap0)
    } else if match_key(line, j, k, "iomap1") {
        Some(FieldId::IoMap1)
    } else if match_key(line, j, k, "iomap2") {
        Some(FieldId::IoMap2)
    } else if match_key(line, j, k, "iomap3") {
        Some(FieldId::IoMap3)
    } else if match_key(line, j, k, "dig_loopback_en") {
        Some(FieldId::DigLoopbackEn)
    } else if match_key(line, j, k, "rf_loopback_en") {
        Some(FieldId::RfLoopbackEn)
    } else if match_key(line, j, k, "ckout_enable") {
        Some(FieldId::CkoutEnable)
    } else if match_key(line, j, k, "ck_select_tx_dac") {
        Some(FieldId::CkSelectTxDac)
    } else if match_key(line, j, k, "iism_rx_disable") {
        Some(FieldId::IismRxDisable)
    } else if match_key(line, j, k, "iism_tx_disable") {
        Some(FieldId::IismTxDisable)
    } else if match_key(line, j, k, "iism_mode") {
        Some(FieldId::IismMode)
    } else if match_key(line, j, k, "iism_clk_div") {
        Some(FieldId::IismClkDiv)
    } else if match_key(line, j, k, "r") {
        Some(FieldId::R)
    } else if match_key(line, j, k, "iism_truncation") {
        Some(FieldId::IismTruncation)
    } else {
        None
    }
}

fn tail_ok_exec(line: &Vec<char>, x: usize) -> (r: bool)
    requires
        x <= line@.len(),
    ensures
        r == tail_ok(line@, x as int),
{
    let n = line.len();
    let y = skip_sp_exec(line, x, n);
    y == n || line[y] == '#'
}

/// Parses the all-digit span `[q, e)` as a `u32`, rejecting values beyond
/// the type's range.
fn parse_u32(line: &Vec<char>, q: usize, e: usize) -> (r: Result<u32, ()>)
    requires
        q < e <= line@.len(),
        forall|x: int| q <= x < e ==> is_digit(#[trigger] line@[x]),
    ensures
        r matches Ok(v) ==> v == dec_value(line@.subrange(q as int, e as int)) && dec_value(
            line@.subrange(q as int, e as int),
        ) <= 0xFFFF_FFFF,
        r is Err <==> dec_value(line@.subrange(q as int, e as int)) > 0xFFFF_FFFF,
{
    let ghost whole = line@.subrange(q as int, e as int);
    proof {
        assert(all_digits(whole));
    }
    let mut acc: u64 = 0;
    let mut i = q;
    while i < e
        invariant
            q <= i <= e <= line@.len(),
            forall|x: int| q <= x < e ==> is_digit(#[trigger] line@[x]),
            whole == line@.subrange(q as int, e as int),
            all_digits(whole),
            acc == dec_value(line@.subrange(q as int, i as int)),
            acc <= 0xFFFF_FFFF,
        decreases e - i,
    {
        let d: u32 = (line[i] as u32) - 48;
        let acc2: u64 = acc * 10 + (d as u64);
        proof {
            let pre = line@.subrange(q as int, i as int);
            let pre2 = line@.subrange(q as int, i + 1);
            assert(pre2.drop_last() =~= pre);
            assert(pre2.last() == line@[i as int]);
            assert(dec_value(pre2) == acc * 10 + digit_val(line@[i as int]));
        }
        if acc2 > 0xFFFF_FFFF {
            proof {
                lemma_dec_value_grows(whole, i + 1 - q, e - q);
                assert(whole.subrange(0, i + 1 - q) =~= line@.subrange(q as int, i + 1));
                assert(whole.subrange(0, (e - q) as int) =~= whole);
            }
            return Err(());
        }
        acc = acc2;
        i += 1;
    }
    proof {
        assert(line@.subrange(q as int, i as int) =~= whole);
    }
    Ok(acc as u32)
}

/// One line of a document, parsed: a skipped blank or comment line, one
/// assignment, or a malformed line.
fn parse_line_exec(line: &Vec<char>) -> (r: Result<Option<(FieldId, u32)>, ()>)
    ensures
        r == parse_line_content(line@),
{
    let n = line.len();
    let j = skip_sp_exec(line, 0, n);
    if j == n {
        return Ok(None);
    }
    if line[j] == '#' {
        return Ok(None);
    }
    let k = scan_ident_exec(line, j, n);
    if k == j {
        return Err(());
    }
    let f = match lookup_exec(line, j, k) {
        Some(f) => f,
        None => {
            return Err(());
        },
    };
    let p = skip_sp_exec(line, k, n);
    if p == n {
        return Err(());
    }
    if line[p] != '=' {
        return Err(());
    }
    let q = skip_sp_exec(line, p + 1, n);
    if bool_field_exec(f) {
        if n - q >= 4 && match_key(line, q, q + 4, "true") && tail_ok_exec(line, q + 4) {
            Ok(Some((f, 1)))
        } else if n - q >= 5 && match_key(line, q, q + 5, "false") && tail_ok_exec(line, q + 5) {
            Ok(Some((f, 0)))
        } else {
            Err(())
        }
    } else {
        let e = scan_digits_exec(line, q, n);
        if e == q {
            return Err(());
        }
        if !tail_ok_exec(line, e) {
            return Err(());
        }
        proof {
            lemma_scan_digits(line@, q as int, n as int);
        }
        match parse_u32(line, q, e) {
            Ok(v) => Ok(Some((f, v))),
            Err(()) => Err(()),
        }
    }
}

/// Is the field a boolean flag?
fn bool_field_exec(f: FieldId) -> (r: bool)
    ensures
        r == bool_field(f),
{
    match f {
        FieldId::DriverEnable => true,
        FieldId::TxEnable => true,
        FieldId::RxEnable => true,
        FieldId::RefEnable => true,
        FieldId::RxAdcTemp => true,
        FieldId::DigLoopbackEn => true,
        FieldId::RfLoopbackEn => true,
        FieldId::IismRxDisable => true,
        FieldId::IismTxDisable => true,
        _ => false,
    }
}

/// Inclusive lower bound of a field's documented domain.
fn field_lo_exec(f: FieldId) -> (r: u32)
    ensures
        r == field_lo(f),
{
    match f {
        FieldId::RxFreq => 300_000_000,
        FieldId::TxFreq => 300_000_000,
        _ => 0,
    }
}

/// Inclusive upper bound of a field's documented domain.
fn field_hi_exec(f: FieldId) -> (r: u32)
    ensures
        r == field_hi(f),
{
    match f {
        FieldId::DriverEnable => 1,
        FieldId::TxEnable => 1,
        FieldId::RxEnable => 1,
        FieldId::RefEnable => 1,
        FieldId::RxFreq => 499_999_999,
        FieldId::TxFreq => 499_999_999,
        FieldId::TxDacGain => 7,
        FieldId::TxMixerGain => 15,
        FieldId::TxMixerTankCap => 7,
        FieldId::TxMixerTankRes => 7,
        FieldId::TxPllBw => 3,
        FieldId::TxFilterBw => 15,
        FieldId::TxDacBw => 5,
        FieldId::RxLnaGain => 7,
        FieldId::RxPgaGain => 15,
        FieldId::RxZin200 => 1,
        FieldId::RxAdcBw => 7,
        FieldId::RxAdcTrim => 7,
        FieldId::RxPgaBw => 3,
        FieldId::RxPllBw => 3,
        FieldId::RxAdcTemp => 1,
        FieldId::IoMap0 => 3,
        FieldId::IoMap1 => 3,
        FieldId::IoMap2 => 3,
        FieldId::IoMap3 => 3,
        FieldId::DigLoopbackEn => 1,
        FieldId::RfLoopbackEn => 1,
        FieldId::CkoutEnable => 1,
        FieldId::CkSelectTxDac => 1,
        FieldId::IismRxDisable => 1,
        FieldId::IismTxDisable => 1,
        FieldId::IismMode => 3,
        FieldId::IismClkDiv => 15,
        FieldId::R => 1728,
        FieldId::IismTruncation => 1,
    }
}

/// `s` with field `f` set to `v`.
#[verifier::rlimit(60)]
fn set_field_exec(s: SX1255Info, f: FieldId, v: u32) -> (r: SX1255Info)
    ensures
        r == set_field(s, f, v),
{
    let mut s2 = s;
    match f {
        FieldId::DriverEnable => s2.driver_enable = v == 1,
        FieldId::TxEnable => s2.tx_enable = v == 1,
        FieldId::RxEnable => s2.rx_enable = v == 1,
        FieldId::RefEnable => s2.ref_enable = v == 1,
        FieldId::RxFreq => s2.rx_freq = v,
        FieldId::TxFreq => s2.tx_freq = v,
        FieldId::TxDacGain => s2.tx_dac_gain = v as u8,
        FieldId::TxMixerGain => s2.tx_mixer_gain = v as u8,
        FieldId::TxMixerTankCap => s2.tx_mixer_tank_cap = v as u8,
        FieldId::TxMixerTankRes => s2.tx_mixer_tank_res = v as u8,
        FieldId::TxPllBw => s2.tx_pll_bw = v as u8,
        FieldId::TxFilterBw => s2.tx_filter_bw = v as u8,
        FieldId::TxDacBw => s2.tx_dac_bw = v as u8,
        FieldId::RxLnaGain => s2.rx_lna_gain = v as u8,
        FieldId::RxPgaGain => s2.rx_pga_gain = v as u8,
        FieldId::RxZin200 => s2.rx_zin_200 = v as u8,
        FieldId::RxAdcBw => s2.rx_adc_bw = v as u8,
        FieldId::RxAdcTrim => s2.rx_adc_trim = v as u8,
        FieldId::RxPgaBw => s2.rx_pga_bw = v as u8,
        FieldId::RxPllBw => s2.rx_pll_bw = v as u8,
        FieldId::RxAdcTemp => s2.rx_adc_temp = v == 1,
        FieldId::IoMap0 => s2.iomap0 = v as u8,
        FieldId::IoMap1 => s2.iomap1 = v as u8,
        FieldId::IoMap2 => s2.iomap2 = v as u8,
        FieldId::IoMap3 => s2.iomap3 = v as u8,
        FieldId::DigLoopbackEn => s2.dig_loopback_en = v == 1,
        FieldId::RfLoopbackEn => s2.rf_loopback_en = v == 1,
        FieldId::CkoutEnable => s2.ckout_enable = v as u8,
        FieldId::CkSelectTxDac => s2.ck_select_tx_dac = v as u8,
        FieldId::IismRxDisable => s2.iism_rx_disable = v == 1,
        FieldId::IismTxDisable => s2.iism_tx_disable = v == 1,
        FieldId::IismMode => s2.iism_mode = v as u8,
        FieldId::IismClkDiv => s2.iism_clk_div = v as u8,
        FieldId::R => s2.r = v,
        FieldId::IismTruncation => s2.iism_truncation = v as u8,
    }
    s2
}

/// Validates one assignment against its field's domain and applies it.
fn apply_assign_exec(s: SX1255Info, f: FieldId, v: u32) -> (r: Result<SX1255Info, SxError>)
    ensures
        r == apply_assign(s, f, v),
{
    if f == FieldId::R {
        if is_valid_r(v) {
            Ok(set_field_exec(s, f, v))
        } else {
            Err(SxError::UnsupportedFactor { value: v })
        }
    } else {
        let lo = field_lo_exec(f);
        let hi = field_hi_exec(f);
        if lo <= v && v <= hi {
            Ok(set_field_exec(s, f, v))
        } else {
            Err(SxError::OutOfRange { field: f, min: lo, max: hi })
        }
    }
}

/// Reads a configuration document.
///
/// Returns the default state overlaid with the document's assignments,
/// applied in document order.  A line that is not blank, a comment or a
/// well-formed `key = value` assignment with a known key yields the
/// malformed-document error; an assignment whose value lies outside the
/// field's documented domain yields an out-of-range error naming the field
/// and its bounds (for the factor `r`, an unsupported-factor error), with
/// the first violation winning.  A field the document does not mention
/// keeps its compiled-in default, so documents from before a field existed
/// still read.
pub fn read_document(text: &str) -> (res: Result<SX1255Info, SxError>)
    ensures
        res == spec_read(text@),
{
    let t = chars_of(text);
    let n = t.len();
    let mut assigns: Vec<(FieldId, u32)> = Vec::new();
    let mut pos: usize = 0;
    proof {
        assert(t@.subrange(0, n as int) =~= t@);
        if parse_lines(t@) is Ok {
            assert(Seq::<(FieldId, u32)>::empty() + parse_lines(t@)->Ok_0 =~= parse_lines(
                t@,
            )->Ok_0);
        }
    }
    while pos < n
        invariant
            0 <= pos <= n,
            n == t@.len(),
            t@ == text@,
            ({
                let rest = t@.subrange(pos as int, n as int);
                match parse_lines(rest) {
                    Ok(xs) => parse_lines(t@) == Ok::<_, ()>(assigns@ + xs),
                    Err(()) => parse_lines(t@) is Err,
                }
            }),
        decreases n - pos,
    {
        // Find the end of the current line.
        let mut j = pos;
        while j < n && t[j] != '\n'
            invariant
                pos <= j <= n == t@.len(),
                forall|x: int| pos <= x < j ==> #[trigger] t@[x] != '\n',
            decreases n - j,
        {
            j += 1;
        }
        // Copy the line out and parse it.
        let mut line: Vec<char> = Vec::new();
        let mut x = pos;
        while x < j
            invariant
                pos <= x <= j <= n == t@.len(),
                line@ == t@.subrange(pos as int, x as int),
            decreases j - x,
        {
            line.push(t[x]);
            assert(line@ =~= t@.subrange(pos as int, x + 1));
            x += 1;
        }
        let next = if j < n {
            j + 1
        } else {
            j
        };
        proof {
            lemma_parse_lines_step(t@, pos as int, j as int);
            assert(t@.subrange(pos as int, j as int) =~= line@);
        }
        match parse_line_exec(&line) {
            Err(()) => {
                proof {
                    assert(parse_lines(t@.subrange(pos as int, n as int)) == Err::<
                        Seq<(FieldId, u32)>,
                        (),
                    >(()));
                    assert(spec_read(text@) == Err::<SX1255Info, SxError>(SxError::Malformed));
                }
                return Err(SxError::Malformed);
            },
            Ok(None) => {
            },
            Ok(Some(a)) => {
                let ghost prev = assigns@;
                assigns.push(a);
                proof {
                    let rest2 = t@.subrange(next as int, n as int);
                    if parse_lines(rest2) is Ok {
                        let xs = parse_lines(rest2)->Ok_0;
                        assert(assigns@ + xs =~= prev + (seq![a] + xs));
                    }
                }
            },
        }
        pos = next;
    }
    proof {
        assert(t@.subrange(pos as int, n as int) =~= Seq::<char>::empty());
        assert(parse_lines(t@) == Ok::<_, ()>(assigns@ + Seq::empty()));
        assert(assigns@ + Seq::empty() =~= assigns@);
    }
    // Apply the assignments to the default state, failing fast on the
    // first domain violation.
    let mut cur = SX1255Info::default();
    let mut idx: usize = 0;
    proof {
        assert(assigns@.subrange(0, assigns@.len() as int) =~= assigns@);
    }
    while idx < assigns.len()
        invariant
            0 <= idx <= assigns@.len(),
            t@ == text@,
            parse_lines(t@) == Ok::<_, ()>(assigns@),
            apply_all(spec_default(), assigns@) == apply_all(
                cur,
                assigns@.subrange(idx as int, assigns@.len() as int),
            ),
        decreases assigns@.len() - idx,
    {
        let (f, v) = assigns[idx];
        proof {
            let sub = assigns@.subrange(idx as int, assigns@.len() as int);
            assert(sub[0] == assigns@[idx as int]);
            assert(sub.subrange(1, sub.len() as int) =~= assigns@.subrange(
                idx + 1,
                assigns@.len() as int,
            ));
        }
        match apply_assign_exec(cur, f, v) {
            Ok(s2) => {
                cur = s2;
            },
            Err(e) => {
                proof {
                    assert(apply_all(
                        cur,
                        assigns@.subrange(idx as int, assigns@.len() as int),
                    ) == Err::<SX1255Info, SxError>(e));
                    assert(apply_all(spec_default(), assigns@) == Err::<SX1255Info, SxError>(e));
                    assert(spec_read(text@) == Err::<SX1255Info, SxError>(e));
                }
                return Err(e);
            },
        }
        idx += 1;
    }
    proof {
        assert(assigns@.subrange(idx as int, assigns@.len() as int) =~= Seq::<(
            FieldId,
            u32,
        )>::empty());
    }
    Ok(cur)
}

/// Reads a configuration document into an existing state.
///
/// On success the state is replaced by the document's denotation; on any
/// error the state is left exactly as it was.
pub fn read_into(info: &mut SX1255Info, text: &str) -> (r: Result<(), SxError>)
    ensures
        spec_read(text@) matches Ok(s) ==> r == Ok::<(), SxError>(()) && *final(info) == s,
        spec_read(text@) matches Err(e) ==> r == Err::<(), SxError>(e) && *final(info) == *old(
            info,
        ),
{
    match read_document(text) {
        Ok(s) => {
            *info = s;
            Ok(())
        },
        Err(e) => Err(e),
    }
}

// ---------------------------------------------------------------------
// Facts about the field vocabulary, used by the round-trip proof
// ---------------------------------------------------------------------
/// Every key is a nonempty identifier, every key looks itself up, and no
/// field's comment contains a newline.
#[verifier::rlimit(100)]
proof fn lemma_field_facts(f: FieldId)
    ensures
        key_of(f).len() >= 1,
        forall|x: int| 0 <= x < key_of(f).len() ==> ident_char(#[trigger] key_of(f)[x]),
        lookup(key_of(f)) == Some(f),
        no_nl(comment_chars(f)),
{
    reveal_strlit("driver_enable");
    reveal_strlit("tx_enable");
    reveal_strlit("rx_enable");
    reveal_strlit("ref_enable");
    reveal_strlit("rx_freq");
    reveal_strlit("tx_freq");
    reveal_strlit("tx_dac_gain");
    reveal_strlit("tx_mixer_gain");
    reveal_strlit("tx_mixer_tank_cap");
    reveal_strlit("tx_mixer_tank_res");
    reveal_strlit("tx_pll_bw");
    reveal_strlit("tx_filter_bw");
    reveal_strlit("tx_dac_bw");
    reveal_strlit("rx_lna_gain");
    reveal_strlit("rx_pga_gain");
    reveal_strlit("rx_zin_200");
    reveal_strlit("rx_adc_bw");
    reveal_strlit("rx_adc_trim");
    reveal_strlit("rx_pga_bw");
    reveal_strlit("rx_pll_bw");
    reveal_strlit("rx_adc_temp");
    reveal_strlit("iomap0");
    reveal_strlit("iomap1");
    reveal_strlit("iomap2");
    reveal_strlit("iomap3");
    reveal_strlit("dig_loopback_en");
    reveal_strlit("rf_loopback_en");
    reveal_strlit("ckout_enable");
    reveal_strlit("ck_select_tx_dac");
    reveal_strlit("iism_rx_disable");
    reveal_strlit("iism_tx_disable");
    reveal_strlit("iism_mode");
    reveal_strlit("iism_clk_div");
    reveal_strlit("r");
    reveal_strlit("iism_truncation");
    // Key lengths.
    assert("driver_enable"@.len() == 13 && "tx_enable"@.len() == 9 && "rx_enable"@.len() == 9
        && "ref_enable"@.len() == 10 && "rx_freq"@.len() == 7 && "tx_freq"@.len() == 7
        && "tx_dac_gain"@.len() == 11 && "tx_mixer_gain"@.len() == 13
        && "tx_mixer_tank_cap"@.len() == 17 && "tx_mixer_tank_res"@.len() == 17
        && "tx_pll_bw"@.len() == 9 && "tx_filter_bw"@.len() == 12 && "tx_dac_bw"@.len() == 9
        && "rx_lna_gain"@.len() == 11 && "rx_pga_gain"@.len() == 11 && "rx_zin_200"@.len() == 10
        && "rx_adc_bw"@.len() == 9 && "rx_adc_trim"@.len() == 11 && "rx_pga_bw"@.len() == 9
        && "rx_pll_bw"@.len() == 9 && "rx_adc_temp"@.len() == 11 && "iomap0"@.len() == 6
        && "iomap1"@.len() == 6 && "iomap2"@.len() == 6 && "iomap3"@.len() == 6
        && "dig_loopback_en"@.len() == 15 && "rf_loopback_en"@.len() == 14
        && "ckout_enable"@.len() == 12 && "ck_select_tx_dac"@.len() == 16
        && "iism_rx_disable"@.len() == 15 && "iism_tx_disable"@.len() == 15
        && "iism_mode"@.len() == 9 && "iism_clk_div"@.len() == 12 && "r"@.len() == 1
        && "iism_truncation"@.len() == 15);
    // Distinguishing characters within the same-length groups.
    assert("iomap0"@[5] == '0' && "iomap1"@[5] == '1' && "iomap2"@[5] == '2' && "iomap3"@[5]
        == '3');
    assert("rx_freq"@[0] == 'r' && "tx_freq"@[0] == 't');
    assert("tx_enable"@[0] == 't' && "tx_enable"@[3] == 'e' && "tx_enable"@[4] == 'n');
    assert("rx_enable"@[0] == 'r' && "rx_enable"@[3] == 'e' && "rx_enable"@[4] == 'n');
    assert("tx_pll_bw"@[0] == 't' && "tx_pll_bw"@[3] == 'p' && "tx_pll_bw"@[4] == 'l');
    assert("tx_dac_bw"@[0] == 't' && "tx_dac_bw"@[3] == 'd' && "tx_dac_bw"@[4] == 'a');
    assert("rx_adc_bw"@[0] == 'r' && "rx_adc_bw"@[3] == 'a' && "rx_adc_bw"@[4] == 'd');
    assert("rx_pga_bw"@[0] == 'r' && "rx_pga_bw"@[3] == 'p' && "rx_pga_bw"@[4] == 'g');
    assert("rx_pll_bw"@[0] == 'r' && "rx_pll_bw"@[3] == 'p' && "rx_pll_bw"@[4] == 'l');
    assert("iism_mode"@[0] == 'i' && "iism_mode"@[3] == 'm' && "iism_mode"@[4] == '_');
    assert("ref_enable"@[1] == 'e' && "rx_zin_200"@[1] == 'x');
    assert("tx_dac_gain"@[0] == 't' && "tx_dac_gain"@[3] == 'd');
    assert("rx_lna_gain"@[0] == 'r' && "rx_lna_gain"@[3] == 'l');
    assert("rx_pga_gain"@[0] == 'r' && "rx_pga_gain"@[3] == 'p');
    assert("rx_adc_trim"@[0] == 'r' && "rx_adc_trim"@[3] == 'a' && "rx_adc_trim"@[8] == 'r');
    assert("rx_adc_temp"@[0] == 'r' && "rx_adc_temp"@[3] == 'a' && "rx_adc_temp"@[8] == 'e');
    assert("tx_filter_bw"@[0] == 't' && "ckout_enable"@[0] == 'c' && "iism_clk_div"@[0] == 'i');
    assert("driver_enable"@[0] == 'd' && "tx_mixer_gain"@[0] == 't');
    assert("dig_loopback_en"@[0] == 'd' && "iism_rx_disable"@[0] == 'i' && "iism_rx_disable"@[5]
        == 'r' && "iism_tx_disable"@[0] == 'i' && "iism_tx_disable"@[5] == 't'
        && "iism_tx_disable"@[6] == 'x' && "iism_truncation"@[0] == 'i' && "iism_truncation"@[5]
        == 't' && "iism_truncation"@[6] == 'r');
    assert("tx_mixer_tank_cap"@[14] == 'c' && "tx_mixer_tank_res"@[14] == 'r');
    match f {
        FieldId::DriverEnable => {
            reveal_strlit("enable the PA driver");
        },
        FieldId::TxEnable => {
            reveal_strlit("enable the complete Tx front-end (except the PA)");
        },
        FieldId::RxEnable => {
            reveal_strlit("enable the complete Rx front-end");
        },
        FieldId::RefEnable => {
            reveal_strlit("enable the PDS and the oscillator");
        },
        FieldId::RxFreq => {
            reveal_strlit("Rx carrier frequency in Hz, 300000000-499999999");
        },
        FieldId::TxFreq => {
            reveal_strlit("Tx carrier frequency in Hz, 300000000-499999999");
        },
        FieldId::TxDacGain => {
            reveal_strlit("Tx DAC gain, 3 dB steps below maximum, test modes 4-7; 0-7");
        },
        FieldId::TxMixerGain => {
            reveal_strlit("Tx mixer gain = -37.5 dB + 2 dB x value; 0-15");
        },
        FieldId::TxMixerTankCap => {
            reveal_strlit("capacitance in parallel with the mixer tank, 128 fF steps; 0-7");
        },
        FieldId::TxMixerTankRes => {
            reveal_strlit("resistance in parallel with the mixer tank, 0.95 kOhm to none; 0-7");
        },
        FieldId::TxPllBw => {
            reveal_strlit("Tx PLL bandwidth = (value + 1) x 75 KHz; 0-3");
        },
        FieldId::TxFilterBw => {
            reveal_strlit("Tx filter bandwidth = 17.15 MHz / (41 - value); 0-15");
        },
        FieldId::TxDacBw => {
            reveal_strlit("Tx FIR-DAC taps = 24 + 8 x value, at most 64; 0-5");
        },
        FieldId::RxLnaGain => {
            reveal_strlit("Rx LNA gain, 1 highest to 6 lowest, 0 and 7 unused; 0-7");
        },
        FieldId::RxPgaGain => {
            reveal_strlit("Rx PGA gain = lowest + 2 dB x value; 0-15");
        },
        FieldId::RxZin200 => {
            reveal_strlit("Rx input impedance, 0 for 50 Ohm, 1 for 200 Ohm; 0-1");
        },
        FieldId::RxAdcBw => {
            reveal_strlit(
                "Rx ADC bandwidth: 7 above 400 kHz, 5 for 200-400 kHz, 2 for 100-400 kHz; 0-7",
            );
        },
        FieldId::RxAdcTrim => {
            reveal_strlit("Rx ADC trim for a 36 MHz reference crystal; 0-7");
        },
        FieldId::RxPgaBw => {
            reveal_strlit("Rx analog roofing filter, 1500/1000/750/500 kHz; 0-3");
        },
        FieldId::RxPllBw => {
            reveal_strlit("Rx PLL bandwidth = (value + 1) x 75 KHz; 0-3");
        },
        FieldId::RxAdcTemp => {
            reveal_strlit("put the Rx ADC into temperature measurement mode");
        },
        FieldId::IoMap0 => {
            reveal_strlit("mapping of DIO(0): 0-2 pll_lock_rx, 3 eol; 0-3");
        },
        FieldId::IoMap1 => {
            reveal_strlit("mapping of DIO(1): 0 pll_lock_tx, others unused; 0-3");
        },
        FieldId::IoMap2 => {
            reveal_strlit("mapping of DIO(2): 0 xosc_ready, others unused; 0-3");
        },
        FieldId::IoMap3 => {
            reveal_strlit("mapping of DIO(3): 0 pll_lock of the active part, others unused; 0-3");
        },
        FieldId::DigLoopbackEn => {
            reveal_strlit("enable the digital loopback mode of the front-end");
        },
        FieldId::RfLoopbackEn => {
            reveal_strlit("enable the RF loopback mode of the front-end");
        },
        FieldId::CkoutEnable => {
            reveal_strlit("output clock on pad CLK_OUT, 0 disabled, 1 enabled; 0-1");
        },
        FieldId::CkSelectTxDac => {
            reveal_strlit("Tx DAC clock, 0 internal CLK_XTAL, 1 external CLK_IN; 0-1");
        },
        FieldId::IismRxDisable => {
            reveal_strlit("disable IISM Rx during Tx mode");
        },
        FieldId::IismTxDisable => {
            reveal_strlit("disable IISM Tx during Rx mode");
        },
        FieldId::IismMode => {
            reveal_strlit("IISM mode, 0 A, 1 B1, 2 B2, 3 unused; 0-3");
        },
        FieldId::IismClkDiv => {
            reveal_strlit(
                "XTAL/CLK_OUT division factor, 1/2/4/8/12/16/24/32/48, 9-15 unused; 0-15",
            );
        },
        FieldId::R => {
            reveal_strlit(
                "decimation/interpolation factor, one of 8 16 24 32 48 64 96 128 192 256 384 512 768 1536 or 9 18 27 36 54 72 108 144 216 288 432 576 864 1728",
            );
        },
        FieldId::IismTruncation => {
            reveal_strlit(
                "IISM truncation, 0 MSB truncated (LSB aligned), 1 LSB truncated (MSB aligned); 0-1",
            );
        },
    }
}

// ---------------------------------------------------------------------
// The document round trip
// ---------------------------------------------------------------------
/// Parsing a single newline-terminated line followed by more text: the
/// line's own content is parsed, then the remainder.
proof fn lemma_parse_one_line(content: Seq<char>, rest: Seq<char>)
    requires
        no_nl(content),
    ensures
        parse_lines(content + "\n"@ + rest) == (match parse_line_content(content) {
            Err(()) => Err::<Seq<(FieldId, u32)>, ()>(()),
            Ok(None) => parse_lines(rest),
            Ok(Some(a)) => match parse_lines(rest) {
                Err(()) => Err::<Seq<(FieldId, u32)>, ()>(()),
                Ok(xs) => Ok::<Seq<(FieldId, u32)>, ()>(seq![a] + xs),
            },
        }),
{
    reveal_strlit("\n");
    let t = content + "\n"@ + rest;
    let cl = content.len() as int;
    assert(t.len() == cl + 1 + rest.len());
    assert(forall|x: int| 0 <= x < cl ==> t[x] == #[trigger] content[x]);
    assert(t[cl] == '\n');
    lemma_line_end_at(t, 0, cl);
    assert(t.subrange(0, cl) =~= content);
    assert(t.subrange(cl + 1, t.len() as int) =~= rest);
}

/// A line that opens with `#` carries no assignment.
proof fn lemma_comment_line(content: Seq<char>)
    requires
        content.len() >= 1,
        content[0] == '#',
    ensures
        parse_line_content(content) == Ok::<Option<(FieldId, u32)>, ()>(None),
{
    assert(!is_sp('#')) by {
        reveal_strlit("#");
    }
    lemma_skip_sp_at(content, 0, content.len() as int, 0);
}

/// The assignment line the writer emits for a field parses back to
/// exactly that field and its value.
proof fn lemma_parse_assignment_content(s: SX1255Info, f: FieldId)
    ensures
        parse_line_content(key_of(f) + " = "@ + value_chars(s, f)) == Ok::<
            Option<(FieldId, u32)>,
            (),
        >(Some((f, field_val(s, f)))),
        no_nl(key_of(f) + " = "@ + value_chars(s, f)),
{
    reveal_strlit(" = ");
    reveal_strlit("true");
    reveal_strlit("false");
    lemma_field_facts(f);
    let key = key_of(f);
    let value = value_chars(s, f);
    let v = field_val(s, f);
    let kl = key.len() as int;
    let line = key + " = "@ + value;
    let n = line.len() as int;
    assert(" = "@.len() == 3 && " = "@[0] == ' ' && " = "@[1] == '=' && " = "@[2] == ' ');
    assert(n == kl + 3 + value.len());
    assert(forall|x: int| 0 <= x < kl ==> line[x] == #[trigger] key[x]);
    assert(line[kl] == ' ' && line[kl + 1] == '=' && line[kl + 2] == ' ');
    assert(forall|y: int| 0 <= y < value.len() ==> line[kl + 3 + y] == #[trigger] value[y]);
    // The value text is nonempty, newline-free, and starts with a
    // non-space character.
    if bool_field(f) {
        assert("true"@.len() == 4 && "true"@[0] == 't' && "true"@[1] == 'r' && "true"@[2] == 'u'
            && "true"@[3] == 'e');
        assert("false"@.len() == 5 && "false"@[0] == 'f' && "false"@[1] == 'a' && "false"@[2]
            == 'l' && "false"@[3] == 's' && "false"@[4] == 'e');
    } else {
        crate::numtext::lemma_dec_digits_value(v as nat);
        assert(all_digits(value) && value.len() >= 1);
    }
    assert(value.len() >= 1);
    assert(!is_sp(value[0]) && value[0] != '\n');
    assert(forall|y: int| 0 <= y < value.len() ==> #[trigger] value[y] != '\n');
    assert(no_nl(line));
    // Scan the key.
    assert(!is_sp(line[0]) && line[0] != '#');
    lemma_skip_sp_at(line, 0, n, 0);
    assert(!ident_char(line[kl]));
    lemma_scan_ident_at(line, 0, n, kl);
    assert(line.subrange(0, kl) =~= key);
    assert(lookup(line.subrange(0, kl)) == Some(f));
    // The equals sign, with one space on each side.
    assert(!is_sp(line[kl + 1]));
    lemma_skip_sp_at(line, kl, n, kl + 1);
    lemma_skip_sp_at(line, kl + 2, n, kl + 3);
    let q = kl + 3;
    // The value.
    if bool_field(f) {
        if v == 1 {
            assert(value == "true"@);
            assert(n == q + 4);
            assert(line.subrange(q, q + 4) =~= "true"@);
            assert(skip_sp(line, n, n) == n);
            assert(tail_ok(line, q + 4));
        } else {
            assert(value == "false"@);
            assert(n == q + 5);
            assert(line.subrange(q, q + 4)[0] == 'f');
            assert(line.subrange(q, q + 4) != "true"@);
            assert(line.subrange(q, q + 5) =~= "false"@);
            assert(skip_sp(line, n, n) == n);
            assert(tail_ok(line, q + 5));
        }
    } else {
        lemma_scan_digits_at(line, q, n, n);
        assert(line.subrange(q, n) =~= value);
        assert(dec_value(line.subrange(q, n)) == v);
        assert(skip_sp(line, n, n) == n);
        assert(tail_ok(line, n));
    }
}

/// Parsing a field's whole block (blank line, comment line, assignment
/// line) yields that one assignment before whatever follows.
proof fn lemma_parse_block(s: SX1255Info, f: FieldId, rest: Seq<char>)
    ensures
        parse_lines(block_chars(s, f) + rest) == (match parse_lines(rest) {
            Err(()) => Err::<Seq<(FieldId, u32)>, ()>(()),
            Ok(xs) => Ok::<Seq<(FieldId, u32)>, ()>(seq![(f, field_val(s, f))] + xs),
        }),
{
    reveal_strlit("# ");
    lemma_field_facts(f);
    lemma_parse_assignment_content(s, f);
    let content2 = "# "@ + comment_chars(f);
    let content3 = key_of(f) + " = "@ + value_chars(s, f);
    let r2 = content3 + "\n"@ + rest;
    let r1 = content2 + "\n"@ + r2;
    assert("# "@.len() == 2 && "# "@[0] == '#' && "# "@[1] == ' ');
    // The block is exactly: an empty line, then the comment line, then
    // the assignment line, then the rest.
    assert(block_chars(s, f) + rest =~= Seq::<char>::empty() + "\n"@ + r1);
    assert(no_nl(Seq::<char>::empty()));
    lemma_parse_one_line(Seq::empty(), r1);
    assert(parse_line_content(Seq::<char>::empty()) == Ok::<Option<(FieldId, u32)>, ()>(None))
        by {
        assert(skip_sp(Seq::<char>::empty(), 0, 0) == 0);
    }
    assert(no_nl(content2));
    lemma_parse_one_line(content2, r2);
    lemma_comment_line(content2);
    lemma_parse_one_line(content3, rest);
}

/// The assignments the writer records from position `i` of the field
/// order on: each field paired with its value in `s`.
pub open spec fn assigns_from(s: SX1255Info, i: int) -> Seq<(FieldId, u32)>
    decreases field_list().len() - i,
{
    if i < 0 || i >= field_list().len() {
        Seq::empty()
    } else {
        seq![(field_list()[i], field_val(s, field_list()[i]))] + assigns_from(s, i + 1)
    }
}

/// The rendered blocks from position `i` on parse back to exactly the
/// recorded assignments.
proof fn lemma_parse_fields(s: SX1255Info, i: int)
    requires
        0 <= i <= field_list().len(),
    ensures
        parse_lines(render_fields(s, i)) == Ok::<Seq<(FieldId, u32)>, ()>(assigns_from(s, i)),
    decreases field_list().len() - i,
{
    if i == field_list().len() {
        assert(render_fields(s, i) =~= Seq::<char>::empty());
        assert(parse_lines(Seq::<char>::empty()) == Ok::<Seq<(FieldId, u32)>, ()>(Seq::empty()));
    } else {
        lemma_parse_fields(s, i + 1);
        lemma_parse_block(s, field_list()[i], render_fields(s, i + 1));
    }
}

/// The state obtained from `cur` by copying into it, from position `i` of
/// the field order on, every writable field of `s`.
pub open spec fn overlay(cur: SX1255Info, s: SX1255Info, i: int) -> SX1255Info
    decreases field_list().len() - i,
{
    if i < 0 || i >= field_list().len() {
        cur
    } else {
        overlay(set_field(cur, field_list()[i], field_val(s, field_list()[i])), s, i + 1)
    }
}

/// Applying the recorded assignments of a state within its domains never
/// fails, and overlays the fields one by one.
proof fn lemma_apply_fields(cur: SX1255Info, s: SX1255Info, i: int)
    requires
        crate::state::in_domains(s),
        0 <= i <= field_list().len(),
    ensures
        apply_all(cur, assigns_from(s, i)) == Ok::<SX1255Info, SxError>(overlay(cur, s, i)),
    decreases field_list().len() - i,
{
    if i < field_list().len() {
        let f = field_list()[i];
        let v = field_val(s, f);
        assert(apply_assign(cur, f, v) == Ok::<SX1255Info, SxError>(set_field(cur, f, v))) by {
            match f {
                FieldId::R => {
                    assert(is_legal_r(v));
                },
                _ => {
                    assert(field_lo(f) <= v <= field_hi(f));
                },
            }
        }
        let xs = assigns_from(s, i);
        assert(xs[0] == (f, v));
        assert(xs.subrange(1, xs.len() as int) =~= assigns_from(s, i + 1));
        lemma_apply_fields(set_field(cur, f, v), s, i + 1);
    }
}

/// Overlaying every writable field of `s` onto the default state yields
/// `s` itself with default status fields: each field of the order is set
/// exactly once, and the status fields are never touched.
#[verifier::rlimit(100)]
#[verifier::spinoff_prover]
proof fn lemma_overlay_default(s: SX1255Info)
    ensures
        overlay(spec_default(), s, 0) == crate::state::scrub_status(s),
{
    reveal_with_fuel(overlay, 37);
}

/// Writing a valid state and reading the text back reproduces the state:
/// every writable field returns exactly, and the read-only status fields
/// carry the compiled-in defaults, which is all a document can say about
/// them.  Holds for any timestamp free of newlines.
pub proof fn lemma_doc_round_trip(s: SX1255Info, ts: Seq<char>)
    requires
        crate::state::in_domains(s),
        no_nl(ts),
    ensures
        spec_read(spec_render(s, ts)) == Ok::<SX1255Info, SxError>(crate::state::scrub_status(s)),
{
    reveal_strlit("# SX1255 configuration");
    reveal_strlit("# created on ");
    let content1 = "# SX1255 configuration"@;
    let content2 = "# created on "@ + ts;
    let body = render_fields(s, 0);
    let t = spec_render(s, ts);
    assert(content1.len() == 22 && content1[0] == '#');
    assert("# created on "@.len() == 13 && "# created on "@[0] == '#');
    assert(no_nl(content1));
    assert(no_nl(content2));
    assert(t =~= content1 + "\n"@ + (content2 + "\n"@ + body));
    lemma_parse_one_line(content1, content2 + "\n"@ + body);
    lemma_comment_line(content1);
    lemma_parse_one_line(content2, body);
    lemma_comment_line(content2);
    lemma_parse_fields(s, 0);
    assert(parse_lines(t) == Ok::<Seq<(FieldId, u32)>, ()>(assigns_from(s, 0)));
    lemma_apply_fields(spec_default(), s, 0);
    lemma_overlay_default(s);
}

// ---------------------------------------------------------------------
// Executable writing
// ---------------------------------------------------------------------
/// The key under which a field appears in a document.
fn key_str(f: FieldId) -> (r: &'static str)
    ensures
        r@ == key_of(f),
{
    match f {
        FieldId::DriverEnable => "driver_enable",
        FieldId::TxEnable => "tx_enable",
        FieldId::RxEnable => "rx_enable",
        FieldId::RefEnable => "ref_enable",
        FieldId::RxFreq => "rx_freq",
        FieldId::TxFreq => "tx_freq",
        FieldId::TxDacGain => "tx_dac_gain",
        FieldId::TxMixerGain => "tx_mixer_gain",
        FieldId::TxMixerTankCap => "tx_mixer_tank_cap",
        FieldId::TxMixerTankRes => "tx_mixer_tank_res",
        FieldId::TxPllBw => "tx_pll_bw",
        FieldId::TxFilterBw => "tx_filter_bw",
        FieldId::TxDacBw => "tx_dac_bw",
        FieldId::RxLnaGain => "rx_lna_gain",
        FieldId::RxPgaGain => "rx_pga_gain",
        FieldId::RxZin200 => "rx_zin_200",
        FieldId::RxAdcBw => "rx_adc_bw",
        FieldId::RxAdcTrim => "rx_adc_trim",
        FieldId::RxPgaBw => "rx_pga_bw",
        FieldId::RxPllBw => "rx_pll_bw",
        FieldId::RxAdcTemp => "rx_adc_temp",
        FieldId::IoMap0 => "iomap0",
        FieldId::IoMap1 => "iomap1",
        FieldId::IoMap2 => "iomap2",
        FieldId::IoMap3 => "iomap3",
        FieldId::DigLoopbackEn => "dig_loopback_en",
        FieldId::RfLoopbackEn => "rf_loopback_en",
        FieldId::CkoutEnable => "ckout_enable",
        FieldId::CkSelectTxDac => "ck_select_tx_dac",
        FieldId::IismRxDisable => "iism_rx_disable",
        FieldId::IismTxDisable => "iism_tx_disable",
        FieldId::IismMode => "iism_mode",
        FieldId::IismClkDiv => "iism_clk_div",
        FieldId::R => "r",
        FieldId::IismTruncation => "iism_truncation",
    }
}

/// The comment the writer puts above a field.
fn comment_str(f: FieldId) -> (r: &'static str)
    ensures
        r@ == comment_chars(f),
{
    match f {
        FieldId::DriverEnable => "enable the PA driver",
        FieldId::TxEnable => "enable the complete Tx front-end (except the PA)",
        FieldId::RxEnable => "enable the complete Rx front-end",
        FieldId::RefEnable => "enable the PDS and the oscillator",
        FieldId::RxFreq => "Rx carrier frequency in Hz, 300000000-499999999",
        FieldId::TxFreq => "Tx carrier frequency in Hz, 300000000-499999999",
        FieldId::TxDacGain => "Tx DAC gain, 3 dB steps below maximum, test modes 4-7; 0-7",
        FieldId::TxMixerGain => "Tx mixer gain = -37.5 dB + 2 dB x value; 0-15",
        FieldId::TxMixerTankCap => "capacitance in parallel with the mixer tank, 128 fF steps; 0-7",
        FieldId::TxMixerTankRes => "resistance in parallel with the mixer tank, 0.95 kOhm to none; 0-7",
        FieldId::TxPllBw => "Tx PLL bandwidth = (value + 1) x 75 KHz; 0-3",
        FieldId::TxFilterBw => "Tx filter bandwidth = 17.15 MHz / (41 - value); 0-15",
        FieldId::TxDacBw => "Tx FIR-DAC taps = 24 + 8 x value, at most 64; 0-5",
        FieldId::RxLnaGain => "Rx LNA gain, 1 highest to 6 lowest, 0 and 7 unused; 0-7",
        FieldId::RxPgaGain => "Rx PGA gain = lowest + 2 dB x value; 0-15",
        FieldId::RxZin200 => "Rx input impedance, 0 for 50 Ohm, 1 for 200 Ohm; 0-1",
        FieldId::RxAdcBw => "Rx ADC bandwidth: 7 above 400 kHz, 5 for 200-400 kHz, 2 for 100-400 kHz; 0-7",
        FieldId::RxAdcTrim => "Rx ADC trim for a 36 MHz reference crystal; 0-7",
        FieldId::RxPgaBw => "Rx analog roofing filter, 1500/1000/750/500 kHz; 0-3",
        FieldId::RxPllBw => "Rx PLL bandwidth = (value + 1) x 75 KHz; 0-3",
        FieldId::RxAdcTemp => "put the Rx ADC into temperature measurement mode",
        FieldId::IoMap0 => "mapping of DIO(0): 0-2 pll_lock_rx, 3 eol; 0-3",
        FieldId::IoMap1 => "mapping of DIO(1): 0 pll_lock_tx, others unused; 0-3",
        FieldId::IoMap2 => "mapping of DIO(2): 0 xosc_ready, others unused; 0-3",
        FieldId::IoMap3 => "mapping of DIO(3): 0 pll_lock of the active part, others unused; 0-3",
        FieldId::DigLoopbackEn => "enable the digital loopback mode of the front-end",
        FieldId::RfLoopbackEn => "enable the RF loopback mode of the front-end",
        FieldId::CkoutEnable => "output clock on pad CLK_OUT, 0 disabled, 1 enabled; 0-1",
        FieldId::CkSelectTxDac => "Tx DAC clock, 0 internal CLK_XTAL, 1 external CLK_IN; 0-1",
        FieldId::IismRxDisable => "disable IISM Rx during Tx mode",
        FieldId::IismTxDisable => "disable IISM Tx during Rx mode",
        FieldId::IismMode => "IISM mode, 0 A, 1 B1, 2 B2, 3 unused; 0-3",
        FieldId::IismClkDiv => "XTAL/CLK_OUT division factor, 1/2/4/8/12/16/24/32/48, 9-15 unused; 0-15",
        FieldId::R => "decimation/interpolation factor, one of 8 16 24 32 48 64 96 128 192 256 384 512 768 1536 or 9 18 27 36 54 72 108 144 216 288 432 576 864 1728",
        FieldId::IismTruncation => "IISM truncation, 0 MSB truncated (LSB aligned), 1 LSB truncated (MSB aligned); 0-1",
    }
}

/// The value of a field as an unsigned integer (flags as 0 or 1).
fn field_val_exec(s: &SX1255Info, f: FieldId) -> (r: u32)
    ensures
        r == field_val(*s, f),
{
    match f {
        FieldId::DriverEnable => if s.driver_enable { 1 } else { 0 },
        FieldId::TxEnable => if s.tx_enable { 1 } else { 0 },
        FieldId::RxEnable => if s.rx_enable { 1 } else { 0 },
        FieldId::RefEnable => if s.ref_enable { 1 } else { 0 },
        FieldId::RxFreq => s.rx_freq,
        FieldId::TxFreq => s.tx_freq,
        FieldId::TxDacGain => s.tx_dac_gain as u32,
        FieldId::TxMixerGain => s.tx_mixer_gain as u32,
        FieldId::TxMixerTankCap => s.tx_mixer_tank_cap as u32,
        FieldId::TxMixerTankRes => s.tx_mixer_tank_res as u32,
        FieldId::TxPllBw => s.tx_pll_bw as u32,
        FieldId::TxFilterBw => s.tx_filter_bw as u32,
        FieldId::TxDacBw => s.tx_dac_bw as u32,
        FieldId::RxLnaGain => s.rx_lna_gain as u32,
        FieldId::RxPgaGain => s.rx_pga_gain as u32,
        FieldId::RxZin200 => s.rx_zin_200 as u32,
        FieldId::RxAdcBw => s.rx_adc_bw as u32,
        FieldId::RxAdcTrim => s.rx_adc_trim as u32,
        FieldId::RxPgaBw => s.rx_pga_bw as u32,
        FieldId::RxPllBw => s.rx_pll_bw as u32,
        FieldId::RxAdcTemp => if s.rx_adc_temp { 1 } else { 0 },
        FieldId::IoMap0 => s.iomap0 as u32,
        FieldId::IoMap1 => s.iomap1 as u32,
        FieldId::IoMap2 => s.iomap2 as u32,
        FieldId::IoMap3 => s.iomap3 as u32,
        FieldId::DigLoopbackEn => if s.dig_loopback_en { 1 } else { 0 },
        FieldId::RfLoopbackEn => if s.rf_loopback_en { 1 } else { 0 },
        FieldId::CkoutEnable => s.ckout_enable as u32,
        FieldId::CkSelectTxDac => s.ck_select_tx_dac as u32,
        FieldId::IismRxDisable => if s.iism_rx_disable { 1 } else { 0 },
        FieldId::IismTxDisable => if s.iism_tx_disable { 1 } else { 0 },
        FieldId::IismMode => s.iism_mode as u32,
        FieldId::IismClkDiv => s.iism_clk_div as u32,
        FieldId::R => s.r,
        FieldId::IismTruncation => s.iism_truncation as u32,
    }
}

/// The text of a field's value.
fn value_string(s: &SX1255Info, f: FieldId) -> (out: String)
    ensures
        out@ == value_chars(*s, f),
{
    let v = field_val_exec(s, f);
    if bool_field_exec(f) {
        if v == 1 {
            String::from_str("true")
        } else {
            String::from_str("false")
        }
    } else {
        u32_string(v)
    }
}

/// The order in which the writer records the fields.
fn field_order() -> (v: Vec<FieldId>)
    ensures
        v@ == field_list(),
{
    let v: Vec<FieldId> = vec![
        FieldId::DriverEnable,
        FieldId::TxEnable,
        FieldId::RxEnable,
        FieldId::RefEnable,
        FieldId::RxFreq,
        FieldId::TxFreq,
        FieldId::TxDacGain,
        FieldId::TxMixerGain,
        FieldId::TxMixerTankCap,
        FieldId::TxMixerTankRes,
        FieldId::TxPllBw,
        FieldId::TxFilterBw,
        FieldId::TxDacBw,
        FieldId::RxLnaGain,
        FieldId::RxPgaGain,
        FieldId::RxZin200,
        FieldId::RxAdcBw,
        FieldId::RxAdcTrim,
        FieldId::RxPgaBw,
        FieldId::RxPllBw,
        FieldId::RxAdcTemp,
        FieldId::IoMap0,
        FieldId::IoMap1,
        FieldId::IoMap2,
        FieldId::IoMap3,
        FieldId::DigLoopbackEn,
        FieldId::RfLoopbackEn,
        FieldId::CkoutEnable,
        FieldId::CkSelectTxDac,
        FieldId::IismRxDisable,
        FieldId::IismTxDisable,
        FieldId::IismMode,
        FieldId::IismClkDiv,
        FieldId::R,
        FieldId::IismTruncation,
    ];
    proof {
        assert(v@ =~= field_list());
    }
    v
}

/// Renders a state as a configuration document with the given creation
/// timestamp: every writable field as a commented `key = value` line.
/// Deterministic: the same state and timestamp give the same text.
pub fn write_document(info: &SX1255Info, ts: &str) -> (out: String)
    ensures
        out@ == spec_render(*info, ts@),
{
    let fields = field_order();
    let mut out = String::new();
    out.append("# SX1255 configuration");
    out.append("\n");
    out.append("# created on ");
    out.append(ts);
    out.append("\n");
    let ghost header = out@;
    proof {
        assert(header + render_fields(*info, 0) =~= spec_render(*info, ts@));
    }
    let mut i: usize = 0;
    while i < 35
        invariant
            0 <= i <= 35,
            fields@ == field_list(),
            out@ + render_fields(*info, i as int) =~= spec_render(*info, ts@),
        decreases 35 - i,
    {
        let f = fields[i];
        let ghost before = out@;
        out.append("\n");
        out.append("# ");
        out.append(comment_str(f));
        out.append("\n");
        out.append(key_str(f));
        out.append(" = ");
        let vs = value_string(info, f);
        out.append(vs.as_str());
        out.append("\n");
        proof {
            assert(out@ =~= before + block_chars(*info, f));
            assert(render_fields(*info, i as int) == block_chars(*info, f) + render_fields(
                *info,
                i + 1,
            ));
            assert(out@ + render_fields(*info, i + 1) =~= before + render_fields(
                *info,
                i as int,
            ));
        }
        i += 1;
    }
    proof {
        assert(render_fields(*info, 35) =~= Seq::<char>::empty());
        assert(out@ + Seq::<char>::empty() =~= out@);
    }
    out
}

/// Relies on chrono's `Utc::now` and its `Display` rendering: the
/// formatted UTC timestamp is a single line of digits, separators and the
/// zone marker, never containing a newline.
#[verifier::external_body]
fn now_timestamp() -> (s: String)
    ensures
        no_nl(s@),
{
    chrono::Utc::now().to_string()
}

/// Renders a state as a configuration document stamped with the current
/// UTC time.  The text is the deterministic rendering of the state for
/// some newline-free timestamp, so reading it back reproduces every
/// writable field of a state that lies within its domains.
pub fn write_document_now(info: &SX1255Info) -> (out: String)
    ensures
        exists|ts: Seq<char>| no_nl(ts) && out@ == spec_render(*info, ts),
        crate::state::in_domains(*info) ==> spec_read(out@) == Ok::<SX1255Info, SxError>(
            crate::state::scrub_status(*info),
        ),
{
    let ts = now_timestamp();
    let out = write_document(info, ts.as_str());
    proof {
        assert(no_nl(ts@) && out@ == spec_render(*info, ts@));
        if crate::state::in_domains(*info) {
            lemma_doc_round_trip(*info, ts@);
        }
    }
    out
}

} // verus!
