//! The canonical in-memory record of the SX1255 configuration and status
//! surface: one flat struct with every logical parameter at its own field.

use vstd::prelude::*;
use crate::decim::is_legal_r;

verus! {

/// Every logical configuration and status parameter of the chip.
///
/// Enumerated fields are stored as small unsigned integers whose legal
/// domain is fixed by the width of the register bit span that holds them
/// (see the register codec); the two carrier frequencies are stored in Hz;
/// the decimation/interpolation factor `r` is stored as the plain ratio.
///
/// `version`, `eol`, `xosc_ready`, `pll_lock_rx`, `pll_lock_tx` and
/// `iism_status_flag` are read-only status fields: they are filled in only
/// when registers read from live hardware are decoded, and are ignored when
/// a state is encoded for writing.
#[derive(Clone, Copy, PartialEq, Eq, Structural, Debug)]
pub struct SX1255Info {
    pub driver_enable: bool,
    pub tx_enable: bool,
    pub rx_enable: bool,
    pub ref_enable: bool,
    pub rx_freq: u32,
    pub tx_freq: u32,
    pub version: u8,
    pub tx_dac_gain: u8,
    pub tx_mixer_gain: u8,
    pub tx_mixer_tank_cap: u8,
    pub tx_mixer_tank_res: u8,
    pub tx_pll_bw: u8,
    pub tx_filter_bw: u8,
    pub tx_dac_bw: u8,
    pub rx_lna_gain: u8,
    pub rx_pga_gain: u8,
    pub rx_zin_200: u8,
    pub rx_adc_bw: u8,
    pub rx_adc_trim: u8,
    pub rx_pga_bw: u8,
    pub rx_pll_bw: u8,
    pub rx_adc_temp: bool,
    pub iomap0: u8,
    pub iomap1: u8,
    pub iomap2: u8,
    pub iomap3: u8,
    pub dig_loopback_en: bool,
    pub rf_loopback_en: bool,
    pub ckout_enable: u8,
    pub ck_select_tx_dac: u8,
    pub eol: u8,
    pub xosc_ready: bool,
    pub pll_lock_rx: bool,
    pub pll_lock_tx: bool,
    pub iism_rx_disable: bool,
    pub iism_tx_disable: bool,
    pub iism_mode: u8,
    pub iism_clk_div: u8,
    pub r: u32,
    pub iism_truncation: u8,
    pub iism_status_flag: u8,
}

/// The chip's power-on default state.
pub open spec fn spec_default() -> SX1255Info {
    SX1255Info {
        driver_enable: false,
        tx_enable: false,
        rx_enable: false,
        ref_enable: true,
        rx_freq: 385_777_770,
        tx_freq: 385_777_770,
        version: 0x11,
        tx_dac_gain: 2,
        tx_mixer_gain: 12,
        tx_mixer_tank_cap: 3,
        tx_mixer_tank_res: 7,
        tx_pll_bw: 3,
        tx_filter_bw: 0,
        tx_dac_bw: 2,
        rx_lna_gain: 1,
        rx_pga_gain: 15,
        rx_zin_200: 1,
        rx_adc_bw: 7,
        rx_adc_trim: 7,
        rx_pga_bw: 1,
        rx_pll_bw: 3,
        rx_adc_temp: false,
        iomap0: 0,
        iomap1: 0,
        iomap2: 0,
        iomap3: 0,
        dig_loopback_en: false,
        rf_loopback_en: false,
        ckout_enable: 1,
        ck_select_tx_dac: 0,
        eol: 0,
        xosc_ready: true,
        pll_lock_rx: false,
        pll_lock_tx: false,
        iism_rx_disable: false,
        iism_tx_disable: false,
        iism_mode: 0,
        iism_clk_div: 0,
        r: 8,
        iism_truncation: 0,
        iism_status_flag: 0,
    }
}

impl Default for SX1255Info {
    /// Power-on defaults for the device.
    fn default() -> (s: SX1255Info)
        ensures
            s == spec_default(),
    {
        SX1255Info {
            driver_enable: false,
            tx_enable: false,
            rx_enable: false,
            ref_enable: true,
            rx_freq: 385_777_770,
            tx_freq: 385_777_770,
            version: 0x11,
            tx_dac_gain: 2,
            tx_mixer_gain: 12,
            tx_mixer_tank_cap: 3,
            tx_mixer_tank_res: 7,
            tx_pll_bw: 3,
            tx_filter_bw: 0,
            tx_dac_bw: 2,
            rx_lna_gain: 1,
            rx_pga_gain: 15,
            rx_zin_200: 1,
            rx_adc_bw: 7,
            rx_adc_trim: 7,
            rx_pga_bw: 1,
            rx_pll_bw: 3,
            rx_adc_temp: false,
            iomap0: 0,
            iomap1: 0,
            iomap2: 0,
            iomap3: 0,
            dig_loopback_en: false,
            rf_loopback_en: false,
            ckout_enable: 1,
            ck_select_tx_dac: 0,
            eol: 0,
            xosc_ready: true,
            pll_lock_rx: false,
            pll_lock_tx: false,
            iism_rx_disable: false,
            iism_tx_disable: false,
            iism_mode: 0,
            iism_clk_div: 0,
            r: 8,
            iism_truncation: 0,
            iism_status_flag: 0,
        }
    }
}

/// Do `a` and `b` agree on every writable field except the two carrier
/// frequencies (which survive a register round trip only up to the
/// quantization step of the frequency registers)?
///
/// The read-only status fields are left out: the register encoder never
/// transmits them and a configuration document never records them.
pub open spec fn same_writable_except_freq(a: SX1255Info, b: SX1255Info) -> bool {
    &&& a.driver_enable == b.driver_enable
    &&& a.tx_enable == b.tx_enable
    &&& a.rx_enable == b.rx_enable
    &&& a.ref_enable == b.ref_enable
    &&& a.tx_dac_gain == b.tx_dac_gain
    &&& a.tx_mixer_gain == b.tx_mixer_gain
    &&& a.tx_mixer_tank_cap == b.tx_mixer_tank_cap
    &&& a.tx_mixer_tank_res == b.tx_mixer_tank_res
    &&& a.tx_pll_bw == b.tx_pll_bw
    &&& a.tx_filter_bw == b.tx_filter_bw
    &&& a.tx_dac_bw == b.tx_dac_bw
    &&& a.rx_lna_gain == b.rx_lna_gain
    &&& a.rx_pga_gain == b.rx_pga_gain
    &&& a.rx_zin_200 == b.rx_zin_200
    &&& a.rx_adc_bw == b.rx_adc_bw
    &&& a.rx_adc_trim == b.rx_adc_trim
    &&& a.rx_pga_bw == b.rx_pga_bw
    &&& a.rx_pll_bw == b.rx_pll_bw
    &&& a.rx_adc_temp == b.rx_adc_temp
    &&& a.iomap0 == b.iomap0
    &&& a.iomap1 == b.iomap1
    &&& a.iomap2 == b.iomap2
    &&& a.iomap3 == b.iomap3
    &&& a.dig_loopback_en == b.dig_loopback_en
    &&& a.rf_loopback_en == b.rf_loopback_en
    &&& a.ckout_enable == b.ckout_enable
    &&& a.ck_select_tx_dac == b.ck_select_tx_dac
    &&& a.iism_rx_disable == b.iism_rx_disable
    &&& a.iism_tx_disable == b.iism_tx_disable
    &&& a.iism_mode == b.iism_mode
    &&& a.iism_clk_div == b.iism_clk_div
    &&& a.r == b.r
    &&& a.iism_truncation == b.iism_truncation
}

/// `s` with every read-only status field put back to its power-on default.
///
/// This is the state the document reader reconstructs: a document records
/// writable fields only, so the status fields of a freshly read state carry
/// the compiled-in defaults.
pub open spec fn scrub_status(s: SX1255Info) -> SX1255Info {
    SX1255Info {
        version: spec_default().version,
        eol: spec_default().eol,
        xosc_ready: spec_default().xosc_ready,
        pll_lock_rx: spec_default().pll_lock_rx,
        pll_lock_tx: spec_default().pll_lock_tx,
        iism_status_flag: spec_default().iism_status_flag,
        ..s
    }
}

/// Does every writable field fit the register bit span allotted to it?
///
/// This is the precondition under which a state can be packed into
/// register bytes at all: a value wider than its span would corrupt the
/// neighbouring fields of the same byte.  The frequency fields are exempt
/// (they are truncated to the 24-bit register width by design), and the
/// factor `r` must be one of the 28 encodable values.
pub open spec fn fits_registers(s: SX1255Info) -> bool {
    &&& s.tx_dac_gain <= 7
    &&& s.tx_mixer_gain <= 15
    &&& s.tx_mixer_tank_cap <= 7
    &&& s.tx_mixer_tank_res <= 7
    &&& s.tx_pll_bw <= 3
    &&& s.tx_filter_bw <= 15
    &&& s.tx_dac_bw <= 7
    &&& s.rx_lna_gain <= 7
    &&& s.rx_pga_gain <= 15
    &&& s.rx_zin_200 <= 1
    &&& s.rx_adc_bw <= 7
    &&& s.rx_adc_trim <= 7
    &&& s.rx_pga_bw <= 3
    &&& s.rx_pll_bw <= 3
    &&& s.iomap0 <= 3
    &&& s.iomap1 <= 3
    &&& s.iomap2 <= 3
    &&& s.iomap3 <= 3
    &&& s.ckout_enable <= 1
    &&& s.ck_select_tx_dac <= 1
    &&& s.iism_mode <= 3
    &&& s.iism_clk_div <= 15
    &&& s.iism_truncation <= 1
    &&& is_legal_r(s.r)
}

/// Does every writable field lie within its documented domain?
///
/// Strictly stronger than [`fits_registers`]: the Tx FIR-DAC tap selector
/// only reaches 5 although its register span could hold 7, and the carrier
/// frequencies must lie in the chip's usable RF range.  This is the
/// predicate the configuration-document reader enforces.
pub open spec fn in_domains(s: SX1255Info) -> bool {
    &&& fits_registers(s)
    &&& s.tx_dac_bw <= 5
    &&& 300_000_000 <= s.rx_freq < 500_000_000
    &&& 300_000_000 <= s.tx_freq < 500_000_000
}

} // verus!
