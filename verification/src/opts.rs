//! Human-readable descriptions of the enumerated settings.
//!
//! Presentation data only: a caller that prints a state looks the meaning
//! of each enumeration value up here.  No codec logic reads these tables.

use vstd::prelude::*;

verus! {

/// One description string per representable value of each enumerated
/// setting, indexed by the value itself.
pub struct SettingOptions<'a> {
    pub tx_dac_gain: [&'a str; 8],
    pub tx_mixer_gain: [&'a str; 16],
    pub tx_mixer_tank_cap: [&'a str; 8],
    pub tx_mixer_tank_res: [&'a str; 8],
    pub tx_pll_bw: [&'a str; 4],
    pub tx_filter_bw: [&'a str; 16],
    pub tx_dac_bw: [&'a str; 8],
    pub rx_lna_gain: [&'a str; 8],
    pub rx_pga_gain: [&'a str; 16],
    pub rx_zin_200: [&'a str; 2],
    pub rx_adc_bw: [&'a str; 8],
    pub rx_pga_bw: [&'a str; 4],
    pub rx_pll_bw: [&'a str; 4],
    pub iomap0: [&'a str; 4],
    pub iomap1: [&'a str; 4],
    pub iomap2: [&'a str; 4],
    pub iomap3: [&'a str; 4],
    pub ckout_enable: [&'a str; 2],
    pub ck_select_tx_dac: [&'a str; 2],
}

/// The description tables for every enumerated setting.
pub fn setting_options() -> (opts: SettingOptions<'static>)
    ensures
        opts.tx_dac_gain@.len() == 8,
        opts.tx_mixer_gain@.len() == 16,
        opts.rx_lna_gain@.len() == 8,
{
    SettingOptions {
        tx_dac_gain: [
            "maximum gain - 9 dB",
            "maximum gain - 6 dB",
            "maximum gain - 3 dB",
            "maximum gain (0 dB full scale)",
            "max gain - 9 dB with test Vref voltage",
            "max gain - 6 dB with test Vref voltage",
            "max gain - 3 dB with test Vref voltage",
            "max gain, 0 dBFS with test Vref voltage",
        ],
        tx_mixer_gain: [
            "-37.5 dB",
            "-35.5 dB",
            "-33.5 dB",
            "-31.5 dB",
            "-29.5 dB",
            "-27.5 dB",
            "-25.5 dB",
            "-23.5 dB",
            "-21.5 dB",
            "-19.5 dB",
            "-17.5 dB",
            "-15.5 dB",
            "-13.5 dB",
            "-11.5 dB",
            "-9.5 dB",
            "-7.5 dB",
        ],
        tx_mixer_tank_cap: [
            "0 fF",
            "128 fF",
            "256 fF",
            "384 fF",
            "512 fF",
            "640 fF",
            "768 fF",
            "896 fF",
        ],
        tx_mixer_tank_res: [
            "0.95 kOhm",
            "1.11 kOhm",
            "1.32 kOhm",
            "1.65 kOhm",
            "2.18 kOhm",
            "3.24 kOhm",
            "6.00 kOhm",
            "none => about 64 kOhm",
        ],
        tx_pll_bw: ["75 KHz", "150 KHz", "225 KHz", "300 KHz"],
        tx_filter_bw: [
            "0.418 MHz",
            "0.429 MHz",
            "0.440 MHz",
            "0.451 MHz",
            "0.464 MHz",
            "0.476 MHz",
            "0.490 MHz",
            "0.504 MHz",
            "0.520 MHz",
            "0.546 MHz",
            "0.553 MHz",
            "0.572 MHz",
            "0.591 MHz",
            "0.613 MHz",
            "0.635 MHz",
            "0.660 MHz",
        ],
        tx_dac_bw: [
            "24 taps",
            "32 taps",
            "40 taps",
            "48 taps",
            "56 taps",
            "64 taps",
            "not used",
            "not used",
        ],
        rx_lna_gain: [
            "not used",
            "G1 = highest gain power - 0 dB",
            "G2 = highest gain power - 6 dB",
            "G3 = highest gain power - 12 dB",
            "G4 = highest gain power - 24 dB",
            "G5 = highest gain power - 36 dB",
            "G6 = highest gain power - 48 dB",
            "not used",
        ],
        rx_pga_gain: [
            "lowest gain + 0 dB",
            "lowest gain + 2 dB",
            "lowest gain + 4 dB",
            "lowest gain + 6 dB",
            "lowest gain + 8 dB",
            "lowest gain + 10 dB",
            "lowest gain + 12 dB",
            "lowest gain + 14 dB",
            "lowest gain + 16 dB",
            "lowest gain + 18 dB",
            "lowest gain + 20 dB",
            "lowest gain + 22 dB",
            "lowest gain + 24 dB",
            "lowest gain + 26 dB",
            "lowest gain + 28 dB",
            "lowest gain + 30 dB",
        ],
        rx_zin_200: ["50 Ohm", "200 Ohm"],
        rx_adc_bw: [
            "unused",
            "use 1 instead",
            "100 kHz < BW < 400 kHz",
            "unused",
            "unused",
            "200 kHz < BW < 400 kHz",
            "unused",
            "BW > 400 kHz",
        ],
        rx_pga_bw: ["1500 kHz", "1000 kHz", "750 kHz", "500 kHz"],
        rx_pll_bw: ["75 KHz", "150 KHz", "225 KHz", "300 KHz"],
        iomap0: ["pll_lock_rx", "pll_lock_rx", "pll_lock_rx", "eol"],
        iomap1: ["pll_lock_tx", "not used", "not used", "not used"],
        iomap2: ["xosc_ready", "not used", "not used", "not used"],
        iomap3: [
            "pll_lock_rx in Rx mode & pll_lock_tx in all other modes",
            "not used",
            "not used",
            "not used",
        ],
        ckout_enable: [
            "output clock disabled on pad CLK_OUT",
            "output clock enabled on pad CLK_OUT",
        ],
        ck_select_tx_dac: [
            "internal clock (CLK_XTAL) used for Tx DAC",
            "external clock (CLK_IN) used for Tx DAC",
        ],
    }
}

} // verus!
