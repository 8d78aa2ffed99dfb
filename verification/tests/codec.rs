use sx1255::decim::{calc_r, encode_r, is_valid_r, r_to_mant_m_n};
use sx1255::fields::{FieldId, SxError};
use sx1255::freq::{freq_to_u32, u32_to_freq};
use sx1255::regmap::{bool_to_u8, decode_registers, encode_registers};
use sx1255::state::SX1255Info;

const LEGAL_R: [u32; 28] = [
    8, 16, 24, 32, 48, 64, 96, 128, 192, 256, 384, 512, 768, 1536, 9, 18, 27, 36, 54, 72, 108,
    144, 216, 288, 432, 576, 864, 1728,
];

#[test]
fn r_round_trip_all_legal_values() {
    for &r in LEGAL_R.iter() {
        let (mant, m, n) = r_to_mant_m_n(r);
        assert!(mant == 8 || mant == 9);
        assert!(m <= 1);
        assert!(n <= 6);
        assert_eq!(calc_r(mant, m, n), r);
        assert_eq!(encode_r(r), Ok((mant, m, n)));
    }
}

#[test]
fn r_encode_rejects_unsupported_factors() {
    for &bad in [0u32, 1, 2, 7, 10, 100, 1000, 1537, 1729, 4096].iter() {
        assert!(!is_valid_r(bad));
        assert_eq!(encode_r(bad), Err(SxError::UnsupportedFactor { value: bad }));
    }
}

#[test]
fn r_decode_examples() {
    assert_eq!(calc_r(8, 0, 0), 8);
    assert_eq!(calc_r(9, 1, 6), 1728);
    assert_eq!(calc_r(8, 1, 5), 768);
    // The packed fields can hold n = 7 even though no legal factor uses it.
    assert_eq!(calc_r(8, 0, 7), 1024);
}

#[test]
fn freq_decode_exact_value() {
    // 0x61C800 * 32_000_000 / 1_048_576 = 195_562_500 exactly.
    assert_eq!(freq_to_u32(0x61, 0xC8, 0x00), 195_562_500);
    // Re-encoding that Hz value reproduces the same three bytes.
    assert_eq!(u32_to_freq(195_562_500), (0x61, 0xC8, 0x00));
}

#[test]
fn freq_encode_exact_value() {
    // 385_777_770 * 1_048_576 / 32_000_000 truncates to 0xC0E38D.
    assert_eq!(u32_to_freq(385_777_770), (0xC0, 0xE3, 0x8D));
    // Decoding loses at most one quantization step (about 31 Hz).
    let back = freq_to_u32(0xC0, 0xE3, 0x8D);
    assert!(back <= 385_777_770 && 385_777_770 - back <= 31);
}

#[test]
fn freq_boundaries() {
    assert_eq!(freq_to_u32(0, 0, 0), 0);
    // The largest register word: 0xFFFFFF * 32_000_000 / 1_048_576.
    assert_eq!(freq_to_u32(0xFF, 0xFF, 0xFF), 511_999_969);
    // Encoding truncates to the 24-bit register width.
    assert_eq!(u32_to_freq(512_000_000), (0, 0, 0));
}

#[test]
fn mode_register_flags() {
    let mut regs = [0u8; 20];
    regs[0] = 0b00001111;
    let info = decode_registers(&regs);
    assert!(info.driver_enable);
    assert!(info.tx_enable);
    assert!(info.rx_enable);
    assert!(info.ref_enable);
    regs[0] = 0b00000000;
    let info = decode_registers(&regs);
    assert!(!info.driver_enable);
    assert!(!info.tx_enable);
    assert!(!info.rx_enable);
    assert!(!info.ref_enable);
}

#[test]
fn encode_default_state() {
    let info = SX1255Info::default();
    let regs = encode_registers(&info).expect("default state must encode");
    assert_eq!(
        regs,
        [
            0b00000001, // MODE: ref_enable only
            0xC0, 0xE3, 0x8D, // Rx 385_777_770 Hz
            0xC0, 0xE3, 0x8D, // Tx 385_777_770 Hz
            0x00, // VERSION placeholder, never written
            0x2C, // TXFE1: dac gain 2, mixer gain 12
            0x1F, // TXFE2: tank cap 3, tank res 7
            0x60, // TXFE3: pll bw 3, filter bw 0
            0x02, // TXFE4: dac bw 2
            0x3F, // RXFE1: lna 1, pga 15, zin 1
            0xFD, // RXFE2: adc bw 7, trim 7, pga bw 1
            0x06, // RXFE3: pll bw 3, adc temp off
            0x00, // IO_MAP
            0x02, // CK_SEL: ckout enabled
            0x00, // STAT placeholder, never written
            0x00, // IISM
            0x00, // DIG_BRIDGE: r = 8, truncation 0
        ]
    );
}

#[test]
fn decode_of_encode_reproduces_writable_fields() {
    let mut info = SX1255Info::default();
    info.driver_enable = true;
    info.tx_enable = true;
    info.rx_freq = 433_920_000;
    info.tx_freq = 435_000_123;
    info.tx_dac_gain = 7;
    info.tx_mixer_gain = 15;
    info.tx_mixer_tank_cap = 5;
    info.tx_mixer_tank_res = 1;
    info.tx_pll_bw = 1;
    info.tx_filter_bw = 15;
    info.tx_dac_bw = 5;
    info.rx_lna_gain = 6;
    info.rx_pga_gain = 2;
    info.rx_zin_200 = 0;
    info.rx_adc_bw = 5;
    info.rx_adc_trim = 3;
    info.rx_pga_bw = 2;
    info.rx_pll_bw = 1;
    info.rx_adc_temp = true;
    info.iomap0 = 3;
    info.iomap1 = 1;
    info.iomap2 = 2;
    info.iomap3 = 3;
    info.dig_loopback_en = true;
    info.rf_loopback_en = true;
    info.ckout_enable = 0;
    info.ck_select_tx_dac = 1;
    info.iism_rx_disable = true;
    info.iism_tx_disable = true;
    info.iism_mode = 2;
    info.iism_clk_div = 8;
    info.r = 864;
    info.iism_truncation = 1;
    let regs = encode_registers(&info).expect("state within bit widths must encode");
    let back = decode_registers(&regs);
    // Frequencies survive within one quantization step.
    assert!(back.rx_freq <= info.rx_freq && info.rx_freq - back.rx_freq <= 31);
    assert!(back.tx_freq <= info.tx_freq && info.tx_freq - back.tx_freq <= 31);
    // Every other writable field returns exactly.
    assert_eq!(back.driver_enable, info.driver_enable);
    assert_eq!(back.tx_enable, info.tx_enable);
    assert_eq!(back.rx_enable, info.rx_enable);
    assert_eq!(back.ref_enable, info.ref_enable);
    assert_eq!(back.tx_dac_gain, info.tx_dac_gain);
    assert_eq!(back.tx_mixer_gain, info.tx_mixer_gain);
    assert_eq!(back.tx_mixer_tank_cap, info.tx_mixer_tank_cap);
    assert_eq!(back.tx_mixer_tank_res, info.tx_mixer_tank_res);
    assert_eq!(back.tx_pll_bw, info.tx_pll_bw);
    assert_eq!(back.tx_filter_bw, info.tx_filter_bw);
    assert_eq!(back.tx_dac_bw, info.tx_dac_bw);
    assert_eq!(back.rx_lna_gain, info.rx_lna_gain);
    assert_eq!(back.rx_pga_gain, info.rx_pga_gain);
    assert_eq!(back.rx_zin_200, info.rx_zin_200);
    assert_eq!(back.rx_adc_bw, info.rx_adc_bw);
    assert_eq!(back.rx_adc_trim, info.rx_adc_trim);
    assert_eq!(back.rx_pga_bw, info.rx_pga_bw);
    assert_eq!(back.rx_pll_bw, info.rx_pll_bw);
    assert_eq!(back.rx_adc_temp, info.rx_adc_temp);
    assert_eq!(back.iomap0, info.iomap0);
    assert_eq!(back.iomap1, info.iomap1);
    assert_eq!(back.iomap2, info.iomap2);
    assert_eq!(back.iomap3, info.iomap3);
    assert_eq!(back.dig_loopback_en, info.dig_loopback_en);
    assert_eq!(back.rf_loopback_en, info.rf_loopback_en);
    assert_eq!(back.ckout_enable, info.ckout_enable);
    assert_eq!(back.ck_select_tx_dac, info.ck_select_tx_dac);
    assert_eq!(back.iism_rx_disable, info.iism_rx_disable);
    assert_eq!(back.iism_tx_disable, info.iism_tx_disable);
    assert_eq!(back.iism_mode, info.iism_mode);
    assert_eq!(back.iism_clk_div, info.iism_clk_div);
    assert_eq!(back.r, info.r);
    assert_eq!(back.iism_truncation, info.iism_truncation);
    // The read-only registers are emitted as zero.
    assert_eq!(back.version, 0);
    assert_eq!(back.eol, 0);
    assert!(!back.xosc_ready && !back.pll_lock_rx && !back.pll_lock_tx);
    assert_eq!(back.iism_status_flag, 0);
}

#[test]
fn encode_of_decode_reproduces_writable_bits() {
    // Frequency words aligned to 512 (low byte 0, middle byte even) and a
    // legal decimation exponent.
    let regs: [u8; 20] = [
        0xFF, // MODE: only the low nibble is writable
        0x61, 0xC8, 0x00, // Rx frequency word, multiple of 512
        0x7A, 0x44, 0x00, // Tx frequency word, multiple of 512
        0x11, // VERSION (read-only)
        0xFF, 0xFF, 0xFF, 0xFF, 0xFF, 0xFF, 0xFF, 0xFF, 0xFF, // front ends, IO map, CK_SEL
        0x0F, // STAT (read-only)
        0xFF, // IISM
        0b10110111, // DIG_BRIDGE: mant 9, m 0, n 6, truncation 1, status 1
    ];
    let info = decode_registers(&regs);
    assert_eq!(info.r, 576);
    assert_eq!(info.version, 0x11);
    let out = encode_registers(&info).expect("decoded image must re-encode");
    let masks: [u8; 20] = [
        0x0F, 0xFF, 0xFF, 0xFF, 0xFF, 0xFF, 0xFF, 0x00, 0x7F, 0x3F, 0x6F, 0x07, 0xFF, 0xFF,
        0x07, 0xFF, 0x0F, 0x00, 0xFF, 0xFC,
    ];
    for i in 0..20 {
        assert_eq!(out[i], regs[i] & masks[i], "register {}", i);
    }
}

#[test]
fn encode_rejects_field_beyond_bit_width() {
    let mut info = SX1255Info::default();
    info.tx_dac_gain = 8;
    assert_eq!(
        encode_registers(&info),
        Err(SxError::OutOfRange { field: FieldId::TxDacGain, min: 0, max: 7 })
    );
    let mut info = SX1255Info::default();
    info.tx_mixer_gain = 16;
    assert_eq!(
        encode_registers(&info),
        Err(SxError::OutOfRange { field: FieldId::TxMixerGain, min: 0, max: 15 })
    );
    let mut info = SX1255Info::default();
    info.iomap2 = 4;
    assert_eq!(
        encode_registers(&info),
        Err(SxError::OutOfRange { field: FieldId::IoMap2, min: 0, max: 3 })
    );
    let mut info = SX1255Info::default();
    info.r = 100;
    assert_eq!(encode_registers(&info), Err(SxError::UnsupportedFactor { value: 100 }));
}

#[test]
fn default_state_matches_power_on_values() {
    let info = SX1255Info::default();
    assert!(!info.driver_enable && !info.tx_enable && !info.rx_enable);
    assert!(info.ref_enable);
    assert_eq!(info.rx_freq, 385_777_770);
    assert_eq!(info.tx_freq, 385_777_770);
    assert_eq!(info.version, 0x11);
    assert_eq!(info.tx_dac_gain, 2);
    assert_eq!(info.tx_mixer_gain, 12);
    assert_eq!(info.rx_pga_gain, 15);
    assert_eq!(info.ckout_enable, 1);
    assert_eq!(info.r, 8);
    assert!(info.xosc_ready);
}

#[test]
fn bool_to_u8_maps_flags_to_bits() {
    assert_eq!(bool_to_u8(true), 1);
    assert_eq!(bool_to_u8(false), 0);
}

#[test]
fn setting_options_tables() {
    let opts = sx1255::opts::setting_options();
    assert_eq!(opts.tx_dac_gain[3], "maximum gain (0 dB full scale)");
    assert_eq!(opts.tx_mixer_gain[0], "-37.5 dB");
    assert_eq!(opts.rx_zin_200[1], "200 Ohm");
    assert_eq!(opts.iomap0[3], "eol");
}
