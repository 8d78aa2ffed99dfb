use sx1255::doc::{read_document, read_into, write_document, write_document_now};
use sx1255::fields::{FieldId, SxError};
use sx1255::numtext::u32_string;
use sx1255::state::SX1255Info;

fn sample_state() -> SX1255Info {
    let mut info = SX1255Info::default();
    info.driver_enable = true;
    info.rx_enable = true;
    info.rx_freq = 433_920_000;
    info.tx_freq = 439_787_500;
    info.tx_dac_gain = 3;
    info.tx_mixer_gain = 9;
    info.tx_mixer_tank_cap = 0;
    info.tx_mixer_tank_res = 2;
    info.tx_pll_bw = 0;
    info.tx_filter_bw = 7;
    info.tx_dac_bw = 5;
    info.rx_lna_gain = 2;
    info.rx_pga_gain = 11;
    info.rx_zin_200 = 0;
    info.rx_adc_bw = 2;
    info.rx_adc_trim = 5;
    info.rx_pga_bw = 3;
    info.rx_pll_bw = 2;
    info.rx_adc_temp = true;
    info.iomap0 = 3;
    info.iomap1 = 0;
    info.iomap2 = 1;
    info.iomap3 = 2;
    info.dig_loopback_en = true;
    info.rf_loopback_en = false;
    info.ckout_enable = 0;
    info.ck_select_tx_dac = 1;
    info.iism_rx_disable = true;
    info.iism_tx_disable = false;
    info.iism_mode = 1;
    info.iism_clk_div = 4;
    info.r = 1728;
    info.iism_truncation = 1;
    info
}

#[test]
fn document_round_trip_reproduces_every_writable_field() {
    let info = sample_state();
    let text = write_document(&info, "2024-05-01 12:00:00 UTC");
    let back = read_document(&text).expect("a written document must read back");
    // Writable fields survive the text round trip exactly; read-only
    // status fields come back at their compiled-in defaults.
    let mut expected = info;
    let d = SX1255Info::default();
    expected.version = d.version;
    expected.eol = d.eol;
    expected.xosc_ready = d.xosc_ready;
    expected.pll_lock_rx = d.pll_lock_rx;
    expected.pll_lock_tx = d.pll_lock_tx;
    expected.iism_status_flag = d.iism_status_flag;
    assert_eq!(back, expected);
}

#[test]
fn document_round_trip_of_defaults() {
    let info = SX1255Info::default();
    let text = write_document(&info, "ts");
    let back = read_document(&text).expect("default document must read back");
    assert_eq!(back, info);
}

#[test]
fn document_with_current_timestamp_reads_back() {
    let info = sample_state();
    let text = write_document_now(&info);
    let back = read_document(&text).expect("a freshly stamped document must read back");
    assert_eq!(back.r, 1728);
    assert_eq!(back.rx_freq, 433_920_000);
}

#[test]
fn out_of_range_field_is_rejected_and_state_untouched() {
    let doc = "tx_mixer_gain = 20\n";
    assert_eq!(
        read_document(doc),
        Err(SxError::OutOfRange { field: FieldId::TxMixerGain, min: 0, max: 15 })
    );
    let mut info = sample_state();
    let before = info;
    let r = read_into(&mut info, doc);
    assert_eq!(
        r,
        Err(SxError::OutOfRange { field: FieldId::TxMixerGain, min: 0, max: 15 })
    );
    assert_eq!(info, before);
}

#[test]
fn read_into_replaces_state_on_success() {
    let mut info = sample_state();
    let r = read_into(&mut info, "tx_dac_gain = 5\n");
    assert_eq!(r, Ok(()));
    let mut expected = SX1255Info::default();
    expected.tx_dac_gain = 5;
    assert_eq!(info, expected);
}

#[test]
fn unsupported_factor_in_document() {
    assert_eq!(
        read_document("r = 100\n"),
        Err(SxError::UnsupportedFactor { value: 100 })
    );
    assert!(read_document("r = 864\n").is_ok());
}

#[test]
fn malformed_documents_are_rejected() {
    assert_eq!(read_document("bogus_key = 1\n"), Err(SxError::Malformed));
    assert_eq!(read_document("tx_dac_gain 5\n"), Err(SxError::Malformed));
    assert_eq!(read_document("tx_enable = maybe\n"), Err(SxError::Malformed));
    assert_eq!(read_document("tx_dac_gain = \n"), Err(SxError::Malformed));
    assert_eq!(read_document("tx_dac_gain = 5 extra\n"), Err(SxError::Malformed));
    assert_eq!(read_document("rx_freq = 99999999999\n"), Err(SxError::Malformed));
}

#[test]
fn frequency_domain_is_validated() {
    assert_eq!(
        read_document("rx_freq = 200000000\n"),
        Err(SxError::OutOfRange { field: FieldId::RxFreq, min: 300_000_000, max: 499_999_999 })
    );
    assert_eq!(
        read_document("tx_freq = 500000000\n"),
        Err(SxError::OutOfRange { field: FieldId::TxFreq, min: 300_000_000, max: 499_999_999 })
    );
    assert!(read_document("rx_freq = 300000000\n").is_ok());
}

#[test]
fn narrower_document_domains_are_enforced() {
    // The register span of the Tx FIR-DAC selector could hold 7, but its
    // documented domain stops at 5.
    assert_eq!(
        read_document("tx_dac_bw = 6\n"),
        Err(SxError::OutOfRange { field: FieldId::TxDacBw, min: 0, max: 5 })
    );
    assert_eq!(
        read_document("iism_clk_div = 16\n"),
        Err(SxError::OutOfRange { field: FieldId::IismClkDiv, min: 0, max: 15 })
    );
    assert!(read_document("iism_clk_div = 15\n").is_ok());
}

#[test]
fn missing_fields_keep_defaults() {
    let back = read_document("").expect("an empty document is a valid document");
    assert_eq!(back, SX1255Info::default());
    let back = read_document("tx_enable = true\n").expect("single assignment");
    let mut expected = SX1255Info::default();
    expected.tx_enable = true;
    assert_eq!(back, expected);
}

#[test]
fn comments_blanks_and_spacing_are_tolerated() {
    let doc = "# a hand-written file\n\n   tx_dac_gain=5 # trailing note\n\trx_enable\t=\ttrue\n";
    let back = read_document(doc).expect("comments and spacing must parse");
    assert_eq!(back.tx_dac_gain, 5);
    assert!(back.rx_enable);
}

#[test]
fn later_assignments_override_earlier_ones() {
    let back = read_document("tx_dac_gain = 1\ntx_dac_gain = 4\n").expect("duplicate keys");
    assert_eq!(back.tx_dac_gain, 4);
}

#[test]
fn validation_fails_fast_in_document_order() {
    // The first violating assignment wins, even if a later one is also bad.
    assert_eq!(
        read_document("rx_pga_bw = 9\nr = 100\n"),
        Err(SxError::OutOfRange { field: FieldId::RxPgaBw, min: 0, max: 3 })
    );
}

#[test]
fn written_document_text_is_commented_and_complete() {
    let text = write_document(&SX1255Info::default(), "2024-05-01 12:00:00 UTC");
    assert!(text.starts_with("# SX1255 configuration\n# created on 2024-05-01 12:00:00 UTC\n"));
    assert!(text.contains("\ntx_mixer_gain = 12\n"));
    assert!(text.contains("\nr = 8\n"));
    assert!(text.contains("\nref_enable = true\n"));
    assert!(text.contains("\n# Tx mixer gain = -37.5 dB + 2 dB x value; 0-15\n"));
    // Read-only status fields are never recorded as assignments.
    assert!(!text.contains("version"));
    assert!(!text.contains("xosc_ready ="));
    assert!(!text.contains("pll_lock_rx ="));
    assert!(!text.contains("eol ="));
}

#[test]
fn hand_written_document_in_the_historic_shape() {
    // A document in the shape older tool versions wrote: a stamped
    // header, comment blocks between assignments, inline range notes,
    // and no iism_truncation line (the field falls back to its default).
    let doc = "# SX1255 configuration\n\
               # created by sx1255-config on 2023-11-08 16:20:00 UTC\n\
               \n\
               driver_enable = false\n\
               tx_enable = true\n\
               rx_enable = false\n\
               ref_enable = true\n\
               rx_freq = 433000000\n\
               tx_freq = 433000000\n\
               \n\
               # DAC gain programmable in 3 dB steps:\n\
               # 3 (maximum gain (0 dB full scale))\n\
               tx_dac_gain = 3\n\
               \n\
               # Gain ~ -37.5 + 2 x tx_mixer_gain in dB\n\
               tx_mixer_gain = 14 # 0-15\n\
               tx_mixer_tank_cap = 3 # 0-7\n\
               tx_mixer_tank_res = 7\n\
               tx_pll_bw = 3 # 0-3\n\
               tx_filter_bw = 0 # 0-15\n\
               tx_dac_bw = 2\n\
               rx_lna_gain = 1\n\
               rx_pga_gain = 15\n\
               rx_zin_200 = 1\n\
               rx_adc_bw = 7\n\
               rx_adc_trim = 7 # 0-7\n\
               rx_pga_bw = 1\n\
               rx_pll_bw = 3 # 0-3\n\
               rx_adc_temp = false\n\
               iomap0 = 0\n\
               iomap1 = 0\n\
               iomap2 = 0\n\
               iomap3 = 0\n\
               dig_loopback_en = false\n\
               rf_loopback_en = false\n\
               ckout_enable = 1\n\
               ck_select_tx_dac = 0\n\
               iism_rx_disable = false\n\
               iism_tx_disable = false\n\
               iism_mode = 0\n\
               # 0=1, 1=2, 2=4, 3=8, 4=12, 5=16, 6=24, 7=32\n\
               iism_clk_div = 0\n\
               \n\
               # decimation/interpolation factor, valid values:\n\
               # set 1: 8, 16, 24, 32, 48, 64, 96, 128, 192, 256, 384, 512, 768, 1536\n\
               # set 2: 9, 18, 27, 36, 54, 72, 108, 144, 216, 288, 432, 576, 864, 1728\n\
               r = 192\n";
    let back = read_document(doc).expect("historic document must read");
    assert!(back.tx_enable && !back.rx_enable);
    assert_eq!(back.rx_freq, 433_000_000);
    assert_eq!(back.tx_dac_gain, 3);
    assert_eq!(back.tx_mixer_gain, 14);
    assert_eq!(back.r, 192);
    // Fields the document does not mention keep their defaults.
    assert_eq!(back.iism_truncation, SX1255Info::default().iism_truncation);
    assert_eq!(back.version, SX1255Info::default().version);
}

#[test]
fn decimal_rendering() {
    assert_eq!(u32_string(0), "0");
    assert_eq!(u32_string(7), "7");
    assert_eq!(u32_string(385_777_770), "385777770");
    assert_eq!(u32_string(u32::MAX), "4294967295");
}
