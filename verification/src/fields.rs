//! Names of the writable device-state fields, and the error type shared by
//! the register encoder and the configuration-document reader.

use vstd::prelude::*;

verus! {

/// One writable field of the device state.
///
/// Read-only status fields (version code, end-of-life flag, oscillator and
/// PLL lock flags, interface error flag) have no identifier here: they are
/// populated only by decoding registers read from live hardware, are never
/// encoded on a write, and do not appear in a configuration document.
#[derive(Clone, Copy, PartialEq, Eq, Structural, Debug)]
pub enum FieldId {
    DriverEnable,
    TxEnable,
    RxEnable,
    RefEnable,
    RxFreq,
    TxFreq,
    TxDacGain,
    TxMixerGain,
    TxMixerTankCap,
    TxMixerTankRes,
    TxPllBw,
    TxFilterBw,
    TxDacBw,
    RxLnaGain,
    RxPgaGain,
    RxZin200,
    RxAdcBw,
    RxAdcTrim,
    RxPgaBw,
    RxPllBw,
    RxAdcTemp,
    IoMap0,
    IoMap1,
    IoMap2,
    IoMap3,
    DigLoopbackEn,
    RfLoopbackEn,
    CkoutEnable,
    CkSelectTxDac,
    IismRxDisable,
    IismTxDisable,
    IismMode,
    IismClkDiv,
    R,
    IismTruncation,
}

/// Error returned by the register encoder and the document reader.
#[derive(Clone, Copy, PartialEq, Eq, Structural, Debug)]
pub enum SxError {
    /// A field value does not fit its declared domain.  `min` and `max` are
    /// the inclusive bounds of the domain against which the value was
    /// rejected.
    OutOfRange { field: FieldId, min: u32, max: u32 },
    /// A decimation/interpolation factor outside the set of 28 legal values.
    UnsupportedFactor { value: u32 },
    /// Text that cannot be parsed into the expected key/value structure.
    Malformed,
}

} // verus!
