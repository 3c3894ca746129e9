//! Status and option enums for the encoder side of the protocol.

use vstd::prelude::*;

verus! {

/// Outcome of one encoder processing step.
#[derive(Debug, Clone, Copy, PartialEq, Eq, Structural)]
pub enum JxlEncoderStatus {
    Success,
    Error,
    NeedMoreOutput,
}

/// Refined error code reported by the encoder backend.
#[derive(Debug, Clone, Copy, PartialEq, Eq, Structural)]
pub enum JxlEncoderError {
    NoError,
    Generic,
    Oom,
    Jbrd,
    BadInput,
    NotSupported,
    ApiUsage,
}

/// Identifier of a per-frame encoder option.
#[derive(Debug, Clone, Copy, PartialEq, Eq, Structural)]
pub enum JxlEncoderFrameSettingId {
    Effort,
    DecodingSpeed,
    Resampling,
    ExtraChannelResampling,
    AlreadyDownsampled,
    PhotonNoise,
    Noise,
    Dots,
    Patches,
    Epf,
    Gaborish,
    Modular,
    KeepInvisible,
    GroupOrder,
    GroupOrderCenterX,
    GroupOrderCenterY,
    Responsive,
    ProgressiveAc,
    QprogressiveAc,
    ProgressiveDc,
    ChannelColorsGlobalPercent,
    ChannelColorsGroupPercent,
    PaletteColors,
    LossyPalette,
    ColorTransform,
    ModularColorSpace,
    ModularGroupSize,
    ModularPredictor,
    ModularMaTreeLearningPercent,
    ModularNbPrevChannels,
    JpegReconCfl,
    IndexBox,
    BrotliEffort,
    JpegCompressBoxes,
    Buffering,
    JpegKeepExif,
    JpegKeepXmp,
    JpegKeepJumbf,
    UseFullImageHeuristics,
    DisablePerceptualHeuristics,
    FillEnum,
}

/// Key of one encoder statistics counter.
#[derive(Debug, Clone, Copy, PartialEq, Eq, Structural)]
pub enum JxlEncoderStatsKey {
    HeaderBits,
    TocBits,
    DictionaryBits,
    SplinesBits,
    NoiseBits,
    QuantBits,
    ModularTreeBits,
    ModularGlobalBits,
    DcBits,
    ModularDcGroupBits,
    ControlFieldsBits,
    CoefOrderBits,
    AcHistogramBits,
    AcBits,
    ModularAcGroupBits,
    NumSmallBlocks,
    NumDct4x8Blocks,
    NumAfvBlocks,
    NumDct8Blocks,
    NumDct8x32Blocks,
    NumDct16Blocks,
    NumDct16x32Blocks,
    NumDct32Blocks,
    NumDct32x64Blocks,
    NumDct64Blocks,
    NumButteraugliIters,
    NumStats,
}

} // verus!
