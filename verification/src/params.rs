//! The identifier catalogue, the snapshot of all control values, the codec
//! between a snapshot and the flat wire array, and the identifier-addressed
//! accessor.
//!
//! Values are the raw bit patterns of IEEE 754 single-precision numbers.
//! The only numeric judgement the codec ever makes on such a pattern is the
//! threshold "at least one half", and for bit patterns that judgement is
//! pure integer logic: see [`ge_half`].

use vstd::prelude::*;

verus! {

/// Identifies one of the 45 reverb controls.
///
/// The declaration order is the wire contract: the position of a variant in
/// this list is its ordinal, the index of its slot in the flat array shared
/// with the engine and with persisted state. It must not be renumbered.
#[derive(Copy, Clone, Eq, PartialEq, Structural, Debug)]
pub enum ParamId {
    Interpolation,
    LowCutEnabled,
    HighCutEnabled,
    InputMix,
    LowCut,
    HighCut,
    DryOut,
    EarlyOut,
    LateOut,
    TapEnabled,
    TapCount,
    TapDecay,
    TapPredelay,
    TapLength,
    EarlyDiffuseEnabled,
    EarlyDiffuseCount,
    EarlyDiffuseDelay,
    EarlyDiffuseModAmount,
    EarlyDiffuseFeedback,
    EarlyDiffuseModRate,
    LateMode,
    LateLineCount,
    LateDiffuseEnabled,
    LateDiffuseCount,
    LateLineSize,
    LateLineModAmount,
    LateDiffuseDelay,
    LateDiffuseModAmount,
    LateLineDecay,
    LateLineModRate,
    LateDiffuseFeedback,
    LateDiffuseModRate,
    EqLowShelfEnabled,
    EqHighShelfEnabled,
    EqLowpassEnabled,
    EqLowFreq,
    EqHighFreq,
    EqCutoff,
    EqLowGain,
    EqHighGain,
    EqCrossSeed,
    SeedTap,
    SeedDiffusion,
    SeedDelay,
    SeedPostDiffusion,
}

/// The state of the two-valued late-stage mode control.
#[derive(Copy, Clone, Eq, PartialEq, Structural, Debug)]
pub enum LateMode {
    Pre,
    Post,
}

/// The fixed ordinal of each identifier: its slot in the wire array.
pub open spec fn ordinal_spec(id: ParamId) -> int {
    match id {
        ParamId::Interpolation => 0,
        ParamId::LowCutEnabled => 1,
        ParamId::HighCutEnabled => 2,
        ParamId::InputMix => 3,
        ParamId::LowCut => 4,
        ParamId::HighCut => 5,
        ParamId::DryOut => 6,
        ParamId::EarlyOut => 7,
        ParamId::LateOut => 8,
        ParamId::TapEnabled => 9,
        ParamId::TapCount => 10,
        ParamId::TapDecay => 11,
        ParamId::TapPredelay => 12,
        ParamId::TapLength => 13,
        ParamId::EarlyDiffuseEnabled => 14,
        ParamId::EarlyDiffuseCount => 15,
        ParamId::EarlyDiffuseDelay => 16,
        ParamId::EarlyDiffuseModAmount => 17,
        ParamId::EarlyDiffuseFeedback => 18,
        ParamId::EarlyDiffuseModRate => 19,
        ParamId::LateMode => 20,
        ParamId::LateLineCount => 21,
        ParamId::LateDiffuseEnabled => 22,
        ParamId::LateDiffuseCount => 23,
        ParamId::LateLineSize => 24,
        ParamId::LateLineModAmount => 25,
        ParamId::LateDiffuseDelay => 26,
        ParamId::LateDiffuseModAmount => 27,
        ParamId::LateLineDecay => 28,
        ParamId::LateLineModRate => 29,
        ParamId::LateDiffuseFeedback => 30,
        ParamId::LateDiffuseModRate => 31,
        ParamId::EqLowShelfEnabled => 32,
        ParamId::EqHighShelfEnabled => 33,
        ParamId::EqLowpassEnabled => 34,
        ParamId::EqLowFreq => 35,
        ParamId::EqHighFreq => 36,
        ParamId::EqCutoff => 37,
        ParamId::EqLowGain => 38,
        ParamId::EqHighGain => 39,
        ParamId::EqCrossSeed => 40,
        ParamId::SeedTap => 41,
        ParamId::SeedDiffusion => 42,
        ParamId::SeedDelay => 43,
        ParamId::SeedPostDiffusion => 44,
    }
}

/// The identifier whose slot is `n`, or `None` when `n` is outside `[0, 44]`.
pub open spec fn from_ordinal_spec(n: int) -> Option<ParamId> {
    if n == 0 { Some(ParamId::Interpolation) }
    else if n == 1 { Some(ParamId::LowCutEnabled) }
    else if n == 2 { Some(ParamId::HighCutEnabled) }
    else if n == 3 { Some(ParamId::InputMix) }
    else if n == 4 { Some(ParamId::LowCut) }
    else if n == 5 { Some(ParamId::HighCut) }
    else if n == 6 { Some(ParamId::DryOut) }
    else if n == 7 { Some(ParamId::EarlyOut) }
    else if n == 8 { Some(ParamId::LateOut) }
    else if n == 9 { Some(ParamId::TapEnabled) }
    else if n == 10 { Some(ParamId::TapCount) }
    else if n == 11 { Some(ParamId::TapDecay) }
    else if n == 12 { Some(ParamId::TapPredelay) }
    else if n == 13 { Some(ParamId::TapLength) }
    else if n == 14 { Some(ParamId::EarlyDiffuseEnabled) }
    else if n == 15 { Some(ParamId::EarlyDiffuseCount) }
    else if n == 16 { Some(ParamId::EarlyDiffuseDelay) }
    else if n == 17 { Some(ParamId::EarlyDiffuseModAmount) }
    else if n == 18 { Some(ParamId::EarlyDiffuseFeedback) }
    else if n == 19 { Some(ParamId::EarlyDiffuseModRate) }
    else if n == 20 { Some(ParamId::LateMode) }
    else if n == 21 { Some(ParamId::LateLineCount) }
    else if n == 22 { Some(ParamId::LateDiffuseEnabled) }
    else if n == 23 { Some(ParamId::LateDiffuseCount) }
    else if n == 24 { Some(ParamId::LateLineSize) }
    else if n == 25 { Some(ParamId::LateLineModAmount) }
    else if n == 26 { Some(ParamId::LateDiffuseDelay) }
    else if n == 27 { Some(ParamId::LateDiffuseModAmount) }
    else if n == 28 { Some(ParamId::LateLineDecay) }
    else if n == 29 { Some(ParamId::LateLineModRate) }
    else if n == 30 { Some(ParamId::LateDiffuseFeedback) }
    else if n == 31 { Some(ParamId::LateDiffuseModRate) }
    else if n == 32 { Some(ParamId::EqLowShelfEnabled) }
    else if n == 33 { Some(ParamId::EqHighShelfEnabled) }
    else if n == 34 { Some(ParamId::EqLowpassEnabled) }
    else if n == 35 { Some(ParamId::EqLowFreq) }
    else if n == 36 { Some(ParamId::EqHighFreq) }
    else if n == 37 { Some(ParamId::EqCutoff) }
    else if n == 38 { Some(ParamId::EqLowGain) }
    else if n == 39 { Some(ParamId::EqHighGain) }
    else if n == 40 { Some(ParamId::EqCrossSeed) }
    else if n == 41 { Some(ParamId::SeedTap) }
    else if n == 42 { Some(ParamId::SeedDiffusion) }
    else if n == 43 { Some(ParamId::SeedDelay) }
    else if n == 44 { Some(ParamId::SeedPostDiffusion) }
    else { None }
}

impl ParamId {
    /// The slot of this control in the wire array, in `[0, 44]`.
    pub fn ordinal(self) -> (n: u8)
        ensures
            n as int == ordinal_spec(self),
            n <= 44,
    {
        match self {
            ParamId::Interpolation => 0,
            ParamId::LowCutEnabled => 1,
            ParamId::HighCutEnabled => 2,
            ParamId::InputMix => 3,
            ParamId::LowCut => 4,
            ParamId::HighCut => 5,
            ParamId::DryOut => 6,
            ParamId::EarlyOut => 7,
            ParamId::LateOut => 8,
            ParamId::TapEnabled => 9,
            ParamId::TapCount => 10,
            ParamId::TapDecay => 11,
            ParamId::TapPredelay => 12,
            ParamId::TapLength => 13,
            ParamId::EarlyDiffuseEnabled => 14,
            ParamId::EarlyDiffuseCount => 15,
            ParamId::EarlyDiffuseDelay => 16,
            ParamId::EarlyDiffuseModAmount => 17,
            ParamId::EarlyDiffuseFeedback => 18,
            ParamId::EarlyDiffuseModRate => 19,
            ParamId::LateMode => 20,
            ParamId::LateLineCount => 21,
            ParamId::LateDiffuseEnabled => 22,
            ParamId::LateDiffuseCount => 23,
            ParamId::LateLineSize => 24,
            ParamId::LateLineModAmount => 25,
            ParamId::LateDiffuseDelay => 26,
            ParamId::LateDiffuseModAmount => 27,
            ParamId::LateLineDecay => 28,
            ParamId::LateLineModRate => 29,
            ParamId::LateDiffuseFeedback => 30,
            ParamId::LateDiffuseModRate => 31,
            ParamId::EqLowShelfEnabled => 32,
            ParamId::EqHighShelfEnabled => 33,
            ParamId::EqLowpassEnabled => 34,
            ParamId::EqLowFreq => 35,
            ParamId::EqHighFreq => 36,
            ParamId::EqCutoff => 37,
            ParamId::EqLowGain => 38,
            ParamId::EqHighGain => 39,
            ParamId::EqCrossSeed => 40,
            ParamId::SeedTap => 41,
            ParamId::SeedDiffusion => 42,
            ParamId::SeedDelay => 43,
            ParamId::SeedPostDiffusion => 44,
        }
    }

    /// The control whose slot in the wire array is `n`.
    ///
    /// Fails exactly when `n` is outside the catalogue, that is when
    /// `n > 44`: an identifier can never be built from an unvalidated slot.
    pub fn from_ordinal(n: u8) -> (r: Option<ParamId>)
        ensures
            r == from_ordinal_spec(n as int),
            r is None <==> n > 44,
    {
        match n {
            0 => Some(ParamId::Interpolation),
            1 => Some(ParamId::LowCutEnabled),
            2 => Some(ParamId::HighCutEnabled),
            3 => Some(ParamId::InputMix),
            4 => Some(ParamId::LowCut),
            5 => Some(ParamId::HighCut),
            6 => Some(ParamId::DryOut),
            7 => Some(ParamId::EarlyOut),
            8 => Some(ParamId::LateOut),
            9 => Some(ParamId::TapEnabled),
            10 => Some(ParamId::TapCount),
            11 => Some(ParamId::TapDecay),
            12 => Some(ParamId::TapPredelay),
            13 => Some(ParamId::TapLength),
            14 => Some(ParamId::EarlyDiffuseEnabled),
            15 => Some(ParamId::EarlyDiffuseCount),
            16 => Some(ParamId::EarlyDiffuseDelay),
            17 => Some(ParamId::EarlyDiffuseModAmount),
            18 => Some(ParamId::EarlyDiffuseFeedback),
            19 => Some(ParamId::EarlyDiffuseModRate),
            20 => Some(ParamId::LateMode),
            21 => Some(ParamId::LateLineCount),
            22 => Some(ParamId::LateDiffuseEnabled),
            23 => Some(ParamId::LateDiffuseCount),
            24 => Some(ParamId::LateLineSize),
            25 => Some(ParamId::LateLineModAmount),
            26 => Some(ParamId::LateDiffuseDelay),
            27 => Some(ParamId::LateDiffuseModAmount),
            28 => Some(ParamId::LateLineDecay),
            29 => Some(ParamId::LateLineModRate),
            30 => Some(ParamId::LateDiffuseFeedback),
            31 => Some(ParamId::LateDiffuseModRate),
            32 => Some(ParamId::EqLowShelfEnabled),
            33 => Some(ParamId::EqHighShelfEnabled),
            34 => Some(ParamId::EqLowpassEnabled),
            35 => Some(ParamId::EqLowFreq),
            36 => Some(ParamId::EqHighFreq),
            37 => Some(ParamId::EqCutoff),
            38 => Some(ParamId::EqLowGain),
            39 => Some(ParamId::EqHighGain),
            40 => Some(ParamId::EqCrossSeed),
            41 => Some(ParamId::SeedTap),
            42 => Some(ParamId::SeedDiffusion),
            43 => Some(ParamId::SeedDelay),
            44 => Some(ParamId::SeedPostDiffusion),
            _ => None,
        }
    }
}

/// Converting an identifier to its ordinal and back yields the identifier:
/// the catalogue maps each control to exactly one slot.
pub proof fn lemma_ordinal_round_trip(id: ParamId)
    ensures
        from_ordinal_spec(ordinal_spec(id)) == Some(id),
{
}

/// Every slot in `[0, 44]` names exactly one control, whose ordinal is that
/// slot; slots above 44 name none.
pub proof fn lemma_from_ordinal_round_trip(n: int)
    ensures
        0 <= n <= 44 ==> (match from_ordinal_spec(n) {
            Some(id) => ordinal_spec(id) == n,
            None => false,
        }),
        !(0 <= n <= 44) ==> from_ordinal_spec(n) is None,
{
}

/// Whether the single-precision value whose bit pattern is `b` is at least
/// one half.
///
/// For bit patterns with the sign bit clear, the unsigned order of patterns
/// is the order of the values they denote; `0.5` is `0x3F00_0000` and
/// positive infinity is `0x7F80_0000`. Patterns above infinity on that side
/// are NaN, and every pattern with the sign bit set denotes a negative
/// number, a negative zero or a NaN — none of which is at least one half.
pub open spec fn ge_half(b: u32) -> bool {
    0x3F00_0000 <= b && b <= 0x7F80_0000
}

/// The canonical pattern a truth value is encoded as: `1.0` or `0.0`.
pub open spec fn bool_bits(v: bool) -> u32 {
    if v { 0x3F80_0000 } else { 0 }
}

/// Decodes a wire value into a truth value at the canonical threshold of
/// one half.
pub fn param_to_bool(value: u32) -> (r: bool)
    ensures
        r == ge_half(value),
{
    0x3F00_0000 <= value && value <= 0x7F80_0000
}

/// Encodes a truth value as its canonical wire pattern, `1.0` or `0.0`.
pub fn bool_to_param(value: bool) -> (r: u32)
    ensures
        r == bool_bits(value),
{
    if value { 0x3F80_0000 } else { 0 }
}

/// Encoding a truth value and decoding it at the canonical threshold gives
/// the value back: `1.0` is at least one half and `0.0` is not.
pub proof fn lemma_bool_codec_round_trip(v: bool)
    ensures
        ge_half(bool_bits(v)) == v,
{
}

/// The state of all 45 controls at one instant.
///
/// Boolean-coded controls are held as truth values and the late-stage mode
/// as its own two-valued state; every continuous control is held as the raw
/// bit pattern of a single-precision number, nominally in `[0, 1]`. Direct
/// field mutation does not clamp.
#[derive(Copy, Clone, Eq, PartialEq, Structural, Debug)]
pub struct Program {
    // Mix
    pub interpolation: bool,
    pub low_cut_enabled: bool,
    pub high_cut_enabled: bool,
    pub input_mix: u32,
    pub low_cut: u32,
    pub high_cut: u32,
    pub dry_out: u32,
    pub early_out: u32,
    pub late_out: u32,
    // Tap
    pub tap_enabled: bool,
    pub tap_count: u32,
    pub tap_decay: u32,
    pub tap_predelay: u32,
    pub tap_length: u32,
    // Early
    pub early_diffuse_enabled: bool,
    pub early_diffuse_count: u32,
    pub early_diffuse_delay: u32,
    pub early_diffuse_mod_amount: u32,
    pub early_diffuse_feedback: u32,
    pub early_diffuse_mod_rate: u32,
    // Late
    pub late_mode: LateMode,
    pub late_line_count: u32,
    pub late_diffuse_enabled: bool,
    pub late_diffuse_count: u32,
    pub late_line_size: u32,
    pub late_line_mod_amount: u32,
    pub late_diffuse_delay: u32,
    pub late_diffuse_mod_amount: u32,
    pub late_line_decay: u32,
    pub late_line_mod_rate: u32,
    pub late_diffuse_feedback: u32,
    pub late_diffuse_mod_rate: u32,
    // EQ
    pub eq_low_shelf_enabled: bool,
    pub eq_high_shelf_enabled: bool,
    pub eq_lowpass_enabled: bool,
    pub eq_low_freq: u32,
    pub eq_high_freq: u32,
    pub eq_cutoff: u32,
    pub eq_low_gain: u32,
    pub eq_high_gain: u32,
    pub eq_cross_seed: u32,
    // Seeds
    pub seed_tap: u32,
    pub seed_diffusion: u32,
    pub seed_delay: u32,
    pub seed_post_diffusion: u32,
}

/// The encoding of the late-stage mode on the wire: `Post` is `1.0`.
pub open spec fn mode_bits(m: LateMode) -> u32 {
    match m {
        LateMode::Pre => 0,
        LateMode::Post => 0x3F80_0000,
    }
}

/// The decoding of the late-stage mode at the canonical threshold.
pub open spec fn mode_of_bits(b: u32) -> LateMode {
    if ge_half(b) { LateMode::Post } else { LateMode::Pre }
}

/// The flat wire array of a snapshot: slot `n` holds the externally visible
/// value of the control with ordinal `n`.
pub open spec fn program_seq(p: Program) -> Seq<u32> {
    seq![
        bool_bits(p.interpolation),
        bool_bits(p.low_cut_enabled),
        bool_bits(p.high_cut_enabled),
        p.input_mix,
        p.low_cut,
        p.high_cut,
        p.dry_out,
        p.early_out,
        p.late_out,
        bool_bits(p.tap_enabled),
        p.tap_count,
        p.tap_decay,
        p.tap_predelay,
        p.tap_length,
        bool_bits(p.early_diffuse_enabled),
        p.early_diffuse_count,
        p.early_diffuse_delay,
        p.early_diffuse_mod_amount,
        p.early_diffuse_feedback,
        p.early_diffuse_mod_rate,
        mode_bits(p.late_mode),
        p.late_line_count,
        bool_bits(p.late_diffuse_enabled),
        p.late_diffuse_count,
        p.late_line_size,
        p.late_line_mod_amount,
        p.late_diffuse_delay,
        p.late_diffuse_mod_amount,
        p.late_line_decay,
        p.late_line_mod_rate,
        p.late_diffuse_feedback,
        p.late_diffuse_mod_rate,
        bool_bits(p.eq_low_shelf_enabled),
        bool_bits(p.eq_high_shelf_enabled),
        bool_bits(p.eq_lowpass_enabled),
        p.eq_low_freq,
        p.eq_high_freq,
        p.eq_cutoff,
        p.eq_low_gain,
        p.eq_high_gain,
        p.eq_cross_seed,
        p.seed_tap,
        p.seed_diffusion,
        p.seed_delay,
        p.seed_post_diffusion,
    ]
}

/// The snapshot decoded from a 45-slot wire sequence: boolean-coded slots
/// and the mode slot are read at the canonical threshold, continuous slots
/// pass through bit-for-bit.
pub open spec fn program_of_seq(s: Seq<u32>) -> Program
    recommends
        s.len() == 45,
{
    Program {
        interpolation: ge_half(s[0]),
        low_cut_enabled: ge_half(s[1]),
        high_cut_enabled: ge_half(s[2]),
        input_mix: s[3],
        low_cut: s[4],
        high_cut: s[5],
        dry_out: s[6],
        early_out: s[7],
        late_out: s[8],
        tap_enabled: ge_half(s[9]),
        tap_count: s[10],
        tap_decay: s[11],
        tap_predelay: s[12],
        tap_length: s[13],
        early_diffuse_enabled: ge_half(s[14]),
        early_diffuse_count: s[15],
        early_diffuse_delay: s[16],
        early_diffuse_mod_amount: s[17],
        early_diffuse_feedback: s[18],
        early_diffuse_mod_rate: s[19],
        late_mode: mode_of_bits(s[20]),
        late_line_count: s[21],
        late_diffuse_enabled: ge_half(s[22]),
        late_diffuse_count: s[23],
        late_line_size: s[24],
        late_line_mod_amount: s[25],
        late_diffuse_delay: s[26],
        late_diffuse_mod_amount: s[27],
        late_line_decay: s[28],
        late_line_mod_rate: s[29],
        late_diffuse_feedback: s[30],
        late_diffuse_mod_rate: s[31],
        eq_low_shelf_enabled: ge_half(s[32]),
        eq_high_shelf_enabled: ge_half(s[33]),
        eq_lowpass_enabled: ge_half(s[34]),
        eq_low_freq: s[35],
        eq_high_freq: s[36],
        eq_cutoff: s[37],
        eq_low_gain: s[38],
        eq_high_gain: s[39],
        eq_cross_seed: s[40],
        seed_tap: s[41],
        seed_diffusion: s[42],
        seed_delay: s[43],
        seed_post_diffusion: s[44],
    }
}

impl Program {
    /// Converts this snapshot to the flat wire array of 45 normalized
    /// values, for loading into the engine or for persistence. Total:
    /// every slot holds exactly one control, in ordinal order.
    pub fn to_array(&self) -> (r: [u32; 45])
        ensures
            r@ == program_seq(*self),
    {
        [
            bool_to_param(self.interpolation),
            bool_to_param(self.low_cut_enabled),
            bool_to_param(self.high_cut_enabled),
            self.input_mix,
            self.low_cut,
            self.high_cut,
            self.dry_out,
            self.early_out,
            self.late_out,
            bool_to_param(self.tap_enabled),
            self.tap_count,
            self.tap_decay,
            self.tap_predelay,
            self.tap_length,
            bool_to_param(self.early_diffuse_enabled),
            self.early_diffuse_count,
            self.early_diffuse_delay,
            self.early_diffuse_mod_amount,
            self.early_diffuse_feedback,
            self.early_diffuse_mod_rate,
            match self.late_mode {
                LateMode::Pre => 0,
                LateMode::Post => 0x3F80_0000,
            },
            self.late_line_count,
            bool_to_param(self.late_diffuse_enabled),
            self.late_diffuse_count,
            self.late_line_size,
            self.late_line_mod_amount,
            self.late_diffuse_delay,
            self.late_diffuse_mod_amount,
            self.late_line_decay,
            self.late_line_mod_rate,
            self.late_diffuse_feedback,
            self.late_diffuse_mod_rate,
            bool_to_param(self.eq_low_shelf_enabled),
            bool_to_param(self.eq_high_shelf_enabled),
            bool_to_param(self.eq_lowpass_enabled),
            self.eq_low_freq,
            self.eq_high_freq,
            self.eq_cutoff,
            self.eq_low_gain,
            self.eq_high_gain,
            self.eq_cross_seed,
            self.seed_tap,
            self.seed_diffusion,
            self.seed_delay,
            self.seed_post_diffusion,
        ]
    }

    /// Builds a snapshot from a full wire array, slot by slot. Total: any
    /// 45 values decode, at the canonical threshold for coded slots.
    pub fn from_array(a: [u32; 45]) -> (p: Program)
        ensures
            p == program_of_seq(a@),
    {
        Program {
            interpolation: param_to_bool(a[0]),
            low_cut_enabled: param_to_bool(a[1]),
            high_cut_enabled: param_to_bool(a[2]),
            input_mix: a[3],
            low_cut: a[4],
            high_cut: a[5],
            dry_out: a[6],
            early_out: a[7],
            late_out: a[8],
            tap_enabled: param_to_bool(a[9]),
            tap_count: a[10],
            tap_decay: a[11],
            tap_predelay: a[12],
            tap_length: a[13],
            early_diffuse_enabled: param_to_bool(a[14]),
            early_diffuse_count: a[15],
            early_diffuse_delay: a[16],
            early_diffuse_mod_amount: a[17],
            early_diffuse_feedback: a[18],
            early_diffuse_mod_rate: a[19],
            late_mode: if param_to_bool(a[20]) {
                LateMode::Post
            } else {
                LateMode::Pre
            },
            late_line_count: a[21],
            late_diffuse_enabled: param_to_bool(a[22]),
            late_diffuse_count: a[23],
            late_line_size: a[24],
            late_line_mod_amount: a[25],
            late_diffuse_delay: a[26],
            late_diffuse_mod_amount: a[27],
            late_line_decay: a[28],
            late_line_mod_rate: a[29],
            late_diffuse_feedback: a[30],
            late_diffuse_mod_rate: a[31],
            eq_low_shelf_enabled: param_to_bool(a[32]),
            eq_high_shelf_enabled: param_to_bool(a[33]),
            eq_lowpass_enabled: param_to_bool(a[34]),
            eq_low_freq: a[35],
            eq_high_freq: a[36],
            eq_cutoff: a[37],
            eq_low_gain: a[38],
            eq_high_gain: a[39],
            eq_cross_seed: a[40],
            seed_tap: a[41],
            seed_diffusion: a[42],
            seed_delay: a[43],
            seed_post_diffusion: a[44],
        }
    }

    /// Builds a snapshot from a variable-length sequence of wire values.
    ///
    /// Fails exactly when the input length is not 45, regardless of
    /// content; with length 45 it behaves as [`Program::from_array`].
    pub fn from_slice(slice: &[u32]) -> (r: Option<Program>)
        ensures
            slice@.len() == 45 ==> r == Some(program_of_seq(slice@)),
            slice@.len() != 45 ==> r is None,
    {
        if slice.len() == 45 {
            let mut a: [u32; 45] = [0u32; 45];
            let mut i: usize = 0;
            while i < 45
                invariant
                    i <= 45,
                    slice@.len() == 45,
                    forall|j: int| 0 <= j < i ==> a@[j] == slice@[j],
                decreases 45 - i,
            {
                a[i] = slice[i];
                i = i + 1;
            }
            assert(a@ =~= slice@);
            Some(Self::from_array(a))
        } else {
            None
        }
    }
}

/// The externally visible value of one control in a snapshot: coded
/// controls read as their canonical `1.0`/`0.0` pattern, continuous ones
/// bit-for-bit.
pub open spec fn get_spec(p: Program, id: ParamId) -> u32 {
    match id {
        ParamId::Interpolation => bool_bits(p.interpolation),
        ParamId::LowCutEnabled => bool_bits(p.low_cut_enabled),
        ParamId::HighCutEnabled => bool_bits(p.high_cut_enabled),
        ParamId::InputMix => p.input_mix,
        ParamId::LowCut => p.low_cut,
        ParamId::HighCut => p.high_cut,
        ParamId::DryOut => p.dry_out,
        ParamId::EarlyOut => p.early_out,
        ParamId::LateOut => p.late_out,
        ParamId::TapEnabled => bool_bits(p.tap_enabled),
        ParamId::TapCount => p.tap_count,
        ParamId::TapDecay => p.tap_decay,
        ParamId::TapPredelay => p.tap_predelay,
        ParamId::TapLength => p.tap_length,
        ParamId::EarlyDiffuseEnabled => bool_bits(p.early_diffuse_enabled),
        ParamId::EarlyDiffuseCount => p.early_diffuse_count,
        ParamId::EarlyDiffuseDelay => p.early_diffuse_delay,
        ParamId::EarlyDiffuseModAmount => p.early_diffuse_mod_amount,
        ParamId::EarlyDiffuseFeedback => p.early_diffuse_feedback,
        ParamId::EarlyDiffuseModRate => p.early_diffuse_mod_rate,
        ParamId::LateMode => mode_bits(p.late_mode),
        ParamId::LateLineCount => p.late_line_count,
        ParamId::LateDiffuseEnabled => bool_bits(p.late_diffuse_enabled),
        ParamId::LateDiffuseCount => p.late_diffuse_count,
        ParamId::LateLineSize => p.late_line_size,
        ParamId::LateLineModAmount => p.late_line_mod_amount,
        ParamId::LateDiffuseDelay => p.late_diffuse_delay,
        ParamId::LateDiffuseModAmount => p.late_diffuse_mod_amount,
        ParamId::LateLineDecay => p.late_line_decay,
        ParamId::LateLineModRate => p.late_line_mod_rate,
        ParamId::LateDiffuseFeedback => p.late_diffuse_feedback,
        ParamId::LateDiffuseModRate => p.late_diffuse_mod_rate,
        ParamId::EqLowShelfEnabled => bool_bits(p.eq_low_shelf_enabled),
        ParamId::EqHighShelfEnabled => bool_bits(p.eq_high_shelf_enabled),
        ParamId::EqLowpassEnabled => bool_bits(p.eq_lowpass_enabled),
        ParamId::EqLowFreq => p.eq_low_freq,
        ParamId::EqHighFreq => p.eq_high_freq,
        ParamId::EqCutoff => p.eq_cutoff,
        ParamId::EqLowGain => p.eq_low_gain,
        ParamId::EqHighGain => p.eq_high_gain,
        ParamId::EqCrossSeed => p.eq_cross_seed,
        ParamId::SeedTap => p.seed_tap,
        ParamId::SeedDiffusion => p.seed_diffusion,
        ParamId::SeedDelay => p.seed_delay,
        ParamId::SeedPostDiffusion => p.seed_post_diffusion,
    }
}

/// The snapshot after writing one control: coded controls decode the
/// written pattern at the canonical threshold, continuous ones store it
/// bit-for-bit with no clamping; every other field keeps its value.
pub open spec fn set_spec(p: Program, id: ParamId, v: u32) -> Program {
    match id {
        ParamId::Interpolation => Program { interpolation: ge_half(v), ..p },
        ParamId::LowCutEnabled => Program { low_cut_enabled: ge_half(v), ..p },
        ParamId::HighCutEnabled => Program { high_cut_enabled: ge_half(v), ..p },
        ParamId::InputMix => Program { input_mix: v, ..p },
        ParamId::LowCut => Program { low_cut: v, ..p },
        ParamId::HighCut => Program { high_cut: v, ..p },
        ParamId::DryOut => Program { dry_out: v, ..p },
        ParamId::EarlyOut => Program { early_out: v, ..p },
        ParamId::LateOut => Program { late_out: v, ..p },
        ParamId::TapEnabled => Program { tap_enabled: ge_half(v), ..p },
        ParamId::TapCount => Program { tap_count: v, ..p },
        ParamId::TapDecay => Program { tap_decay: v, ..p },
        ParamId::TapPredelay => Program { tap_predelay: v, ..p },
        ParamId::TapLength => Program { tap_length: v, ..p },
        ParamId::EarlyDiffuseEnabled => Program { early_diffuse_enabled: ge_half(v), ..p },
        ParamId::EarlyDiffuseCount => Program { early_diffuse_count: v, ..p },
        ParamId::EarlyDiffuseDelay => Program { early_diffuse_delay: v, ..p },
        ParamId::EarlyDiffuseModAmount => Program { early_diffuse_mod_amount: v, ..p },
        ParamId::EarlyDiffuseFeedback => Program { early_diffuse_feedback: v, ..p },
        ParamId::EarlyDiffuseModRate => Program { early_diffuse_mod_rate: v, ..p },
        ParamId::LateMode => Program { late_mode: mode_of_bits(v), ..p },
        ParamId::LateLineCount => Program { late_line_count: v, ..p },
        ParamId::LateDiffuseEnabled => Program { late_diffuse_enabled: ge_half(v), ..p },
        ParamId::LateDiffuseCount => Program { late_diffuse_count: v, ..p },
        ParamId::LateLineSize => Program { late_line_size: v, ..p },
        ParamId::LateLineModAmount => Program { late_line_mod_amount: v, ..p },
        ParamId::LateDiffuseDelay => Program { late_diffuse_delay: v, ..p },
        ParamId::LateDiffuseModAmount => Program { late_diffuse_mod_amount: v, ..p },
        ParamId::LateLineDecay => Program { late_line_decay: v, ..p },
        ParamId::LateLineModRate => Program { late_line_mod_rate: v, ..p },
        ParamId::LateDiffuseFeedback => Program { late_diffuse_feedback: v, ..p },
        ParamId::LateDiffuseModRate => Program { late_diffuse_mod_rate: v, ..p },
        ParamId::EqLowShelfEnabled => Program { eq_low_shelf_enabled: ge_half(v), ..p },
        ParamId::EqHighShelfEnabled => Program { eq_high_shelf_enabled: ge_half(v), ..p },
        ParamId::EqLowpassEnabled => Program { eq_lowpass_enabled: ge_half(v), ..p },
        ParamId::EqLowFreq => Program { eq_low_freq: v, ..p },
        ParamId::EqHighFreq => Program { eq_high_freq: v, ..p },
        ParamId::EqCutoff => Program { eq_cutoff: v, ..p },
        ParamId::EqLowGain => Program { eq_low_gain: v, ..p },
        ParamId::EqHighGain => Program { eq_high_gain: v, ..p },
        ParamId::EqCrossSeed => Program { eq_cross_seed: v, ..p },
        ParamId::SeedTap => Program { seed_tap: v, ..p },
        ParamId::SeedDiffusion => Program { seed_diffusion: v, ..p },
        ParamId::SeedDelay => Program { seed_delay: v, ..p },
        ParamId::SeedPostDiffusion => Program { seed_post_diffusion: v, ..p },
    }
}

/// Whether the control is boolean- or mode-coded, so that reads and writes
/// go through the canonical threshold instead of passing bits through.
pub open spec fn is_coded(id: ParamId) -> bool {
    match id {
        ParamId::Interpolation
        | ParamId::LowCutEnabled
        | ParamId::HighCutEnabled
        | ParamId::TapEnabled
        | ParamId::EarlyDiffuseEnabled
        | ParamId::LateMode
        | ParamId::LateDiffuseEnabled
        | ParamId::EqLowShelfEnabled
        | ParamId::EqHighShelfEnabled
        | ParamId::EqLowpassEnabled => true,
        _ => false,
    }
}

impl Program {
    /// Returns the externally visible normalized value of the control with
    /// the given id, applying the same coding as the wire array.
    pub fn get(&self, id: ParamId) -> (v: u32)
        ensures
            v == get_spec(*self, id),
    {
        match id {
            ParamId::Interpolation => bool_to_param(self.interpolation),
            ParamId::LowCutEnabled => bool_to_param(self.low_cut_enabled),
            ParamId::HighCutEnabled => bool_to_param(self.high_cut_enabled),
            ParamId::InputMix => self.input_mix,
            ParamId::LowCut => self.low_cut,
            ParamId::HighCut => self.high_cut,
            ParamId::DryOut => self.dry_out,
            ParamId::EarlyOut => self.early_out,
            ParamId::LateOut => self.late_out,
            ParamId::TapEnabled => bool_to_param(self.tap_enabled),
            ParamId::TapCount => self.tap_count,
            ParamId::TapDecay => self.tap_decay,
            ParamId::TapPredelay => self.tap_predelay,
            ParamId::TapLength => self.tap_length,
            ParamId::EarlyDiffuseEnabled => bool_to_param(self.early_diffuse_enabled),
            ParamId::EarlyDiffuseCount => self.early_diffuse_count,
            ParamId::EarlyDiffuseDelay => self.early_diffuse_delay,
            ParamId::EarlyDiffuseModAmount => self.early_diffuse_mod_amount,
            ParamId::EarlyDiffuseFeedback => self.early_diffuse_feedback,
            ParamId::EarlyDiffuseModRate => self.early_diffuse_mod_rate,
            ParamId::LateMode => match self.late_mode {
                LateMode::Pre => 0,
                LateMode::Post => 0x3F80_0000,
            },
            ParamId::LateLineCount => self.late_line_count,
            ParamId::LateDiffuseEnabled => bool_to_param(self.late_diffuse_enabled),
            ParamId::LateDiffuseCount => self.late_diffuse_count,
            ParamId::LateLineSize => self.late_line_size,
            ParamId::LateLineModAmount => self.late_line_mod_amount,
            ParamId::LateDiffuseDelay => self.late_diffuse_delay,
            ParamId::LateDiffuseModAmount => self.late_diffuse_mod_amount,
            ParamId::LateLineDecay => self.late_line_decay,
            ParamId::LateLineModRate => self.late_line_mod_rate,
            ParamId::LateDiffuseFeedback => self.late_diffuse_feedback,
            ParamId::LateDiffuseModRate => self.late_diffuse_mod_rate,
            ParamId::EqLowShelfEnabled => bool_to_param(self.eq_low_shelf_enabled),
            ParamId::EqHighShelfEnabled => bool_to_param(self.eq_high_shelf_enabled),
            ParamId::EqLowpassEnabled => bool_to_param(self.eq_lowpass_enabled),
            ParamId::EqLowFreq => self.eq_low_freq,
            ParamId::EqHighFreq => self.eq_high_freq,
            ParamId::EqCutoff => self.eq_cutoff,
            ParamId::EqLowGain => self.eq_low_gain,
            ParamId::EqHighGain => self.eq_high_gain,
            ParamId::EqCrossSeed => self.eq_cross_seed,
            ParamId::SeedTap => self.seed_tap,
            ParamId::SeedDiffusion => self.seed_diffusion,
            ParamId::SeedDelay => self.seed_delay,
            ParamId::SeedPostDiffusion => self.seed_post_diffusion,
        }
    }

    /// Writes one control by id: coded controls decode the value at the
    /// canonical threshold, continuous ones store it raw with no clamping.
    /// Never fails: every identifier addresses exactly one control.
    #[verifier::rlimit(100)]
    pub fn set(&mut self, id: ParamId, value: u32)
        ensures
            *final(self) == set_spec(*old(self), id, value),
    {
        match id {
            ParamId::Interpolation => {
                self.interpolation = param_to_bool(value);
            },
            ParamId::LowCutEnabled => {
                self.low_cut_enabled = param_to_bool(value);
            },
            ParamId::HighCutEnabled => {
                self.high_cut_enabled = param_to_bool(value);
            },
            ParamId::InputMix => {
                self.input_mix = value;
            },
            ParamId::LowCut => {
                self.low_cut = value;
            },
            ParamId::HighCut => {
                self.high_cut = value;
            },
            ParamId::DryOut => {
                self.dry_out = value;
            },
            ParamId::EarlyOut => {
                self.early_out = value;
            },
            ParamId::LateOut => {
                self.late_out = value;
            },
            ParamId::TapEnabled => {
                self.tap_enabled = param_to_bool(value);
            },
            ParamId::TapCount => {
                self.tap_count = value;
            },
            ParamId::TapDecay => {
                self.tap_decay = value;
            },
            ParamId::TapPredelay => {
                self.tap_predelay = value;
            },
            ParamId::TapLength => {
                self.tap_length = value;
            },
            ParamId::EarlyDiffuseEnabled => {
                self.early_diffuse_enabled = param_to_bool(value);
            },
            ParamId::EarlyDiffuseCount => {
                self.early_diffuse_count = value;
            },
            ParamId::EarlyDiffuseDelay => {
                self.early_diffuse_delay = value;
            },
            ParamId::EarlyDiffuseModAmount => {
                self.early_diffuse_mod_amount = value;
            },
            ParamId::EarlyDiffuseFeedback => {
                self.early_diffuse_feedback = value;
            },
            ParamId::EarlyDiffuseModRate => {
                self.early_diffuse_mod_rate = value;
            },
            ParamId::LateMode => {
                self.late_mode = if param_to_bool(value) {
                    LateMode::Post
                } else {
                    LateMode::Pre
                };
            },
            ParamId::LateLineCount => {
                self.late_line_count = value;
            },
            ParamId::LateDiffuseEnabled => {
                self.late_diffuse_enabled = param_to_bool(value);
            },
            ParamId::LateDiffuseCount => {
                self.late_diffuse_count = value;
            },
            ParamId::LateLineSize => {
                self.late_line_size = value;
            },
            ParamId::LateLineModAmount => {
                self.late_line_mod_amount = value;
            },
            ParamId::LateDiffuseDelay => {
                self.late_diffuse_delay = value;
            },
            ParamId::LateDiffuseModAmount => {
                self.late_diffuse_mod_amount = value;
            },
            ParamId::LateLineDecay => {
                self.late_line_decay = value;
            },
            ParamId::LateLineModRate => {
                self.late_line_mod_rate = value;
            },
            ParamId::LateDiffuseFeedback => {
                self.late_diffuse_feedback = value;
            },
            ParamId::LateDiffuseModRate => {
                self.late_diffuse_mod_rate = value;
            },
            ParamId::EqLowShelfEnabled => {
                self.eq_low_shelf_enabled = param_to_bool(value);
            },
            ParamId::EqHighShelfEnabled => {
                self.eq_high_shelf_enabled = param_to_bool(value);
            },
            ParamId::EqLowpassEnabled => {
                self.eq_lowpass_enabled = param_to_bool(value);
            },
            ParamId::EqLowFreq => {
                self.eq_low_freq = value;
            },
            ParamId::EqHighFreq => {
                self.eq_high_freq = value;
            },
            ParamId::EqCutoff => {
                self.eq_cutoff = value;
            },
            ParamId::EqLowGain => {
                self.eq_low_gain = value;
            },
            ParamId::EqHighGain => {
                self.eq_high_gain = value;
            },
            ParamId::EqCrossSeed => {
                self.eq_cross_seed = value;
            },
            ParamId::SeedTap => {
                self.seed_tap = value;
            },
            ParamId::SeedDiffusion => {
                self.seed_diffusion = value;
            },
            ParamId::SeedDelay => {
                self.seed_delay = value;
            },
            ParamId::SeedPostDiffusion => {
                self.seed_post_diffusion = value;
            },
        }
    }
}

/// Decoding the wire array of a snapshot yields the snapshot, field for
/// field: the codec only ever writes the canonical patterns `1.0` and
/// `0.0` into coded slots, and the threshold separates those two exactly.
pub proof fn lemma_array_round_trip(p: Program)
    ensures
        program_of_seq(program_seq(p)) == p,
{
}

/// Reading a control right after writing it gives the written value back
/// for continuous controls, and its thresholded coding (`1.0` when the
/// value is at least one half, else `0.0`) for boolean- and mode-coded
/// controls.
pub proof fn lemma_get_after_set(p: Program, id: ParamId, v: u32)
    ensures
        is_coded(id) ==> get_spec(set_spec(p, id, v), id) == bool_bits(ge_half(v)),
        !is_coded(id) ==> get_spec(set_spec(p, id, v), id) == v,
{
}

/// The accessor and the array codec agree: the value the accessor reads
/// for an identifier is exactly the wire-array slot at that identifier's
/// ordinal. Together with the ordinal round trips this says that every
/// slot maps to exactly one control, none skipped or duplicated.
#[verifier::rlimit(100)]
pub proof fn lemma_accessor_matches_codec(p: Program, id: ParamId)
    ensures
        get_spec(p, id) == program_seq(p)[ordinal_spec(id)],
{
}

/// The "Dark Plate" reference preset: an immutable, fully populated
/// snapshot usable as a default or as a test fixture. Continuous fields
/// hold the bit patterns of the preset's single-precision values.
pub open spec fn dark_plate_spec() -> Program {
    Program {
        // Mix
        interpolation: true,
        low_cut_enabled: false,
        high_cut_enabled: false,
        input_mix: 0x3E70_5532,  // 0.2347
        low_cut: 0x3F23_D70A,  // 0.64
        high_cut: 0x3E96_2B6B,  // 0.2933
        dry_out: 0x3F5E_DFA4,  // 0.8706
        early_out: 0,  // 0.0
        late_out: 0x3F29_5182,  // 0.6614
        // Tap
        tap_enabled: false,
        tap_count: 0x3E48_B439,  // 0.196
        tap_decay: 0x3F80_0000,  // 1.0
        tap_predelay: 0,  // 0.0
        tap_length: 0x3F7C_985F,  // 0.9867
        // Early
        early_diffuse_enabled: false,
        early_diffuse_count: 0x3E97_8D50,  // 0.296
        early_diffuse_delay: 0x3E9D_07C8,  // 0.3067
        early_diffuse_mod_amount: 0x3E13_5A85,  // 0.1439
        early_diffuse_feedback: 0x3F45_4C98,  // 0.7707
        early_diffuse_mod_rate: 0x3E7C_9EEC,  // 0.2467
        // Late
        late_mode: LateMode::Post,
        late_line_count: 0x3F80_0000,  // 1.0
        late_diffuse_enabled: true,
        late_diffuse_count: 0x3EF9_DB22,  // 0.488
        late_line_size: 0x3EF0_5532,  // 0.4694
        late_line_mod_amount: 0x3E8B_4395,  // 0.272
        late_diffuse_delay: 0x3E75_C28F,  // 0.24
        late_diffuse_mod_amount: 0x3E16_52BD,  // 0.1468
        late_line_decay: 0x3F22_7525,  // 0.6346
        late_line_mod_rate: 0x3E6A_CD9E,  // 0.2293
        late_diffuse_feedback: 0x3F59_C779,  // 0.8507
        late_diffuse_mod_rate: 0x3E2A_B367,  // 0.1667
        // EQ
        eq_low_shelf_enabled: false,
        eq_high_shelf_enabled: true,
        eq_lowpass_enabled: false,
        eq_low_freq: 0x3EC6_A7EF,  // 0.388
        eq_high_freq: 0x3F03_6E2E,  // 0.5134
        eq_cutoff: 0x3F79_DB22,  // 0.976
        eq_low_gain: 0x3F0E_5604,  // 0.556
        eq_high_gain: 0x3F44_9BA6,  // 0.768
        eq_cross_seed: 0,  // 0.0
        // Seeds
        seed_tap: 0x3EAB_020C,  // 0.334
        seed_diffusion: 0x3E3D_70A4,  // 0.185
        seed_delay: 0x3E5F_559B,  // 0.2181
        seed_post_diffusion: 0x3EBB_089A,  // 0.3653
    }
}

/// Builds the "Dark Plate" reference preset.
pub fn dark_plate() -> (p: Program)
    ensures
        p == dark_plate_spec(),
{
    Program {
        // Mix
        interpolation: true,
        low_cut_enabled: false,
        high_cut_enabled: false,
        input_mix: 0x3E70_5532,
        low_cut: 0x3F23_D70A,
        high_cut: 0x3E96_2B6B,
        dry_out: 0x3F5E_DFA4,
        early_out: 0,
        late_out: 0x3F29_5182,
        // Tap
        tap_enabled: false,
        tap_count: 0x3E48_B439,
        tap_decay: 0x3F80_0000,
        tap_predelay: 0,
        tap_length: 0x3F7C_985F,
        // Early
        early_diffuse_enabled: false,
        early_diffuse_count: 0x3E97_8D50,
        early_diffuse_delay: 0x3E9D_07C8,
        early_diffuse_mod_amount: 0x3E13_5A85,
        early_diffuse_feedback: 0x3F45_4C98,
        early_diffuse_mod_rate: 0x3E7C_9EEC,
        // Late
        late_mode: LateMode::Post,
        late_line_count: 0x3F80_0000,
        late_diffuse_enabled: true,
        late_diffuse_count: 0x3EF9_DB22,
        late_line_size: 0x3EF0_5532,
        late_line_mod_amount: 0x3E8B_4395,
        late_diffuse_delay: 0x3E75_C28F,
        late_diffuse_mod_amount: 0x3E16_52BD,
        late_line_decay: 0x3F22_7525,
        late_line_mod_rate: 0x3E6A_CD9E,
        late_diffuse_feedback: 0x3F59_C779,
        late_diffuse_mod_rate: 0x3E2A_B367,
        // EQ
        eq_low_shelf_enabled: false,
        eq_high_shelf_enabled: true,
        eq_lowpass_enabled: false,
        eq_low_freq: 0x3EC6_A7EF,
        eq_high_freq: 0x3F03_6E2E,
        eq_cutoff: 0x3F79_DB22,
        eq_low_gain: 0x3F0E_5604,
        eq_high_gain: 0x3F44_9BA6,
        eq_cross_seed: 0,
        // Seeds
        seed_tap: 0x3EAB_020C,
        seed_diffusion: 0x3E3D_70A4,
        seed_delay: 0x3E5F_559B,
        seed_post_diffusion: 0x3EBB_089A,
    }
}

} // verus!
