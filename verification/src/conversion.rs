//! The text-to-value layer: classifies engine display text per control.
//!
//! Display text is trimmed and case-normalized, then handled by the
//! control's category. Keyword categories (the enable flags and the
//! late-stage mode) read a keyword and never fail. Numeric categories
//! locate the first character that can start a number — a digit, a dot or
//! a minus — and hand the text from that character on, together with the
//! control's numeric rule, to the caller; they fail exactly when no such
//! character exists. The output-level controls answer the `MUTED` keyword
//! before looking for a number, and the line-decay control picks its
//! millisecond rule when the text carries an `MS` unit.
//!
//! The numeric rules themselves map a real number through a linear remap
//! or through the inverse of one of the engine's exponential response
//! curves; that arithmetic is floating point and lives with the caller,
//! outside this crate's verified core.

use vstd::prelude::*;

use crate::params::ParamId;
use crate::params::bool_bits;
use crate::params::bool_to_param;
use crate::params::is_coded;

verus! {

/// What `str::trim` returns: the characters with leading and trailing
/// whitespace removed. The result depends on the characters alone.
pub uninterp spec fn trim_of(s: Seq<char>) -> Seq<char>;

/// What `str::to_uppercase` returns, as UTF-8 bytes: the Unicode uppercase
/// mapping of the characters. The result depends on the characters alone.
pub uninterp spec fn upper_bytes_of(s: Seq<char>) -> Seq<u8>;

/// The normalized form display text is matched in: trimmed, uppercased,
/// and read as UTF-8 bytes.
pub open spec fn norm_of(s: Seq<char>) -> Seq<u8> {
    upper_bytes_of(trim_of(s))
}

/// Relies on `str::trim`: returns the string with leading and trailing
/// whitespace removed.
#[verifier::external_body]
fn trimmed(s: &str) -> (r: String)
    ensures
        r@ == trim_of(s@),
{
    s.trim().to_string()
}

/// Relies on `str::to_uppercase`: returns the Unicode uppercase mapping of
/// the string; `into_bytes` then exposes its UTF-8 bytes.
#[verifier::external_body]
fn upper_bytes(s: &str) -> (r: Vec<u8>)
    ensures
        r@ == upper_bytes_of(s@),
{
    s.to_uppercase().into_bytes()
}

/// The bytes of the keyword `ENABLED`.
pub open spec fn kw_enabled() -> Seq<u8> {
    seq![69u8, 78u8, 65u8, 66u8, 76u8, 69u8, 68u8]
}

/// The bytes of the keyword `POST`.
pub open spec fn kw_post() -> Seq<u8> {
    seq![80u8, 79u8, 83u8, 84u8]
}

/// The bytes of the keyword `MUTED`.
pub open spec fn kw_muted() -> Seq<u8> {
    seq![77u8, 85u8, 84u8, 69u8, 68u8]
}

/// The bytes of the unit suffix `MS`.
pub open spec fn kw_ms() -> Seq<u8> {
    seq![77u8, 83u8]
}

fn enabled_bytes() -> (v: Vec<u8>)
    ensures
        v@ == kw_enabled(),
{
    let mut v: Vec<u8> = Vec::new();
    v.push(69);  // E
    v.push(78);  // N
    v.push(65);  // A
    v.push(66);  // B
    v.push(76);  // L
    v.push(69);  // E
    v.push(68);  // D
    assert(v@ =~= kw_enabled());
    v
}

fn post_bytes() -> (v: Vec<u8>)
    ensures
        v@ == kw_post(),
{
    let mut v: Vec<u8> = Vec::new();
    v.push(80);  // P
    v.push(79);  // O
    v.push(83);  // S
    v.push(84);  // T
    assert(v@ =~= kw_post());
    v
}

fn muted_bytes() -> (v: Vec<u8>)
    ensures
        v@ == kw_muted(),
{
    let mut v: Vec<u8> = Vec::new();
    v.push(77);  // M
    v.push(85);  // U
    v.push(84);  // T
    v.push(69);  // E
    v.push(68);  // D
    assert(v@ =~= kw_muted());
    v
}

fn ms_bytes() -> (v: Vec<u8>)
    ensures
        v@ == kw_ms(),
{
    let mut v: Vec<u8> = Vec::new();
    v.push(77);  // M
    v.push(83);  // S
    assert(v@ =~= kw_ms());
    v
}

/// Whether `needle` occurs in `hay` starting at position `i`.
pub open spec fn matches_at(hay: Seq<u8>, needle: Seq<u8>, i: int) -> bool {
    0 <= i && i + needle.len() <= hay.len() && hay.subrange(i, i + needle.len()) == needle
}

/// Whether `needle` occurs anywhere in `hay`.
pub open spec fn seq_has_sub(hay: Seq<u8>, needle: Seq<u8>) -> bool {
    exists|i: int| matches_at(hay, needle, i)
}

/// Substring search: whether `needle` occurs anywhere in `hay`.
pub fn contains_sub(hay: &Vec<u8>, needle: &Vec<u8>) -> (r: bool)
    ensures
        r == seq_has_sub(hay@, needle@),
{
    let n = needle.len();
    let h = hay.len();
    if n > h {
        return false;
    }
    let mut i: usize = 0;
    while i <= h - n
        invariant
            n <= h,
            h == hay@.len(),
            n == needle@.len(),
            i <= h - n + 1,
            forall|k: int| 0 <= k < i ==> !matches_at(hay@, needle@, k),
        decreases h + 1 - i,
    {
        let mut j: usize = 0;
        let mut same: bool = true;
        while j < n
            invariant
                n <= h,
                h == hay@.len(),
                n == needle@.len(),
                i + n <= h,
                j <= n,
                same ==> forall|l: int| 0 <= l < j ==> hay@[i + l] == needle@[l],
                !same ==> exists|l: int| 0 <= l < j && hay@[i + l] != needle@[l],
            decreases n - j,
        {
            if hay[i + j] != needle[j] {
                same = false;
                j = n;
            } else {
                j = j + 1;
            }
        }
        if same {
            assert(hay@.subrange(i as int, i + needle@.len()) =~= needle@);
            assert(matches_at(hay@, needle@, i as int));
            return true;
        }
        assert(!matches_at(hay@, needle@, i as int)) by {
            let l = choose|l: int| 0 <= l < n && hay@[i + l] != needle@[l];
            assert(hay@.subrange(i as int, i + needle@.len())[l] == hay@[i + l]);
        }
        i = i + 1;
    }
    assert(!seq_has_sub(hay@, needle@)) by {
        assert(forall|k: int| matches_at(hay@, needle@, k) ==> 0 <= k < i);
    }
    false
}

/// Whether a byte can start a number in display text: an ASCII digit, a
/// dot or a minus.
pub open spec fn is_num_start(b: u8) -> bool {
    (48 <= b && b <= 57) || b == 46 || b == 45
}

/// No byte of `s` can start a number.
pub open spec fn no_num_start(s: Seq<u8>) -> bool {
    forall|i: int| 0 <= i < s.len() ==> !is_num_start(s[i])
}

/// The position of the first byte that can start a number, if any.
fn find_num_start(s: &Vec<u8>) -> (r: Option<usize>)
    ensures
        match r {
            Some(i) => i < s@.len() && is_num_start(s@[i as int]) && (forall|j: int|
                0 <= j < i ==> !is_num_start(s@[j])),
            None => no_num_start(s@),
        },
{
    let mut i: usize = 0;
    while i < s.len()
        invariant
            i <= s@.len(),
            forall|j: int| 0 <= j < i ==> !is_num_start(s@[j]),
        decreases s@.len() - i,
    {
        let b = s[i];
        if (48 <= b && b <= 57) || b == 46 || b == 45 {
            return Some(i);
        }
        i = i + 1;
    }
    None
}

/// The suffix of `s` from `start` on.
fn tail_from(s: &Vec<u8>, start: usize) -> (r: Vec<u8>)
    requires
        start <= s@.len(),
    ensures
        r@ == s@.subrange(start as int, s@.len() as int),
{
    let mut r: Vec<u8> = Vec::new();
    let mut i: usize = start;
    while i < s.len()
        invariant
            start <= i <= s@.len(),
            r@ == s@.subrange(start as int, i as int),
        decreases s@.len() - i,
    {
        r.push(s[i]);
        assert(s@.subrange(start as int, i + 1) =~= s@.subrange(start as int, i as int).push(
            s@[i as int],
        ));
        i = i + 1;
    }
    r
}

/// The arithmetic a numeric control applies to the number read from its
/// display text. Every rule maps the number through a linear remap of the
/// control's documented domain, or through the inverse of one of the
/// engine's exponential response curves `(base^(n·x) − 1) · mult` with the
/// multiplier that makes the curve reach 1 at `x = 1`.
#[derive(Copy, Clone, Eq, PartialEq, Structural, Debug)]
pub enum NumericRule {
    /// A percentage: the number divided by 100, clamped to `[0, 1]`.
    Percent,
    /// A seed: the number divided by 999.999, clamped to `[0, 1]`.
    SeedRange,
    /// A frequency in `[20, 1000]` Hz: `x = (hz − 20) / 980` through the
    /// inverse octave curve of degree 4.
    LowCutOctave4,
    /// A frequency in `[400, 20000]` Hz: `x = (hz − 400) / 19600` through
    /// the inverse octave curve of degree 4.
    HighCutOctave4,
    /// An output level in dB, mapped as `(db + 30) / 30`.
    OutputLevelDb,
    /// A tap count: `(n − 1) / 255`, clamped to `[0, 1]`.
    TapCountLinear,
    /// A predelay in ms: `ms / 500` through the inverse decade curve of
    /// degree 1.
    PredelayDecade1,
    /// A tap length in ms: `(ms − 10) / 990`.
    TapLengthLinear,
    /// A stage count out of twelve: `(n − 1) / 11.999`.
    DiffuseCountTwelve,
    /// A stage count out of eight: `(n − 1) / 7.999`.
    DiffuseCountEight,
    /// A diffuser delay in ms: `(ms − 10) / 90`.
    DiffuseDelayLinear,
    /// A modulation amount: the number divided by 100, then by 2.5.
    ModAmountPercent,
    /// A modulation rate in Hz: `hz / 5` through the inverse decade curve
    /// of degree 2.
    ModRateDecade2,
    /// A line size in ms: `(ms − 20) / 980` through the inverse decade
    /// curve of degree 2.
    LineSizeDecade2,
    /// A decay in seconds: `(sec − 0.05) / 59.95` through the inverse
    /// decade curve of degree 3.
    DecaySeconds,
    /// A decay given in milliseconds: as [`NumericRule::DecaySeconds`]
    /// after dividing the number by 1000.
    DecayMilliseconds,
    /// A frequency in `[20, 1000]` Hz: `x = (hz − 20) / 980` through the
    /// inverse octave curve of degree 3.
    LowFreqOctave3,
    /// An EQ shelf gain in dB, mapped as `(db + 20) / 20`.
    GainDb,
}

/// How display text for one control is classified.
#[derive(Debug, PartialEq, Eq, Clone)]
pub enum ParseOutcome {
    /// A keyword category settled the value: the wire bit pattern is final.
    Value(u32),
    /// A numeric category found a number start: the bytes from it on, and
    /// the rule the parsed number goes through.
    Number(Vec<u8>, NumericRule),
    /// A numeric category found no byte that can start a number: the text
    /// does not parse.
    NoNumber,
}

/// Whether the control's display text is read by keyword alone: the nine
/// enable flags and the late-stage mode. These categories never fail.
pub open spec fn is_keyword(id: ParamId) -> bool {
    is_coded(id)
}

/// Whether the control is an output level, whose text answers the `MUTED`
/// keyword before any number is looked for.
pub open spec fn is_output_level(id: ParamId) -> bool {
    id == ParamId::DryOut || id == ParamId::EarlyOut || id == ParamId::LateOut
}

/// The numeric rule of each numeric control; `None` for the keyword
/// categories. The line-decay control's base rule is seconds; display text
/// carrying an `MS` unit switches it to milliseconds.
pub open spec fn rule_spec(id: ParamId) -> Option<NumericRule> {
    match id {
        ParamId::Interpolation => None,
        ParamId::LowCutEnabled => None,
        ParamId::HighCutEnabled => None,
        ParamId::InputMix => Some(NumericRule::Percent),
        ParamId::LowCut => Some(NumericRule::LowCutOctave4),
        ParamId::HighCut => Some(NumericRule::HighCutOctave4),
        ParamId::DryOut => Some(NumericRule::OutputLevelDb),
        ParamId::EarlyOut => Some(NumericRule::OutputLevelDb),
        ParamId::LateOut => Some(NumericRule::OutputLevelDb),
        ParamId::TapEnabled => None,
        ParamId::TapCount => Some(NumericRule::TapCountLinear),
        ParamId::TapDecay => Some(NumericRule::Percent),
        ParamId::TapPredelay => Some(NumericRule::PredelayDecade1),
        ParamId::TapLength => Some(NumericRule::TapLengthLinear),
        ParamId::EarlyDiffuseEnabled => None,
        ParamId::EarlyDiffuseCount => Some(NumericRule::DiffuseCountTwelve),
        ParamId::EarlyDiffuseDelay => Some(NumericRule::DiffuseDelayLinear),
        ParamId::EarlyDiffuseModAmount => Some(NumericRule::ModAmountPercent),
        ParamId::EarlyDiffuseFeedback => Some(NumericRule::Percent),
        ParamId::EarlyDiffuseModRate => Some(NumericRule::ModRateDecade2),
        ParamId::LateMode => None,
        ParamId::LateLineCount => Some(NumericRule::DiffuseCountTwelve),
        ParamId::LateDiffuseEnabled => None,
        ParamId::LateDiffuseCount => Some(NumericRule::DiffuseCountEight),
        ParamId::LateLineSize => Some(NumericRule::LineSizeDecade2),
        ParamId::LateLineModAmount => Some(NumericRule::ModAmountPercent),
        ParamId::LateDiffuseDelay => Some(NumericRule::DiffuseDelayLinear),
        ParamId::LateDiffuseModAmount => Some(NumericRule::ModAmountPercent),
        ParamId::LateLineDecay => Some(NumericRule::DecaySeconds),
        ParamId::LateLineModRate => Some(NumericRule::ModRateDecade2),
        ParamId::LateDiffuseFeedback => Some(NumericRule::Percent),
        ParamId::LateDiffuseModRate => Some(NumericRule::ModRateDecade2),
        ParamId::EqLowShelfEnabled => None,
        ParamId::EqHighShelfEnabled => None,
        ParamId::EqLowpassEnabled => None,
        ParamId::EqLowFreq => Some(NumericRule::LowFreqOctave3),
        ParamId::EqHighFreq => Some(NumericRule::HighCutOctave4),
        ParamId::EqCutoff => Some(NumericRule::HighCutOctave4),
        ParamId::EqLowGain => Some(NumericRule::GainDb),
        ParamId::EqHighGain => Some(NumericRule::GainDb),
        ParamId::EqCrossSeed => Some(NumericRule::Percent),
        ParamId::SeedTap => Some(NumericRule::SeedRange),
        ParamId::SeedDiffusion => Some(NumericRule::SeedRange),
        ParamId::SeedDelay => Some(NumericRule::SeedRange),
        ParamId::SeedPostDiffusion => Some(NumericRule::SeedRange),
    }
}

/// The rule the parsed number goes through, once the normalized text is
/// known: the line-decay control reads the `MS` unit from the text, every
/// other numeric control keeps its fixed rule.
pub open spec fn effective_rule(id: ParamId, norm: Seq<u8>) -> Option<NumericRule> {
    if id == ParamId::LateLineDecay {
        if seq_has_sub(norm, kw_ms()) {
            Some(NumericRule::DecayMilliseconds)
        } else {
            Some(NumericRule::DecaySeconds)
        }
    } else {
        rule_spec(id)
    }
}

fn rule_for(id: ParamId, ms_unit: bool) -> (r: NumericRule)
    requires
        !is_keyword(id),
    ensures
        id == ParamId::LateLineDecay ==> r == (if ms_unit {
            NumericRule::DecayMilliseconds
        } else {
            NumericRule::DecaySeconds
        }),
        id != ParamId::LateLineDecay ==> Some(r) == rule_spec(id),
{
    match id {
        ParamId::InputMix
        | ParamId::TapDecay
        | ParamId::EarlyDiffuseFeedback
        | ParamId::LateDiffuseFeedback
        | ParamId::EqCrossSeed => NumericRule::Percent,
        ParamId::SeedTap
        | ParamId::SeedDiffusion
        | ParamId::SeedDelay
        | ParamId::SeedPostDiffusion => NumericRule::SeedRange,
        ParamId::LowCut => NumericRule::LowCutOctave4,
        ParamId::HighCut | ParamId::EqHighFreq | ParamId::EqCutoff => NumericRule::HighCutOctave4,
        ParamId::DryOut | ParamId::EarlyOut | ParamId::LateOut => NumericRule::OutputLevelDb,
        ParamId::TapCount => NumericRule::TapCountLinear,
        ParamId::TapPredelay => NumericRule::PredelayDecade1,
        ParamId::TapLength => NumericRule::TapLengthLinear,
        ParamId::EarlyDiffuseCount | ParamId::LateLineCount => NumericRule::DiffuseCountTwelve,
        ParamId::LateDiffuseCount => NumericRule::DiffuseCountEight,
        ParamId::EarlyDiffuseDelay | ParamId::LateDiffuseDelay => NumericRule::DiffuseDelayLinear,
        ParamId::EarlyDiffuseModAmount
        | ParamId::LateLineModAmount
        | ParamId::LateDiffuseModAmount => NumericRule::ModAmountPercent,
        ParamId::EarlyDiffuseModRate
        | ParamId::LateLineModRate
        | ParamId::LateDiffuseModRate => NumericRule::ModRateDecade2,
        ParamId::LateLineSize => NumericRule::LineSizeDecade2,
        ParamId::LateLineDecay => if ms_unit {
            NumericRule::DecayMilliseconds
        } else {
            NumericRule::DecaySeconds
        },
        ParamId::EqLowFreq => NumericRule::LowFreqOctave3,
        ParamId::EqLowGain | ParamId::EqHighGain => NumericRule::GainDb,
        ParamId::Interpolation
        | ParamId::LowCutEnabled
        | ParamId::HighCutEnabled
        | ParamId::TapEnabled
        | ParamId::EarlyDiffuseEnabled
        | ParamId::LateMode
        | ParamId::LateDiffuseEnabled
        | ParamId::EqLowShelfEnabled
        | ParamId::EqHighShelfEnabled
        | ParamId::EqLowpassEnabled => NumericRule::Percent,  // unreachable: keyword category
    }
}

/// Classifies display text for one control.
///
/// The text is trimmed and case-normalized, then:
/// - an enable flag reads to `1.0` exactly when the text contains
///   `ENABLED`, else `0.0`, and never fails;
/// - the late-stage mode reads to `1.0` exactly when the text contains
///   `POST`, else `0.0`, and never fails;
/// - an output level whose text contains `MUTED` reads to `0.0`;
/// - every other case looks for the first byte that can start a number —
///   a digit, a dot or a minus — and yields the text from that byte on
///   together with the control's numeric rule, the line-decay control
///   switching to its millisecond rule when the text contains `MS`;
/// - when no such byte exists the text does not parse.
#[verifier::rlimit(30)]
pub fn parse_outcome(id: ParamId, text: &str) -> (r: ParseOutcome)
    ensures
        ({
            let norm = norm_of(text@);
            &&& (is_keyword(id) && id != ParamId::LateMode) ==> r == ParseOutcome::Value(
                bool_bits(seq_has_sub(norm, kw_enabled())),
            )
            &&& id == ParamId::LateMode ==> r == ParseOutcome::Value(
                bool_bits(seq_has_sub(norm, kw_post())),
            )
            &&& (is_output_level(id) && seq_has_sub(norm, kw_muted())) ==> r
                == ParseOutcome::Value(0)
            &&& (!is_keyword(id) && !(is_output_level(id) && seq_has_sub(norm, kw_muted()))
                && no_num_start(norm)) ==> r == ParseOutcome::NoNumber
            &&& (!is_keyword(id) && !(is_output_level(id) && seq_has_sub(norm, kw_muted()))
                && !no_num_start(norm)) ==> (r matches ParseOutcome::Number(tail, rule)
                && Some(rule) == effective_rule(id, norm) && (exists|i: int|
                0 <= i < norm.len() && is_num_start(norm[i]) && (forall|j: int|
                    0 <= j < i ==> !is_num_start(norm[j])) && tail@ == norm.subrange(
                    i,
                    norm.len() as int,
                )))
        }),
{
    let t = trimmed(text);
    let norm = upper_bytes(t.as_str());
    match id {
        ParamId::Interpolation
        | ParamId::LowCutEnabled
        | ParamId::HighCutEnabled
        | ParamId::TapEnabled
        | ParamId::EarlyDiffuseEnabled
        | ParamId::LateDiffuseEnabled
        | ParamId::EqLowShelfEnabled
        | ParamId::EqHighShelfEnabled
        | ParamId::EqLowpassEnabled => {
            let kw = enabled_bytes();
            ParseOutcome::Value(bool_to_param(contains_sub(&norm, &kw)))
        },
        ParamId::LateMode => {
            let kw = post_bytes();
            ParseOutcome::Value(bool_to_param(contains_sub(&norm, &kw)))
        },
        _ => {
            let muted = if id == ParamId::DryOut || id == ParamId::EarlyOut || id
                == ParamId::LateOut {
                let kw = muted_bytes();
                contains_sub(&norm, &kw)
            } else {
                false
            };
            if muted {
                ParseOutcome::Value(0)
            } else {
                match find_num_start(&norm) {
                    None => ParseOutcome::NoNumber,
                    Some(start) => {
                        let tail = tail_from(&norm, start);
                        let ms_unit = if id == ParamId::LateLineDecay {
                            let kw = ms_bytes();
                            contains_sub(&norm, &kw)
                        } else {
                            false
                        };
                        ParseOutcome::Number(tail, rule_for(id, ms_unit))
                    },
                }
            }
        },
    }
}

} // verus!
