use cloudseedcore_rs::NumericRule;
use cloudseedcore_rs::contains_sub;
use cloudseedcore_rs::ParamId;
use cloudseedcore_rs::ParseOutcome;
use cloudseedcore_rs::parse_outcome;

fn number(tail: &[u8], rule: NumericRule) -> ParseOutcome {
    ParseOutcome::Number(tail.to_vec(), rule)
}

#[test]
fn boolean_keyword_detects_enabled() {
    let one = ParseOutcome::Value(1.0_f32.to_bits());
    let zero = ParseOutcome::Value(0.0_f32.to_bits());

    for id in [
        ParamId::Interpolation,
        ParamId::LowCutEnabled,
        ParamId::HighCutEnabled,
        ParamId::TapEnabled,
        ParamId::EarlyDiffuseEnabled,
        ParamId::LateDiffuseEnabled,
        ParamId::EqLowShelfEnabled,
        ParamId::EqHighShelfEnabled,
        ParamId::EqLowpassEnabled,
    ] {
        assert_eq!(parse_outcome(id, "75% ENABLED"), one);
        assert_eq!(parse_outcome(id, "off"), zero);
    }
}

#[test]
fn boolean_keyword_is_case_insensitive() {
    // a lowercase keyword must be found after case normalization
    let one = ParseOutcome::Value(1.0_f32.to_bits());
    assert_eq!(parse_outcome(ParamId::TapEnabled, "enabled"), one);
    assert_eq!(parse_outcome(ParamId::TapEnabled, "  Enabled  "), one);
}

#[test]
fn disabled_text_reads_as_false() {
    let zero = ParseOutcome::Value(0.0_f32.to_bits());
    assert_eq!(parse_outcome(ParamId::TapEnabled, "DISABLED"), zero);
    assert_eq!(parse_outcome(ParamId::TapEnabled, ""), zero);
}

#[test]
fn late_mode_keyword() {
    let one = ParseOutcome::Value(1.0_f32.to_bits());
    let zero = ParseOutcome::Value(0.0_f32.to_bits());
    assert_eq!(parse_outcome(ParamId::LateMode, "POST"), one);
    assert_eq!(parse_outcome(ParamId::LateMode, "post"), one);
    assert_eq!(parse_outcome(ParamId::LateMode, "PRE"), zero);
    assert_eq!(parse_outcome(ParamId::LateMode, "anything else"), zero);
}

#[test]
fn muted_output_levels_read_zero() {
    let zero = ParseOutcome::Value(0.0_f32.to_bits());
    assert_eq!(parse_outcome(ParamId::DryOut, "MUTED"), zero);
    assert_eq!(parse_outcome(ParamId::EarlyOut, "muted"), zero);
    assert_eq!(parse_outcome(ParamId::LateOut, " Muted "), zero);
}

#[test]
fn output_level_number_uses_db_rule() {
    assert_eq!(
        parse_outcome(ParamId::DryOut, "-6.0 dB"),
        number(b"-6.0 DB", NumericRule::OutputLevelDb)
    );
    assert_eq!(
        parse_outcome(ParamId::LateOut, "0 dB"),
        number(b"0 DB", NumericRule::OutputLevelDb)
    );
}

#[test]
fn numeric_tail_starts_at_first_number_byte() {
    // trailing whitespace is trimmed before matching, so it may not
    // survive into the tail
    assert_eq!(
        parse_outcome(ParamId::InputMix, "  60 % "),
        number(b"60 %", NumericRule::Percent)
    );
    assert_eq!(
        parse_outcome(ParamId::InputMix, ".5"),
        number(b".5", NumericRule::Percent)
    );
    assert_eq!(
        parse_outcome(ParamId::EqHighGain, "-12.5 dB"),
        number(b"-12.5 DB", NumericRule::GainDb)
    );
}

#[test]
fn text_without_number_does_not_parse() {
    assert_eq!(parse_outcome(ParamId::SeedTap, "abc"), ParseOutcome::NoNumber);
    assert_eq!(parse_outcome(ParamId::InputMix, ""), ParseOutcome::NoNumber);
    assert_eq!(parse_outcome(ParamId::DryOut, "loud"), ParseOutcome::NoNumber);
}

#[test]
fn decay_unit_switches_rule() {
    assert_eq!(
        parse_outcome(ParamId::LateLineDecay, "2500 ms"),
        number(b"2500 MS", NumericRule::DecayMilliseconds)
    );
    assert_eq!(
        parse_outcome(ParamId::LateLineDecay, "2.5 s"),
        number(b"2.5 S", NumericRule::DecaySeconds)
    );
    // only the line-decay control reads the MS unit
    assert_eq!(
        parse_outcome(ParamId::TapPredelay, "100 ms"),
        number(b"100 MS", NumericRule::PredelayDecade1)
    );
}

#[test]
fn each_numeric_category_maps_to_its_rule() {
    assert_eq!(
        parse_outcome(ParamId::EqCrossSeed, "50%"),
        number(b"50%", NumericRule::Percent)
    );
    assert_eq!(
        parse_outcome(ParamId::SeedDiffusion, "123"),
        number(b"123", NumericRule::SeedRange)
    );
    assert_eq!(
        parse_outcome(ParamId::LowCut, "500 Hz"),
        number(b"500 HZ", NumericRule::LowCutOctave4)
    );
    assert_eq!(
        parse_outcome(ParamId::HighCut, "4000 Hz"),
        number(b"4000 HZ", NumericRule::HighCutOctave4)
    );
    assert_eq!(
        parse_outcome(ParamId::EqHighFreq, "8000 Hz"),
        number(b"8000 HZ", NumericRule::HighCutOctave4)
    );
    assert_eq!(
        parse_outcome(ParamId::EqCutoff, "12000 Hz"),
        number(b"12000 HZ", NumericRule::HighCutOctave4)
    );
    assert_eq!(
        parse_outcome(ParamId::EqLowFreq, "100 Hz"),
        number(b"100 HZ", NumericRule::LowFreqOctave3)
    );
    assert_eq!(
        parse_outcome(ParamId::TapCount, "128 taps"),
        number(b"128 TAPS", NumericRule::TapCountLinear)
    );
    assert_eq!(
        parse_outcome(ParamId::TapLength, "500 ms"),
        number(b"500 MS", NumericRule::TapLengthLinear)
    );
    assert_eq!(
        parse_outcome(ParamId::EarlyDiffuseCount, "8"),
        number(b"8", NumericRule::DiffuseCountTwelve)
    );
    assert_eq!(
        parse_outcome(ParamId::LateLineCount, "12"),
        number(b"12", NumericRule::DiffuseCountTwelve)
    );
    assert_eq!(
        parse_outcome(ParamId::LateDiffuseCount, "4"),
        number(b"4", NumericRule::DiffuseCountEight)
    );
    assert_eq!(
        parse_outcome(ParamId::EarlyDiffuseDelay, "50 ms"),
        number(b"50 MS", NumericRule::DiffuseDelayLinear)
    );
    assert_eq!(
        parse_outcome(ParamId::LateDiffuseDelay, "20 ms"),
        number(b"20 MS", NumericRule::DiffuseDelayLinear)
    );
    assert_eq!(
        parse_outcome(ParamId::EarlyDiffuseModAmount, "120%"),
        number(b"120%", NumericRule::ModAmountPercent)
    );
    assert_eq!(
        parse_outcome(ParamId::LateLineModAmount, "10%"),
        number(b"10%", NumericRule::ModAmountPercent)
    );
    assert_eq!(
        parse_outcome(ParamId::LateDiffuseModAmount, "30%"),
        number(b"30%", NumericRule::ModAmountPercent)
    );
    assert_eq!(
        parse_outcome(ParamId::EarlyDiffuseModRate, "2.0 Hz"),
        number(b"2.0 HZ", NumericRule::ModRateDecade2)
    );
    assert_eq!(
        parse_outcome(ParamId::LateLineModRate, "1.5 Hz"),
        number(b"1.5 HZ", NumericRule::ModRateDecade2)
    );
    assert_eq!(
        parse_outcome(ParamId::LateDiffuseModRate, "0.5 Hz"),
        number(b"0.5 HZ", NumericRule::ModRateDecade2)
    );
    assert_eq!(
        parse_outcome(ParamId::LateLineSize, "300 ms"),
        number(b"300 MS", NumericRule::LineSizeDecade2)
    );
    assert_eq!(
        parse_outcome(ParamId::TapDecay, "80%"),
        number(b"80%", NumericRule::Percent)
    );
    assert_eq!(
        parse_outcome(ParamId::EarlyDiffuseFeedback, "70%"),
        number(b"70%", NumericRule::Percent)
    );
    assert_eq!(
        parse_outcome(ParamId::LateDiffuseFeedback, "85%"),
        number(b"85%", NumericRule::Percent)
    );
    assert_eq!(
        parse_outcome(ParamId::EqLowGain, "-10 dB"),
        number(b"-10 DB", NumericRule::GainDb)
    );
}

#[test]
fn contains_sub_finds_substrings() {
    let hay = b"HELLO".to_vec();
    assert!(contains_sub(&hay, &b"ELL".to_vec()));
    assert!(contains_sub(&hay, &b"HELLO".to_vec()));
    assert!(!contains_sub(&hay, &b"WORLD".to_vec()));
    assert!(contains_sub(&hay, &Vec::new()));
    assert!(!contains_sub(&Vec::new(), &b"A".to_vec()));
}
