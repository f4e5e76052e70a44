use cloudseedcore_rs::LateMode;
use cloudseedcore_rs::ParamId;
use cloudseedcore_rs::Program;
use cloudseedcore_rs::dark_plate;

#[test]
fn program_roundtrip_to_array() {
    let original = dark_plate();

    let arr = original.to_array();
    assert_eq!(arr.len(), 45);

    let reconstructed = Program::from_array(arr);
    assert_eq!(reconstructed, original);
}

#[test]
fn program_from_slice_valid() {
    let p = dark_plate();
    let slice = p.to_array().to_vec();

    let loaded = Program::from_slice(&slice);
    assert!(loaded.is_some());
    assert_eq!(loaded.unwrap(), p);
}

#[test]
fn program_from_slice_invalid_len() {
    let slice = vec![0.0_f32.to_bits(); 44];
    assert!(Program::from_slice(&slice).is_none());
}

#[test]
fn program_get_set_works() {
    let mut p = dark_plate();

    p.set(ParamId::DryOut, 0.42_f32.to_bits());
    assert!((f32::from_bits(p.get(ParamId::DryOut)) - 0.42).abs() < 1e-6);

    p.set(ParamId::Interpolation, 0.0_f32.to_bits());
    assert!(!p.interpolation);
    assert_eq!(f32::from_bits(p.get(ParamId::Interpolation)), 0.0);

    p.set(ParamId::Interpolation, 1.0_f32.to_bits());
    assert!(p.interpolation);
    assert_eq!(f32::from_bits(p.get(ParamId::Interpolation)), 1.0);
}

#[test]
fn late_mode_roundtrip() {
    let mut p = dark_plate();

    p.set(ParamId::LateMode, 0.0_f32.to_bits());
    assert_eq!(p.late_mode, LateMode::Pre);
    assert_eq!(f32::from_bits(p.get(ParamId::LateMode)), 0.0);

    p.set(ParamId::LateMode, 1.0_f32.to_bits());
    assert_eq!(p.late_mode, LateMode::Post);
    assert_eq!(f32::from_bits(p.get(ParamId::LateMode)), 1.0);
}

#[test]
fn ordinal_round_trip_all() {
    for n in 0u8..=44 {
        let id = ParamId::from_ordinal(n).expect("catalogue slot must exist");
        assert_eq!(id.ordinal(), n);
    }
    assert!(ParamId::from_ordinal(45).is_none());
    assert!(ParamId::from_ordinal(255).is_none());
}

#[test]
fn wire_order_is_fixed() {
    let expected = [
        ParamId::Interpolation,
        ParamId::LowCutEnabled,
        ParamId::HighCutEnabled,
        ParamId::InputMix,
        ParamId::LowCut,
        ParamId::HighCut,
        ParamId::DryOut,
        ParamId::EarlyOut,
        ParamId::LateOut,
        ParamId::TapEnabled,
        ParamId::TapCount,
        ParamId::TapDecay,
        ParamId::TapPredelay,
        ParamId::TapLength,
        ParamId::EarlyDiffuseEnabled,
        ParamId::EarlyDiffuseCount,
        ParamId::EarlyDiffuseDelay,
        ParamId::EarlyDiffuseModAmount,
        ParamId::EarlyDiffuseFeedback,
        ParamId::EarlyDiffuseModRate,
        ParamId::LateMode,
        ParamId::LateLineCount,
        ParamId::LateDiffuseEnabled,
        ParamId::LateDiffuseCount,
        ParamId::LateLineSize,
        ParamId::LateLineModAmount,
        ParamId::LateDiffuseDelay,
        ParamId::LateDiffuseModAmount,
        ParamId::LateLineDecay,
        ParamId::LateLineModRate,
        ParamId::LateDiffuseFeedback,
        ParamId::LateDiffuseModRate,
        ParamId::EqLowShelfEnabled,
        ParamId::EqHighShelfEnabled,
        ParamId::EqLowpassEnabled,
        ParamId::EqLowFreq,
        ParamId::EqHighFreq,
        ParamId::EqCutoff,
        ParamId::EqLowGain,
        ParamId::EqHighGain,
        ParamId::EqCrossSeed,
        ParamId::SeedTap,
        ParamId::SeedDiffusion,
        ParamId::SeedDelay,
        ParamId::SeedPostDiffusion,
    ];
    for (n, id) in expected.iter().enumerate() {
        assert_eq!(id.ordinal() as usize, n);
        assert_eq!(ParamId::from_ordinal(n as u8), Some(*id));
    }
}

#[test]
fn dark_plate_holds_reference_values() {
    let p = dark_plate();
    assert!(p.interpolation);
    assert!(!p.low_cut_enabled);
    assert!(!p.high_cut_enabled);
    assert_eq!(p.input_mix, 0.23469999_f32.to_bits());
    assert_eq!(p.low_cut, 0.63999999_f32.to_bits());
    assert_eq!(p.high_cut, 0.29330000_f32.to_bits());
    assert_eq!(p.dry_out, 0.8706000_f32.to_bits());
    assert_eq!(p.early_out, 0.0_f32.to_bits());
    assert_eq!(p.late_out, 0.66139996_f32.to_bits());
    assert!(!p.tap_enabled);
    assert_eq!(p.tap_count, 0.19599999_f32.to_bits());
    assert_eq!(p.tap_decay, 1.0_f32.to_bits());
    assert_eq!(p.tap_predelay, 0.0_f32.to_bits());
    assert_eq!(p.tap_length, 0.98670000_f32.to_bits());
    assert!(!p.early_diffuse_enabled);
    assert_eq!(p.early_diffuse_count, 0.29600000_f32.to_bits());
    assert_eq!(p.early_diffuse_delay, 0.30669999_f32.to_bits());
    assert_eq!(p.early_diffuse_mod_amount, 0.14389999_f32.to_bits());
    assert_eq!(p.early_diffuse_feedback, 0.77069998_f32.to_bits());
    assert_eq!(p.early_diffuse_mod_rate, 0.24669999_f32.to_bits());
    assert_eq!(p.late_mode, LateMode::Post);
    assert_eq!(p.late_line_count, 1.0_f32.to_bits());
    assert!(p.late_diffuse_enabled);
    assert_eq!(p.late_diffuse_count, 0.48799998_f32.to_bits());
    assert_eq!(p.late_line_size, 0.46939999_f32.to_bits());
    assert_eq!(p.late_line_mod_amount, 0.27199998_f32.to_bits());
    assert_eq!(p.late_diffuse_delay, 0.23999999_f32.to_bits());
    assert_eq!(p.late_diffuse_mod_amount, 0.14680000_f32.to_bits());
    assert_eq!(p.late_line_decay, 0.63460000_f32.to_bits());
    assert_eq!(p.late_line_mod_rate, 0.22929999_f32.to_bits());
    assert_eq!(p.late_diffuse_feedback, 0.85069996_f32.to_bits());
    assert_eq!(p.late_diffuse_mod_rate, 0.16669999_f32.to_bits());
    assert!(!p.eq_low_shelf_enabled);
    assert!(p.eq_high_shelf_enabled);
    assert!(!p.eq_lowpass_enabled);
    assert_eq!(p.eq_low_freq, 0.38799998_f32.to_bits());
    assert_eq!(p.eq_high_freq, 0.51339996_f32.to_bits());
    assert_eq!(p.eq_cutoff, 0.97599995_f32.to_bits());
    assert_eq!(p.eq_low_gain, 0.55599999_f32.to_bits());
    assert_eq!(p.eq_high_gain, 0.76800001_f32.to_bits());
    assert_eq!(p.eq_cross_seed, 0.0_f32.to_bits());
    assert_eq!(p.seed_tap, 0.33399999_f32.to_bits());
    assert_eq!(p.seed_diffusion, 0.18500000_f32.to_bits());
    assert_eq!(p.seed_delay, 0.21810000_f32.to_bits());
    assert_eq!(p.seed_post_diffusion, 0.36530000_f32.to_bits());
}

#[test]
fn threshold_edges_decode_as_expected() {
    let mut p = dark_plate();

    p.set(ParamId::TapEnabled, 0.5_f32.to_bits());
    assert!(p.tap_enabled);
    assert_eq!(f32::from_bits(p.get(ParamId::TapEnabled)), 1.0);

    p.set(ParamId::TapEnabled, 0.49999997_f32.to_bits());
    assert!(!p.tap_enabled);
    assert_eq!(f32::from_bits(p.get(ParamId::TapEnabled)), 0.0);

    p.set(ParamId::TapEnabled, f32::INFINITY.to_bits());
    assert!(p.tap_enabled);

    p.set(ParamId::TapEnabled, f32::NAN.to_bits());
    assert!(!p.tap_enabled);

    p.set(ParamId::TapEnabled, (-1.0_f32).to_bits());
    assert!(!p.tap_enabled);

    p.set(ParamId::TapEnabled, (-0.0_f32).to_bits());
    assert!(!p.tap_enabled);
}

#[test]
fn continuous_values_pass_through_bit_for_bit() {
    let mut p = dark_plate();

    let odd = f32::NAN.to_bits();
    p.set(ParamId::InputMix, odd);
    assert_eq!(p.get(ParamId::InputMix), odd);

    let negative = (-2.5_f32).to_bits();
    p.set(ParamId::SeedDelay, negative);
    assert_eq!(p.get(ParamId::SeedDelay), negative);

    let arr = p.to_array();
    assert_eq!(arr[3], odd);
    assert_eq!(arr[43], negative);
    let q = Program::from_array(arr);
    assert_eq!(q, p);
}

#[test]
fn from_array_decodes_coded_slots_at_threshold() {
    let mut arr = dark_plate().to_array();
    arr[9] = 0.75_f32.to_bits();
    arr[20] = 0.49_f32.to_bits();
    let p = Program::from_array(arr);
    assert!(p.tap_enabled);
    assert_eq!(p.late_mode, LateMode::Pre);

    let back = p.to_array();
    assert_eq!(back[9], 1.0_f32.to_bits());
    assert_eq!(back[20], 0.0_f32.to_bits());
}
