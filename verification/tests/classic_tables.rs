use sonido_effects::params::{ClassicParamInfo, ParamUnit};
use sonido_effects::params::parametric_eq::{ParametricEqParamTable, PARAMETRIC_EQ_PARAM_COUNT};
use sonido_effects::params::clean_preamp::{CleanPreampParamTable, CLEAN_PREAMP_PARAM_COUNT};
use sonido_effects::params::multi_vibrato::{MultiVibratoParamTable, MULTI_VIBRATO_PARAM_COUNT};
use sonido_effects::params::classic_phaser::{ClassicPhaserParamTable, CLASSIC_PHASER_PARAM_COUNT};

fn range_f32(d: &ClassicParamInfo) -> Option<(f32, f32, f32)> {
    d.range.map(|r| (f32::from_bits(r.min), f32::from_bits(r.max), f32::from_bits(r.default)))
}

#[test]
fn parametric_eq_descriptor_entries() {
    assert_eq!(ParametricEqParamTable::count(), 9);
    assert!(ParametricEqParamTable::descriptor(PARAMETRIC_EQ_PARAM_COUNT).is_none());
    let d = ParametricEqParamTable::descriptor(0).unwrap();
    assert_eq!(d.name, Some("Low Frequency"));
    assert_eq!(d.short_name, Some("LowFreq"));
    assert_eq!(range_f32(&d), Some((20.0f32, 500.0f32, 100.0f32)));
    assert_eq!(d.step.map(f32::from_bits), Some(1.0f32));
    let d = ParametricEqParamTable::descriptor(1).unwrap();
    assert_eq!(d.name, Some("Low Gain"));
    assert_eq!(d.short_name, Some("LowGain"));
    assert_eq!(range_f32(&d), Some((-12.0f32, 12.0f32, 0.0f32)));
    assert_eq!(d.step.map(f32::from_bits), Some(0.5f32));
    let d = ParametricEqParamTable::descriptor(2).unwrap();
    assert_eq!(d.name, Some("Low Q"));
    assert_eq!(d.short_name, Some("LowQ"));
    assert_eq!(range_f32(&d), Some((0.5f32, 5.0f32, 1.0f32)));
    assert_eq!(d.step.map(f32::from_bits), Some(0.1f32));
    let d = ParametricEqParamTable::descriptor(3).unwrap();
    assert_eq!(d.name, Some("Mid Frequency"));
    assert_eq!(d.short_name, Some("MidFreq"));
    assert_eq!(range_f32(&d), Some((200.0f32, 5000.0f32, 1000.0f32)));
    assert_eq!(d.step.map(f32::from_bits), Some(10.0f32));
    let d = ParametricEqParamTable::descriptor(4).unwrap();
    assert_eq!(d.name, Some("Mid Gain"));
    assert_eq!(d.short_name, Some("MidGain"));
    assert_eq!(range_f32(&d), Some((-12.0f32, 12.0f32, 0.0f32)));
    assert_eq!(d.step.map(f32::from_bits), Some(0.5f32));
    let d = ParametricEqParamTable::descriptor(5).unwrap();
    assert_eq!(d.name, Some("Mid Q"));
    assert_eq!(d.short_name, Some("MidQ"));
    assert_eq!(range_f32(&d), Some((0.5f32, 5.0f32, 1.0f32)));
    assert_eq!(d.step.map(f32::from_bits), Some(0.1f32));
    let d = ParametricEqParamTable::descriptor(6).unwrap();
    assert_eq!(d.name, Some("High Frequency"));
    assert_eq!(d.short_name, Some("HighFreq"));
    assert_eq!(range_f32(&d), Some((1000.0f32, 15000.0f32, 5000.0f32)));
    assert_eq!(d.step.map(f32::from_bits), Some(100.0f32));
    let d = ParametricEqParamTable::descriptor(7).unwrap();
    assert_eq!(d.name, Some("High Gain"));
    assert_eq!(d.short_name, Some("HighGain"));
    assert_eq!(range_f32(&d), Some((-12.0f32, 12.0f32, 0.0f32)));
    assert_eq!(d.step.map(f32::from_bits), Some(0.5f32));
    let d = ParametricEqParamTable::descriptor(8).unwrap();
    assert_eq!(d.name, Some("High Q"));
    assert_eq!(d.short_name, Some("HighQ"));
    assert_eq!(range_f32(&d), Some((0.5f32, 5.0f32, 1.0f32)));
    assert_eq!(d.step.map(f32::from_bits), Some(0.1f32));
}

#[test]
fn clean_preamp_descriptor_entries() {
    assert_eq!(CleanPreampParamTable::count(), 1);
    assert!(CleanPreampParamTable::descriptor(CLEAN_PREAMP_PARAM_COUNT).is_none());
    let d = CleanPreampParamTable::descriptor(0).unwrap();
    assert_eq!(d.name, Some("Gain"));
    assert_eq!(d.short_name, Some("Gain"));
    assert_eq!(range_f32(&d), Some((-20.0f32, 20.0f32, 0.0f32)));
    assert_eq!(d.step.map(f32::from_bits), Some(0.5f32));
}

#[test]
fn multi_vibrato_descriptor_entries() {
    assert_eq!(MultiVibratoParamTable::count(), 3);
    assert!(MultiVibratoParamTable::descriptor(MULTI_VIBRATO_PARAM_COUNT).is_none());
    let d = MultiVibratoParamTable::descriptor(0).unwrap();
    assert_eq!(d.name, Some("Depth"));
    assert_eq!(d.short_name, Some("Depth"));
    assert_eq!(range_f32(&d), Some((0.0f32, 200.0f32, 100.0f32)));
    assert_eq!(d.step.map(f32::from_bits), Some(1.0f32));
    let d = MultiVibratoParamTable::descriptor(1).unwrap();
    assert_eq!(d.name, Some("Mix"));
    assert_eq!(d.short_name, Some("Mix"));
    assert_eq!(range_f32(&d), Some((0.0f32, 100.0f32, 100.0f32)));
    assert_eq!(d.step.map(f32::from_bits), Some(1.0f32));
    let d = MultiVibratoParamTable::descriptor(2).unwrap();
    assert_eq!(d.name, Some("Output"));
    assert_eq!(d.short_name, None);
    assert_eq!(range_f32(&d), None);
    assert_eq!(d.step.map(f32::from_bits), None);
}

#[test]
fn classic_phaser_descriptor_entries() {
    assert_eq!(ClassicPhaserParamTable::count(), 6);
    assert!(ClassicPhaserParamTable::descriptor(CLASSIC_PHASER_PARAM_COUNT).is_none());
    let d = ClassicPhaserParamTable::descriptor(0).unwrap();
    assert_eq!(d.name, Some("Rate"));
    assert_eq!(d.short_name, None);
    assert_eq!(range_f32(&d), Some((0.05f32, 5.0f32, 0.3f32)));
    assert_eq!(d.step.map(f32::from_bits), None);
    let d = ClassicPhaserParamTable::descriptor(1).unwrap();
    assert_eq!(d.name, None);
    assert_eq!(d.short_name, None);
    assert_eq!(range_f32(&d), None);
    assert_eq!(d.step.map(f32::from_bits), None);
    let d = ClassicPhaserParamTable::descriptor(2).unwrap();
    assert_eq!(d.name, Some("Stages"));
    assert_eq!(d.short_name, Some("Stg"));
    assert_eq!(range_f32(&d), Some((2.0f32, 12.0f32, 6.0f32)));
    assert_eq!(d.step.map(f32::from_bits), Some(2.0f32));
    let d = ClassicPhaserParamTable::descriptor(3).unwrap();
    assert_eq!(d.name, Some("Feedback"));
    assert_eq!(d.short_name, None);
    assert_eq!(range_f32(&d), Some((0.0f32, 95.0f32, 50.0f32)));
    assert_eq!(d.step.map(f32::from_bits), None);
    let d = ClassicPhaserParamTable::descriptor(4).unwrap();
    assert_eq!(d.name, None);
    assert_eq!(d.short_name, None);
    assert_eq!(range_f32(&d), None);
    assert_eq!(d.step.map(f32::from_bits), None);
    let d = ClassicPhaserParamTable::descriptor(5).unwrap();
    assert_eq!(d.name, Some("Output"));
    assert_eq!(d.short_name, None);
    assert_eq!(range_f32(&d), None);
    assert_eq!(d.step.map(f32::from_bits), None);
}

#[test]
fn test_eq_parameter_info() {
    assert_eq!(ParametricEqParamTable::count(), 9);

    // Check low band params
    let low_freq = ParametricEqParamTable::descriptor(0).unwrap();
    assert_eq!(low_freq.name, Some("Low Frequency"));
    let (min, max, _) = range_f32(&low_freq).unwrap();
    assert_eq!(min, 20.0);
    assert_eq!(max, 500.0);

    // Check mid band params
    let mid_gain = ParametricEqParamTable::descriptor(4).unwrap();
    assert_eq!(mid_gain.name, Some("Mid Gain"));
    assert_eq!(mid_gain.unit, Some(ParamUnit::Decibels));

    // Check high band params
    let high_q = ParametricEqParamTable::descriptor(8).unwrap();
    assert_eq!(high_q.name, Some("High Q"));
}

#[test]
fn test_phaser_parameter_info() {
    assert_eq!(ClassicPhaserParamTable::count(), 6);

    let rate_info = ClassicPhaserParamTable::descriptor(0).unwrap();
    assert_eq!(rate_info.name, Some("Rate"));
    let (min, max, _) = range_f32(&rate_info).unwrap();
    assert_eq!(min, 0.05);
    assert_eq!(max, 5.0);

    let stages_info = ClassicPhaserParamTable::descriptor(2).unwrap();
    assert_eq!(stages_info.name, Some("Stages"));
    let (min, max, _) = range_f32(&stages_info).unwrap();
    assert_eq!(min, 2.0);
    assert_eq!(max, 12.0);

    let feedback_info = ClassicPhaserParamTable::descriptor(3).unwrap();
    assert_eq!(feedback_info.name, Some("Feedback"));
}

#[test]
fn classic_ranges_ordered() {
    for i in 0..PARAMETRIC_EQ_PARAM_COUNT {
        if let Some((min, max, default)) = range_f32(&ParametricEqParamTable::descriptor(i).unwrap()) {
            assert!(min <= default && default <= max);
        }
    }
    for i in 0..CLEAN_PREAMP_PARAM_COUNT {
        if let Some((min, max, default)) = range_f32(&CleanPreampParamTable::descriptor(i).unwrap()) {
            assert!(min <= default && default <= max);
        }
    }
    for i in 0..MULTI_VIBRATO_PARAM_COUNT {
        if let Some((min, max, default)) = range_f32(&MultiVibratoParamTable::descriptor(i).unwrap()) {
            assert!(min <= default && default <= max);
        }
    }
    for i in 0..CLASSIC_PHASER_PARAM_COUNT {
        if let Some((min, max, default)) = range_f32(&ClassicPhaserParamTable::descriptor(i).unwrap()) {
            assert!(min <= default && default <= max);
        }
    }
}

#[test]
fn parametric_eq_starts_at_descriptor_defaults() {
    for i in 0..PARAMETRIC_EQ_PARAM_COUNT {
        let d = ParametricEqParamTable::descriptor(i).unwrap();
        let (min, max, default) = range_f32(&d).unwrap();
        let v = f32::from_bits(ParametricEqParamTable::initial_value(i));
        assert!(min <= default && default <= max);
        assert_eq!(v, default);
        assert_eq!(d.default.map(f32::from_bits), Some(default));
    }
    assert_eq!(f32::from_bits(ParametricEqParamTable::initial_value(9)), 0.0);
    assert_eq!(f32::from_bits(ParametricEqParamTable::initial_value(usize::MAX)), 0.0);
    let want = [100.0f32, 0.0, 1.0, 1000.0, 0.0, 1.0, 5000.0, 0.0, 1.0];
    for (i, w) in want.iter().enumerate() {
        assert_eq!(f32::from_bits(ParametricEqParamTable::initial_value(i)), *w);
    }
}

#[test]
fn parametric_eq_units() {
    let units = [
        ParamUnit::Hertz, ParamUnit::Decibels, ParamUnit::Unitless,
        ParamUnit::Hertz, ParamUnit::Decibels, ParamUnit::Unitless,
        ParamUnit::Hertz, ParamUnit::Decibels, ParamUnit::Unitless,
    ];
    for (i, u) in units.iter().enumerate() {
        assert_eq!(ParametricEqParamTable::descriptor(i).unwrap().unit, Some(*u));
    }
}

#[test]
fn classic_effects_initial_values() {
    assert_eq!(f32::from_bits(CleanPreampParamTable::initial_value(0)), 0.0);
    assert_eq!(CleanPreampParamTable::initial_value(1), 0);
    let mv: Vec<f32> = (0..4).map(|i| f32::from_bits(MultiVibratoParamTable::initial_value(i))).collect();
    assert_eq!(mv, vec![100.0, 100.0, 0.0, 0.0]);
    let ph: Vec<f32> = (0..7).map(|i| f32::from_bits(ClassicPhaserParamTable::initial_value(i))).collect();
    assert_eq!(ph, vec![0.3, 50.0, 6.0, 50.0, 50.0, 0.0, 0.0]);
    assert_eq!(CLEAN_PREAMP_PARAM_COUNT + MULTI_VIBRATO_PARAM_COUNT + CLASSIC_PHASER_PARAM_COUNT, 10);
}
