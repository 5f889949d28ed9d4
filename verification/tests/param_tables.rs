use sonido_effects::params::{ParamId, ParamInfo, ParamScale, ParamUnit, SmoothingStyle, StepLabels};
use sonido_effects::params::multiband_comp::{MultibandCompParamTable, MULTIBAND_COMP_PARAM_COUNT};
use sonido_effects::params::phaser::{PhaserParamTable, PHASER_PARAM_COUNT};
use sonido_effects::params::plate_reverb::{PlateReverbParamTable, PLATE_REVERB_PARAM_COUNT};
use sonido_effects::params::preamp::{PreampParamTable, PREAMP_PARAM_COUNT};
use sonido_effects::params::reverb::{ReverbParamTable, REVERB_PARAM_COUNT};
use sonido_effects::params::ringmod::{RingModParamTable, RINGMOD_PARAM_COUNT};
use sonido_effects::params::shelving_eq::{ShelvingEqParamTable, SHELVING_EQ_PARAM_COUNT};
use sonido_effects::params::spring_reverb::{SpringReverbParamTable, SPRING_REVERB_PARAM_COUNT};
use sonido_effects::params::stage::{StageParamTable, STAGE_PARAM_COUNT};
use sonido_effects::params::stereo_widener::{StereoWidenerParamTable, STEREO_WIDENER_PARAM_COUNT};
use sonido_effects::params::tape::{TapeParamTable, TAPE_PARAM_COUNT};
use sonido_effects::params::texture::{TextureParamTable, TEXTURE_PARAM_COUNT};
use sonido_effects::params::time_stretch::{TimeStretchParamTable, TIME_STRETCH_PARAM_COUNT};
use sonido_effects::params::transient_shaper::{TransientShaperParamTable, TRANSIENT_SHAPER_PARAM_COUNT};
use sonido_effects::params::tremolo::{TremoloParamTable, TREMOLO_PARAM_COUNT};
use sonido_effects::params::tuner::{TunerParamTable, TUNER_PARAM_COUNT};
use sonido_effects::params::wah::{WahParamTable, WAH_PARAM_COUNT};
use sonido_effects::params::limiter::{LimiterParamTable, LIMITER_PARAM_COUNT};

fn range_f32(d: &ParamInfo) -> Option<(f32, f32, f32)> {
    d.range.map(|r| (f32::from_bits(r.min), f32::from_bits(r.max), f32::from_bits(r.default)))
}

fn check_range(d: ParamInfo) {
    if let Some((min, max, default)) = range_f32(&d) {
        assert!(min <= default && default <= max, "{}: {min} {default} {max}", d.string_id);
    }
    if let Some(step) = d.step {
        assert!(f32::from_bits(step) > 0.0);
    }
}

#[test]
fn multiband_comp_params_descriptor_count() {
    assert_eq!(MULTIBAND_COMP_PARAM_COUNT, 12);
    assert_eq!(MultibandCompParamTable::count(), 12);
    for i in 0..MULTIBAND_COMP_PARAM_COUNT {
        assert!(MultibandCompParamTable::descriptor(i).is_some(), "Missing descriptor at index {i}");
    }
    assert!(MultibandCompParamTable::descriptor(MULTIBAND_COMP_PARAM_COUNT).is_none());
}

#[test]
fn multiband_comp_descriptor_entries() {
    let d = MultibandCompParamTable::descriptor(0).unwrap();
    assert_eq!(d.id, ParamId(2600));
    assert_eq!(d.string_id, "mbc_xover_low");
    assert_eq!((d.stepped, d.read_only), (false, false));
    assert_eq!(d.name, Some("Low Xover"));
    assert_eq!(d.short_name, Some("Lo Xvr"));
    assert_eq!(range_f32(&d), Some((100.0f32, 1000.0f32, 250.0f32)));
    assert_eq!(d.step.map(f32::from_bits), Some(1.0f32));
    let d = MultibandCompParamTable::descriptor(1).unwrap();
    assert_eq!(d.id, ParamId(2601));
    assert_eq!(d.string_id, "mbc_xover_high");
    assert_eq!((d.stepped, d.read_only), (false, false));
    assert_eq!(d.name, Some("High Xover"));
    assert_eq!(d.short_name, Some("Hi Xvr"));
    assert_eq!(range_f32(&d), Some((1000.0f32, 10000.0f32, 3000.0f32)));
    assert_eq!(d.step.map(f32::from_bits), Some(1.0f32));
    let d = MultibandCompParamTable::descriptor(2).unwrap();
    assert_eq!(d.id, ParamId(2602));
    assert_eq!(d.string_id, "mbc_low_thresh");
    assert_eq!((d.stepped, d.read_only), (false, false));
    assert_eq!(d.name, Some("Low Thresh"));
    assert_eq!(d.short_name, Some("Lo Thr"));
    assert_eq!(range_f32(&d), Some((-60.0f32, 0.0f32, -20.0f32)));
    assert_eq!(d.step.map(f32::from_bits), None);
    let d = MultibandCompParamTable::descriptor(3).unwrap();
    assert_eq!(d.id, ParamId(2603));
    assert_eq!(d.string_id, "mbc_low_ratio");
    assert_eq!((d.stepped, d.read_only), (false, false));
    assert_eq!(d.name, Some("Low Ratio"));
    assert_eq!(d.short_name, Some("Lo Rat"));
    assert_eq!(range_f32(&d), Some((1.0f32, 20.0f32, 4.0f32)));
    assert_eq!(d.step.map(f32::from_bits), Some(0.1f32));
    let d = MultibandCompParamTable::descriptor(4).unwrap();
    assert_eq!(d.id, ParamId(2604));
    assert_eq!(d.string_id, "mbc_mid_thresh");
    assert_eq!((d.stepped, d.read_only), (false, false));
    assert_eq!(d.name, Some("Mid Thresh"));
    assert_eq!(d.short_name, Some("Md Thr"));
    assert_eq!(range_f32(&d), Some((-60.0f32, 0.0f32, -20.0f32)));
    assert_eq!(d.step.map(f32::from_bits), None);
    let d = MultibandCompParamTable::descriptor(5).unwrap();
    assert_eq!(d.id, ParamId(2605));
    assert_eq!(d.string_id, "mbc_mid_ratio");
    assert_eq!((d.stepped, d.read_only), (false, false));
    assert_eq!(d.name, Some("Mid Ratio"));
    assert_eq!(d.short_name, Some("Md Rat"));
    assert_eq!(range_f32(&d), Some((1.0f32, 20.0f32, 4.0f32)));
    assert_eq!(d.step.map(f32::from_bits), Some(0.1f32));
    let d = MultibandCompParamTable::descriptor(6).unwrap();
    assert_eq!(d.id, ParamId(2606));
    assert_eq!(d.string_id, "mbc_high_thresh");
    assert_eq!((d.stepped, d.read_only), (false, false));
    assert_eq!(d.name, Some("High Thresh"));
    assert_eq!(d.short_name, Some("Hi Thr"));
    assert_eq!(range_f32(&d), Some((-60.0f32, 0.0f32, -20.0f32)));
    assert_eq!(d.step.map(f32::from_bits), None);
    let d = MultibandCompParamTable::descriptor(7).unwrap();
    assert_eq!(d.id, ParamId(2607));
    assert_eq!(d.string_id, "mbc_high_ratio");
    assert_eq!((d.stepped, d.read_only), (false, false));
    assert_eq!(d.name, Some("High Ratio"));
    assert_eq!(d.short_name, Some("Hi Rat"));
    assert_eq!(range_f32(&d), Some((1.0f32, 20.0f32, 4.0f32)));
    assert_eq!(d.step.map(f32::from_bits), Some(0.1f32));
    let d = MultibandCompParamTable::descriptor(8).unwrap();
    assert_eq!(d.id, ParamId(2608));
    assert_eq!(d.string_id, "mbc_low_gain");
    assert_eq!((d.stepped, d.read_only), (false, false));
    assert_eq!(d.name, Some("Low Gain"));
    assert_eq!(d.short_name, Some("Lo Gain"));
    assert_eq!(range_f32(&d), Some((-12.0f32, 12.0f32, 0.0f32)));
    assert_eq!(d.step.map(f32::from_bits), None);
    let d = MultibandCompParamTable::descriptor(9).unwrap();
    assert_eq!(d.id, ParamId(2609));
    assert_eq!(d.string_id, "mbc_mid_gain");
    assert_eq!((d.stepped, d.read_only), (false, false));
    assert_eq!(d.name, Some("Mid Gain"));
    assert_eq!(d.short_name, Some("Md Gain"));
    assert_eq!(range_f32(&d), Some((-12.0f32, 12.0f32, 0.0f32)));
    assert_eq!(d.step.map(f32::from_bits), None);
    let d = MultibandCompParamTable::descriptor(10).unwrap();
    assert_eq!(d.id, ParamId(2610));
    assert_eq!(d.string_id, "mbc_high_gain");
    assert_eq!((d.stepped, d.read_only), (false, false));
    assert_eq!(d.name, Some("High Gain"));
    assert_eq!(d.short_name, Some("Hi Gain"));
    assert_eq!(range_f32(&d), Some((-12.0f32, 12.0f32, 0.0f32)));
    assert_eq!(d.step.map(f32::from_bits), None);
    let d = MultibandCompParamTable::descriptor(11).unwrap();
    assert_eq!(d.id, ParamId(2611));
    assert_eq!(d.string_id, "mbc_output");
    assert_eq!((d.stepped, d.read_only), (false, false));
    assert_eq!(d.name, Some("Output"));
    assert_eq!(d.short_name, None);
    assert_eq!(range_f32(&d), None);
    assert_eq!(d.step.map(f32::from_bits), None);
}

#[test]
fn multiband_comp_default_values() {
    assert_eq!(MultibandCompParamTable::default_value(0).map(f32::from_bits), Some(250.0f32)); // xover_low_hz
    assert_eq!(MultibandCompParamTable::default_value(1).map(f32::from_bits), Some(3000.0f32)); // xover_high_hz
    assert_eq!(MultibandCompParamTable::default_value(2).map(f32::from_bits), Some(-20.0f32)); // low_thresh_db
    assert_eq!(MultibandCompParamTable::default_value(3).map(f32::from_bits), Some(4.0f32)); // low_ratio
    assert_eq!(MultibandCompParamTable::default_value(4).map(f32::from_bits), Some(-20.0f32)); // mid_thresh_db
    assert_eq!(MultibandCompParamTable::default_value(5).map(f32::from_bits), Some(4.0f32)); // mid_ratio
    assert_eq!(MultibandCompParamTable::default_value(6).map(f32::from_bits), Some(-20.0f32)); // high_thresh_db
    assert_eq!(MultibandCompParamTable::default_value(7).map(f32::from_bits), Some(4.0f32)); // high_ratio
    assert_eq!(MultibandCompParamTable::default_value(8).map(f32::from_bits), Some(0.0f32)); // low_gain_db
    assert_eq!(MultibandCompParamTable::default_value(9).map(f32::from_bits), Some(0.0f32)); // mid_gain_db
    assert_eq!(MultibandCompParamTable::default_value(10).map(f32::from_bits), Some(0.0f32)); // high_gain_db
    assert_eq!(MultibandCompParamTable::default_value(11).map(f32::from_bits), Some(0.0f32)); // output_db
    assert_eq!(MultibandCompParamTable::default_value(12), None);
    for i in 0..MULTIBAND_COMP_PARAM_COUNT {
        if let Some(r) = MultibandCompParamTable::descriptor(i).unwrap().range {
            assert_eq!(Some(r.default), MultibandCompParamTable::default_value(i));
        }
    }
}

#[test]
fn multiband_comp_smoothing_styles() {
    assert_eq!(MultibandCompParamTable::smoothing(0), SmoothingStyle::Slow);
    assert_eq!(MultibandCompParamTable::smoothing(1), SmoothingStyle::Slow);
    assert_eq!(MultibandCompParamTable::smoothing(2), SmoothingStyle::Standard);
    assert_eq!(MultibandCompParamTable::smoothing(3), SmoothingStyle::Standard);
    assert_eq!(MultibandCompParamTable::smoothing(4), SmoothingStyle::Standard);
    assert_eq!(MultibandCompParamTable::smoothing(5), SmoothingStyle::Standard);
    assert_eq!(MultibandCompParamTable::smoothing(6), SmoothingStyle::Standard);
    assert_eq!(MultibandCompParamTable::smoothing(7), SmoothingStyle::Standard);
    assert_eq!(MultibandCompParamTable::smoothing(8), SmoothingStyle::Standard);
    assert_eq!(MultibandCompParamTable::smoothing(9), SmoothingStyle::Standard);
    assert_eq!(MultibandCompParamTable::smoothing(10), SmoothingStyle::Standard);
    assert_eq!(MultibandCompParamTable::smoothing(11), SmoothingStyle::Fast);
    assert_eq!(MultibandCompParamTable::smoothing(12), SmoothingStyle::Standard);
    assert_eq!(MultibandCompParamTable::smoothing(usize::MAX), SmoothingStyle::Standard);
}

#[test]
fn phaser_params_descriptor_count() {
    assert_eq!(PHASER_PARAM_COUNT, 10);
    assert_eq!(PhaserParamTable::count(), 10);
    for i in 0..PHASER_PARAM_COUNT {
        assert!(PhaserParamTable::descriptor(i).is_some(), "Missing descriptor at index {i}");
    }
    assert!(PhaserParamTable::descriptor(PHASER_PARAM_COUNT).is_none());
}

#[test]
fn phaser_descriptor_entries() {
    let d = PhaserParamTable::descriptor(0).unwrap();
    assert_eq!(d.id, ParamId(900));
    assert_eq!(d.string_id, "phsr_rate");
    assert_eq!((d.stepped, d.read_only), (false, false));
    assert_eq!(d.name, Some("Rate"));
    assert_eq!(d.short_name, None);
    assert_eq!(range_f32(&d), Some((0.05f32, 5.0f32, 0.3f32)));
    assert_eq!(d.step.map(f32::from_bits), None);
    let d = PhaserParamTable::descriptor(1).unwrap();
    assert_eq!(d.id, ParamId(901));
    assert_eq!(d.string_id, "phsr_depth");
    assert_eq!((d.stepped, d.read_only), (false, false));
    assert_eq!(d.name, None);
    assert_eq!(d.short_name, None);
    assert_eq!(range_f32(&d), None);
    assert_eq!(d.step.map(f32::from_bits), None);
    let d = PhaserParamTable::descriptor(2).unwrap();
    assert_eq!(d.id, ParamId(902));
    assert_eq!(d.string_id, "phsr_stages");
    assert_eq!((d.stepped, d.read_only), (true, false));
    assert_eq!(d.name, Some("Stages"));
    assert_eq!(d.short_name, Some("Stg"));
    assert_eq!(range_f32(&d), Some((2.0f32, 12.0f32, 6.0f32)));
    assert_eq!(d.step.map(f32::from_bits), Some(2.0f32));
    let d = PhaserParamTable::descriptor(3).unwrap();
    assert_eq!(d.id, ParamId(903));
    assert_eq!(d.string_id, "phsr_feedback");
    assert_eq!((d.stepped, d.read_only), (false, false));
    assert_eq!(d.name, Some("Feedback"));
    assert_eq!(d.short_name, None);
    assert_eq!(range_f32(&d), Some((0.0f32, 95.0f32, 50.0f32)));
    assert_eq!(d.step.map(f32::from_bits), None);
    let d = PhaserParamTable::descriptor(4).unwrap();
    assert_eq!(d.id, ParamId(904));
    assert_eq!(d.string_id, "phsr_mix");
    assert_eq!((d.stepped, d.read_only), (false, false));
    assert_eq!(d.name, None);
    assert_eq!(d.short_name, None);
    assert_eq!(range_f32(&d), None);
    assert_eq!(d.step.map(f32::from_bits), None);
    let d = PhaserParamTable::descriptor(5).unwrap();
    assert_eq!(d.id, ParamId(906));
    assert_eq!(d.string_id, "phsr_min_freq");
    assert_eq!((d.stepped, d.read_only), (false, false));
    assert_eq!(d.name, Some("Min Freq"));
    assert_eq!(d.short_name, Some("MinF"));
    assert_eq!(range_f32(&d), Some((20.0f32, 2000.0f32, 200.0f32)));
    assert_eq!(d.step.map(f32::from_bits), None);
    let d = PhaserParamTable::descriptor(6).unwrap();
    assert_eq!(d.id, ParamId(907));
    assert_eq!(d.string_id, "phsr_max_freq");
    assert_eq!((d.stepped, d.read_only), (false, false));
    assert_eq!(d.name, Some("Max Freq"));
    assert_eq!(d.short_name, Some("MaxF"));
    assert_eq!(range_f32(&d), Some((200.0f32, 20000.0f32, 4000.0f32)));
    assert_eq!(d.step.map(f32::from_bits), None);
    let d = PhaserParamTable::descriptor(7).unwrap();
    assert_eq!(d.id, ParamId(908));
    assert_eq!(d.string_id, "phsr_sync");
    assert_eq!((d.stepped, d.read_only), (true, false));
    assert_eq!(d.name, Some("Sync"));
    assert_eq!(d.short_name, Some("Sync"));
    assert_eq!(range_f32(&d), Some((0.0f32, 1.0f32, 0.0f32)));
    assert_eq!(d.step.map(f32::from_bits), Some(1.0f32));
    let d = PhaserParamTable::descriptor(8).unwrap();
    assert_eq!(d.id, ParamId(909));
    assert_eq!(d.string_id, "phsr_division");
    assert_eq!((d.stepped, d.read_only), (true, false));
    assert_eq!(d.name, Some("Division"));
    assert_eq!(d.short_name, Some("Div"));
    assert_eq!(range_f32(&d), Some((0.0f32, 11.0f32, 3.0f32)));
    assert_eq!(d.step.map(f32::from_bits), Some(1.0f32));
    let d = PhaserParamTable::descriptor(9).unwrap();
    assert_eq!(d.id, ParamId(905));
    assert_eq!(d.string_id, "phsr_output");
    assert_eq!((d.stepped, d.read_only), (false, false));
    assert_eq!(d.name, Some("Output"));
    assert_eq!(d.short_name, None);
    assert_eq!(range_f32(&d), None);
    assert_eq!(d.step.map(f32::from_bits), None);
}

#[test]
fn phaser_default_values() {
    assert_eq!(PhaserParamTable::default_value(0).map(f32::from_bits), Some(0.3f32)); // rate
    assert_eq!(PhaserParamTable::default_value(1).map(f32::from_bits), Some(50.0f32)); // depth_pct
    assert_eq!(PhaserParamTable::default_value(2).map(f32::from_bits), Some(6.0f32)); // stages
    assert_eq!(PhaserParamTable::default_value(3).map(f32::from_bits), Some(50.0f32)); // feedback_pct
    assert_eq!(PhaserParamTable::default_value(4).map(f32::from_bits), Some(50.0f32)); // mix_pct
    assert_eq!(PhaserParamTable::default_value(5).map(f32::from_bits), Some(200.0f32)); // min_freq
    assert_eq!(PhaserParamTable::default_value(6).map(f32::from_bits), Some(4000.0f32)); // max_freq
    assert_eq!(PhaserParamTable::default_value(7).map(f32::from_bits), Some(0.0f32)); // sync
    assert_eq!(PhaserParamTable::default_value(8).map(f32::from_bits), Some(3.0f32)); // division
    assert_eq!(PhaserParamTable::default_value(9).map(f32::from_bits), Some(0.0f32)); // output_db
    assert_eq!(PhaserParamTable::default_value(10), None);
    for i in 0..PHASER_PARAM_COUNT {
        if let Some(r) = PhaserParamTable::descriptor(i).unwrap().range {
            assert_eq!(Some(r.default), PhaserParamTable::default_value(i));
        }
    }
}

#[test]
fn phaser_smoothing_styles() {
    assert_eq!(PhaserParamTable::smoothing(0), SmoothingStyle::Standard);
    assert_eq!(PhaserParamTable::smoothing(1), SmoothingStyle::Standard);
    assert_eq!(PhaserParamTable::smoothing(2), SmoothingStyle::Snap);
    assert_eq!(PhaserParamTable::smoothing(3), SmoothingStyle::Standard);
    assert_eq!(PhaserParamTable::smoothing(4), SmoothingStyle::Standard);
    assert_eq!(PhaserParamTable::smoothing(5), SmoothingStyle::Slow);
    assert_eq!(PhaserParamTable::smoothing(6), SmoothingStyle::Slow);
    assert_eq!(PhaserParamTable::smoothing(7), SmoothingStyle::Snap);
    assert_eq!(PhaserParamTable::smoothing(8), SmoothingStyle::Snap);
    assert_eq!(PhaserParamTable::smoothing(9), SmoothingStyle::Standard);
    assert_eq!(PhaserParamTable::smoothing(10), SmoothingStyle::Standard);
    assert_eq!(PhaserParamTable::smoothing(usize::MAX), SmoothingStyle::Standard);
}

#[test]
fn plate_reverb_params_descriptor_count() {
    assert_eq!(PLATE_REVERB_PARAM_COUNT, 8);
    assert_eq!(PlateReverbParamTable::count(), 8);
    for i in 0..PLATE_REVERB_PARAM_COUNT {
        assert!(PlateReverbParamTable::descriptor(i).is_some(), "Missing descriptor at index {i}");
    }
    assert!(PlateReverbParamTable::descriptor(PLATE_REVERB_PARAM_COUNT).is_none());
}

#[test]
fn plate_reverb_descriptor_entries() {
    let d = PlateReverbParamTable::descriptor(0).unwrap();
    assert_eq!(d.id, ParamId(2700));
    assert_eq!(d.string_id, "plate_decay");
    assert_eq!((d.stepped, d.read_only), (false, false));
    assert_eq!(d.name, Some("Decay"));
    assert_eq!(d.short_name, Some("Decay"));
    assert_eq!(range_f32(&d), Some((0.1f32, 10.0f32, 2.0f32)));
    assert_eq!(d.step.map(f32::from_bits), None);
    let d = PlateReverbParamTable::descriptor(1).unwrap();
    assert_eq!(d.id, ParamId(2701));
    assert_eq!(d.string_id, "plate_damping");
    assert_eq!((d.stepped, d.read_only), (false, false));
    assert_eq!(d.name, Some("Damping"));
    assert_eq!(d.short_name, Some("Damp"));
    assert_eq!(range_f32(&d), Some((0.0f32, 100.0f32, 50.0f32)));
    assert_eq!(d.step.map(f32::from_bits), Some(1.0f32));
    let d = PlateReverbParamTable::descriptor(2).unwrap();
    assert_eq!(d.id, ParamId(2702));
    assert_eq!(d.string_id, "plate_predelay");
    assert_eq!((d.stepped, d.read_only), (false, false));
    assert_eq!(d.name, Some("Pre-Delay"));
    assert_eq!(d.short_name, Some("PreDly"));
    assert_eq!(range_f32(&d), Some((0.0f32, 100.0f32, 20.0f32)));
    assert_eq!(d.step.map(f32::from_bits), Some(1.0f32));
    let d = PlateReverbParamTable::descriptor(3).unwrap();
    assert_eq!(d.id, ParamId(2703));
    assert_eq!(d.string_id, "plate_bandwidth");
    assert_eq!((d.stepped, d.read_only), (false, false));
    assert_eq!(d.name, Some("Bandwidth"));
    assert_eq!(d.short_name, Some("BW"));
    assert_eq!(range_f32(&d), Some((0.0f32, 100.0f32, 80.0f32)));
    assert_eq!(d.step.map(f32::from_bits), Some(1.0f32));
    let d = PlateReverbParamTable::descriptor(4).unwrap();
    assert_eq!(d.id, ParamId(2704));
    assert_eq!(d.string_id, "plate_diffusion");
    assert_eq!((d.stepped, d.read_only), (false, false));
    assert_eq!(d.name, Some("Diffusion"));
    assert_eq!(d.short_name, Some("Diff"));
    assert_eq!(range_f32(&d), Some((0.0f32, 100.0f32, 70.0f32)));
    assert_eq!(d.step.map(f32::from_bits), Some(1.0f32));
    let d = PlateReverbParamTable::descriptor(5).unwrap();
    assert_eq!(d.id, ParamId(2705));
    assert_eq!(d.string_id, "plate_size");
    assert_eq!((d.stepped, d.read_only), (false, false));
    assert_eq!(d.name, Some("Size"));
    assert_eq!(d.short_name, Some("Size"));
    assert_eq!(range_f32(&d), Some((0.0f32, 100.0f32, 50.0f32)));
    assert_eq!(d.step.map(f32::from_bits), Some(1.0f32));
    let d = PlateReverbParamTable::descriptor(6).unwrap();
    assert_eq!(d.id, ParamId(2706));
    assert_eq!(d.string_id, "plate_mix");
    assert_eq!((d.stepped, d.read_only), (false, false));
    assert_eq!(d.name, None);
    assert_eq!(d.short_name, None);
    assert_eq!(range_f32(&d), None);
    assert_eq!(d.step.map(f32::from_bits), None);
    let d = PlateReverbParamTable::descriptor(7).unwrap();
    assert_eq!(d.id, ParamId(2707));
    assert_eq!(d.string_id, "plate_output");
    assert_eq!((d.stepped, d.read_only), (false, false));
    assert_eq!(d.name, Some("Output"));
    assert_eq!(d.short_name, None);
    assert_eq!(range_f32(&d), None);
    assert_eq!(d.step.map(f32::from_bits), None);
}

#[test]
fn plate_reverb_default_values() {
    assert_eq!(PlateReverbParamTable::default_value(0).map(f32::from_bits), Some(2.0f32)); // decay_s
    assert_eq!(PlateReverbParamTable::default_value(1).map(f32::from_bits), Some(50.0f32)); // damping_pct
    assert_eq!(PlateReverbParamTable::default_value(2).map(f32::from_bits), Some(20.0f32)); // predelay_ms
    assert_eq!(PlateReverbParamTable::default_value(3).map(f32::from_bits), Some(80.0f32)); // bandwidth_pct
    assert_eq!(PlateReverbParamTable::default_value(4).map(f32::from_bits), Some(70.0f32)); // diffusion_pct
    assert_eq!(PlateReverbParamTable::default_value(5).map(f32::from_bits), Some(50.0f32)); // size_pct
    assert_eq!(PlateReverbParamTable::default_value(6).map(f32::from_bits), Some(30.0f32)); // mix_pct
    assert_eq!(PlateReverbParamTable::default_value(7).map(f32::from_bits), Some(0.0f32)); // output_db
    assert_eq!(PlateReverbParamTable::default_value(8), None);
    for i in 0..PLATE_REVERB_PARAM_COUNT {
        if let Some(r) = PlateReverbParamTable::descriptor(i).unwrap().range {
            assert_eq!(Some(r.default), PlateReverbParamTable::default_value(i));
        }
    }
}

#[test]
fn plate_reverb_smoothing_styles() {
    assert_eq!(PlateReverbParamTable::smoothing(0), SmoothingStyle::Slow);
    assert_eq!(PlateReverbParamTable::smoothing(1), SmoothingStyle::Slow);
    assert_eq!(PlateReverbParamTable::smoothing(2), SmoothingStyle::Interpolated);
    assert_eq!(PlateReverbParamTable::smoothing(3), SmoothingStyle::Slow);
    assert_eq!(PlateReverbParamTable::smoothing(4), SmoothingStyle::Standard);
    assert_eq!(PlateReverbParamTable::smoothing(5), SmoothingStyle::Slow);
    assert_eq!(PlateReverbParamTable::smoothing(6), SmoothingStyle::Standard);
    assert_eq!(PlateReverbParamTable::smoothing(7), SmoothingStyle::Fast);
    assert_eq!(PlateReverbParamTable::smoothing(8), SmoothingStyle::Standard);
    assert_eq!(PlateReverbParamTable::smoothing(usize::MAX), SmoothingStyle::Standard);
}

#[test]
fn preamp_params_descriptor_count() {
    assert_eq!(PREAMP_PARAM_COUNT, 3);
    assert_eq!(PreampParamTable::count(), 3);
    for i in 0..PREAMP_PARAM_COUNT {
        assert!(PreampParamTable::descriptor(i).is_some(), "Missing descriptor at index {i}");
    }
    assert!(PreampParamTable::descriptor(PREAMP_PARAM_COUNT).is_none());
}

#[test]
fn preamp_descriptor_entries() {
    let d = PreampParamTable::descriptor(0).unwrap();
    assert_eq!(d.id, ParamId(100));
    assert_eq!(d.string_id, "pre_gain");
    assert_eq!((d.stepped, d.read_only), (false, false));
    assert_eq!(d.name, Some("Gain"));
    assert_eq!(d.short_name, Some("Gain"));
    assert_eq!(range_f32(&d), Some((0.0f32, 40.0f32, 0.0f32)));
    assert_eq!(d.step.map(f32::from_bits), None);
    let d = PreampParamTable::descriptor(1).unwrap();
    assert_eq!(d.id, ParamId(101));
    assert_eq!(d.string_id, "pre_tone");
    assert_eq!((d.stepped, d.read_only), (false, false));
    assert_eq!(d.name, Some("Tone"));
    assert_eq!(d.short_name, Some("Tone"));
    assert_eq!(range_f32(&d), Some((-12.0f32, 12.0f32, 0.0f32)));
    assert_eq!(d.step.map(f32::from_bits), Some(0.5f32));
    let d = PreampParamTable::descriptor(2).unwrap();
    assert_eq!(d.id, ParamId(102));
    assert_eq!(d.string_id, "pre_output");
    assert_eq!((d.stepped, d.read_only), (false, false));
    assert_eq!(d.name, Some("Output"));
    assert_eq!(d.short_name, None);
    assert_eq!(range_f32(&d), None);
    assert_eq!(d.step.map(f32::from_bits), None);
}

#[test]
fn preamp_default_values() {
    assert_eq!(PreampParamTable::default_value(0).map(f32::from_bits), Some(0.0f32)); // gain_db
    assert_eq!(PreampParamTable::default_value(1).map(f32::from_bits), Some(0.0f32)); // tone_db
    assert_eq!(PreampParamTable::default_value(2).map(f32::from_bits), Some(0.0f32)); // output_db
    assert_eq!(PreampParamTable::default_value(3), None);
    for i in 0..PREAMP_PARAM_COUNT {
        if let Some(r) = PreampParamTable::descriptor(i).unwrap().range {
            assert_eq!(Some(r.default), PreampParamTable::default_value(i));
        }
    }
}

#[test]
fn preamp_smoothing_styles() {
    assert_eq!(PreampParamTable::smoothing(0), SmoothingStyle::Standard);
    assert_eq!(PreampParamTable::smoothing(1), SmoothingStyle::Slow);
    assert_eq!(PreampParamTable::smoothing(2), SmoothingStyle::Standard);
    assert_eq!(PreampParamTable::smoothing(3), SmoothingStyle::Standard);
    assert_eq!(PreampParamTable::smoothing(usize::MAX), SmoothingStyle::Standard);
}

#[test]
fn reverb_params_descriptor_count() {
    assert_eq!(REVERB_PARAM_COUNT, 8);
    assert_eq!(ReverbParamTable::count(), 8);
    for i in 0..REVERB_PARAM_COUNT {
        assert!(ReverbParamTable::descriptor(i).is_some(), "Missing descriptor at index {i}");
    }
    assert!(ReverbParamTable::descriptor(REVERB_PARAM_COUNT).is_none());
}

#[test]
fn reverb_descriptor_entries() {
    let d = ReverbParamTable::descriptor(0).unwrap();
    assert_eq!(d.id, ParamId(1500));
    assert_eq!(d.string_id, "rev_room_size");
    assert_eq!((d.stepped, d.read_only), (false, false));
    assert_eq!(d.name, Some("Room Size"));
    assert_eq!(d.short_name, Some("Room"));
    assert_eq!(range_f32(&d), Some((0.0f32, 100.0f32, 50.0f32)));
    assert_eq!(d.step.map(f32::from_bits), Some(1.0f32));
    let d = ReverbParamTable::descriptor(1).unwrap();
    assert_eq!(d.id, ParamId(1501));
    assert_eq!(d.string_id, "rev_decay");
    assert_eq!((d.stepped, d.read_only), (false, false));
    assert_eq!(d.name, Some("Decay"));
    assert_eq!(d.short_name, Some("Decay"));
    assert_eq!(range_f32(&d), Some((0.0f32, 100.0f32, 50.0f32)));
    assert_eq!(d.step.map(f32::from_bits), Some(1.0f32));
    let d = ReverbParamTable::descriptor(2).unwrap();
    assert_eq!(d.id, ParamId(1502));
    assert_eq!(d.string_id, "rev_damping");
    assert_eq!((d.stepped, d.read_only), (false, false));
    assert_eq!(d.name, Some("Damping"));
    assert_eq!(d.short_name, Some("Damping"));
    assert_eq!(range_f32(&d), Some((0.0f32, 100.0f32, 50.0f32)));
    assert_eq!(d.step.map(f32::from_bits), Some(1.0f32));
    let d = ReverbParamTable::descriptor(3).unwrap();
    assert_eq!(d.id, ParamId(1503));
    assert_eq!(d.string_id, "rev_predelay");
    assert_eq!((d.stepped, d.read_only), (false, false));
    assert_eq!(d.name, Some("Pre-Delay"));
    assert_eq!(d.short_name, Some("PreDly"));
    assert_eq!(range_f32(&d), Some((0.0f32, 100.0f32, 10.0f32)));
    assert_eq!(d.step.map(f32::from_bits), Some(1.0f32));
    let d = ReverbParamTable::descriptor(4).unwrap();
    assert_eq!(d.id, ParamId(1504));
    assert_eq!(d.string_id, "rev_mix");
    assert_eq!((d.stepped, d.read_only), (false, false));
    assert_eq!(d.name, None);
    assert_eq!(d.short_name, None);
    assert_eq!(range_f32(&d), None);
    assert_eq!(d.step.map(f32::from_bits), None);
    let d = ReverbParamTable::descriptor(5).unwrap();
    assert_eq!(d.id, ParamId(1505));
    assert_eq!(d.string_id, "rev_width");
    assert_eq!((d.stepped, d.read_only), (false, false));
    assert_eq!(d.name, Some("Stereo Width"));
    assert_eq!(d.short_name, Some("Width"));
    assert_eq!(range_f32(&d), Some((0.0f32, 100.0f32, 100.0f32)));
    assert_eq!(d.step.map(f32::from_bits), Some(1.0f32));
    let d = ReverbParamTable::descriptor(6).unwrap();
    assert_eq!(d.id, ParamId(1508));
    assert_eq!(d.string_id, "rev_er_level");
    assert_eq!((d.stepped, d.read_only), (false, false));
    assert_eq!(d.name, Some("ER Level"));
    assert_eq!(d.short_name, Some("ER Lvl"));
    assert_eq!(range_f32(&d), Some((0.0f32, 100.0f32, 50.0f32)));
    assert_eq!(d.step.map(f32::from_bits), Some(1.0f32));
    let d = ReverbParamTable::descriptor(7).unwrap();
    assert_eq!(d.id, ParamId(1507));
    assert_eq!(d.string_id, "rev_output");
    assert_eq!((d.stepped, d.read_only), (false, false));
    assert_eq!(d.name, Some("Output"));
    assert_eq!(d.short_name, None);
    assert_eq!(range_f32(&d), None);
    assert_eq!(d.step.map(f32::from_bits), None);
}

#[test]
fn reverb_default_values() {
    assert_eq!(ReverbParamTable::default_value(0).map(f32::from_bits), Some(50.0f32)); // room_size_pct
    assert_eq!(ReverbParamTable::default_value(1).map(f32::from_bits), Some(50.0f32)); // decay_pct
    assert_eq!(ReverbParamTable::default_value(2).map(f32::from_bits), Some(50.0f32)); // damping_pct
    assert_eq!(ReverbParamTable::default_value(3).map(f32::from_bits), Some(10.0f32)); // predelay_ms
    assert_eq!(ReverbParamTable::default_value(4).map(f32::from_bits), Some(50.0f32)); // mix_pct
    assert_eq!(ReverbParamTable::default_value(5).map(f32::from_bits), Some(100.0f32)); // width_pct
    assert_eq!(ReverbParamTable::default_value(6).map(f32::from_bits), Some(50.0f32)); // er_level_pct
    assert_eq!(ReverbParamTable::default_value(7).map(f32::from_bits), Some(0.0f32)); // output_db
    assert_eq!(ReverbParamTable::default_value(8), None);
    for i in 0..REVERB_PARAM_COUNT {
        if let Some(r) = ReverbParamTable::descriptor(i).unwrap().range {
            assert_eq!(Some(r.default), ReverbParamTable::default_value(i));
        }
    }
}

#[test]
fn reverb_smoothing_styles() {
    assert_eq!(ReverbParamTable::smoothing(0), SmoothingStyle::Slow);
    assert_eq!(ReverbParamTable::smoothing(1), SmoothingStyle::Slow);
    assert_eq!(ReverbParamTable::smoothing(2), SmoothingStyle::Slow);
    assert_eq!(ReverbParamTable::smoothing(3), SmoothingStyle::Interpolated);
    assert_eq!(ReverbParamTable::smoothing(4), SmoothingStyle::Standard);
    assert_eq!(ReverbParamTable::smoothing(5), SmoothingStyle::Standard);
    assert_eq!(ReverbParamTable::smoothing(6), SmoothingStyle::Standard);
    assert_eq!(ReverbParamTable::smoothing(7), SmoothingStyle::Standard);
    assert_eq!(ReverbParamTable::smoothing(8), SmoothingStyle::Standard);
    assert_eq!(ReverbParamTable::smoothing(usize::MAX), SmoothingStyle::Standard);
}

#[test]
fn ringmod_params_descriptor_count() {
    assert_eq!(RINGMOD_PARAM_COUNT, 5);
    assert_eq!(RingModParamTable::count(), 5);
    for i in 0..RINGMOD_PARAM_COUNT {
        assert!(RingModParamTable::descriptor(i).is_some(), "Missing descriptor at index {i}");
    }
    assert!(RingModParamTable::descriptor(RINGMOD_PARAM_COUNT).is_none());
}

#[test]
fn ringmod_descriptor_entries() {
    let d = RingModParamTable::descriptor(0).unwrap();
    assert_eq!(d.id, ParamId(1800));
    assert_eq!(d.string_id, "ring_freq");
    assert_eq!((d.stepped, d.read_only), (false, false));
    assert_eq!(d.name, Some("Frequency"));
    assert_eq!(d.short_name, Some("Freq"));
    assert_eq!(range_f32(&d), Some((20.0f32, 2000.0f32, 220.0f32)));
    assert_eq!(d.step.map(f32::from_bits), None);
    let d = RingModParamTable::descriptor(1).unwrap();
    assert_eq!(d.id, ParamId(1801));
    assert_eq!(d.string_id, "ring_depth");
    assert_eq!((d.stepped, d.read_only), (false, false));
    assert_eq!(d.name, None);
    assert_eq!(d.short_name, None);
    assert_eq!(range_f32(&d), None);
    assert_eq!(d.step.map(f32::from_bits), None);
    let d = RingModParamTable::descriptor(2).unwrap();
    assert_eq!(d.id, ParamId(1802));
    assert_eq!(d.string_id, "ring_wave");
    assert_eq!((d.stepped, d.read_only), (true, false));
    assert_eq!(d.name, Some("Waveform"));
    assert_eq!(d.short_name, Some("Wave"));
    assert_eq!(range_f32(&d), Some((0.0f32, 2.0f32, 0.0f32)));
    assert_eq!(d.step.map(f32::from_bits), Some(1.0f32));
    let d = RingModParamTable::descriptor(3).unwrap();
    assert_eq!(d.id, ParamId(1803));
    assert_eq!(d.string_id, "ring_mix");
    assert_eq!((d.stepped, d.read_only), (false, false));
    assert_eq!(d.name, None);
    assert_eq!(d.short_name, None);
    assert_eq!(range_f32(&d), None);
    assert_eq!(d.step.map(f32::from_bits), None);
    let d = RingModParamTable::descriptor(4).unwrap();
    assert_eq!(d.id, ParamId(1804));
    assert_eq!(d.string_id, "ring_output");
    assert_eq!((d.stepped, d.read_only), (false, false));
    assert_eq!(d.name, Some("Output"));
    assert_eq!(d.short_name, None);
    assert_eq!(range_f32(&d), None);
    assert_eq!(d.step.map(f32::from_bits), None);
}

#[test]
fn ringmod_default_values() {
    assert_eq!(RingModParamTable::default_value(0).map(f32::from_bits), Some(220.0f32)); // freq_hz
    assert_eq!(RingModParamTable::default_value(1).map(f32::from_bits), Some(100.0f32)); // depth_pct
    assert_eq!(RingModParamTable::default_value(2).map(f32::from_bits), Some(0.0f32)); // waveform
    assert_eq!(RingModParamTable::default_value(3).map(f32::from_bits), Some(50.0f32)); // mix_pct
    assert_eq!(RingModParamTable::default_value(4).map(f32::from_bits), Some(0.0f32)); // output_db
    assert_eq!(RingModParamTable::default_value(5), None);
    for i in 0..RINGMOD_PARAM_COUNT {
        if let Some(r) = RingModParamTable::descriptor(i).unwrap().range {
            assert_eq!(Some(r.default), RingModParamTable::default_value(i));
        }
    }
}

#[test]
fn ringmod_smoothing_styles() {
    assert_eq!(RingModParamTable::smoothing(0), SmoothingStyle::Fast);
    assert_eq!(RingModParamTable::smoothing(1), SmoothingStyle::Standard);
    assert_eq!(RingModParamTable::smoothing(2), SmoothingStyle::Snap);
    assert_eq!(RingModParamTable::smoothing(3), SmoothingStyle::Standard);
    assert_eq!(RingModParamTable::smoothing(4), SmoothingStyle::Standard);
    assert_eq!(RingModParamTable::smoothing(5), SmoothingStyle::Standard);
    assert_eq!(RingModParamTable::smoothing(usize::MAX), SmoothingStyle::Standard);
}

#[test]
fn shelving_eq_params_descriptor_count() {
    assert_eq!(SHELVING_EQ_PARAM_COUNT, 5);
    assert_eq!(ShelvingEqParamTable::count(), 5);
    for i in 0..SHELVING_EQ_PARAM_COUNT {
        assert!(ShelvingEqParamTable::descriptor(i).is_some(), "Missing descriptor at index {i}");
    }
    assert!(ShelvingEqParamTable::descriptor(SHELVING_EQ_PARAM_COUNT).is_none());
}

#[test]
fn shelving_eq_descriptor_entries() {
    let d = ShelvingEqParamTable::descriptor(0).unwrap();
    assert_eq!(d.id, ParamId(2500));
    assert_eq!(d.string_id, "shelf_low_freq");
    assert_eq!((d.stepped, d.read_only), (false, false));
    assert_eq!(d.name, Some("Low Freq"));
    assert_eq!(d.short_name, Some("LowFrq"));
    assert_eq!(range_f32(&d), Some((20.0f32, 500.0f32, 100.0f32)));
    assert_eq!(d.step.map(f32::from_bits), Some(1.0f32));
    let d = ShelvingEqParamTable::descriptor(1).unwrap();
    assert_eq!(d.id, ParamId(2501));
    assert_eq!(d.string_id, "shelf_low_gain");
    assert_eq!((d.stepped, d.read_only), (false, false));
    assert_eq!(d.name, Some("Low Gain"));
    assert_eq!(d.short_name, Some("LowGn"));
    assert_eq!(range_f32(&d), Some((-15.0f32, 15.0f32, 0.0f32)));
    assert_eq!(d.step.map(f32::from_bits), None);
    let d = ShelvingEqParamTable::descriptor(2).unwrap();
    assert_eq!(d.id, ParamId(2502));
    assert_eq!(d.string_id, "shelf_high_freq");
    assert_eq!((d.stepped, d.read_only), (false, false));
    assert_eq!(d.name, Some("High Freq"));
    assert_eq!(d.short_name, Some("HiFrq"));
    assert_eq!(range_f32(&d), Some((1000.0f32, 20000.0f32, 8000.0f32)));
    assert_eq!(d.step.map(f32::from_bits), Some(100.0f32));
    let d = ShelvingEqParamTable::descriptor(3).unwrap();
    assert_eq!(d.id, ParamId(2503));
    assert_eq!(d.string_id, "shelf_high_gain");
    assert_eq!((d.stepped, d.read_only), (false, false));
    assert_eq!(d.name, Some("High Gain"));
    assert_eq!(d.short_name, Some("HiGn"));
    assert_eq!(range_f32(&d), Some((-15.0f32, 15.0f32, 0.0f32)));
    assert_eq!(d.step.map(f32::from_bits), None);
    let d = ShelvingEqParamTable::descriptor(4).unwrap();
    assert_eq!(d.id, ParamId(2504));
    assert_eq!(d.string_id, "shelf_output");
    assert_eq!((d.stepped, d.read_only), (false, false));
    assert_eq!(d.name, Some("Output"));
    assert_eq!(d.short_name, None);
    assert_eq!(range_f32(&d), None);
    assert_eq!(d.step.map(f32::from_bits), None);
}

#[test]
fn shelving_eq_default_values() {
    assert_eq!(ShelvingEqParamTable::default_value(0).map(f32::from_bits), Some(100.0f32)); // low_freq_hz
    assert_eq!(ShelvingEqParamTable::default_value(1).map(f32::from_bits), Some(0.0f32)); // low_gain_db
    assert_eq!(ShelvingEqParamTable::default_value(2).map(f32::from_bits), Some(8000.0f32)); // high_freq_hz
    assert_eq!(ShelvingEqParamTable::default_value(3).map(f32::from_bits), Some(0.0f32)); // high_gain_db
    assert_eq!(ShelvingEqParamTable::default_value(4).map(f32::from_bits), Some(0.0f32)); // output_db
    assert_eq!(ShelvingEqParamTable::default_value(5), None);
    for i in 0..SHELVING_EQ_PARAM_COUNT {
        if let Some(r) = ShelvingEqParamTable::descriptor(i).unwrap().range {
            assert_eq!(Some(r.default), ShelvingEqParamTable::default_value(i));
        }
    }
}

#[test]
fn shelving_eq_smoothing_styles() {
    assert_eq!(ShelvingEqParamTable::smoothing(0), SmoothingStyle::Slow);
    assert_eq!(ShelvingEqParamTable::smoothing(1), SmoothingStyle::Slow);
    assert_eq!(ShelvingEqParamTable::smoothing(2), SmoothingStyle::Slow);
    assert_eq!(ShelvingEqParamTable::smoothing(3), SmoothingStyle::Slow);
    assert_eq!(ShelvingEqParamTable::smoothing(4), SmoothingStyle::Fast);
    assert_eq!(ShelvingEqParamTable::smoothing(5), SmoothingStyle::Standard);
    assert_eq!(ShelvingEqParamTable::smoothing(usize::MAX), SmoothingStyle::Standard);
}

#[test]
fn spring_reverb_params_descriptor_count() {
    assert_eq!(SPRING_REVERB_PARAM_COUNT, 6);
    assert_eq!(SpringReverbParamTable::count(), 6);
    for i in 0..SPRING_REVERB_PARAM_COUNT {
        assert!(SpringReverbParamTable::descriptor(i).is_some(), "Missing descriptor at index {i}");
    }
    assert!(SpringReverbParamTable::descriptor(SPRING_REVERB_PARAM_COUNT).is_none());
}

#[test]
fn spring_reverb_descriptor_entries() {
    let d = SpringReverbParamTable::descriptor(0).unwrap();
    assert_eq!(d.id, ParamId(2800));
    assert_eq!(d.string_id, "spring_decay");
    assert_eq!((d.stepped, d.read_only), (false, false));
    assert_eq!(d.name, Some("Decay"));
    assert_eq!(d.short_name, Some("Decay"));
    assert_eq!(range_f32(&d), Some((0.5f32, 5.0f32, 2.0f32)));
    assert_eq!(d.step.map(f32::from_bits), None);
    let d = SpringReverbParamTable::descriptor(1).unwrap();
    assert_eq!(d.id, ParamId(2801));
    assert_eq!(d.string_id, "spring_tension");
    assert_eq!((d.stepped, d.read_only), (false, false));
    assert_eq!(d.name, Some("Tension"));
    assert_eq!(d.short_name, Some("Tens"));
    assert_eq!(range_f32(&d), Some((0.0f32, 100.0f32, 50.0f32)));
    assert_eq!(d.step.map(f32::from_bits), Some(1.0f32));
    let d = SpringReverbParamTable::descriptor(2).unwrap();
    assert_eq!(d.id, ParamId(2802));
    assert_eq!(d.string_id, "spring_drip");
    assert_eq!((d.stepped, d.read_only), (false, false));
    assert_eq!(d.name, Some("Drip"));
    assert_eq!(d.short_name, Some("Drip"));
    assert_eq!(range_f32(&d), Some((0.0f32, 100.0f32, 40.0f32)));
    assert_eq!(d.step.map(f32::from_bits), Some(1.0f32));
    let d = SpringReverbParamTable::descriptor(3).unwrap();
    assert_eq!(d.id, ParamId(2803));
    assert_eq!(d.string_id, "spring_damping");
    assert_eq!((d.stepped, d.read_only), (false, false));
    assert_eq!(d.name, Some("Damping"));
    assert_eq!(d.short_name, Some("Damp"));
    assert_eq!(range_f32(&d), Some((0.0f32, 100.0f32, 50.0f32)));
    assert_eq!(d.step.map(f32::from_bits), Some(1.0f32));
    let d = SpringReverbParamTable::descriptor(4).unwrap();
    assert_eq!(d.id, ParamId(2804));
    assert_eq!(d.string_id, "spring_mix");
    assert_eq!((d.stepped, d.read_only), (false, false));
    assert_eq!(d.name, None);
    assert_eq!(d.short_name, None);
    assert_eq!(range_f32(&d), None);
    assert_eq!(d.step.map(f32::from_bits), None);
    let d = SpringReverbParamTable::descriptor(5).unwrap();
    assert_eq!(d.id, ParamId(2805));
    assert_eq!(d.string_id, "spring_output");
    assert_eq!((d.stepped, d.read_only), (false, false));
    assert_eq!(d.name, Some("Output"));
    assert_eq!(d.short_name, None);
    assert_eq!(range_f32(&d), None);
    assert_eq!(d.step.map(f32::from_bits), None);
}

#[test]
fn spring_reverb_default_values() {
    assert_eq!(SpringReverbParamTable::default_value(0).map(f32::from_bits), Some(2.0f32)); // decay_s
    assert_eq!(SpringReverbParamTable::default_value(1).map(f32::from_bits), Some(50.0f32)); // tension_pct
    assert_eq!(SpringReverbParamTable::default_value(2).map(f32::from_bits), Some(40.0f32)); // drip_pct
    assert_eq!(SpringReverbParamTable::default_value(3).map(f32::from_bits), Some(50.0f32)); // damping_pct
    assert_eq!(SpringReverbParamTable::default_value(4).map(f32::from_bits), Some(30.0f32)); // mix_pct
    assert_eq!(SpringReverbParamTable::default_value(5).map(f32::from_bits), Some(0.0f32)); // output_db
    assert_eq!(SpringReverbParamTable::default_value(6), None);
    for i in 0..SPRING_REVERB_PARAM_COUNT {
        if let Some(r) = SpringReverbParamTable::descriptor(i).unwrap().range {
            assert_eq!(Some(r.default), SpringReverbParamTable::default_value(i));
        }
    }
}

#[test]
fn spring_reverb_smoothing_styles() {
    assert_eq!(SpringReverbParamTable::smoothing(0), SmoothingStyle::Slow);
    assert_eq!(SpringReverbParamTable::smoothing(1), SmoothingStyle::Standard);
    assert_eq!(SpringReverbParamTable::smoothing(2), SmoothingStyle::Standard);
    assert_eq!(SpringReverbParamTable::smoothing(3), SmoothingStyle::Slow);
    assert_eq!(SpringReverbParamTable::smoothing(4), SmoothingStyle::Standard);
    assert_eq!(SpringReverbParamTable::smoothing(5), SmoothingStyle::Fast);
    assert_eq!(SpringReverbParamTable::smoothing(6), SmoothingStyle::Standard);
    assert_eq!(SpringReverbParamTable::smoothing(usize::MAX), SmoothingStyle::Standard);
}

#[test]
fn stage_params_descriptor_count() {
    assert_eq!(STAGE_PARAM_COUNT, 12);
    assert_eq!(StageParamTable::count(), 12);
    for i in 0..STAGE_PARAM_COUNT {
        assert!(StageParamTable::descriptor(i).is_some(), "Missing descriptor at index {i}");
    }
    assert!(StageParamTable::descriptor(STAGE_PARAM_COUNT).is_none());
}

#[test]
fn stage_descriptor_entries() {
    let d = StageParamTable::descriptor(0).unwrap();
    assert_eq!(d.id, ParamId(1900));
    assert_eq!(d.string_id, "stage_gain");
    assert_eq!((d.stepped, d.read_only), (false, false));
    assert_eq!(d.name, Some("Gain"));
    assert_eq!(d.short_name, Some("Gain"));
    assert_eq!(range_f32(&d), Some((-40.0f32, 12.0f32, 0.0f32)));
    assert_eq!(d.step.map(f32::from_bits), None);
    let d = StageParamTable::descriptor(1).unwrap();
    assert_eq!(d.id, ParamId(1901));
    assert_eq!(d.string_id, "stage_width");
    assert_eq!((d.stepped, d.read_only), (false, false));
    assert_eq!(d.name, Some("Width"));
    assert_eq!(d.short_name, Some("Width"));
    assert_eq!(range_f32(&d), Some((0.0f32, 200.0f32, 100.0f32)));
    assert_eq!(d.step.map(f32::from_bits), Some(1.0f32));
    let d = StageParamTable::descriptor(2).unwrap();
    assert_eq!(d.id, ParamId(1902));
    assert_eq!(d.string_id, "stage_balance");
    assert_eq!((d.stepped, d.read_only), (false, false));
    assert_eq!(d.name, Some("Balance"));
    assert_eq!(d.short_name, Some("Bal"));
    assert_eq!(range_f32(&d), Some((-100.0f32, 100.0f32, 0.0f32)));
    assert_eq!(d.step.map(f32::from_bits), Some(1.0f32));
    let d = StageParamTable::descriptor(3).unwrap();
    assert_eq!(d.id, ParamId(1903));
    assert_eq!(d.string_id, "stage_phase_l");
    assert_eq!((d.stepped, d.read_only), (true, false));
    assert_eq!(d.name, Some("Phase L"));
    assert_eq!(d.short_name, Some("PhL"));
    assert_eq!(range_f32(&d), Some((0.0f32, 1.0f32, 0.0f32)));
    assert_eq!(d.step.map(f32::from_bits), Some(1.0f32));
    let d = StageParamTable::descriptor(4).unwrap();
    assert_eq!(d.id, ParamId(1904));
    assert_eq!(d.string_id, "stage_phase_r");
    assert_eq!((d.stepped, d.read_only), (true, false));
    assert_eq!(d.name, Some("Phase R"));
    assert_eq!(d.short_name, Some("PhR"));
    assert_eq!(range_f32(&d), Some((0.0f32, 1.0f32, 0.0f32)));
    assert_eq!(d.step.map(f32::from_bits), Some(1.0f32));
    let d = StageParamTable::descriptor(5).unwrap();
    assert_eq!(d.id, ParamId(1905));
    assert_eq!(d.string_id, "stage_channel");
    assert_eq!((d.stepped, d.read_only), (true, false));
    assert_eq!(d.name, Some("Channel"));
    assert_eq!(d.short_name, Some("Chan"));
    assert_eq!(range_f32(&d), Some((0.0f32, 3.0f32, 0.0f32)));
    assert_eq!(d.step.map(f32::from_bits), Some(1.0f32));
    let d = StageParamTable::descriptor(6).unwrap();
    assert_eq!(d.id, ParamId(1906));
    assert_eq!(d.string_id, "stage_dc_block");
    assert_eq!((d.stepped, d.read_only), (true, false));
    assert_eq!(d.name, Some("DC Block"));
    assert_eq!(d.short_name, Some("DC"));
    assert_eq!(range_f32(&d), Some((0.0f32, 1.0f32, 0.0f32)));
    assert_eq!(d.step.map(f32::from_bits), Some(1.0f32));
    let d = StageParamTable::descriptor(7).unwrap();
    assert_eq!(d.id, ParamId(1907));
    assert_eq!(d.string_id, "stage_bass_mono");
    assert_eq!((d.stepped, d.read_only), (true, false));
    assert_eq!(d.name, Some("Bass Mono"));
    assert_eq!(d.short_name, Some("BMon"));
    assert_eq!(range_f32(&d), Some((0.0f32, 1.0f32, 0.0f32)));
    assert_eq!(d.step.map(f32::from_bits), Some(1.0f32));
    let d = StageParamTable::descriptor(8).unwrap();
    assert_eq!(d.id, ParamId(1908));
    assert_eq!(d.string_id, "stage_bass_freq");
    assert_eq!((d.stepped, d.read_only), (false, false));
    assert_eq!(d.name, Some("Bass Freq"));
    assert_eq!(d.short_name, Some("BFrq"));
    assert_eq!(range_f32(&d), Some((20.0f32, 500.0f32, 120.0f32)));
    assert_eq!(d.step.map(f32::from_bits), Some(1.0f32));
    let d = StageParamTable::descriptor(9).unwrap();
    assert_eq!(d.id, ParamId(1909));
    assert_eq!(d.string_id, "stage_haas");
    assert_eq!((d.stepped, d.read_only), (false, false));
    assert_eq!(d.name, Some("Haas"));
    assert_eq!(d.short_name, Some("Haas"));
    assert_eq!(range_f32(&d), Some((0.0f32, 30.0f32, 0.0f32)));
    assert_eq!(d.step.map(f32::from_bits), Some(0.1f32));
    let d = StageParamTable::descriptor(10).unwrap();
    assert_eq!(d.id, ParamId(1910));
    assert_eq!(d.string_id, "stage_haas_side");
    assert_eq!((d.stepped, d.read_only), (true, false));
    assert_eq!(d.name, Some("Haas Side"));
    assert_eq!(d.short_name, Some("HSde"));
    assert_eq!(range_f32(&d), Some((0.0f32, 1.0f32, 1.0f32)));
    assert_eq!(d.step.map(f32::from_bits), Some(1.0f32));
    let d = StageParamTable::descriptor(11).unwrap();
    assert_eq!(d.id, ParamId(1911));
    assert_eq!(d.string_id, "stage_output");
    assert_eq!((d.stepped, d.read_only), (false, false));
    assert_eq!(d.name, Some("Output"));
    assert_eq!(d.short_name, None);
    assert_eq!(range_f32(&d), None);
    assert_eq!(d.step.map(f32::from_bits), None);
}

#[test]
fn stage_default_values() {
    assert_eq!(StageParamTable::default_value(0).map(f32::from_bits), Some(0.0f32)); // gain_db
    assert_eq!(StageParamTable::default_value(1).map(f32::from_bits), Some(100.0f32)); // width_pct
    assert_eq!(StageParamTable::default_value(2).map(f32::from_bits), Some(0.0f32)); // balance_pct
    assert_eq!(StageParamTable::default_value(3).map(f32::from_bits), Some(0.0f32)); // phase_l
    assert_eq!(StageParamTable::default_value(4).map(f32::from_bits), Some(0.0f32)); // phase_r
    assert_eq!(StageParamTable::default_value(5).map(f32::from_bits), Some(0.0f32)); // channel
    assert_eq!(StageParamTable::default_value(6).map(f32::from_bits), Some(0.0f32)); // dc_block
    assert_eq!(StageParamTable::default_value(7).map(f32::from_bits), Some(0.0f32)); // bass_mono
    assert_eq!(StageParamTable::default_value(8).map(f32::from_bits), Some(120.0f32)); // bass_freq_hz
    assert_eq!(StageParamTable::default_value(9).map(f32::from_bits), Some(0.0f32)); // haas_ms
    assert_eq!(StageParamTable::default_value(10).map(f32::from_bits), Some(1.0f32)); // haas_side
    assert_eq!(StageParamTable::default_value(11).map(f32::from_bits), Some(0.0f32)); // output_db
    assert_eq!(StageParamTable::default_value(12), None);
    for i in 0..STAGE_PARAM_COUNT {
        if let Some(r) = StageParamTable::descriptor(i).unwrap().range {
            assert_eq!(Some(r.default), StageParamTable::default_value(i));
        }
    }
}

#[test]
fn stage_smoothing_styles() {
    assert_eq!(StageParamTable::smoothing(0), SmoothingStyle::Standard);
    assert_eq!(StageParamTable::smoothing(1), SmoothingStyle::Standard);
    assert_eq!(StageParamTable::smoothing(2), SmoothingStyle::Standard);
    assert_eq!(StageParamTable::smoothing(3), SmoothingStyle::Snap);
    assert_eq!(StageParamTable::smoothing(4), SmoothingStyle::Snap);
    assert_eq!(StageParamTable::smoothing(5), SmoothingStyle::Snap);
    assert_eq!(StageParamTable::smoothing(6), SmoothingStyle::Snap);
    assert_eq!(StageParamTable::smoothing(7), SmoothingStyle::Snap);
    assert_eq!(StageParamTable::smoothing(8), SmoothingStyle::Slow);
    assert_eq!(StageParamTable::smoothing(9), SmoothingStyle::Fast);
    assert_eq!(StageParamTable::smoothing(10), SmoothingStyle::Snap);
    assert_eq!(StageParamTable::smoothing(11), SmoothingStyle::Standard);
    assert_eq!(StageParamTable::smoothing(12), SmoothingStyle::Standard);
    assert_eq!(StageParamTable::smoothing(usize::MAX), SmoothingStyle::Standard);
}

#[test]
fn stereo_widener_params_descriptor_count() {
    assert_eq!(STEREO_WIDENER_PARAM_COUNT, 4);
    assert_eq!(StereoWidenerParamTable::count(), 4);
    for i in 0..STEREO_WIDENER_PARAM_COUNT {
        assert!(StereoWidenerParamTable::descriptor(i).is_some(), "Missing descriptor at index {i}");
    }
    assert!(StereoWidenerParamTable::descriptor(STEREO_WIDENER_PARAM_COUNT).is_none());
}

#[test]
fn stereo_widener_descriptor_entries() {
    let d = StereoWidenerParamTable::descriptor(0).unwrap();
    assert_eq!(d.id, ParamId(3100));
    assert_eq!(d.string_id, "sw_width");
    assert_eq!((d.stepped, d.read_only), (false, false));
    assert_eq!(d.name, Some("Width"));
    assert_eq!(d.short_name, Some("Width"));
    assert_eq!(range_f32(&d), Some((0.0f32, 200.0f32, 100.0f32)));
    assert_eq!(d.step.map(f32::from_bits), Some(1.0f32));
    let d = StereoWidenerParamTable::descriptor(1).unwrap();
    assert_eq!(d.id, ParamId(3101));
    assert_eq!(d.string_id, "sw_haas_delay");
    assert_eq!((d.stepped, d.read_only), (false, false));
    assert_eq!(d.name, Some("Haas Delay"));
    assert_eq!(d.short_name, Some("Haas"));
    assert_eq!(range_f32(&d), Some((0.0f32, 30.0f32, 0.0f32)));
    assert_eq!(d.step.map(f32::from_bits), Some(0.1f32));
    let d = StereoWidenerParamTable::descriptor(2).unwrap();
    assert_eq!(d.id, ParamId(3102));
    assert_eq!(d.string_id, "sw_bass_mono");
    assert_eq!((d.stepped, d.read_only), (false, false));
    assert_eq!(d.name, Some("Bass Mono"));
    assert_eq!(d.short_name, Some("BassMn"));
    assert_eq!(range_f32(&d), Some((0.0f32, 500.0f32, 0.0f32)));
    assert_eq!(d.step.map(f32::from_bits), Some(1.0f32));
    let d = StereoWidenerParamTable::descriptor(3).unwrap();
    assert_eq!(d.id, ParamId(3103));
    assert_eq!(d.string_id, "sw_output");
    assert_eq!((d.stepped, d.read_only), (false, false));
    assert_eq!(d.name, Some("Output"));
    assert_eq!(d.short_name, None);
    assert_eq!(range_f32(&d), None);
    assert_eq!(d.step.map(f32::from_bits), None);
}

#[test]
fn stereo_widener_default_values() {
    assert_eq!(StereoWidenerParamTable::default_value(0).map(f32::from_bits), Some(100.0f32)); // width_pct
    assert_eq!(StereoWidenerParamTable::default_value(1).map(f32::from_bits), Some(0.0f32)); // haas_delay_ms
    assert_eq!(StereoWidenerParamTable::default_value(2).map(f32::from_bits), Some(0.0f32)); // bass_mono_hz
    assert_eq!(StereoWidenerParamTable::default_value(3).map(f32::from_bits), Some(0.0f32)); // output_db
    assert_eq!(StereoWidenerParamTable::default_value(4), None);
    for i in 0..STEREO_WIDENER_PARAM_COUNT {
        if let Some(r) = StereoWidenerParamTable::descriptor(i).unwrap().range {
            assert_eq!(Some(r.default), StereoWidenerParamTable::default_value(i));
        }
    }
}

#[test]
fn stereo_widener_smoothing_styles() {
    assert_eq!(StereoWidenerParamTable::smoothing(0), SmoothingStyle::Standard);
    assert_eq!(StereoWidenerParamTable::smoothing(1), SmoothingStyle::Interpolated);
    assert_eq!(StereoWidenerParamTable::smoothing(2), SmoothingStyle::Slow);
    assert_eq!(StereoWidenerParamTable::smoothing(3), SmoothingStyle::Fast);
    assert_eq!(StereoWidenerParamTable::smoothing(4), SmoothingStyle::Standard);
    assert_eq!(StereoWidenerParamTable::smoothing(usize::MAX), SmoothingStyle::Standard);
}

#[test]
fn tape_params_descriptor_count() {
    assert_eq!(TAPE_PARAM_COUNT, 10);
    assert_eq!(TapeParamTable::count(), 10);
    for i in 0..TAPE_PARAM_COUNT {
        assert!(TapeParamTable::descriptor(i).is_some(), "Missing descriptor at index {i}");
    }
    assert!(TapeParamTable::descriptor(TAPE_PARAM_COUNT).is_none());
}

#[test]
fn tape_descriptor_entries() {
    let d = TapeParamTable::descriptor(0).unwrap();
    assert_eq!(d.id, ParamId(1400));
    assert_eq!(d.string_id, "tape_drive");
    assert_eq!((d.stepped, d.read_only), (false, false));
    assert_eq!(d.name, Some("Drive"));
    assert_eq!(d.short_name, Some("Drive"));
    assert_eq!(range_f32(&d), Some((0.0f32, 24.0f32, 6.0f32)));
    assert_eq!(d.step.map(f32::from_bits), Some(0.5f32));
    let d = TapeParamTable::descriptor(1).unwrap();
    assert_eq!(d.id, ParamId(1401));
    assert_eq!(d.string_id, "tape_saturation");
    assert_eq!((d.stepped, d.read_only), (false, false));
    assert_eq!(d.name, Some("Saturation"));
    assert_eq!(d.short_name, Some("Sat"));
    assert_eq!(range_f32(&d), Some((0.0f32, 100.0f32, 30.0f32)));
    assert_eq!(d.step.map(f32::from_bits), Some(1.0f32));
    let d = TapeParamTable::descriptor(2).unwrap();
    assert_eq!(d.id, ParamId(1403));
    assert_eq!(d.string_id, "tape_hf_rolloff");
    assert_eq!((d.stepped, d.read_only), (false, false));
    assert_eq!(d.name, Some("HF Rolloff"));
    assert_eq!(d.short_name, Some("HFRoll"));
    assert_eq!(range_f32(&d), Some((1000.0f32, 20000.0f32, 12000.0f32)));
    assert_eq!(d.step.map(f32::from_bits), Some(100.0f32));
    let d = TapeParamTable::descriptor(3).unwrap();
    assert_eq!(d.id, ParamId(1404));
    assert_eq!(d.string_id, "tape_bias");
    assert_eq!((d.stepped, d.read_only), (false, false));
    assert_eq!(d.name, Some("Bias"));
    assert_eq!(d.short_name, Some("Bias"));
    assert_eq!(range_f32(&d), Some((-0.2f32, 0.2f32, 0.0f32)));
    assert_eq!(d.step.map(f32::from_bits), Some(0.01f32));
    let d = TapeParamTable::descriptor(4).unwrap();
    assert_eq!(d.id, ParamId(1405));
    assert_eq!(d.string_id, "tape_wow");
    assert_eq!((d.stepped, d.read_only), (false, false));
    assert_eq!(d.name, Some("Wow"));
    assert_eq!(d.short_name, Some("Wow"));
    assert_eq!(range_f32(&d), Some((0.0f32, 1.0f32, 0.3f32)));
    assert_eq!(d.step.map(f32::from_bits), Some(0.01f32));
    let d = TapeParamTable::descriptor(5).unwrap();
    assert_eq!(d.id, ParamId(1406));
    assert_eq!(d.string_id, "tape_flutter");
    assert_eq!((d.stepped, d.read_only), (false, false));
    assert_eq!(d.name, Some("Flutter"));
    assert_eq!(d.short_name, Some("Flut"));
    assert_eq!(range_f32(&d), Some((0.0f32, 1.0f32, 0.2f32)));
    assert_eq!(d.step.map(f32::from_bits), Some(0.01f32));
    let d = TapeParamTable::descriptor(6).unwrap();
    assert_eq!(d.id, ParamId(1407));
    assert_eq!(d.string_id, "tape_hysteresis");
    assert_eq!((d.stepped, d.read_only), (false, false));
    assert_eq!(d.name, Some("Hysteresis"));
    assert_eq!(d.short_name, Some("Hyst"));
    assert_eq!(range_f32(&d), Some((0.0f32, 0.5f32, 0.15f32)));
    assert_eq!(d.step.map(f32::from_bits), Some(0.01f32));
    let d = TapeParamTable::descriptor(7).unwrap();
    assert_eq!(d.id, ParamId(1408));
    assert_eq!(d.string_id, "tape_head_bump");
    assert_eq!((d.stepped, d.read_only), (false, false));
    assert_eq!(d.name, Some("Head Bump"));
    assert_eq!(d.short_name, Some("Bump"));
    assert_eq!(range_f32(&d), Some((0.0f32, 1.0f32, 0.3f32)));
    assert_eq!(d.step.map(f32::from_bits), Some(0.01f32));
    let d = TapeParamTable::descriptor(8).unwrap();
    assert_eq!(d.id, ParamId(1409));
    assert_eq!(d.string_id, "tape_bump_freq");
    assert_eq!((d.stepped, d.read_only), (false, false));
    assert_eq!(d.name, Some("Bump Freq"));
    assert_eq!(d.short_name, Some("BmpHz"));
    assert_eq!(range_f32(&d), Some((40.0f32, 200.0f32, 80.0f32)));
    assert_eq!(d.step.map(f32::from_bits), Some(1.0f32));
    let d = TapeParamTable::descriptor(9).unwrap();
    assert_eq!(d.id, ParamId(1402));
    assert_eq!(d.string_id, "tape_output");
    assert_eq!((d.stepped, d.read_only), (false, false));
    assert_eq!(d.name, Some("Output"));
    assert_eq!(d.short_name, Some("Output"));
    assert_eq!(range_f32(&d), Some((-12.0f32, 12.0f32, -6.0f32)));
    assert_eq!(d.step.map(f32::from_bits), Some(0.5f32));
}

#[test]
fn tape_default_values() {
    assert_eq!(TapeParamTable::default_value(0).map(f32::from_bits), Some(6.0f32)); // drive_db
    assert_eq!(TapeParamTable::default_value(1).map(f32::from_bits), Some(30.0f32)); // saturation_pct
    assert_eq!(TapeParamTable::default_value(2).map(f32::from_bits), Some(12000.0f32)); // hf_rolloff_hz
    assert_eq!(TapeParamTable::default_value(3).map(f32::from_bits), Some(0.0f32)); // bias
    assert_eq!(TapeParamTable::default_value(4).map(f32::from_bits), Some(0.3f32)); // wow
    assert_eq!(TapeParamTable::default_value(5).map(f32::from_bits), Some(0.2f32)); // flutter
    assert_eq!(TapeParamTable::default_value(6).map(f32::from_bits), Some(0.15f32)); // hysteresis
    assert_eq!(TapeParamTable::default_value(7).map(f32::from_bits), Some(0.3f32)); // head_bump
    assert_eq!(TapeParamTable::default_value(8).map(f32::from_bits), Some(80.0f32)); // bump_freq_hz
    assert_eq!(TapeParamTable::default_value(9).map(f32::from_bits), Some(-6.0f32)); // output_db
    assert_eq!(TapeParamTable::default_value(10), None);
    for i in 0..TAPE_PARAM_COUNT {
        if let Some(r) = TapeParamTable::descriptor(i).unwrap().range {
            assert_eq!(Some(r.default), TapeParamTable::default_value(i));
        }
    }
}

#[test]
fn tape_smoothing_styles() {
    assert_eq!(TapeParamTable::smoothing(0), SmoothingStyle::Fast);
    assert_eq!(TapeParamTable::smoothing(1), SmoothingStyle::Standard);
    assert_eq!(TapeParamTable::smoothing(2), SmoothingStyle::Slow);
    assert_eq!(TapeParamTable::smoothing(3), SmoothingStyle::Standard);
    assert_eq!(TapeParamTable::smoothing(4), SmoothingStyle::Standard);
    assert_eq!(TapeParamTable::smoothing(5), SmoothingStyle::Standard);
    assert_eq!(TapeParamTable::smoothing(6), SmoothingStyle::Standard);
    assert_eq!(TapeParamTable::smoothing(7), SmoothingStyle::Standard);
    assert_eq!(TapeParamTable::smoothing(8), SmoothingStyle::Slow);
    assert_eq!(TapeParamTable::smoothing(9), SmoothingStyle::Standard);
    assert_eq!(TapeParamTable::smoothing(10), SmoothingStyle::Standard);
    assert_eq!(TapeParamTable::smoothing(usize::MAX), SmoothingStyle::Standard);
}

#[test]
fn texture_params_descriptor_count() {
    assert_eq!(TEXTURE_PARAM_COUNT, 6);
    assert_eq!(TextureParamTable::count(), 6);
    for i in 0..TEXTURE_PARAM_COUNT {
        assert!(TextureParamTable::descriptor(i).is_some(), "Missing descriptor at index {i}");
    }
    assert!(TextureParamTable::descriptor(TEXTURE_PARAM_COUNT).is_none());
}

#[test]
fn texture_descriptor_entries() {
    let d = TextureParamTable::descriptor(0).unwrap();
    assert_eq!(d.id, ParamId(3400));
    assert_eq!(d.string_id, "tex_density");
    assert_eq!((d.stepped, d.read_only), (false, false));
    assert_eq!(d.name, Some("Density"));
    assert_eq!(d.short_name, Some("Density"));
    assert_eq!(range_f32(&d), Some((1.0f32, 20.0f32, 8.0f32)));
    assert_eq!(d.step.map(f32::from_bits), None);
    let d = TextureParamTable::descriptor(1).unwrap();
    assert_eq!(d.id, ParamId(3401));
    assert_eq!(d.string_id, "tex_size");
    assert_eq!((d.stepped, d.read_only), (false, false));
    assert_eq!(d.name, Some("Size"));
    assert_eq!(d.short_name, Some("Size"));
    assert_eq!(range_f32(&d), Some((50.0f32, 500.0f32, 200.0f32)));
    assert_eq!(d.step.map(f32::from_bits), None);
    let d = TextureParamTable::descriptor(2).unwrap();
    assert_eq!(d.id, ParamId(3402));
    assert_eq!(d.string_id, "tex_scatter");
    assert_eq!((d.stepped, d.read_only), (false, false));
    assert_eq!(d.name, Some("Scatter"));
    assert_eq!(d.short_name, Some("Scatter"));
    assert_eq!(range_f32(&d), None);
    assert_eq!(d.step.map(f32::from_bits), None);
    let d = TextureParamTable::descriptor(3).unwrap();
    assert_eq!(d.id, ParamId(3403));
    assert_eq!(d.string_id, "tex_pitch_var");
    assert_eq!((d.stepped, d.read_only), (false, false));
    assert_eq!(d.name, Some("Pitch Var"));
    assert_eq!(d.short_name, Some("Pitch"));
    assert_eq!(range_f32(&d), Some((0.0f32, 24.0f32, 2.0f32)));
    assert_eq!(d.step.map(f32::from_bits), None);
    let d = TextureParamTable::descriptor(4).unwrap();
    assert_eq!(d.id, ParamId(3404));
    assert_eq!(d.string_id, "tex_mix");
    assert_eq!((d.stepped, d.read_only), (false, false));
    assert_eq!(d.name, None);
    assert_eq!(d.short_name, None);
    assert_eq!(range_f32(&d), None);
    assert_eq!(d.step.map(f32::from_bits), None);
    let d = TextureParamTable::descriptor(5).unwrap();
    assert_eq!(d.id, ParamId(3405));
    assert_eq!(d.string_id, "tex_output");
    assert_eq!((d.stepped, d.read_only), (false, false));
    assert_eq!(d.name, Some("Output"));
    assert_eq!(d.short_name, Some("Out"));
    assert_eq!(range_f32(&d), Some((-60.0f32, 6.0f32, 0.0f32)));
    assert_eq!(d.step.map(f32::from_bits), None);
}

#[test]
fn texture_default_values() {
    assert_eq!(TextureParamTable::default_value(0).map(f32::from_bits), Some(8.0f32)); // density
    assert_eq!(TextureParamTable::default_value(1).map(f32::from_bits), Some(200.0f32)); // size_ms
    assert_eq!(TextureParamTable::default_value(2).map(f32::from_bits), Some(50.0f32)); // scatter
    assert_eq!(TextureParamTable::default_value(3).map(f32::from_bits), Some(2.0f32)); // pitch_var
    assert_eq!(TextureParamTable::default_value(4).map(f32::from_bits), Some(50.0f32)); // mix_pct
    assert_eq!(TextureParamTable::default_value(5).map(f32::from_bits), Some(0.0f32)); // output_db
    assert_eq!(TextureParamTable::default_value(6), None);
    for i in 0..TEXTURE_PARAM_COUNT {
        if let Some(r) = TextureParamTable::descriptor(i).unwrap().range {
            assert_eq!(Some(r.default), TextureParamTable::default_value(i));
        }
    }
}

#[test]
fn texture_smoothing_styles() {
    assert_eq!(TextureParamTable::smoothing(0), SmoothingStyle::Slow);
    assert_eq!(TextureParamTable::smoothing(1), SmoothingStyle::Slow);
    assert_eq!(TextureParamTable::smoothing(2), SmoothingStyle::Standard);
    assert_eq!(TextureParamTable::smoothing(3), SmoothingStyle::Slow);
    assert_eq!(TextureParamTable::smoothing(4), SmoothingStyle::Standard);
    assert_eq!(TextureParamTable::smoothing(5), SmoothingStyle::Fast);
    assert_eq!(TextureParamTable::smoothing(6), SmoothingStyle::Standard);
    assert_eq!(TextureParamTable::smoothing(usize::MAX), SmoothingStyle::Standard);
}

#[test]
fn time_stretch_params_descriptor_count() {
    assert_eq!(TIME_STRETCH_PARAM_COUNT, 8);
    assert_eq!(TimeStretchParamTable::count(), 8);
    for i in 0..TIME_STRETCH_PARAM_COUNT {
        assert!(TimeStretchParamTable::descriptor(i).is_some(), "Missing descriptor at index {i}");
    }
    assert!(TimeStretchParamTable::descriptor(TIME_STRETCH_PARAM_COUNT).is_none());
}

#[test]
fn time_stretch_descriptor_entries() {
    let d = TimeStretchParamTable::descriptor(0).unwrap();
    assert_eq!(d.id, ParamId(3600));
    assert_eq!(d.string_id, "ts_time_ratio");
    assert_eq!((d.stepped, d.read_only), (false, false));
    assert_eq!(d.name, Some("Time Ratio"));
    assert_eq!(d.short_name, Some("Time"));
    assert_eq!(range_f32(&d), Some((0.25f32, 4.0f32, 1.0f32)));
    assert_eq!(d.step.map(f32::from_bits), None);
    let d = TimeStretchParamTable::descriptor(1).unwrap();
    assert_eq!(d.id, ParamId(3601));
    assert_eq!(d.string_id, "ts_pitch_ratio");
    assert_eq!((d.stepped, d.read_only), (false, false));
    assert_eq!(d.name, Some("Pitch Ratio"));
    assert_eq!(d.short_name, Some("Pitch"));
    assert_eq!(range_f32(&d), Some((0.25f32, 4.0f32, 1.0f32)));
    assert_eq!(d.step.map(f32::from_bits), None);
    let d = TimeStretchParamTable::descriptor(2).unwrap();
    assert_eq!(d.id, ParamId(3602));
    assert_eq!(d.string_id, "ts_grain_size");
    assert_eq!((d.stepped, d.read_only), (false, false));
    assert_eq!(d.name, Some("Grain Size"));
    assert_eq!(d.short_name, Some("Grain"));
    assert_eq!(range_f32(&d), Some((10.0f32, 100.0f32, 50.0f32)));
    assert_eq!(d.step.map(f32::from_bits), None);
    let d = TimeStretchParamTable::descriptor(3).unwrap();
    assert_eq!(d.id, ParamId(3603));
    assert_eq!(d.string_id, "ts_density");
    assert_eq!((d.stepped, d.read_only), (false, false));
    assert_eq!(d.name, Some("Density"));
    assert_eq!(d.short_name, Some("Density"));
    assert_eq!(range_f32(&d), None);
    assert_eq!(d.step.map(f32::from_bits), None);
    let d = TimeStretchParamTable::descriptor(4).unwrap();
    assert_eq!(d.id, ParamId(3604));
    assert_eq!(d.string_id, "ts_randomize");
    assert_eq!((d.stepped, d.read_only), (false, false));
    assert_eq!(d.name, Some("Randomize"));
    assert_eq!(d.short_name, Some("Random"));
    assert_eq!(range_f32(&d), None);
    assert_eq!(d.step.map(f32::from_bits), None);
    let d = TimeStretchParamTable::descriptor(5).unwrap();
    assert_eq!(d.id, ParamId(3605));
    assert_eq!(d.string_id, "ts_freeze");
    assert_eq!((d.stepped, d.read_only), (true, false));
    assert_eq!(d.name, Some("Freeze"));
    assert_eq!(d.short_name, Some("Freeze"));
    assert_eq!(range_f32(&d), Some((0.0f32, 1.0f32, 0.0f32)));
    assert_eq!(d.step.map(f32::from_bits), Some(1.0f32));
    let d = TimeStretchParamTable::descriptor(6).unwrap();
    assert_eq!(d.id, ParamId(3606));
    assert_eq!(d.string_id, "ts_sync");
    assert_eq!((d.stepped, d.read_only), (true, false));
    assert_eq!(d.name, Some("Sync"));
    assert_eq!(d.short_name, Some("Sync"));
    assert_eq!(range_f32(&d), Some((0.0f32, 1.0f32, 0.0f32)));
    assert_eq!(d.step.map(f32::from_bits), Some(1.0f32));
    let d = TimeStretchParamTable::descriptor(7).unwrap();
    assert_eq!(d.id, ParamId(3607));
    assert_eq!(d.string_id, "ts_output");
    assert_eq!((d.stepped, d.read_only), (false, false));
    assert_eq!(d.name, Some("Output"));
    assert_eq!(d.short_name, Some("Out"));
    assert_eq!(range_f32(&d), Some((-60.0f32, 6.0f32, 0.0f32)));
    assert_eq!(d.step.map(f32::from_bits), None);
}

#[test]
fn time_stretch_default_values() {
    assert_eq!(TimeStretchParamTable::default_value(0).map(f32::from_bits), Some(1.0f32)); // time_ratio
    assert_eq!(TimeStretchParamTable::default_value(1).map(f32::from_bits), Some(1.0f32)); // pitch_ratio
    assert_eq!(TimeStretchParamTable::default_value(2).map(f32::from_bits), Some(50.0f32)); // grain_size
    assert_eq!(TimeStretchParamTable::default_value(3).map(f32::from_bits), Some(50.0f32)); // density
    assert_eq!(TimeStretchParamTable::default_value(4).map(f32::from_bits), Some(20.0f32)); // randomize
    assert_eq!(TimeStretchParamTable::default_value(5).map(f32::from_bits), Some(0.0f32)); // freeze
    assert_eq!(TimeStretchParamTable::default_value(6).map(f32::from_bits), Some(0.0f32)); // sync
    assert_eq!(TimeStretchParamTable::default_value(7).map(f32::from_bits), Some(0.0f32)); // output_db
    assert_eq!(TimeStretchParamTable::default_value(8), None);
    for i in 0..TIME_STRETCH_PARAM_COUNT {
        if let Some(r) = TimeStretchParamTable::descriptor(i).unwrap().range {
            assert_eq!(Some(r.default), TimeStretchParamTable::default_value(i));
        }
    }
}

#[test]
fn time_stretch_smoothing_styles() {
    assert_eq!(TimeStretchParamTable::smoothing(0), SmoothingStyle::Interpolated);
    assert_eq!(TimeStretchParamTable::smoothing(1), SmoothingStyle::Interpolated);
    assert_eq!(TimeStretchParamTable::smoothing(2), SmoothingStyle::Slow);
    assert_eq!(TimeStretchParamTable::smoothing(3), SmoothingStyle::Standard);
    assert_eq!(TimeStretchParamTable::smoothing(4), SmoothingStyle::Standard);
    assert_eq!(TimeStretchParamTable::smoothing(5), SmoothingStyle::Snap);
    assert_eq!(TimeStretchParamTable::smoothing(6), SmoothingStyle::Snap);
    assert_eq!(TimeStretchParamTable::smoothing(7), SmoothingStyle::Fast);
    assert_eq!(TimeStretchParamTable::smoothing(8), SmoothingStyle::Standard);
    assert_eq!(TimeStretchParamTable::smoothing(usize::MAX), SmoothingStyle::Standard);
}

#[test]
fn transient_shaper_params_descriptor_count() {
    assert_eq!(TRANSIENT_SHAPER_PARAM_COUNT, 5);
    assert_eq!(TransientShaperParamTable::count(), 5);
    for i in 0..TRANSIENT_SHAPER_PARAM_COUNT {
        assert!(TransientShaperParamTable::descriptor(i).is_some(), "Missing descriptor at index {i}");
    }
    assert!(TransientShaperParamTable::descriptor(TRANSIENT_SHAPER_PARAM_COUNT).is_none());
}

#[test]
fn transient_shaper_descriptor_entries() {
    let d = TransientShaperParamTable::descriptor(0).unwrap();
    assert_eq!(d.id, ParamId(2900));
    assert_eq!(d.string_id, "ts_attack");
    assert_eq!((d.stepped, d.read_only), (false, false));
    assert_eq!(d.name, Some("Attack"));
    assert_eq!(d.short_name, Some("Attack"));
    assert_eq!(range_f32(&d), Some((-100.0f32, 100.0f32, 0.0f32)));
    assert_eq!(d.step.map(f32::from_bits), Some(0.1f32));
    let d = TransientShaperParamTable::descriptor(1).unwrap();
    assert_eq!(d.id, ParamId(2901));
    assert_eq!(d.string_id, "ts_sustain");
    assert_eq!((d.stepped, d.read_only), (false, false));
    assert_eq!(d.name, Some("Sustain"));
    assert_eq!(d.short_name, Some("Sustain"));
    assert_eq!(range_f32(&d), Some((-100.0f32, 100.0f32, 0.0f32)));
    assert_eq!(d.step.map(f32::from_bits), Some(0.1f32));
    let d = TransientShaperParamTable::descriptor(2).unwrap();
    assert_eq!(d.id, ParamId(2902));
    assert_eq!(d.string_id, "ts_sensitivity");
    assert_eq!((d.stepped, d.read_only), (false, false));
    assert_eq!(d.name, Some("Sensitivity"));
    assert_eq!(d.short_name, Some("Sens"));
    assert_eq!(range_f32(&d), Some((0.0f32, 100.0f32, 50.0f32)));
    assert_eq!(d.step.map(f32::from_bits), Some(0.1f32));
    let d = TransientShaperParamTable::descriptor(3).unwrap();
    assert_eq!(d.id, ParamId(2903));
    assert_eq!(d.string_id, "ts_mix");
    assert_eq!((d.stepped, d.read_only), (false, false));
    assert_eq!(d.name, None);
    assert_eq!(d.short_name, None);
    assert_eq!(range_f32(&d), None);
    assert_eq!(d.step.map(f32::from_bits), None);
    let d = TransientShaperParamTable::descriptor(4).unwrap();
    assert_eq!(d.id, ParamId(2904));
    assert_eq!(d.string_id, "ts_output");
    assert_eq!((d.stepped, d.read_only), (false, false));
    assert_eq!(d.name, Some("Output"));
    assert_eq!(d.short_name, None);
    assert_eq!(range_f32(&d), None);
    assert_eq!(d.step.map(f32::from_bits), None);
}

#[test]
fn transient_shaper_default_values() {
    assert_eq!(TransientShaperParamTable::default_value(0).map(f32::from_bits), Some(0.0f32)); // attack_pct
    assert_eq!(TransientShaperParamTable::default_value(1).map(f32::from_bits), Some(0.0f32)); // sustain_pct
    assert_eq!(TransientShaperParamTable::default_value(2).map(f32::from_bits), Some(50.0f32)); // sensitivity_pct
    assert_eq!(TransientShaperParamTable::default_value(3).map(f32::from_bits), Some(100.0f32)); // mix_pct
    assert_eq!(TransientShaperParamTable::default_value(4).map(f32::from_bits), Some(0.0f32)); // output_db
    assert_eq!(TransientShaperParamTable::default_value(5), None);
    for i in 0..TRANSIENT_SHAPER_PARAM_COUNT {
        if let Some(r) = TransientShaperParamTable::descriptor(i).unwrap().range {
            assert_eq!(Some(r.default), TransientShaperParamTable::default_value(i));
        }
    }
}

#[test]
fn transient_shaper_smoothing_styles() {
    assert_eq!(TransientShaperParamTable::smoothing(0), SmoothingStyle::Fast);
    assert_eq!(TransientShaperParamTable::smoothing(1), SmoothingStyle::Fast);
    assert_eq!(TransientShaperParamTable::smoothing(2), SmoothingStyle::Standard);
    assert_eq!(TransientShaperParamTable::smoothing(3), SmoothingStyle::Standard);
    assert_eq!(TransientShaperParamTable::smoothing(4), SmoothingStyle::Fast);
    assert_eq!(TransientShaperParamTable::smoothing(5), SmoothingStyle::Standard);
    assert_eq!(TransientShaperParamTable::smoothing(usize::MAX), SmoothingStyle::Standard);
}

#[test]
fn tremolo_params_descriptor_count() {
    assert_eq!(TREMOLO_PARAM_COUNT, 7);
    assert_eq!(TremoloParamTable::count(), 7);
    for i in 0..TREMOLO_PARAM_COUNT {
        assert!(TremoloParamTable::descriptor(i).is_some(), "Missing descriptor at index {i}");
    }
    assert!(TremoloParamTable::descriptor(TREMOLO_PARAM_COUNT).is_none());
}

#[test]
fn tremolo_descriptor_entries() {
    let d = TremoloParamTable::descriptor(0).unwrap();
    assert_eq!(d.id, ParamId(1000));
    assert_eq!(d.string_id, "trem_rate");
    assert_eq!((d.stepped, d.read_only), (false, false));
    assert_eq!(d.name, Some("Rate"));
    assert_eq!(d.short_name, None);
    assert_eq!(range_f32(&d), Some((0.5f32, 20.0f32, 5.0f32)));
    assert_eq!(d.step.map(f32::from_bits), None);
    let d = TremoloParamTable::descriptor(1).unwrap();
    assert_eq!(d.id, ParamId(1001));
    assert_eq!(d.string_id, "trem_depth");
    assert_eq!((d.stepped, d.read_only), (false, false));
    assert_eq!(d.name, None);
    assert_eq!(d.short_name, None);
    assert_eq!(range_f32(&d), None);
    assert_eq!(d.step.map(f32::from_bits), None);
    let d = TremoloParamTable::descriptor(2).unwrap();
    assert_eq!(d.id, ParamId(1002));
    assert_eq!(d.string_id, "trem_waveform");
    assert_eq!((d.stepped, d.read_only), (true, false));
    assert_eq!(d.name, Some("Waveform"));
    assert_eq!(d.short_name, Some("Wave"));
    assert_eq!(range_f32(&d), Some((0.0f32, 3.0f32, 0.0f32)));
    assert_eq!(d.step.map(f32::from_bits), Some(1.0f32));
    let d = TremoloParamTable::descriptor(3).unwrap();
    assert_eq!(d.id, ParamId(1004));
    assert_eq!(d.string_id, "trem_stereo_spread");
    assert_eq!((d.stepped, d.read_only), (false, false));
    assert_eq!(d.name, Some("Stereo Spread"));
    assert_eq!(d.short_name, Some("Spread"));
    assert_eq!(range_f32(&d), Some((0.0f32, 100.0f32, 0.0f32)));
    assert_eq!(d.step.map(f32::from_bits), None);
    let d = TremoloParamTable::descriptor(4).unwrap();
    assert_eq!(d.id, ParamId(1005));
    assert_eq!(d.string_id, "trem_sync");
    assert_eq!((d.stepped, d.read_only), (true, false));
    assert_eq!(d.name, Some("Sync"));
    assert_eq!(d.short_name, Some("Sync"));
    assert_eq!(range_f32(&d), Some((0.0f32, 1.0f32, 0.0f32)));
    assert_eq!(d.step.map(f32::from_bits), Some(1.0f32));
    let d = TremoloParamTable::descriptor(5).unwrap();
    assert_eq!(d.id, ParamId(1006));
    assert_eq!(d.string_id, "trem_division");
    assert_eq!((d.stepped, d.read_only), (true, false));
    assert_eq!(d.name, Some("Division"));
    assert_eq!(d.short_name, Some("Div"));
    assert_eq!(range_f32(&d), Some((0.0f32, 11.0f32, 3.0f32)));
    assert_eq!(d.step.map(f32::from_bits), Some(1.0f32));
    let d = TremoloParamTable::descriptor(6).unwrap();
    assert_eq!(d.id, ParamId(1003));
    assert_eq!(d.string_id, "trem_output");
    assert_eq!((d.stepped, d.read_only), (false, false));
    assert_eq!(d.name, Some("Output"));
    assert_eq!(d.short_name, None);
    assert_eq!(range_f32(&d), None);
    assert_eq!(d.step.map(f32::from_bits), None);
}

#[test]
fn tremolo_default_values() {
    assert_eq!(TremoloParamTable::default_value(0).map(f32::from_bits), Some(5.0f32)); // rate
    assert_eq!(TremoloParamTable::default_value(1).map(f32::from_bits), Some(50.0f32)); // depth_pct
    assert_eq!(TremoloParamTable::default_value(2).map(f32::from_bits), Some(0.0f32)); // waveform
    assert_eq!(TremoloParamTable::default_value(3).map(f32::from_bits), Some(0.0f32)); // stereo_spread_pct
    assert_eq!(TremoloParamTable::default_value(4).map(f32::from_bits), Some(0.0f32)); // sync
    assert_eq!(TremoloParamTable::default_value(5).map(f32::from_bits), Some(3.0f32)); // division
    assert_eq!(TremoloParamTable::default_value(6).map(f32::from_bits), Some(0.0f32)); // output_db
    assert_eq!(TremoloParamTable::default_value(7), None);
    for i in 0..TREMOLO_PARAM_COUNT {
        if let Some(r) = TremoloParamTable::descriptor(i).unwrap().range {
            assert_eq!(Some(r.default), TremoloParamTable::default_value(i));
        }
    }
}

#[test]
fn tremolo_smoothing_styles() {
    assert_eq!(TremoloParamTable::smoothing(0), SmoothingStyle::Standard);
    assert_eq!(TremoloParamTable::smoothing(1), SmoothingStyle::Standard);
    assert_eq!(TremoloParamTable::smoothing(2), SmoothingStyle::Snap);
    assert_eq!(TremoloParamTable::smoothing(3), SmoothingStyle::Standard);
    assert_eq!(TremoloParamTable::smoothing(4), SmoothingStyle::Snap);
    assert_eq!(TremoloParamTable::smoothing(5), SmoothingStyle::Snap);
    assert_eq!(TremoloParamTable::smoothing(6), SmoothingStyle::Standard);
    assert_eq!(TremoloParamTable::smoothing(7), SmoothingStyle::Standard);
    assert_eq!(TremoloParamTable::smoothing(usize::MAX), SmoothingStyle::Standard);
}

#[test]
fn tuner_params_descriptor_count() {
    assert_eq!(TUNER_PARAM_COUNT, 5);
    assert_eq!(TunerParamTable::count(), 5);
    for i in 0..TUNER_PARAM_COUNT {
        assert!(TunerParamTable::descriptor(i).is_some(), "Missing descriptor at index {i}");
    }
    assert!(TunerParamTable::descriptor(TUNER_PARAM_COUNT).is_none());
}

#[test]
fn tuner_descriptor_entries() {
    let d = TunerParamTable::descriptor(0).unwrap();
    assert_eq!(d.id, ParamId(2300));
    assert_eq!(d.string_id, "tuner_reference");
    assert_eq!((d.stepped, d.read_only), (false, false));
    assert_eq!(d.name, Some("Reference"));
    assert_eq!(d.short_name, Some("Ref"));
    assert_eq!(range_f32(&d), Some((415.0f32, 465.0f32, 440.0f32)));
    assert_eq!(d.step.map(f32::from_bits), None);
    let d = TunerParamTable::descriptor(1).unwrap();
    assert_eq!(d.id, ParamId(2301));
    assert_eq!(d.string_id, "tuner_mute");
    assert_eq!((d.stepped, d.read_only), (true, false));
    assert_eq!(d.name, Some("Mute"));
    assert_eq!(d.short_name, Some("Mute"));
    assert_eq!(range_f32(&d), Some((0.0f32, 1.0f32, 0.0f32)));
    assert_eq!(d.step.map(f32::from_bits), Some(1.0f32));
    let d = TunerParamTable::descriptor(2).unwrap();
    assert_eq!(d.id, ParamId(2302));
    assert_eq!(d.string_id, "tuner_output");
    assert_eq!((d.stepped, d.read_only), (false, false));
    assert_eq!(d.name, Some("Output"));
    assert_eq!(d.short_name, None);
    assert_eq!(range_f32(&d), None);
    assert_eq!(d.step.map(f32::from_bits), None);
    let d = TunerParamTable::descriptor(3).unwrap();
    assert_eq!(d.id, ParamId(2303));
    assert_eq!(d.string_id, "tuner_detected_hz");
    assert_eq!((d.stepped, d.read_only), (false, true));
    assert_eq!(d.name, Some("Detected Hz"));
    assert_eq!(d.short_name, Some("Det Hz"));
    assert_eq!(range_f32(&d), Some((0.0f32, 5000.0f32, 0.0f32)));
    assert_eq!(d.step.map(f32::from_bits), None);
    let d = TunerParamTable::descriptor(4).unwrap();
    assert_eq!(d.id, ParamId(2304));
    assert_eq!(d.string_id, "tuner_cents");
    assert_eq!((d.stepped, d.read_only), (false, true));
    assert_eq!(d.name, Some("Cents"));
    assert_eq!(d.short_name, Some("Cents"));
    assert_eq!(range_f32(&d), Some((-50.0f32, 50.0f32, 0.0f32)));
    assert_eq!(d.step.map(f32::from_bits), None);
}

#[test]
fn tuner_default_values() {
    assert_eq!(TunerParamTable::default_value(0).map(f32::from_bits), Some(440.0f32)); // reference_hz
    assert_eq!(TunerParamTable::default_value(1).map(f32::from_bits), Some(0.0f32)); // mute
    assert_eq!(TunerParamTable::default_value(2).map(f32::from_bits), Some(0.0f32)); // output_db
    assert_eq!(TunerParamTable::default_value(3).map(f32::from_bits), Some(0.0f32)); // detected_hz
    assert_eq!(TunerParamTable::default_value(4).map(f32::from_bits), Some(0.0f32)); // cents
    assert_eq!(TunerParamTable::default_value(5), None);
    for i in 0..TUNER_PARAM_COUNT {
        if let Some(r) = TunerParamTable::descriptor(i).unwrap().range {
            assert_eq!(Some(r.default), TunerParamTable::default_value(i));
        }
    }
}

#[test]
fn tuner_smoothing_styles() {
    assert_eq!(TunerParamTable::smoothing(0), SmoothingStyle::Snap);
    assert_eq!(TunerParamTable::smoothing(1), SmoothingStyle::Snap);
    assert_eq!(TunerParamTable::smoothing(2), SmoothingStyle::Fast);
    assert_eq!(TunerParamTable::smoothing(3), SmoothingStyle::Snap);
    assert_eq!(TunerParamTable::smoothing(4), SmoothingStyle::Snap);
    assert_eq!(TunerParamTable::smoothing(5), SmoothingStyle::Standard);
    assert_eq!(TunerParamTable::smoothing(usize::MAX), SmoothingStyle::Standard);
}

#[test]
fn wah_params_descriptor_count() {
    assert_eq!(WAH_PARAM_COUNT, 5);
    assert_eq!(WahParamTable::count(), 5);
    for i in 0..WAH_PARAM_COUNT {
        assert!(WahParamTable::descriptor(i).is_some(), "Missing descriptor at index {i}");
    }
    assert!(WahParamTable::descriptor(WAH_PARAM_COUNT).is_none());
}

#[test]
fn wah_descriptor_entries() {
    let d = WahParamTable::descriptor(0).unwrap();
    assert_eq!(d.id, ParamId(600));
    assert_eq!(d.string_id, "wah_freq");
    assert_eq!((d.stepped, d.read_only), (false, false));
    assert_eq!(d.name, Some("Frequency"));
    assert_eq!(d.short_name, Some("Freq"));
    assert_eq!(range_f32(&d), Some((200.0f32, 2000.0f32, 800.0f32)));
    assert_eq!(d.step.map(f32::from_bits), Some(10.0f32));
    let d = WahParamTable::descriptor(1).unwrap();
    assert_eq!(d.id, ParamId(601));
    assert_eq!(d.string_id, "wah_reso");
    assert_eq!((d.stepped, d.read_only), (false, false));
    assert_eq!(d.name, Some("Resonance"));
    assert_eq!(d.short_name, Some("Reso"));
    assert_eq!(range_f32(&d), Some((1.0f32, 10.0f32, 5.0f32)));
    assert_eq!(d.step.map(f32::from_bits), Some(0.1f32));
    let d = WahParamTable::descriptor(2).unwrap();
    assert_eq!(d.id, ParamId(602));
    assert_eq!(d.string_id, "wah_sens");
    assert_eq!((d.stepped, d.read_only), (false, false));
    assert_eq!(d.name, Some("Sensitivity"));
    assert_eq!(d.short_name, Some("Sens"));
    assert_eq!(range_f32(&d), Some((0.0f32, 100.0f32, 50.0f32)));
    assert_eq!(d.step.map(f32::from_bits), Some(1.0f32));
    let d = WahParamTable::descriptor(3).unwrap();
    assert_eq!(d.id, ParamId(603));
    assert_eq!(d.string_id, "wah_mode");
    assert_eq!((d.stepped, d.read_only), (true, false));
    assert_eq!(d.name, Some("Mode"));
    assert_eq!(d.short_name, Some("Mode"));
    assert_eq!(range_f32(&d), Some((0.0f32, 1.0f32, 0.0f32)));
    assert_eq!(d.step.map(f32::from_bits), Some(1.0f32));
    let d = WahParamTable::descriptor(4).unwrap();
    assert_eq!(d.id, ParamId(604));
    assert_eq!(d.string_id, "wah_output");
    assert_eq!((d.stepped, d.read_only), (false, false));
    assert_eq!(d.name, Some("Output"));
    assert_eq!(d.short_name, None);
    assert_eq!(range_f32(&d), None);
    assert_eq!(d.step.map(f32::from_bits), None);
}

#[test]
fn wah_default_values() {
    assert_eq!(WahParamTable::default_value(0).map(f32::from_bits), Some(800.0f32)); // freq_hz
    assert_eq!(WahParamTable::default_value(1).map(f32::from_bits), Some(5.0f32)); // resonance
    assert_eq!(WahParamTable::default_value(2).map(f32::from_bits), Some(50.0f32)); // sensitivity_pct
    assert_eq!(WahParamTable::default_value(3).map(f32::from_bits), Some(0.0f32)); // mode
    assert_eq!(WahParamTable::default_value(4).map(f32::from_bits), Some(0.0f32)); // output_db
    assert_eq!(WahParamTable::default_value(5), None);
    for i in 0..WAH_PARAM_COUNT {
        if let Some(r) = WahParamTable::descriptor(i).unwrap().range {
            assert_eq!(Some(r.default), WahParamTable::default_value(i));
        }
    }
}

#[test]
fn wah_smoothing_styles() {
    assert_eq!(WahParamTable::smoothing(0), SmoothingStyle::Fast);
    assert_eq!(WahParamTable::smoothing(1), SmoothingStyle::Slow);
    assert_eq!(WahParamTable::smoothing(2), SmoothingStyle::Standard);
    assert_eq!(WahParamTable::smoothing(3), SmoothingStyle::Snap);
    assert_eq!(WahParamTable::smoothing(4), SmoothingStyle::Standard);
    assert_eq!(WahParamTable::smoothing(5), SmoothingStyle::Standard);
    assert_eq!(WahParamTable::smoothing(usize::MAX), SmoothingStyle::Standard);
}

#[test]
fn limiter_params_descriptor_count() {
    assert_eq!(LIMITER_PARAM_COUNT, 5);
    assert_eq!(LimiterParamTable::count(), 5);
    for i in 0..LIMITER_PARAM_COUNT {
        assert!(LimiterParamTable::descriptor(i).is_some(), "Missing descriptor at index {i}");
    }
    assert!(LimiterParamTable::descriptor(LIMITER_PARAM_COUNT).is_none());
}

#[test]
fn limiter_descriptor_entries() {
    let d = LimiterParamTable::descriptor(0).unwrap();
    assert_eq!(d.id, ParamId(1600));
    assert_eq!(d.string_id, "lim_thresh");
    assert_eq!((d.stepped, d.read_only), (false, false));
    assert_eq!(d.name, Some("Threshold"));
    assert_eq!(d.short_name, Some("Thresh"));
    assert_eq!(range_f32(&d), Some((-30.0f32, 0.0f32, -6.0f32)));
    assert_eq!(d.step.map(f32::from_bits), None);
    let d = LimiterParamTable::descriptor(1).unwrap();
    assert_eq!(d.id, ParamId(1601));
    assert_eq!(d.string_id, "lim_ceil");
    assert_eq!((d.stepped, d.read_only), (false, false));
    assert_eq!(d.name, Some("Ceiling"));
    assert_eq!(d.short_name, Some("Ceil"));
    assert_eq!(range_f32(&d), Some((-30.0f32, 0.0f32, -0.3f32)));
    assert_eq!(d.step.map(f32::from_bits), None);
    let d = LimiterParamTable::descriptor(2).unwrap();
    assert_eq!(d.id, ParamId(1602));
    assert_eq!(d.string_id, "lim_release");
    assert_eq!((d.stepped, d.read_only), (false, false));
    assert_eq!(d.name, Some("Release"));
    assert_eq!(d.short_name, Some("Rel"));
    assert_eq!(range_f32(&d), Some((10.0f32, 500.0f32, 100.0f32)));
    assert_eq!(d.step.map(f32::from_bits), None);
    let d = LimiterParamTable::descriptor(3).unwrap();
    assert_eq!(d.id, ParamId(1603));
    assert_eq!(d.string_id, "lim_look");
    assert_eq!((d.stepped, d.read_only), (false, false));
    assert_eq!(d.name, Some("Lookahead"));
    assert_eq!(d.short_name, Some("Look"));
    assert_eq!(range_f32(&d), Some((0.0f32, 10.0f32, 5.0f32)));
    assert_eq!(d.step.map(f32::from_bits), None);
    let d = LimiterParamTable::descriptor(4).unwrap();
    assert_eq!(d.id, ParamId(1604));
    assert_eq!(d.string_id, "lim_output");
    assert_eq!((d.stepped, d.read_only), (false, false));
    assert_eq!(d.name, Some("Output"));
    assert_eq!(d.short_name, None);
    assert_eq!(range_f32(&d), None);
    assert_eq!(d.step.map(f32::from_bits), None);
}

#[test]
fn param_ids_match_classic_effect() {
    // ParamId values are plugin host API contracts — must never change.
    assert_eq!(WahParamTable::descriptor(0).unwrap().id, ParamId(600));
    assert_eq!(WahParamTable::descriptor(1).unwrap().id, ParamId(601));
    assert_eq!(WahParamTable::descriptor(2).unwrap().id, ParamId(602));
    assert_eq!(WahParamTable::descriptor(3).unwrap().id, ParamId(603));
    assert_eq!(WahParamTable::descriptor(4).unwrap().id, ParamId(604));
}

#[test]
fn params_ids_correct() {
    assert_eq!(TunerParamTable::descriptor(0).unwrap().id, ParamId(2300));
    assert_eq!(TunerParamTable::descriptor(1).unwrap().id, ParamId(2301));
    assert_eq!(TunerParamTable::descriptor(2).unwrap().id, ParamId(2302));
    assert_eq!(TunerParamTable::descriptor(3).unwrap().id, ParamId(2303));
    assert_eq!(TunerParamTable::descriptor(4).unwrap().id, ParamId(2304));
}

#[test]
fn read_only_params_have_correct_flags() {
    let d3 = TunerParamTable::descriptor(3).unwrap();
    let d4 = TunerParamTable::descriptor(4).unwrap();
    assert!(d3.read_only, "detected_hz must be READ_ONLY");
    assert!(d4.read_only, "cents must be READ_ONLY");
}

#[test]
fn param_ids_start_at_2600() {
    assert_eq!(MultibandCompParamTable::descriptor(0).unwrap().id, ParamId(2600));
    assert_eq!(MultibandCompParamTable::descriptor(11).unwrap().id, ParamId(2611));
}

#[test]
fn param_id_ordering_correct() {
    let out_desc = TapeParamTable::descriptor(9).unwrap();
    assert_eq!(out_desc.id, ParamId(1402), "output ParamId must be 1402");
    let hf_desc = TapeParamTable::descriptor(2).unwrap();
    assert_eq!(hf_desc.id, ParamId(1403), "hf_rolloff ParamId must be 1403");
}

#[test]
fn test_default_params() {
    assert_eq!(LimiterParamTable::count(), 5);

    let thresh = LimiterParamTable::descriptor(0).unwrap();
    assert_eq!(thresh.name, Some("Threshold"));
    assert!((range_f32(&thresh).unwrap().2 - (-6.0)).abs() < 0.01);

    let ceil = LimiterParamTable::descriptor(1).unwrap();
    assert_eq!(ceil.name, Some("Ceiling"));
    assert!((range_f32(&ceil).unwrap().2 - (-0.3)).abs() < 0.01);

    let rel = LimiterParamTable::descriptor(2).unwrap();
    assert_eq!(rel.name, Some("Release"));
    assert!((range_f32(&rel).unwrap().2 - 100.0).abs() < 0.01);

    let look = LimiterParamTable::descriptor(3).unwrap();
    assert_eq!(look.name, Some("Lookahead"));
    assert!((range_f32(&look).unwrap().2 - 5.0).abs() < 0.01);

    let out = LimiterParamTable::descriptor(4).unwrap();
    assert_eq!(out.name, Some("Output"));
    assert!((f32::from_bits(out.default.unwrap()) - 0.0).abs() < 0.01);
}

#[test]
fn param_ids_unique_across_library() {
    let mut all: Vec<u32> = Vec::new();
    for i in 0..MULTIBAND_COMP_PARAM_COUNT {
        all.push(MultibandCompParamTable::descriptor(i).unwrap().id.0);
    }
    for i in 0..PHASER_PARAM_COUNT {
        all.push(PhaserParamTable::descriptor(i).unwrap().id.0);
    }
    for i in 0..PLATE_REVERB_PARAM_COUNT {
        all.push(PlateReverbParamTable::descriptor(i).unwrap().id.0);
    }
    for i in 0..PREAMP_PARAM_COUNT {
        all.push(PreampParamTable::descriptor(i).unwrap().id.0);
    }
    for i in 0..REVERB_PARAM_COUNT {
        all.push(ReverbParamTable::descriptor(i).unwrap().id.0);
    }
    for i in 0..RINGMOD_PARAM_COUNT {
        all.push(RingModParamTable::descriptor(i).unwrap().id.0);
    }
    for i in 0..SHELVING_EQ_PARAM_COUNT {
        all.push(ShelvingEqParamTable::descriptor(i).unwrap().id.0);
    }
    for i in 0..SPRING_REVERB_PARAM_COUNT {
        all.push(SpringReverbParamTable::descriptor(i).unwrap().id.0);
    }
    for i in 0..STAGE_PARAM_COUNT {
        all.push(StageParamTable::descriptor(i).unwrap().id.0);
    }
    for i in 0..STEREO_WIDENER_PARAM_COUNT {
        all.push(StereoWidenerParamTable::descriptor(i).unwrap().id.0);
    }
    for i in 0..TAPE_PARAM_COUNT {
        all.push(TapeParamTable::descriptor(i).unwrap().id.0);
    }
    for i in 0..TEXTURE_PARAM_COUNT {
        all.push(TextureParamTable::descriptor(i).unwrap().id.0);
    }
    for i in 0..TIME_STRETCH_PARAM_COUNT {
        all.push(TimeStretchParamTable::descriptor(i).unwrap().id.0);
    }
    for i in 0..TRANSIENT_SHAPER_PARAM_COUNT {
        all.push(TransientShaperParamTable::descriptor(i).unwrap().id.0);
    }
    for i in 0..TREMOLO_PARAM_COUNT {
        all.push(TremoloParamTable::descriptor(i).unwrap().id.0);
    }
    for i in 0..TUNER_PARAM_COUNT {
        all.push(TunerParamTable::descriptor(i).unwrap().id.0);
    }
    for i in 0..WAH_PARAM_COUNT {
        all.push(WahParamTable::descriptor(i).unwrap().id.0);
    }
    for i in 0..LIMITER_PARAM_COUNT {
        all.push(LimiterParamTable::descriptor(i).unwrap().id.0);
    }
    let n = all.len();
    all.sort();
    all.dedup();
    assert_eq!(all.len(), n);
}

#[test]
fn all_ranges_ordered_and_steps_positive() {
    for i in 0..MULTIBAND_COMP_PARAM_COUNT {
        check_range(MultibandCompParamTable::descriptor(i).unwrap());
    }
    for i in 0..PHASER_PARAM_COUNT {
        check_range(PhaserParamTable::descriptor(i).unwrap());
    }
    for i in 0..PLATE_REVERB_PARAM_COUNT {
        check_range(PlateReverbParamTable::descriptor(i).unwrap());
    }
    for i in 0..PREAMP_PARAM_COUNT {
        check_range(PreampParamTable::descriptor(i).unwrap());
    }
    for i in 0..REVERB_PARAM_COUNT {
        check_range(ReverbParamTable::descriptor(i).unwrap());
    }
    for i in 0..RINGMOD_PARAM_COUNT {
        check_range(RingModParamTable::descriptor(i).unwrap());
    }
    for i in 0..SHELVING_EQ_PARAM_COUNT {
        check_range(ShelvingEqParamTable::descriptor(i).unwrap());
    }
    for i in 0..SPRING_REVERB_PARAM_COUNT {
        check_range(SpringReverbParamTable::descriptor(i).unwrap());
    }
    for i in 0..STAGE_PARAM_COUNT {
        check_range(StageParamTable::descriptor(i).unwrap());
    }
    for i in 0..STEREO_WIDENER_PARAM_COUNT {
        check_range(StereoWidenerParamTable::descriptor(i).unwrap());
    }
    for i in 0..TAPE_PARAM_COUNT {
        check_range(TapeParamTable::descriptor(i).unwrap());
    }
    for i in 0..TEXTURE_PARAM_COUNT {
        check_range(TextureParamTable::descriptor(i).unwrap());
    }
    for i in 0..TIME_STRETCH_PARAM_COUNT {
        check_range(TimeStretchParamTable::descriptor(i).unwrap());
    }
    for i in 0..TRANSIENT_SHAPER_PARAM_COUNT {
        check_range(TransientShaperParamTable::descriptor(i).unwrap());
    }
    for i in 0..TREMOLO_PARAM_COUNT {
        check_range(TremoloParamTable::descriptor(i).unwrap());
    }
    for i in 0..TUNER_PARAM_COUNT {
        check_range(TunerParamTable::descriptor(i).unwrap());
    }
    for i in 0..WAH_PARAM_COUNT {
        check_range(WahParamTable::descriptor(i).unwrap());
    }
    for i in 0..LIMITER_PARAM_COUNT {
        check_range(LimiterParamTable::descriptor(i).unwrap());
    }
}

#[test]
fn stepped_params_snap() {
    for i in 0..STAGE_PARAM_COUNT {
        let d = StageParamTable::descriptor(i).unwrap();
        if d.stepped {
            assert_eq!(StageParamTable::smoothing(i), SmoothingStyle::Snap);
        }
    }
    for i in 0..TUNER_PARAM_COUNT {
        let d = TunerParamTable::descriptor(i).unwrap();
        if d.stepped || d.read_only {
            assert_eq!(TunerParamTable::smoothing(i), SmoothingStyle::Snap);
        }
    }
}

/// Descriptor defaults match the Default impl values.
#[test]
fn descriptor_defaults_match_struct() {
    for i in 0..TAPE_PARAM_COUNT {
        let desc = TapeParamTable::descriptor(i).unwrap();
        let default = TapeParamTable::default_value(i).map(f32::from_bits).unwrap();
        let (_, _, desc_default) = range_f32(&desc).unwrap();
        assert!(
            (default - desc_default).abs() < 1e-6,
            "param {i}: struct default {default} != descriptor default {desc_default}"
        );
    }
}

#[test]
fn limiter_descriptor_defaults_and_units() {
    let want = [-6.0f32, -0.3, 100.0, 5.0, 0.0];
    for (i, w) in want.iter().enumerate() {
        let d = LimiterParamTable::descriptor(i).unwrap();
        assert_eq!(d.default.map(f32::from_bits), Some(*w));
    }
    assert_eq!(LimiterParamTable::descriptor(0).unwrap().unit, Some(ParamUnit::Decibels));
    assert_eq!(LimiterParamTable::descriptor(2).unwrap().unit, Some(ParamUnit::Milliseconds));
    assert_eq!(LimiterParamTable::descriptor(4).unwrap().unit, None);
}

#[test]
fn phaser_descriptor_ids_steps_and_scales() {
    let ids: Vec<u32> = (0..10).map(|i| PhaserParamTable::descriptor(i).unwrap().id.0).collect();
    assert_eq!(ids, vec![900, 901, 902, 903, 904, 906, 907, 908, 909, 905]);
    assert!(PhaserParamTable::descriptor(10).is_none());
    for i in [2, 7, 8] {
        assert!(PhaserParamTable::descriptor(i).unwrap().stepped);
    }
    let min_f = PhaserParamTable::descriptor(5).unwrap();
    assert_eq!(min_f.scale, Some(ParamScale::Logarithmic));
    assert_eq!(min_f.unit, Some(ParamUnit::Hertz));
    assert_eq!(PhaserParamTable::descriptor(6).unwrap().scale, Some(ParamScale::Logarithmic));
    assert_eq!(PhaserParamTable::descriptor(2).unwrap().unit, Some(ParamUnit::Unitless));
    assert_eq!(PhaserParamTable::descriptor(3).unwrap().scale, None);
}

#[test]
fn tape_log_scaled_frequencies() {
    assert_eq!(TapeParamTable::descriptor(2).unwrap().scale, Some(ParamScale::Logarithmic));
    assert_eq!(TapeParamTable::descriptor(8).unwrap().scale, Some(ParamScale::Logarithmic));
    assert_eq!(TapeParamTable::descriptor(0).unwrap().unit, Some(ParamUnit::Decibels));
}

#[test]
fn time_stretch_randomize_default_without_range() {
    let d = TimeStretchParamTable::descriptor(4).unwrap();
    assert_eq!(d.range, None);
    assert_eq!(d.default.map(f32::from_bits), Some(20.0f32));
    assert_eq!(TimeStretchParamTable::default_value(4).map(f32::from_bits), Some(20.0f32));
}

#[test]
fn descriptor_default_field_agrees_with_range() {
    let tables: Vec<(usize, fn(usize) -> Option<ParamInfo>)> = vec![
        (MULTIBAND_COMP_PARAM_COUNT, MultibandCompParamTable::descriptor),
        (PHASER_PARAM_COUNT, PhaserParamTable::descriptor),
        (PLATE_REVERB_PARAM_COUNT, PlateReverbParamTable::descriptor),
        (PREAMP_PARAM_COUNT, PreampParamTable::descriptor),
        (REVERB_PARAM_COUNT, ReverbParamTable::descriptor),
        (RINGMOD_PARAM_COUNT, RingModParamTable::descriptor),
        (SHELVING_EQ_PARAM_COUNT, ShelvingEqParamTable::descriptor),
        (SPRING_REVERB_PARAM_COUNT, SpringReverbParamTable::descriptor),
        (STAGE_PARAM_COUNT, StageParamTable::descriptor),
        (STEREO_WIDENER_PARAM_COUNT, StereoWidenerParamTable::descriptor),
        (TAPE_PARAM_COUNT, TapeParamTable::descriptor),
        (TEXTURE_PARAM_COUNT, TextureParamTable::descriptor),
        (TIME_STRETCH_PARAM_COUNT, TimeStretchParamTable::descriptor),
        (TRANSIENT_SHAPER_PARAM_COUNT, TransientShaperParamTable::descriptor),
        (TREMOLO_PARAM_COUNT, TremoloParamTable::descriptor),
        (TUNER_PARAM_COUNT, TunerParamTable::descriptor),
        (WAH_PARAM_COUNT, WahParamTable::descriptor),
        (LIMITER_PARAM_COUNT, LimiterParamTable::descriptor),
    ];
    for (n, desc) in tables {
        for i in 0..n {
            let d = desc(i).unwrap();
            if let Some(r) = d.range {
                assert_eq!(d.default, Some(r.default), "{}", d.string_id);
            }
        }
    }
}

fn listed(l: StepLabels) -> Option<Vec<&'static str>> {
    match l {
        StepLabels::Listed(v) => Some(v),
        _ => None,
    }
}

#[test]
fn stage_step_labels() {
    assert_eq!(listed(StageParamTable::step_labels(5)), Some(vec!["Normal", "Swap", "Mono L", "Mono R"]));
    assert_eq!(listed(StageParamTable::step_labels(3)), Some(vec!["Off", "On"]));
    assert_eq!(listed(StageParamTable::step_labels(10)), Some(vec!["L", "R"]));
    assert!(matches!(StageParamTable::step_labels(0), StepLabels::Unlabelled));
    for i in 0..STAGE_PARAM_COUNT {
        if !matches!(StageParamTable::step_labels(i), StepLabels::Unlabelled) {
            assert!(StageParamTable::descriptor(i).unwrap().stepped);
        }
    }
}

#[test]
fn modulation_step_labels() {
    assert_eq!(listed(WahParamTable::step_labels(3)), Some(vec!["Auto", "Manual"]));
    assert_eq!(listed(RingModParamTable::step_labels(2)), Some(vec!["Sine", "Triangle", "Square"]));
    assert_eq!(
        listed(TremoloParamTable::step_labels(2)),
        Some(vec!["Sine", "Triangle", "Square", "SampleHold"])
    );
    assert_eq!(listed(TremoloParamTable::step_labels(4)), Some(vec!["Off", "On"]));
    assert!(matches!(TremoloParamTable::step_labels(5), StepLabels::NoteDivisions));
    assert_eq!(listed(PhaserParamTable::step_labels(7)), Some(vec!["Off", "On"]));
    assert!(matches!(PhaserParamTable::step_labels(8), StepLabels::NoteDivisions));
    assert!(matches!(PhaserParamTable::step_labels(2), StepLabels::Unlabelled));
    assert_eq!(listed(TimeStretchParamTable::step_labels(5)), Some(vec!["Off", "On"]));
    assert_eq!(listed(TimeStretchParamTable::step_labels(6)), Some(vec!["Off", "On"]));
    assert_eq!(listed(TunerParamTable::step_labels(1)), Some(vec!["Off", "On"]));
    assert!(matches!(TapeParamTable::step_labels(0), StepLabels::Unlabelled));
    assert!(matches!(WahParamTable::step_labels(99), StepLabels::Unlabelled));
}
