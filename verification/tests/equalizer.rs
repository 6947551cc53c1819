use tunex::config::TunexConfig;
use tunex::equalizer::{EQ_BAND_COUNT, EQ_GAIN_MAX_DB, EQ_GAIN_MIN_DB, preset_gains};
use tunex::queue_model::QueueModel;

const PRESET_IDS: [&str; 8] =
    ["flat", "hip-hop", "rock", "jazz", "classic", "vocals", "electronic", "pop"];

#[test]
fn every_named_preset_has_ten_gains_inside_the_slider_range() {
    for id in PRESET_IDS {
        let gains = preset_gains(id).expect("named preset exists");
        assert_eq!(gains.len(), EQ_BAND_COUNT);
        assert!(gains.iter().all(|g| EQ_GAIN_MIN_DB <= *g && *g <= EQ_GAIN_MAX_DB));
    }
}

#[test]
fn preset_tables_hold_their_documented_shapes() {
    assert_eq!(preset_gains("flat"), Some(vec![0; 10]));
    assert_eq!(preset_gains("hip-hop"), Some(vec![6, 5, 1, 0, -1, -1, 0, 1, 2, 3]));
    assert_eq!(preset_gains("vocals"), Some(vec![-2, -1, 0, 2, 4, 4, 3, 1, 0, -1]));
    assert_eq!(preset_gains("pop"), Some(vec![2, 1, 0, 1, 2, 1, 0, 1, 2, 2]));
}

#[test]
fn unknown_or_custom_preset_names_have_no_gains() {
    assert_eq!(preset_gains("custom"), None);
    assert_eq!(preset_gains("Rock"), None);
    assert_eq!(preset_gains(""), None);
}

#[test]
fn two_presets_never_share_their_gains() {
    for (i, a) in PRESET_IDS.iter().enumerate() {
        for b in PRESET_IDS.iter().skip(i + 1) {
            assert_ne!(preset_gains(a), preset_gains(b), "{a} and {b}");
        }
    }
}

#[test]
fn choosing_a_preset_records_its_name() {
    let mut model = QueueModel::new(TunexConfig::default(), String::new());
    assert_eq!(model.eq_preset(), "flat");
    let gains = model.set_eq_preset("rock");
    assert_eq!(gains, Some(vec![4, 3, 1, 0, -1, 0, 1, 2, 3, 3]));
    assert_eq!(model.eq_preset(), "rock");
}

#[test]
fn an_unknown_preset_leaves_the_choice_alone() {
    let mut model = QueueModel::new(TunexConfig::default(), String::new());
    model.set_eq_preset("jazz");
    assert_eq!(model.set_eq_preset("loudness"), None);
    assert_eq!(model.eq_preset(), "jazz");
}
