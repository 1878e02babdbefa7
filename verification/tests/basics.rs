use rusty_hpsdr::adc::Adc;
use rusty_hpsdr::agc::{AgcTiming, AGC};
use rusty_hpsdr::alex::ALEX_ANTENNA_1;
use rusty_hpsdr::bands::{BandInfo, Bands};
use rusty_hpsdr::filters::{filter_label, get_filter_values, is_variable_filter, Filters};
use rusty_hpsdr::modes::Modes;
use rusty_hpsdr::radio::Keyer;
use rusty_hpsdr::receiver::AudioOutput;
use rusty_hpsdr::util::format_u32_with_separators;

#[test]
fn separators_group_thousands() {
    assert_eq!(format_u32_with_separators(14175000), "14.175.000");
    assert_eq!(format_u32_with_separators(7074000), "7.074.000");
    assert_eq!(format_u32_with_separators(1000), "1.000");
}

#[test]
fn separators_edge_cases() {
    assert_eq!(format_u32_with_separators(0), "0");
    assert_eq!(format_u32_with_separators(999), "999");
    assert_eq!(format_u32_with_separators(100000), "100.000");
    assert_eq!(format_u32_with_separators(u32::MAX), "4.294.967.295");
}

#[test]
fn separators_only_added() {
    let s = format_u32_with_separators(123456789);
    assert_eq!(s.replace('.', ""), "123456789");
}

#[test]
fn adc_new_is_antenna_one_plain() {
    let adc = Adc::new();
    assert_eq!(adc.rx_antenna, ALEX_ANTENNA_1);
    assert!(!adc.random);
    assert!(!adc.dither);
    assert_eq!(adc.attenuation, 0);
    assert_eq!(Adc::default(), adc);
}

#[test]
fn agc_codes_round_trip() {
    for v in 0..5 {
        let agc = AGC::from_i32(v).unwrap();
        assert_eq!(agc.to_i32(), v);
    }
    assert_eq!(AGC::from_i32(0), Some(AGC::OFF));
    assert_eq!(AGC::from_i32(4), Some(AGC::FAST));
    assert_eq!(AGC::from_i32(5), None);
    assert_eq!(AGC::from_i32(-1), None);
}

#[test]
fn agc_timings() {
    assert_eq!(AGC::OFF.timing(7), None);
    assert_eq!(
        AGC::LONG.timing(7),
        Some(AgcTiming { attack: 2, hang: 2000, decay: 2000, hang_threshold: 7 })
    );
    assert_eq!(
        AGC::SLOW.timing(7),
        Some(AgcTiming { attack: 2, hang: 1000, decay: 500, hang_threshold: 7 })
    );
    assert_eq!(
        AGC::MEDIUM.timing(7),
        Some(AgcTiming { attack: 2, hang: 0, decay: 250, hang_threshold: 100 })
    );
    assert_eq!(
        AGC::FAST.timing(7),
        Some(AgcTiming { attack: 2, hang: 0, decay: 50, hang_threshold: 100 })
    );
}

#[test]
fn mode_codes_round_trip() {
    for v in 0..12 {
        assert_eq!(Modes::from_usize(v).unwrap().to_usize(), v);
    }
    assert_eq!(Modes::from_usize(3), Some(Modes::CWL));
    assert_eq!(Modes::from_usize(11), Some(Modes::DRM));
    assert_eq!(Modes::from_usize(12), None);
}

#[test]
fn filter_codes_round_trip() {
    for v in 0..12 {
        assert_eq!(Filters::from_usize(v).unwrap().to_usize(), v);
    }
    assert_eq!(Filters::from_usize(10), Some(Filters::FVar1));
    assert_eq!(Filters::from_usize(12), None);
}

#[test]
fn band_codes_round_trip() {
    for v in 0..15 {
        assert_eq!(Bands::from_usize(v).unwrap().to_usize(), v);
    }
    assert_eq!(Bands::from_usize(7), Some(Bands::Band20));
    assert_eq!(Bands::from_usize(14), Some(Bands::BandWWV));
    assert_eq!(Bands::from_usize(15), None);
}

#[test]
fn audio_output_codes() {
    assert_eq!(AudioOutput::from_u32(0), AudioOutput::Stereo);
    assert_eq!(AudioOutput::from_u32(1), AudioOutput::Left);
    assert_eq!(AudioOutput::from_u32(2), AudioOutput::Right);
    assert_eq!(AudioOutput::from_u32(3), AudioOutput::Mute);
    assert_eq!(AudioOutput::from_u32(99), AudioOutput::Stereo);
    for v in 0..4 {
        assert_eq!(AudioOutput::from_u32(v).to_u32(), v);
    }
}

#[test]
fn keyer_codes() {
    for v in 0..3 {
        assert_eq!(Keyer::from_u32(v).unwrap().to_u32(), v);
    }
    assert_eq!(Keyer::from_u32(3), None);
}

#[test]
fn filter_values_by_mode() {
    let lsb = Modes::LSB.to_usize();
    let usb = Modes::USB.to_usize();
    assert_eq!(get_filter_values(lsb, 0), (-5150, -150));
    assert_eq!(get_filter_values(usb, 5), (150, 2850));
    assert_eq!(get_filter_values(usb, 10), (150, 2850));
    assert_eq!(get_filter_values(Modes::CWU.to_usize(), 4), (250, 250));
    assert_eq!(get_filter_values(Modes::CWL.to_usize(), 9), (13, 13));
    assert_eq!(get_filter_values(Modes::AM.to_usize(), 0), (-8000, 8000));
    assert_eq!(get_filter_values(Modes::FMN.to_usize(), 9), (-1200, 1200));
    assert_eq!(get_filter_values(Modes::DIGU.to_usize(), 10), (0, 4000));
    assert_eq!(get_filter_values(Modes::DIGL.to_usize(), 10), (-4000, 0));
    assert_eq!(get_filter_values(Modes::DIGL.to_usize(), 11), (-2850, -150));
    // an unknown mode number reads the USB filters
    assert_eq!(get_filter_values(42, 9), (150, 1150));
}

#[test]
fn fixed_filter_edges_are_ordered() {
    for mode in 0..13 {
        for filter in 0..10 {
            let (low, high) = get_filter_values(mode, filter);
            assert!(low <= high);
        }
    }
}

#[test]
fn filter_labels_by_mode() {
    assert_eq!(filter_label(Modes::USB.to_usize(), 0), "5.0k");
    assert_eq!(filter_label(Modes::CWL.to_usize(), 1), "800");
    assert_eq!(filter_label(Modes::FMN.to_usize(), 0), "8k");
    assert_eq!(filter_label(Modes::FMN.to_usize(), 1), "16k");
    assert_eq!(filter_label(Modes::AM.to_usize(), 4), "6.6k");
    assert_eq!(filter_label(Modes::LSB.to_usize(), 11), "Var2");
}

#[test]
fn variable_filters() {
    assert!(is_variable_filter(10));
    assert!(is_variable_filter(11));
    assert!(!is_variable_filter(9));
    assert!(!is_variable_filter(0));
}

#[test]
fn band_table() {
    let bands = BandInfo::new();
    assert_eq!(bands.len(), 15);
    for (i, b) in bands.iter().enumerate() {
        assert_eq!(b.band.to_usize(), i);
        assert!(b.low <= b.current && b.current <= b.high);
    }
    let b20 = &bands[7];
    assert_eq!(b20.label, "20");
    assert_eq!(b20.low, 14000000);
    assert_eq!(b20.high, 14350000);
    assert_eq!(b20.current, 14175000);
    assert_eq!(b20.filters, 0x01100002);
    assert_eq!(b20.mode, Modes::USB);
    assert_eq!(b20.filter, Filters::F5);
    let gen = &bands[13];
    assert_eq!(gen.label, "GEN");
    assert_eq!(gen.mode, Modes::AM);
    assert_eq!(gen.filter, Filters::F3);
    assert_eq!(bands[0].label, "2200");
    assert_eq!(bands[0].current, 135750);
    assert_eq!(bands[14].label, "WWV");
    assert_eq!(bands[14].mode, Modes::SAM);
}
