use rusty_hpsdr::agc::AGC;
use rusty_hpsdr::bands::{BandInfo, Bands};
use rusty_hpsdr::filters::Filters;
use rusty_hpsdr::modes::Modes;
use rusty_hpsdr::receiver::{
    a_to_b, active_receiver, b_to_a, local_audio, mix_audio, step_size, swap_ab, AudioOutput,
    Receiver, RemoteAudioBuffer,
};

#[test]
fn new_receiver_defaults() {
    let r = Receiver::new(0, 1, 1024);
    assert!(r.active);
    assert_eq!(r.sample_rate, 384000);
    assert_eq!(r.output_samples, 128);
    assert_eq!(r.band, Bands::Band20);
    assert_eq!(r.frequency, 14175000);
    assert_eq!(r.step, 1000);
    assert_eq!(r.mode, Modes::USB.to_usize());
    assert_eq!(r.filter, Filters::F6.to_usize());
    assert_eq!((r.filter_low, r.filter_high), (300, 2700));
    assert_eq!(r.agc, AGC::FAST);
    assert_eq!(r.cw_pitch, 400);
    assert_eq!(r.remote_audio_buffer_size, 260);
    assert_eq!(r.band_info.len(), 15);
    assert_eq!(r.spectrum_width, 1024);
    let r1 = Receiver::new(1, 2, 800);
    assert!(!r1.active);
    assert_eq!(r1.channel, 1);
    assert_eq!(r1.protocol, 2);
}

#[test]
fn sample_rate_sets_output_samples() {
    let mut r = Receiver::new(0, 1, 1024);
    r.sample_rate_changed(48000);
    assert_eq!(r.sample_rate, 48000);
    assert_eq!(r.output_samples, 1024);
    r.sample_rate_changed(192000);
    assert_eq!(r.output_samples, 256);
    assert!(!r.sample_rate_changed);
}

#[test]
fn mode_and_filter_selection() {
    let mut r = Receiver::new(0, 1, 1024);
    assert_eq!(r.select_mode(Modes::LSB.to_usize()), (-2550, -150));
    assert_eq!((r.filter_low, r.filter_high), (-2550, -150));
    // CW: the filter placed about the pitch
    assert_eq!(r.select_mode(Modes::CWU.to_usize()), (125, 125));
    assert_eq!((r.filter_low, r.filter_high), (400 - 125, 400 + 125));
    assert_eq!(r.select_mode(Modes::CWL.to_usize()), (125, 125));
    assert_eq!((r.filter_low, r.filter_high), (-400 - 125, -400 + 125));
    assert_eq!(r.select_filter(0), (500, 500));
    assert_eq!((r.filter_low, r.filter_high), (-900, 100));
    assert_eq!(r.filter, 0);
    assert_eq!(r.passband(), (400 + 900, 400 + 100));
    r.select_mode(Modes::AM.to_usize());
    assert_eq!(r.passband(), (-8000, 8000));
}

#[test]
fn band_change_remembers_frequency() {
    let mut r = Receiver::new(0, 1, 1024);
    let mut bands = BandInfo::new();
    r.frequency = 14074000;
    let e = r.select_band(5, &mut bands);
    assert_eq!(e, Some((-2850, -150)));
    assert_eq!(r.band, Bands::Band40);
    assert_eq!(r.frequency, 7150000);
    assert_eq!(r.mode, Modes::LSB.to_usize());
    assert_eq!(r.filters, 0x01200010);
    assert_eq!(bands[7].current, 14074000);
    // and back again
    r.select_band(7, &mut bands);
    assert_eq!(r.frequency, 14074000);
    assert_eq!(r.band, Bands::Band20);
    assert_eq!(r.mode, Modes::USB.to_usize());
    assert_eq!(bands[5].current, 7150000);
    // choosing the band it is on changes nothing
    assert_eq!(r.select_band(7, &mut bands), None);
    assert_eq!(r.frequency, 14074000);
}

#[test]
fn band_change_keeps_manual_filters_and_moves_ctun() {
    let mut r = Receiver::new(0, 1, 1024);
    let mut bands = BandInfo::new();
    r.filters_manual = true;
    r.filters = 0x1234;
    r.set_ctun(true);
    r.select_band(2, &mut bands);
    assert_eq!(r.filters, 0x1234);
    assert_eq!(r.frequency, 1900000);
    assert_eq!(r.ctun_frequency, 1900000);
}

#[test]
fn noise_buttons_cycle() {
    let mut r = Receiver::new(0, 1, 1024);
    let t = r.toggle_nr(true);
    assert!(r.nr && !r.nr2);
    assert!(!t.keep_pressed);
    let t = r.toggle_nr(false);
    assert!(!r.nr && r.nr2);
    assert!(t.keep_pressed && t.relabel_second);
    let t = r.toggle_nr(false);
    assert!(!r.nr && !r.nr2);
    assert!(t.relabel_first);
    r.toggle_nb(true);
    assert!(r.nb && !r.nb2);
    assert!(!r.nr);
}

#[test]
fn click_tuning() {
    let mut r = Receiver::new(0, 1, 1024);
    // without CTUN a click retunes the receiver, to a whole step
    r.click_tune(14180400);
    assert_eq!(r.frequency, 14180000);
    r.click_tune(-3);
    assert_eq!(r.frequency, 0);
    r.frequency = 14175000;
    // with CTUN the receiver stays put and the CTUN frequency moves
    r.set_ctun(true);
    assert_eq!(r.ctun_frequency, 14175000);
    r.click_tune(14190999);
    assert_eq!(r.ctun_frequency, 14190000);
    assert_eq!(r.frequency, 14175000);
    assert_eq!(r.display_frequency(), 14190000);
    assert_eq!(r.ctun_offset(), 15000);
    r.set_ctun(false);
    assert_eq!(r.ctun_frequency, 0);
    assert_eq!(r.display_frequency(), 14175000);
}

#[test]
fn ctun_offset_in_cw() {
    let mut r = Receiver::new(0, 1, 1024);
    r.set_ctun(true);
    r.ctun_frequency = 14176000;
    r.mode = Modes::CWL.to_usize();
    assert_eq!(r.ctun_offset(), 1400);
    r.mode = Modes::CWU.to_usize();
    assert_eq!(r.ctun_offset(), 600);
    assert_eq!(r.cursor_frequency(), 14175600);
    r.mode = Modes::CWL.to_usize();
    assert_eq!(r.cursor_frequency(), 14176400);
}

#[test]
fn scroll_tuning() {
    let mut r = Receiver::new(0, 1, 1024);
    r.tune_by(1000);
    assert_eq!(r.frequency, 14174000);
    r.tune_by(-3000);
    assert_eq!(r.frequency, 14177000);
    // with CTUN the CTUN frequency moves, held within the displayed span
    r.set_ctun(true);
    r.tune_by(100000);
    assert_eq!(r.ctun_frequency, 14077000);
    r.tune_by(1000000);
    assert_eq!(r.ctun_frequency, 14177000 - 192000);
    r.tune_by(-10000000);
    assert_eq!(r.ctun_frequency, 14177000 + 192000);
    assert_eq!(r.frequency, 14177000);
}

#[test]
fn pan_and_step() {
    let mut r = Receiver::new(0, 1, 1024);
    assert_eq!(r.set_pan(40), 0);
    r.zoom = 4;
    assert_eq!(r.set_pan(40), 40);
    assert_eq!(r.pan, 40);
    r.set_step(10);
    assert_eq!(r.step, 10000);
    assert_eq!(r.step_index, 10);
    assert_eq!(step_size(0), 1);
    assert_eq!(step_size(9), 9000);
    assert_eq!(step_size(14), 1000000);
    assert_eq!(step_size(15), 1000);
}

#[test]
fn vfo_copies() {
    let mut a = Receiver::new(0, 1, 1024);
    let mut b = Receiver::new(1, 1, 1024);
    a.frequency = 7074000;
    a.band = Bands::Band40;
    a_to_b(&a, &mut b);
    assert_eq!(b.frequency, 7074000);
    assert_eq!(b.band, Bands::Band40);
    b.frequency = 3573000;
    b.band = Bands::Band80;
    b_to_a(&b, &mut a);
    assert_eq!(a.frequency, 3573000);
    assert_eq!(a.band, Bands::Band80);
    // with A click tuning, B goes to A's CTUN frequency
    a.set_ctun(true);
    a.ctun_frequency = 3574000;
    a_to_b(&a, &mut b);
    assert_eq!(b.frequency, 3574000);
}

#[test]
fn vfo_swap_keeps_other_settings() {
    let mut a = Receiver::new(0, 1, 1024);
    let mut b = Receiver::new(1, 1, 1024);
    a.mode = 3;
    a.zoom = 4;
    b.filter = 7;
    swap_ab(&mut a, &mut b);
    assert_eq!(a.mode, 3);
    assert_eq!(a.zoom, 4);
    assert_eq!(b.filter, 7);
    assert_eq!(a.channel, 0);
    assert_eq!(b.channel, 1);
}

#[test]
fn vfo_swap_twice() {
    let mut a = Receiver::new(0, 1, 1024);
    let mut b = Receiver::new(1, 1, 1024);
    a.frequency = 7074000;
    a.band = Bands::Band40;
    b.frequency = 14074000;
    swap_ab(&mut a, &mut b);
    assert_eq!(a.frequency, 14074000);
    assert_eq!(b.frequency, 7074000);
    assert_eq!(a.band, Bands::Band20);
    assert_eq!(b.band, Bands::Band40);
    swap_ab(&mut a, &mut b);
    assert_eq!(a.frequency, 7074000);
    assert_eq!(b.frequency, 14074000);
    assert_eq!(a.band, Bands::Band40);
    assert_eq!(b.band, Bands::Band20);
}

#[test]
fn active_receiver_index() {
    assert_eq!(active_receiver(false), 0);
    assert_eq!(active_receiver(true), 1);
}

#[test]
fn audio_mixing() {
    assert_eq!(mix_audio(10, 20, 1, 2, AudioOutput::Stereo), (11, 22));
    assert_eq!(mix_audio(10, 20, 1, 2, AudioOutput::Left), (11, 11));
    assert_eq!(mix_audio(10, 20, 1, 2, AudioOutput::Right), (10, 22));
    assert_eq!(mix_audio(10, 20, 1, 2, AudioOutput::Mute), (10, 10));
    assert_eq!(mix_audio(i32::MAX, 0, 1, 0, AudioOutput::Left), (i32::MIN, i32::MIN));
    assert_eq!(local_audio(AudioOutput::Stereo, 5, -5), (5, -5));
    assert_eq!(local_audio(AudioOutput::Left, 5, -5), (5, 0));
    assert_eq!(local_audio(AudioOutput::Right, 5, -5), (0, -5));
    assert_eq!(local_audio(AudioOutput::Mute, 5, -5), (0, 0));
    assert_eq!(local_audio(AudioOutput::Stereo, 0x12345, -1), (0x2345, -1));
}

#[test]
fn remote_audio_packet() {
    let mut b = RemoteAudioBuffer::new(12);
    assert_eq!(b.contents(), &vec![0u8; 12]);
    assert!(!b.push(1, -1, true));
    assert!(b.push(0x0203, 0x0405, true));
    assert_eq!(b.contents(), &vec![0, 0, 0, 0, 0, 1, 0xFF, 0xFF, 2, 3, 4, 5]);
    // full: the next pair goes at 4 again
    assert!(!b.push(7, 7, false));
    assert_eq!(&b.contents()[4..8], &[0, 0, 0, 0]);
}

#[test]
fn negative_sample_rate_gives_no_output() {
    let mut r = Receiver::new(0, 1, 1024);
    r.sample_rate_changed(-96000);
    assert_eq!(r.sample_rate, -96000);
    assert_eq!(r.output_samples, 0);
}

#[test]
fn click_tuning_with_large_step() {
    let mut r = Receiver::new(0, 1, 1024);
    r.step = 5_000_000_000;
    r.click_tune(u32::MAX as i64);
    assert_eq!(r.frequency, u32::MAX as i64);
    r.click_tune(1_000_000);
    assert_eq!(r.frequency, 0);
}
