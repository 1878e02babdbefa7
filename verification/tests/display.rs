use rusty_hpsdr::audio::{output_frames, pcm_hint_listed, Audio, AudioOpen, PcmDirection};
use rusty_hpsdr::grid::ButtonGrid;
use rusty_hpsdr::spectrum::{first_marker, frequency_markers, level_lines, marker_step};

#[test]
fn marker_steps_by_rate_and_zoom() {
    assert_eq!(marker_step(48000, 1), 50000);
    assert_eq!(marker_step(96000, 1), 10000);
    assert_eq!(marker_step(192000, 3), 20000);
    assert_eq!(marker_step(384000, 1), 25000);
    assert_eq!(marker_step(384000, 2), 25000);
    assert_eq!(marker_step(384000, 5), 10000);
    assert_eq!(marker_step(384000, 6), 5000);
    assert_eq!(marker_step(384000, 10), 5000);
    assert_eq!(marker_step(384000, 11), 2000);
    assert_eq!(marker_step(384000, 16), 2000);
    assert_eq!(marker_step(384000, 17), 25000);
    assert_eq!(marker_step(384000, 0), 25000);
    assert_eq!(marker_step(768000, 1), 50000);
    assert_eq!(marker_step(1536000, 1), 100000);
    assert_eq!(marker_step(22050, 1), 25000);
}

#[test]
fn first_marker_above_low_edge() {
    assert_eq!(first_marker(14151000, 10000), 14160000);
    assert_eq!(first_marker(14150000, 10000), 14160000);
    assert_eq!(first_marker(0, 25000), 25000);
    // below zero the division rounds toward zero
    assert_eq!(first_marker(-5000, 10000), 0);
    assert_eq!(first_marker(-15000, 10000), 0);
    assert_eq!(first_marker(-25000, 10000), -10000);
}

#[test]
fn markers_span_the_display() {
    let m = frequency_markers(14151000, 14199000, 10000);
    assert_eq!(m, vec![14160000, 14170000, 14180000, 14190000]);
    let m = frequency_markers(14151000, 14190000, 10000);
    assert_eq!(m, vec![14160000, 14170000, 14180000]);
    assert!(frequency_markers(14151000, 14155000, 10000).is_empty());
}

#[test]
fn level_lines_every_step() {
    assert_eq!(level_lines(-120, -60, 20), vec![-120, -100, -80]);
    assert_eq!(level_lines(-125, -99, 10), vec![-120, -110, -100]);
    assert_eq!(level_lines(-25, 25, -20), vec![-20, 0, 20]);
    assert!(level_lines(-60, -120, 10).is_empty());
}

#[test]
fn grid_starts_with_nothing_chosen() {
    let g = ButtonGrid::new(15);
    assert_eq!(g.len(), 15);
    assert_eq!(g.get_active_index(), None);
    for i in 0..15 {
        assert!(!g.is_highlighted(i));
    }
}

#[test]
fn grid_shows_exactly_the_choice() {
    let mut g = ButtonGrid::new(12);
    g.set_callback(5);
    assert_eq!(g.get_active_index(), Some(5));
    assert!(g.is_highlighted(5));
    assert_eq!(g.click(7), Some(5));
    assert_eq!(g.get_active_index(), Some(7));
    for i in 0..12 {
        assert_eq!(g.is_highlighted(i), i == 7);
    }
    assert_eq!(g.set_active_index(2), 7);
    for i in 0..12 {
        assert_eq!(g.is_highlighted(i), i == 2);
    }
    // clicking the chosen button keeps it chosen
    assert_eq!(g.click(2), Some(2));
    assert!(g.is_highlighted(2));
}

#[test]
fn grid_click_without_choice() {
    let mut g = ButtonGrid::new(3);
    assert_eq!(g.click(1), None);
    assert_eq!(g.get_active_index(), Some(1));
    assert!(g.is_highlighted(1));
    assert!(!g.is_highlighted(0));
}

#[test]
fn grid_initial_out_of_range() {
    let mut g = ButtonGrid::new(3);
    g.set_callback(9);
    assert_eq!(g.get_active_index(), Some(9));
    for i in 0..3 {
        assert!(!g.is_highlighted(i));
    }
}

#[test]
fn audio_defaults() {
    let a = Audio::new();
    assert!(a.remote_input);
    assert!(!a.local_input);
    assert_eq!(a.input_device, "default");
    assert_eq!(a.period_size, 0);
    assert!(a.remote_output);
    assert!(!a.local_output);
    assert_eq!(a.output_device, "default");
    assert_eq!(a.output_underruns, 0);
}

#[test]
fn audio_init_opens_local_devices() {
    let mut a = Audio::new();
    a.local_output = true;
    a.output_underruns = 5;
    assert_eq!(a.init(), AudioOpen { input: false, output: true });
    assert_eq!(a.output_underruns, 0);
    a.note_underrun();
    a.note_underrun();
    assert_eq!(a.output_underruns, 2);
}

#[test]
fn output_trimmed_when_too_far_behind() {
    assert_eq!(output_frames(0, 1024), 1024);
    assert_eq!(output_frames(3072, 1024), 1024);
    assert_eq!(output_frames(3100, 1024), 996);
    assert_eq!(output_frames(4096, 1024), 0);
    assert_eq!(output_frames(-10, 1024), 1024);
}

#[test]
fn pcm_hints() {
    assert!(pcm_hint_listed(true, true, None, PcmDirection::Playback));
    assert!(pcm_hint_listed(true, true, Some(PcmDirection::Capture), PcmDirection::Capture));
    assert!(!pcm_hint_listed(true, true, Some(PcmDirection::Capture), PcmDirection::Playback));
    assert!(!pcm_hint_listed(false, true, None, PcmDirection::Playback));
    assert!(!pcm_hint_listed(true, false, None, PcmDirection::Playback));
}
