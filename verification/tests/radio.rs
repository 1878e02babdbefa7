use rusty_hpsdr::adc::Adc;
use rusty_hpsdr::alex::ALEX_ANTENNA_1;
use rusty_hpsdr::bands::Bands;
use rusty_hpsdr::discovery::{
    add_device, board_protocol1, board_protocol2, device_name, discovery_sources,
    is_selectable, next_manual_probe, parse_manual_reply, parse_protocol1_reply, parse_protocol2_reply,
    protocol1_discovery_request, protocol2_discovery_request, status_text, version_text,
    BoardInfo, Boards, Device, IpAddress, SocketAddress, REPLY_LEN,
};
use rusty_hpsdr::modes::Modes;
use rusty_hpsdr::protocol2::{HighPriorityStatus, ReceiverTuning};
use rusty_hpsdr::radio::{
    config_folder_name, limit_zone_bounds, ChannelState, Display, FilterBoards, Keyer, LimitZone,
    PixelRequest, Radio,
};
use rusty_hpsdr::transmitter::Transmitter;

fn addr(ip: u32, port: u16) -> SocketAddress {
    SocketAddress { ip: IpAddress::V4(ip), port }
}

fn protocol1_reply(board: u8, version: u8) -> Vec<u8> {
    let mut r = vec![0u8; REPLY_LEN];
    r[0] = 0xEF;
    r[1] = 0xFE;
    r[2] = 2;
    r[3..9].copy_from_slice(&[0x00, 0x1C, 0xC0, 0xA2, 0x13, 0xDD]);
    r[9] = version;
    r[10] = board;
    r[19] = 4;
    r
}

fn device() -> Device {
    parse_protocol1_reply(&protocol1_reply(1, 33), addr(0x0A000002, 1024), addr(0x0A000001, 0))
        .unwrap()
}

#[test]
fn manual_discovery_order() {
    // protocol 1 first
    assert_eq!(next_manual_probe(0, false), Some(1));
    // protocol 2 only when protocol 1 found nothing
    assert_eq!(next_manual_probe(1, false), Some(2));
    assert_eq!(next_manual_probe(1, true), None);
    // nothing after protocol 2
    assert_eq!(next_manual_probe(2, false), None);
    assert_eq!(next_manual_probe(2, true), None);
}

#[test]
fn discovery_requests() {
    let r1 = protocol1_discovery_request();
    assert_eq!(r1.len(), 63);
    assert_eq!(&r1[0..3], &[0xEF, 0xFE, 0x02]);
    assert!(r1[3..].iter().all(|&b| b == 0));
    let r2 = protocol2_discovery_request();
    assert_eq!(r2.len(), 60);
    assert_eq!(r2[4], 2);
    assert_eq!(r2.iter().filter(|&&b| b != 0).count(), 1);
}

#[test]
fn protocol1_reply_parsed() {
    let d = device();
    assert_eq!(d.protocol, 1);
    assert_eq!(d.device, 1);
    assert_eq!(d.board, Boards::Hermes);
    assert_eq!(d.version, 33);
    assert_eq!(d.status, 2);
    assert_eq!(d.mac, [0x00, 0x1C, 0xC0, 0xA2, 0x13, 0xDD]);
    assert_eq!(d.supported_receivers, 5);
    assert_eq!(d.adcs, 1);
    assert_eq!(d.frequency_max, 61440000);
    assert_eq!(d.address, addr(0x0A000002, 1024));
    assert_eq!(d.my_address, addr(0x0A000001, 0));
    // a reply of any other length describes nothing
    let short = &protocol1_reply(1, 33)[..59];
    assert!(parse_protocol1_reply(short, addr(1, 1), addr(2, 2)).is_none());
}

#[test]
fn hermes_lite_versions() {
    let hl1 = parse_protocol1_reply(&protocol1_reply(6, 41), addr(1, 1), addr(2, 2)).unwrap();
    assert_eq!(hl1.board, Boards::HermesLite);
    assert_eq!(hl1.supported_receivers, 2);
    assert_eq!(hl1.frequency_max, 30720000);
    let hl2 = parse_protocol1_reply(&protocol1_reply(6, 72), addr(1, 1), addr(2, 2)).unwrap();
    assert_eq!(hl2.board, Boards::HermesLite2);
    assert_eq!(hl2.supported_receivers, 4);
}

#[test]
fn boards_by_number() {
    assert_eq!(
        board_protocol1(4, 0, 0),
        BoardInfo {
            board: Boards::Angelia,
            adcs: 2,
            supported_receivers: 7,
            supported_transmitters: 1,
            frequency_min: 0,
            frequency_max: 61440000,
        }
    );
    assert_eq!(board_protocol1(99, 0, 0).board, Boards::Unknown);
    assert_eq!(board_protocol1(99, 0, 0).supported_receivers, 1);
    assert_eq!(board_protocol2(10).board, Boards::Saturn);
    assert_eq!(board_protocol2(6).board, Boards::HermesLite2);
    assert_eq!(board_protocol2(2).board, Boards::Hermes2);
    assert_eq!(board_protocol2(7).board, Boards::Unknown);
}

#[test]
fn protocol2_reply_parsed() {
    let mut r = vec![0u8; REPLY_LEN];
    r[4] = 3;
    r[5..11].copy_from_slice(&[1, 2, 3, 4, 5, 6]);
    r[11] = 5;
    r[13] = 21;
    let d = parse_protocol2_reply(&r, addr(7, 1024), addr(8, 0)).unwrap();
    assert_eq!(d.protocol, 2);
    assert_eq!(d.board, Boards::Orion2);
    assert_eq!(d.status, 3);
    assert_eq!(d.version, 21);
    assert_eq!(d.mac, [1, 2, 3, 4, 5, 6]);
    assert_eq!(d.adcs, 2);
    assert!(parse_protocol2_reply(&r[..10], addr(7, 1024), addr(8, 0)).is_none());
}

#[test]
fn manual_reply_from_target_only() {
    let r = protocol1_reply(1, 33);
    let target = IpAddress::V4(0x0A000002);
    assert!(parse_manual_reply(1, &r, addr(0x0A000002, 1024), addr(9, 0), target).is_some());
    assert!(parse_manual_reply(1, &r, addr(0x0A000003, 1024), addr(9, 0), target).is_none());
    let d = parse_manual_reply(2, &r, addr(0x0A000002, 1024), addr(9, 0), target).unwrap();
    assert_eq!(d.protocol, 2);
}

#[test]
fn device_list_and_names() {
    let mut list = Vec::new();
    add_device(&mut list, device());
    add_device(&mut list, device());
    assert_eq!(list.len(), 2);
    assert_eq!(device_name(device()), "Hermes");
    assert_eq!(status_text(2), "Available");
    assert_eq!(status_text(3), "In Use");
    assert_eq!(status_text(9), "Unknown");
    assert!(is_selectable(2));
    assert!(!is_selectable(3));
    assert_eq!(version_text(42), "4.2");
    assert_eq!(version_text(7), "0.7");
    assert_eq!(version_text(255), "25.5");
}

#[test]
fn sources_for_discovery() {
    let addrs = vec![Some(IpAddress::V4(0x7F000001)), None, Some(IpAddress::V4(0x0A000001))];
    assert_eq!(
        discovery_sources(&addrs),
        vec![addr(0x7F000001, 0), addr(0x0A000001, 0)]
    );
    assert!(discovery_sources(&vec![]).is_empty());
}

#[test]
fn new_radio() {
    let r = Radio::new(device(), 1024);
    assert_eq!(r.name, "HPSDR");
    assert_eq!(r.dev, 1);
    assert_eq!(r.protocol, 1);
    assert_eq!(r.receiver.len(), 2);
    assert!(r.receiver[0].active);
    assert!(!r.receiver[1].active);
    assert_eq!(r.band_info.len(), 15);
    assert_eq!(r.adc, vec![Adc::new()]);
    assert_eq!(r.transmitter.channel, 8);
    assert_eq!(r.filter_board, FilterBoards::ALEX);
    assert_eq!(r.cw_keyer_mode, Keyer::Straight);
    assert_eq!(r.cw_keyer_sidetone_frequency, 650);
    assert_eq!(r.alex, ALEX_ANTENNA_1);
    assert!(!r.is_transmitting());
}

#[test]
fn loaded_radio_starts_quiet() {
    let mut saved = Radio::new(device(), 1024);
    saved.mox = true;
    saved.ptt = true;
    saved.supply_volts = 99;
    saved.receiver[0].frequency = 7074000;
    let r = Radio::load(Some(saved), device(), 1024);
    assert!(!r.is_transmitting());
    assert_eq!(r.supply_volts, 0);
    assert_eq!(r.receiver[0].frequency, 7074000);
    let fresh = Radio::load(None, device(), 800);
    assert_eq!(fresh.receiver[0].frequency, 14175000);
    assert_eq!(fresh.receiver[0].spectrum_width, 800);
}

#[test]
fn loaded_radio_keeps_its_settings() {
    let mut saved = Radio::new(device(), 1024);
    saved.split = true;
    saved.rx2_enabled = true;
    saved.mic_boost = false;
    saved.cw_keyer_speed = 25;
    saved.alex = 0x0200_0000;
    saved.waterfall_auto = false;
    saved.tune = true;
    saved.dot = true;
    saved.updated = true;
    saved.exciter_power = 7;
    let r = Radio::load(Some(saved), device(), 1024);
    assert!(r.split && r.rx2_enabled);
    assert!(!r.mic_boost);
    assert_eq!(r.cw_keyer_speed, 25);
    assert_eq!(r.alex, 0x0200_0000);
    assert!(!r.waterfall_auto);
    assert!(!r.tune && !r.dot && !r.updated);
    assert_eq!(r.exciter_power, 0);
}

#[test]
fn status_leaves_settings_alone() {
    let mut r = Radio::new(device(), 1024);
    r.split = true;
    r.rx2_enabled = true;
    r.mox = true;
    let s = HighPriorityStatus {
        ptt: false,
        dot: true,
        dash: true,
        pll_locked: false,
        alex_forward_power: 0,
        alex_reverse_power: 0,
        supply_volts: 0,
    };
    assert!(r.apply_status(&s));
    assert!(r.split && r.rx2_enabled && r.mox);
    assert!(r.dot && r.dash && r.received);
    r.apply_keys(true, false, false);
    assert!(r.split && r.rx2_enabled && r.mox && r.ptt);
}

#[test]
fn channel_states() {
    let mut r = Radio::new(device(), 1024);
    assert_eq!(
        r.set_state(),
        [
            ChannelState { channel: 8, state: 0, dmp: 0 },
            ChannelState { channel: 0, state: 1, dmp: 0 },
        ]
    );
    r.press_mox(true);
    assert_eq!(
        r.set_state(),
        [
            ChannelState { channel: 0, state: 0, dmp: 1 },
            ChannelState { channel: 8, state: 1, dmp: 0 },
        ]
    );
}

#[test]
fn mox_and_tune_exclude_each_other() {
    let mut r = Radio::new(device(), 1024);
    assert!(!r.press_tune(true));
    assert!(r.tune);
    assert!(r.press_mox(true));
    assert!(r.mox && !r.tune);
    assert!(r.press_tune(true));
    assert!(r.tune && !r.mox);
    assert!(!r.press_tune(false));
    assert!(!r.tune && !r.mox);
    assert!(!r.is_transmitting());
    assert!(r.updated);
}

#[test]
fn status_and_keys() {
    let mut r = Radio::new(device(), 1024);
    let s = HighPriorityStatus {
        ptt: true,
        dot: false,
        dash: false,
        pll_locked: true,
        alex_forward_power: 10,
        alex_reverse_power: 2,
        supply_volts: 1200,
    };
    assert!(r.apply_status(&s));
    assert!(r.ptt && r.pll_locked && r.received);
    assert_eq!(r.supply_volts, 1200);
    assert!(r.is_transmitting());
    assert!(!r.apply_status(&s));
    assert!(r.apply_keys(false, true, false));
    assert!(!r.ptt && r.dot);
    assert!(!r.apply_keys(false, true, false));
}

#[test]
fn pixel_requests() {
    let mut r = Radio::new(device(), 1024);
    r.receiver[1].zoom = 2;
    assert_eq!(
        r.pixel_request(Display::Spectrum, 1000),
        PixelRequest { channel: 0, display: 0, pixels: 1000 }
    );
    assert_eq!(
        r.pixel_request(Display::Spectrum2, 1000),
        PixelRequest { channel: 1, display: 0, pixels: 2000 }
    );
    assert_eq!(
        r.pixel_request(Display::Waterfall2, 1000),
        PixelRequest { channel: 1, display: 1, pixels: 2000 }
    );
    r.press_mox(true);
    assert_eq!(
        r.pixel_request(Display::Spectrum, 1000),
        PixelRequest { channel: 8, display: 0, pixels: 12000 }
    );
    assert_eq!(r.pixel_request(Display::Spectrum2, 1000).channel, 1);
}

#[test]
fn control_and_high_priority_state() {
    let mut r = Radio::new(device(), 1024);
    r.receiver[0].frequency = 7074000;
    r.receiver[1].frequency = 3573000;
    r.adc[0].attenuation = 20;
    let c = r.control_state();
    assert_eq!(c.sample_rate, 384000);
    assert_eq!(
        c.rx1,
        ReceiverTuning { frequency: 7074000, mode: Modes::USB.to_usize(), cw_pitch: 400 }
    );
    assert_eq!(c.rx2_frequency, 3573000);
    assert_eq!(c.attenuation, 20);
    assert_eq!(c.dev, 1);
    assert!(!c.transmitting);
    let hp = r.high_priority(100);
    assert_eq!(hp.receivers.len(), 2);
    assert_eq!(hp.receivers[1].frequency, 3573000);
    assert_eq!(hp.rx1.frequency, 7074000);
    assert_eq!(hp.rx2.frequency, 3573000);
    r.receivers = 1;
    assert_eq!(r.high_priority(100).receivers.len(), 1);
    assert_eq!(hp.drive_level, 100);
    assert_eq!(hp.rx1_attenuation, 20);
    assert_eq!(hp.rx2_attenuation, 20);
    let ddcs = r.ddc_settings();
    assert_eq!(ddcs.len(), 2);
    assert_eq!(ddcs[0].sample_rate, 384000);
    let t = r.transmit_specific();
    assert_eq!(t.cw_keyer_sidetone_frequency, 650);
    assert_eq!(t.mode, Modes::USB.to_usize());
}

#[test]
fn activating_receivers() {
    let mut r = Radio::new(device(), 1024);
    assert!(!r.activate_receiver(1));
    assert!(r.receiver[1].active && !r.receiver[0].active);
    assert!(r.activate_receiver(1));
    assert!(!r.activate_receiver(0));
    assert!(r.receiver[0].active && !r.receiver[1].active);
}

#[test]
fn display_limits_scroll() {
    assert_eq!(limit_zone_bounds(200), (50, 150));
    assert_eq!(limit_zone_bounds(7), (1, 6));
    let mut r = Radio::new(device(), 1024);
    let b = Bands::Band20.to_usize();
    let (low, high) = (r.band_info[b].spectrum_low, r.band_info[b].spectrum_high);
    r.scroll_display_limits(0, LimitZone::Top, true);
    assert_eq!((r.band_info[b].spectrum_low, r.band_info[b].spectrum_high), (low, high + 1));
    r.scroll_display_limits(0, LimitZone::Bottom, false);
    assert_eq!((r.band_info[b].spectrum_low, r.band_info[b].spectrum_high), (low - 1, high + 1));
    r.scroll_display_limits(0, LimitZone::Middle, true);
    assert_eq!((r.band_info[b].spectrum_low, r.band_info[b].spectrum_high), (low, high + 2));
    // while transmitting the transmit display's scale moves
    r.press_mox(true);
    r.scroll_display_limits(0, LimitZone::Middle, false);
    assert_eq!((r.transmitter.spectrum_low, r.transmitter.spectrum_high), (-55, 5));
    assert_eq!((r.band_info[b].spectrum_low, r.band_info[b].spectrum_high), (low, high + 2));
}

#[test]
fn settings_folder() {
    assert_eq!(config_folder_name([0x00, 0x1C, 0xC0, 0xA2, 0x13, 0xDD]), "00-1C-C0-A2-13-DD");
    assert_eq!(config_folder_name([0xFF; 6]), "FF-FF-FF-FF-FF-FF");
}

#[test]
fn transmitter_defaults() {
    let t = Transmitter::new(8, 2);
    assert_eq!(t.dsp_rate, 96000);
    assert_eq!(t.output_rate, 192000);
    assert_eq!(t.output_samples, 4096);
    assert_eq!((t.filter_low, t.filter_high), (300, 2700));
    assert_eq!((t.spectrum_low, t.spectrum_high), (-54, 6));
    assert_eq!(t.pixel_multiplier(), 12);
    assert_eq!(t.analyzer_pixels(), 1024 * 12);
    let t1 = Transmitter::new(8, 1);
    assert_eq!(t1.dsp_rate, 48000);
    assert_eq!(t1.output_samples, 1024);
    assert_eq!(t1.pixel_multiplier(), 3);
}

#[test]
fn microphone_buffer_counts() {
    let mut t = Transmitter::new(8, 1);
    for i in 0..1023 {
        assert_eq!(t.microphone_sample(), (i, false));
    }
    assert_eq!(t.microphone_sample(), (1023, true));
    assert_eq!(t.microphone_sample(), (0, false));
}

#[test]
fn resend_requests() {
    let mut r = Radio::new(device(), 1024);
    assert!(!r.take_resend());
    r.press_mox(true);
    assert!(r.take_resend());
    assert!(!r.updated);
    assert!(!r.take_resend());
    r.keepalive = true;
    assert!(r.take_resend());
    assert!(!r.keepalive);
    assert!(r.mox);
}

#[test]
fn band_mode_filter_buttons() {
    let mut r = Radio::new(device(), 1024);
    assert_eq!(r.controlled_receiver(), 0);
    r.receiver[0].frequency = 14074000;
    assert_eq!(r.choose_band(5), Some((-2850, -150)));
    assert_eq!(r.receiver[0].band, Bands::Band40);
    assert_eq!(r.receiver[0].frequency, 7150000);
    assert_eq!(r.band_info[7].current, 14074000);
    assert_eq!(r.transmitter.mode, Modes::LSB.to_usize());
    assert_eq!((r.transmitter.filter_low, r.transmitter.filter_high), (-2850, -150));
    assert_eq!(r.choose_band(5), None);
    assert_eq!(r.choose_mode(Modes::USB.to_usize()), (150, 2550));
    assert_eq!(r.receiver[0].mode, Modes::USB.to_usize());
    assert_eq!((r.receiver[0].filter_low, r.receiver[0].filter_high), (150, 2550));
    assert_eq!(r.transmitter.mode, Modes::USB.to_usize());
    assert_eq!(r.choose_filter(0), (150, 5150));
    assert_eq!(r.receiver[0].filter, 0);
    assert_eq!((r.transmitter.filter_low, r.transmitter.filter_high), (150, 5150));
    // the controls follow the active receiver
    r.activate_receiver(1);
    assert_eq!(r.controlled_receiver(), 1);
    r.choose_mode(Modes::CWU.to_usize());
    assert_eq!(r.receiver[1].mode, Modes::CWU.to_usize());
    assert_eq!(r.receiver[0].mode, Modes::USB.to_usize());
}
