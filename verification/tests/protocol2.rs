use rusty_hpsdr::adc::Adc;
use rusty_hpsdr::bytes::{
    i16_from_be, i16_to_be, i24_from_be, i24_to_be, next_sequence, put_i16, put_i24, put_u32,
    u16_from_be, u32_from_be, u32_to_be,
};
use rusty_hpsdr::discovery::{Boards, Device, IpAddress, SocketAddress};
use rusty_hpsdr::modes::Modes;
use rusty_hpsdr::protocol2::{
    bpf_word, classify_port, ddc_in_use, decode_iq_samples, decode_mic_samples, lpf_word,
    parse_high_priority_status, phase_word, tuned_frequency, tuned_single_frequency, DdcSetting, HighPriority,
    HighPriorityStatus, Protocol2, Protocol2Packet, ReceiverTuning, TransmitSpecific, BYPASS,
    HPF_13MHZ, LPF_30_20, PREAMP_6M, TX_ENABLE,
};
use rusty_hpsdr::protocol2::{local_channels, RECEIVE_SPECIFIC_COPIES};
use rusty_hpsdr::single::{half_even_of, pow2_of, single_of, single_quotient_of, top_bit_of};
use rusty_hpsdr::radio::Keyer;

fn device(board_number: u8) -> Device {
    Device {
        address: SocketAddress { ip: IpAddress::V4(0xC0A8_0164), port: 1024 },
        my_address: SocketAddress { ip: IpAddress::V4(0xC0A8_0102), port: 0 },
        device: board_number,
        board: Boards::Orion2,
        protocol: 2,
        version: 20,
        status: 2,
        mac: [0, 1, 2, 3, 4, 5],
        supported_receivers: 7,
        supported_transmitters: 1,
        adcs: 2,
        frequency_min: 0,
        frequency_max: 61440000,
    }
}

#[test]
fn bytes_big_endian() {
    assert_eq!(u32_to_be(0x01020304), [1, 2, 3, 4]);
    assert_eq!(u32_from_be(1, 2, 3, 4), 0x01020304);
    assert_eq!(u16_from_be(0x12, 0x34), 0x1234);
    assert_eq!(i24_to_be(-1), [0xFF, 0xFF, 0xFF]);
    assert_eq!(i24_to_be(0x123456), [0x12, 0x34, 0x56]);
    assert_eq!(i24_from_be(0xFF, 0xFF, 0xFF), -1);
    assert_eq!(i24_from_be(0x80, 0, 0), -8388608);
    assert_eq!(i24_from_be(0x7F, 0xFF, 0xFF), 8388607);
    assert_eq!(i16_to_be(-2), [0xFF, 0xFE]);
    assert_eq!(i16_from_be(0x80, 0x00), -32768);
    assert_eq!(i16_from_be(0x01, 0x02), 258);
}

#[test]
fn bytes_round_trip() {
    for x in [0i32, 1, -1, 8388607, -8388608, 12345, -54321] {
        let b = i24_to_be(x);
        assert_eq!(i24_from_be(b[0], b[1], b[2]), x);
    }
    for x in [0i32, 1, -1, 32767, -32768, 1000] {
        let b = i16_to_be(x);
        assert_eq!(i16_from_be(b[0], b[1]), x);
    }
    for x in [0u32, 1, u32::MAX, 0xDEADBEEF] {
        let b = u32_to_be(x);
        assert_eq!(u32_from_be(b[0], b[1], b[2], b[3]), x);
    }
}

#[test]
fn bytes_put() {
    let mut buf = vec![0u8; 10];
    put_u32(&mut buf, 2, 0xAABBCCDD);
    assert_eq!(buf, vec![0, 0, 0xAA, 0xBB, 0xCC, 0xDD, 0, 0, 0, 0]);
    put_i24(&mut buf, 6, -2);
    assert_eq!(&buf[6..9], &[0xFF, 0xFF, 0xFE]);
    put_i16(&mut buf, 0, 0x0102);
    assert_eq!(&buf[0..2], &[1, 2]);
}

#[test]
fn sequence_numbers_wrap() {
    assert_eq!(next_sequence(5), 6);
    assert_eq!(next_sequence(u32::MAX), 0);
}

#[test]
fn tuning_and_phase() {
    let usb = ReceiverTuning { frequency: 14175000, mode: Modes::USB.to_usize(), cw_pitch: 600 };
    let cwl = ReceiverTuning { frequency: 7000000, mode: Modes::CWL.to_usize(), cw_pitch: 600 };
    let cwu = ReceiverTuning { frequency: 7000000, mode: Modes::CWU.to_usize(), cw_pitch: 600 };
    assert_eq!(tuned_frequency(&usb), 14175000);
    assert_eq!(tuned_frequency(&cwl), 7000600);
    assert_eq!(tuned_frequency(&cwu), 6999400);
    assert_eq!(phase_word(14175000), 495452160);
    assert_eq!(phase_word(7000600), 244688704);
    assert_eq!(phase_word(0), 0);
    assert_eq!(phase_word(-5), 0);
    assert_eq!(phase_word(122880000), u32::MAX);
    assert_eq!(phase_word(61440000), 0x80000000);
}

#[test]
fn phase_words_in_single_precision() {
    // the 40 m band's start: the exact quotient is 249910613, the single precision one
    // 249910608
    assert_eq!(phase_word(7150000), 249910608);
    assert_eq!(phase_word(18118000), 633270016);
    assert_eq!(phase_word(21215000), 741518016);
    assert_eq!(phase_word(24940000), 871716160);
    assert_eq!(phase_word(28300000), 989156672);
    assert_eq!(phase_word(52000000), 1817531776);
    assert_eq!(phase_word(10000000), 349525344);
    assert_eq!(phase_word(5365500), 187537824);
    assert_eq!(phase_word(1900000), 66409812);
    assert_eq!(phase_word(1), 34);
    assert_eq!(phase_word(35), 1223);
    assert_eq!(phase_word(122879999), u32::MAX);
}

#[test]
fn single_precision_frequencies() {
    assert_eq!(single_of(16777217), 16777216);
    assert_eq!(single_of(16777219), 16777220);
    assert_eq!(single_of(-16777219), -16777220);
    assert_eq!(single_of(28000001), 28000000);
    assert_eq!(single_of(7150000), 7150000);
    let cwu = ReceiverTuning { frequency: 28000001, mode: Modes::CWU.to_usize(), cw_pitch: 400 };
    assert_eq!(tuned_single_frequency(&cwu), 27999600);
    assert_eq!(phase_word(tuned_single_frequency(&cwu)), 978656960);
    let usb = ReceiverTuning { frequency: 28000001, mode: Modes::USB.to_usize(), cw_pitch: 400 };
    assert_eq!(tuned_single_frequency(&usb), 28000000);
    assert_eq!(phase_word(tuned_single_frequency(&usb)), 978670912);
    let cwl = ReceiverTuning { frequency: 21000000, mode: Modes::CWL.to_usize(), cw_pitch: 601 };
    assert_eq!(tuned_single_frequency(&cwl), 21000600);
    assert_eq!(phase_word(tuned_single_frequency(&cwl)), 734024192);
}

#[test]
fn rounding_helpers() {
    assert_eq!(top_bit_of(0), 0);
    assert_eq!(top_bit_of(1), 0);
    assert_eq!(top_bit_of(2), 1);
    assert_eq!(top_bit_of(0x1000000), 24);
    assert_eq!(top_bit_of(u64::MAX), 63);
    assert_eq!(pow2_of(0), 1);
    assert_eq!(pow2_of(40), 1u128 << 40);
    assert_eq!(half_even_of(5, 2), 2);
    assert_eq!(half_even_of(7, 2), 4);
    assert_eq!(half_even_of(8, 3), 3);
    assert_eq!(half_even_of(7, 3), 2);
    assert_eq!(single_quotient_of(7150000 * 65536, 1875), 249910608);
    assert_eq!(single_quotient_of(16777217, 1), 16777216);
}

#[test]
fn high_priority_at_forty_metres() {
    let rx = ReceiverTuning { frequency: 7150000, mode: Modes::LSB.to_usize(), cw_pitch: 400 };
    let hp = HighPriority {
        transmitting: false,
        receivers: vec![rx],
        rx1: rx,
        rx2: rx,
        split: false,
        drive_level: 0,
        tx_antenna: 0,
        rx_antenna: 0,
        rx1_attenuation: 0,
        rx2_attenuation: 0,
    };
    let mut p = Protocol2::new(device(1));
    let b = p.send_high_priority(&hp);
    assert_eq!(&b[9..13], &u32_to_be(249910608));
    assert_eq!(b[12], 0x50);
    assert_eq!(&b[329..333], &u32_to_be(249910608));
}

#[test]
fn filter_words() {
    assert_eq!(bpf_word(1000000), BYPASS);
    assert_eq!(bpf_word(14000000), HPF_13MHZ);
    assert_eq!(bpf_word(50000000), PREAMP_6M);
    assert_eq!(lpf_word(5, 14000000), LPF_30_20);
    assert_eq!(lpf_word(1, 14000000), 0x10);
    assert_eq!(lpf_word(1, 3000000), 0x40);
    assert_eq!(lpf_word(1, 50000000), 0x08);
}

#[test]
fn general_packet_layout() {
    let mut p = Protocol2::new(device(5));
    let b = p.send_general();
    assert_eq!(b.len(), 60);
    assert_eq!(&b[0..4], &[0, 0, 0, 0]);
    assert_eq!(b[37], 0x08);
    assert_eq!(b[38], 0x01);
    assert_eq!(b[58], 0x01);
    assert_eq!(b[59], 0x03);
    let b = p.send_general();
    assert_eq!(&b[0..4], &[0, 0, 0, 1]);
    let mut q = Protocol2::new(device(1));
    assert_eq!(q.send_general()[59], 0x01);
    assert_eq!(q.device().device, 1);
}

fn high_priority(transmitting: bool, split: bool) -> HighPriority {
    let rx1 = ReceiverTuning { frequency: 14175000, mode: Modes::USB.to_usize(), cw_pitch: 600 };
    let rx2 = ReceiverTuning { frequency: 7000000, mode: Modes::CWL.to_usize(), cw_pitch: 600 };
    HighPriority {
        transmitting,
        receivers: vec![rx1, rx2],
        rx1,
        rx2,
        split,
        drive_level: 200,
        tx_antenna: 1,
        rx_antenna: 0,
        rx1_attenuation: 10,
        rx2_attenuation: 20,
    }
}

#[test]
fn high_priority_packet_receiving() {
    let mut p = Protocol2::new(device(5));
    let b = p.send_high_priority(&high_priority(false, false));
    assert_eq!(b.len(), 1444);
    assert_eq!(&b[0..4], &[0, 0, 0, 0]);
    assert_eq!(b[4], 0x01);
    assert_eq!(&b[9..13], &u32_to_be(495452160));
    assert_eq!(&b[13..17], &u32_to_be(244688704));
    // not split: the transmit frequency is the last receiver's
    assert_eq!(&b[329..333], &u32_to_be(244688704));
    assert_eq!(b[345], 0);
    // second receiver's band pass filter: 9.5 MHz high pass for 7 MHz
    assert_eq!(&b[1430..1432], &[0x00, 0x10]);
    // antenna 1, 13 MHz high pass, 30/20 low pass for 14.175 MHz on an Orion 2
    assert_eq!(&b[1432..1436], &u32_to_be(0x01000000 | HPF_13MHZ | LPF_30_20));
    assert_eq!(b[1442], 20);
    assert_eq!(b[1443], 10);
    let b = p.send_high_priority(&high_priority(false, false));
    assert_eq!(&b[0..4], &[0, 0, 0, 1]);
}

#[test]
fn high_priority_packet_transmitting() {
    let mut p = Protocol2::new(device(5));
    let b = p.send_high_priority(&high_priority(true, true));
    assert_eq!(b[4], 0x03);
    // split: transmit on the second receiver's frequency
    assert_eq!(&b[329..333], &u32_to_be(244688704));
    assert_eq!(b[345], 200);
    assert_eq!(
        &b[1432..1436],
        &u32_to_be(TX_ENABLE | 0x02000000 | HPF_13MHZ | LPF_30_20)
    );
    assert_eq!(b[1442], 0);
    assert_eq!(b[1443], 0);
}

#[test]
fn receive_specific_layout() {
    let mut p = Protocol2::new(device(5));
    let mut a0 = Adc::new();
    a0.dither = true;
    let mut a1 = Adc::new();
    a1.random = true;
    let adcs = vec![a0, a1];
    let ddcs = vec![
        DdcSetting { adc: 0, sample_rate: 48000 },
        DdcSetting { adc: 1, sample_rate: 384000 },
    ];
    let b = p.send_receive_specific(&adcs, &ddcs);
    assert_eq!(b.len(), 1444);
    assert_eq!(b[4], 2);
    assert_eq!(b[5], 0x01);
    assert_eq!(b[6], 0x02);
    assert_eq!(b[7], 0x03);
    assert_eq!(&b[17..23], &[0, 0, 48, 0, 0, 24]);
    assert_eq!(&b[23..29], &[1, 0x01, 0x80, 0, 0, 24]);
    assert_eq!(b[29], 0);
}

#[test]
fn receive_specific_sent_twice() {
    let mut p = Protocol2::new(device(5));
    let adcs = vec![Adc::new(), Adc::new()];
    let ddcs = vec![DdcSetting { adc: 0, sample_rate: 192000 }];
    let out = p.receive_specific_datagrams(&adcs, &ddcs);
    assert_eq!(RECEIVE_SPECIFIC_COPIES, 2);
    assert_eq!(out.len(), 2);
    assert_eq!(out[0], out[1]);
    assert_eq!(&out[0][0..4], &[0, 0, 0, 0]);
    assert_eq!(&out[0][17..23], &[0, 0, 192, 0, 0, 24]);
    // one number for both copies: the next packet carries 1
    let b = p.send_receive_specific(&adcs, &ddcs);
    assert_eq!(&b[0..4], &[0, 0, 0, 1]);
}

#[test]
fn transmit_specific_layout() {
    let mut p = Protocol2::new(device(1));
    let t = TransmitSpecific {
        mode: Modes::CWU.to_usize(),
        cw_keys_reversed: false,
        cw_keyer_mode: Keyer::ModeB,
        cw_keyer_sidetone_volume: 50,
        cw_keyer_spacing: 0,
        cw_breakin: true,
        cw_keyer_sidetone_frequency: 650,
        cw_keyer_speed: 20,
        cw_keyer_weight: 50,
        cw_keyer_hang_time: 300,
        line_in: false,
        mic_boost: true,
        mic_ptt: false,
        mic_bias_ring: false,
        mic_bias_enable: true,
        mic_saturn_xlr: false,
    };
    let b = p.send_transmit_specific(&t);
    assert_eq!(b.len(), 60);
    assert_eq!(b[4], 1);
    assert_eq!(b[5], 0x02 | 0x28 | 0x10 | 0x80);
    assert_eq!(b[6], 50);
    assert_eq!(&b[7..9], &[0x02, 0x8A]);
    assert_eq!(b[9], 20);
    assert_eq!(b[10], 50);
    assert_eq!(&b[11..13], &[0x01, 0x2C]);
    assert_eq!(b[50], 0x02 | 0x04 | 0x10);
}

#[test]
fn audio_and_iq_packets() {
    let mut p = Protocol2::new(device(1));
    let audio = vec![9u8; 260];
    let b = p.send_audio(&audio);
    assert_eq!(&b[0..4], &[0, 0, 0, 0]);
    assert_eq!(&b[4..], &audio[4..]);
    assert_eq!(&p.send_audio(&audio)[0..4], &[0, 0, 0, 1]);

    let mut samples = vec![0i32; 480];
    samples[0] = 1;
    samples[1] = -1;
    samples[478] = 0x123456;
    samples[479] = -8388608;
    let b = p.send_iq_buffer(&samples);
    assert_eq!(b.len(), 1444);
    assert_eq!(&b[0..4], &[0, 0, 0, 0]);
    assert_eq!(&b[4..10], &[0, 0, 1, 0xFF, 0xFF, 0xFF]);
    assert_eq!(&b[4 + 6 * 239..4 + 6 * 240], &[0x12, 0x34, 0x56, 0x80, 0, 0]);
    // each pair reads back as the samples given
    for i in 0..240 {
        let at = 4 + 6 * i;
        assert_eq!(i24_from_be(b[at], b[at + 1], b[at + 2]), samples[2 * i]);
        assert_eq!(i24_from_be(b[at + 3], b[at + 4], b[at + 5]), samples[2 * i + 1]);
    }
}

#[test]
fn status_packet() {
    let mut b = vec![0u8; 60];
    b[4] = 0b101;
    b[5] = 0b100;
    b[14] = 0x01;
    b[15] = 0x02;
    b[22] = 0x00;
    b[23] = 0x10;
    b[49] = 0x0F;
    b[50] = 0xFF;
    assert_eq!(
        parse_high_priority_status(&b),
        HighPriorityStatus {
            ptt: true,
            dot: false,
            dash: true,
            pll_locked: true,
            alex_forward_power: 258,
            alex_reverse_power: 16,
            supply_volts: 4095,
        }
    );
}

#[test]
fn microphone_packet() {
    let mut b = vec![0u8; 132];
    b[4] = 0xFF;
    b[5] = 0xFF;
    b[130] = 0x00;
    b[131] = 0x7B;
    let s = decode_mic_samples(&b, 132).unwrap();
    assert_eq!(s.len(), 64);
    assert_eq!(s[0], -1);
    assert_eq!(s[63], 123);
    assert_eq!(decode_mic_samples(&b, 131), None);
}

#[test]
fn receiver_iq_packet() {
    let mut b = vec![0u8; 40];
    b[15] = 2;
    b[16..22].copy_from_slice(&[0, 0, 5, 0xFF, 0xFF, 0xFB]);
    b[22..28].copy_from_slice(&[0x7F, 0xFF, 0xFF, 0x80, 0, 0]);
    let pairs = decode_iq_samples(&b, 28).unwrap();
    assert_eq!(pairs, vec![(5, -5), (8388607, -8388608)]);
    assert_eq!(decode_iq_samples(&b, 27), None);
    b[15] = 0;
    assert_eq!(decode_iq_samples(&b, 16), Some(vec![]));
}

#[test]
fn ports() {
    assert_eq!(classify_port(1024), Protocol2Packet::CommandResponse);
    assert_eq!(classify_port(1025), Protocol2Packet::HighPriorityStatus);
    assert_eq!(classify_port(1026), Protocol2Packet::Microphone);
    assert_eq!(classify_port(1027), Protocol2Packet::WideBand);
    assert_eq!(classify_port(1035), Protocol2Packet::ReceiverIq(0));
    assert_eq!(classify_port(1042), Protocol2Packet::ReceiverIq(7));
    assert_eq!(classify_port(1043), Protocol2Packet::Unknown);
    assert_eq!(classify_port(1034), Protocol2Packet::Unknown);
}

#[test]
fn ddcs_used() {
    assert!(ddc_in_use(0, false));
    assert!(!ddc_in_use(1, false));
    assert!(ddc_in_use(1, true));
    assert!(!ddc_in_use(2, true));
}

#[test]
fn local_channel_choice() {
    assert_eq!(local_channels(0, false, 10, 20), (10, 20));
    assert_eq!(local_channels(0, true, 10, 20), (10, 0));
    assert_eq!(local_channels(1, true, 10, 20), (0, 20));
    assert_eq!(local_channels(2, true, 10, 20), (0, 0));
}

#[test]
fn high_priority_with_one_receiver_in_use() {
    let mut p = Protocol2::new(device(1));
    let mut hp = high_priority(false, false);
    hp.receivers.truncate(1);
    let b = p.send_high_priority(&hp);
    assert_eq!(&b[9..13], &u32_to_be(495452160));
    assert_eq!(&b[13..17], &[0, 0, 0, 0]);
    // the transmit frequency is the last receiver in use
    assert_eq!(&b[329..333], &u32_to_be(495452160));
    // the second receiver still chooses its band pass filter
    assert_eq!(&b[1430..1432], &[0x00, 0x10]);
    hp.receivers.clear();
    let b = p.send_high_priority(&hp);
    assert_eq!(&b[329..333], &[0, 0, 0, 0]);
}
