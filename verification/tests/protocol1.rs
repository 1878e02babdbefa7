use rusty_hpsdr::discovery::{Boards, Device, IpAddress, SocketAddress};
use rusty_hpsdr::modes::Modes;
use rusty_hpsdr::protocol1::{
    metis_start, metis_stop, parse_metis_packet, ControlState, MetisPacket, Protocol1,
    METIS_BUFFER_SIZE, OZY_BUFFER_SIZE, SYNC,
};
use rusty_hpsdr::protocol2::ReceiverTuning;

fn device(board_number: u8, version: u8) -> Device {
    Device {
        address: SocketAddress { ip: IpAddress::V4(0x0A000002), port: 1024 },
        my_address: SocketAddress { ip: IpAddress::V4(0x0A000001), port: 0 },
        device: board_number,
        board: Boards::Hermes,
        protocol: 1,
        version,
        status: 2,
        mac: [1, 2, 3, 4, 5, 6],
        supported_receivers: 5,
        supported_transmitters: 1,
        adcs: 1,
        frequency_min: 0,
        frequency_max: 61440000,
    }
}

fn control(transmitting: bool) -> ControlState {
    ControlState {
        sample_rate: 192000,
        rx_antenna: 0,
        rx1: ReceiverTuning { frequency: 14175000, mode: Modes::USB.to_usize(), cw_pitch: 600 },
        rx2_frequency: 7074000,
        split: false,
        mic_boost: true,
        mic_ptt: true,
        mic_bias_enable: false,
        mic_bias_ring: true,
        attenuation: 10,
        rxgain: 5,
        dev: 1,
        transmitting,
    }
}

fn next_datagram(p: &mut Protocol1, c: &ControlState) -> Vec<u8> {
    assert!(p.send_ozy_buffer(c).is_none());
    p.send_ozy_buffer(c).unwrap()
}

#[test]
fn new_link() {
    let p = Protocol1::new(device(1, 20));
    assert_eq!(p.ozy_command(), 1);
    assert_eq!(p.iq_samples(), 36);
    assert_eq!(p.receivers(), 2);
    assert_eq!(p.device().device, 1);
}

#[test]
fn datagram_of_two_frames() {
    let mut p = Protocol1::new(device(1, 20));
    let c = control(false);
    let d = next_datagram(&mut p, &c);
    assert_eq!(d.len(), METIS_BUFFER_SIZE);
    assert_eq!(&d[0..8], &[0xEF, 0xFE, 0x01, 0x02, 0, 0, 0, 0]);
    // the first frame carries the configuration: 192 kHz, antenna 0, two receivers
    assert_eq!(&d[8..11], &[SYNC, SYNC, SYNC]);
    assert_eq!(&d[11..16], &[0x00, 0x02, 0x00, 0x00, 0x08]);
    // the second the transmit frequency
    assert_eq!(&d[8 + OZY_BUFFER_SIZE..11 + OZY_BUFFER_SIZE], &[SYNC, SYNC, SYNC]);
    assert_eq!(&d[523..528], &[0x02, 0x00, 0xD8, 0x4B, 0x18]);
    assert_eq!(p.ozy_command(), 2);
}

#[test]
fn command_cycle() {
    let mut p = Protocol1::new(device(1, 20));
    let c = control(false);
    let mut seen = Vec::new();
    for n in 0..13u32 {
        let d = next_datagram(&mut p, &c);
        assert_eq!(&d[4..8], &n.to_be_bytes());
        seen.push(d[523..528].to_vec());
    }
    assert_eq!(seen[0], vec![0x02, 0x00, 0xD8, 0x4B, 0x18]);
    assert_eq!(seen[1], vec![0x04, 0x00, 0xD8, 0x4B, 0x18]);
    assert_eq!(seen[2], vec![0x06, 0x00, 0x6B, 0xF0, 0xD0]);
    assert_eq!(seen[3], vec![0x12, 0x00, 0x01, 0x00, 0x00]);
    assert_eq!(seen[4], vec![0x14, 0x40 | 0x10, 0x00, 0x00, 0x2A]);
    assert_eq!(seen[5], vec![0x16, 0x00, 0x00, 0x0C, 0x1E]);
    assert_eq!(seen[6], vec![0x1C, 0x00, 0x00, 0x00, 0x00]);
    assert_eq!(seen[7], vec![0x1E, 0x00, 0x14, 0x14, 0x00]);
    assert_eq!(seen[8], vec![0x20, 0x00, 0x00, 0x28, 0x0A]);
    assert_eq!(seen[9], vec![0x22, 0x19, 0x00, 0xC8, 0x00]);
    assert_eq!(seen[10], vec![0x24, 0x00, 0x00, 0x00, 0x00]);
    assert_eq!(seen[11], vec![0x2E, 0x00, 0x00, 0x04, 0x15]);
    // back at command 1 after 10 + 2 frames
    assert_eq!(seen[12], seen[0]);
}

#[test]
fn mox_bit_while_transmitting() {
    let mut p = Protocol1::new(device(1, 20));
    let c = control(true);
    for _ in 0..12 {
        let d = next_datagram(&mut p, &c);
        assert_eq!(d[11] & 1, 1);
        assert_eq!(d[523] & 1, 1);
    }
    let mut q = Protocol1::new(device(1, 20));
    let c = control(false);
    for _ in 0..12 {
        let d = next_datagram(&mut q, &c);
        assert_eq!(d[11] & 1, 0);
        assert_eq!(d[523] & 1, 0);
    }
}

#[test]
fn split_transmits_on_second_receiver() {
    let mut p = Protocol1::new(device(1, 20));
    let mut c = control(false);
    c.split = true;
    let d = next_datagram(&mut p, &c);
    assert_eq!(&d[523..528], &[0x02, 0x00, 0x6B, 0xF0, 0xD0]);
    let mut q = Protocol1::new(device(1, 20));
    let mut c = control(false);
    c.rx1.mode = Modes::CWU.to_usize();
    let d = next_datagram(&mut q, &c);
    // CWU: the pitch below the receiver's frequency
    assert_eq!(&d[524..528], &(14175000u32 - 600).to_be_bytes());
}

#[test]
fn hermes_lite_attenuation() {
    // a Hermes Lite 2 sends its gain plus 12 with bit 6 set
    let mut p = Protocol1::new(device(6, 72));
    let mut c = control(false);
    c.dev = 6;
    for _ in 0..4 {
        next_datagram(&mut p, &c);
    }
    let d = next_datagram(&mut p, &c);
    assert_eq!(d[523], 0x14);
    assert_eq!(d[527], 0x40 + 17);
    // a Hermes Lite 1 sends none
    let mut q = Protocol1::new(device(6, 30));
    for _ in 0..4 {
        next_datagram(&mut q, &c);
    }
    assert_eq!(next_datagram(&mut q, &c)[527], 0);
}

#[test]
fn samples_fill_frames() {
    let mut p = Protocol1::new(device(1, 20));
    let c = control(false);
    let mut out = None;
    for n in 0..126 {
        let d = p.push_samples(1, -1, 2, 3, &c);
        if n < 125 {
            assert!(d.is_none());
        } else {
            out = d;
        }
    }
    let d = out.unwrap();
    assert_eq!(d.len(), METIS_BUFFER_SIZE);
    assert_eq!(&d[0..8], &[0xEF, 0xFE, 0x01, 0x02, 0, 0, 0, 0]);
    assert_eq!(&d[16..24], &[0x00, 0x01, 0xFF, 0xFF, 0x00, 0x02, 0x00, 0x03]);
    assert_eq!(&d[520 + 504..528 + 504], &[0x00, 0x01, 0xFF, 0xFF, 0x00, 0x02, 0x00, 0x03]);
    assert_eq!(&d[8..11], &[SYNC, SYNC, SYNC]);
    assert_eq!(&d[520..523], &[SYNC, SYNC, SYNC]);
}

#[test]
fn frame_from_the_radio() {
    let p = Protocol1::new(device(1, 20));
    let mut b = vec![0u8; METIS_BUFFER_SIZE];
    let o = 8;
    b[o..o + 3].copy_from_slice(&[SYNC, SYNC, SYNC]);
    b[o + 3] = 0b101;
    b[o + 4] = 0x11;
    // slot 0: receiver 0, receiver 1, microphone
    b[o + 8..o + 14].copy_from_slice(&[0, 0, 7, 0xFF, 0xFF, 0xF9]);
    b[o + 14..o + 20].copy_from_slice(&[0x80, 0, 0, 0x7F, 0xFF, 0xFF]);
    b[o + 20..o + 22].copy_from_slice(&[0xFF, 0xFE]);
    // slot 35
    let s = o + 8 + 35 * 14;
    b[s + 6..s + 12].copy_from_slice(&[0, 1, 0, 0, 0, 2]);
    b[s + 12..s + 14].copy_from_slice(&[0x01, 0x00]);
    let f = p.parse_ozy_frame(&b, o).unwrap();
    assert_eq!(f.control, [0b101, 0x11, 0, 0, 0]);
    assert!(f.ptt);
    assert!(!f.dot);
    assert!(f.dash);
    assert_eq!(f.iq.len(), 2);
    assert_eq!(f.iq[0].len(), 36);
    assert_eq!(f.iq[0][0], (7, -7));
    assert_eq!(f.iq[1][0], (-8388608, 8388607));
    assert_eq!(f.iq[1][35], (256, 2));
    assert_eq!(f.mic.len(), 36);
    assert_eq!(f.mic[0], -2);
    assert_eq!(f.mic[35], 256);
    b[o + 1] = 0;
    assert!(p.parse_ozy_frame(&b, o).is_none());
}

#[test]
fn metis_packets() {
    let mut b = vec![0u8; 16];
    b[0..8].copy_from_slice(&[0xEF, 0xFE, 0x01, 0x06, 0, 0, 1, 2]);
    assert_eq!(parse_metis_packet(&b), MetisPacket::IqSamples(258));
    b[3] = 0x04;
    assert_eq!(parse_metis_packet(&b), MetisPacket::Wideband);
    b[3] = 0x02;
    assert_eq!(parse_metis_packet(&b), MetisPacket::UnexpectedEndpoint(2));
    b[2] = 0x02;
    assert_eq!(parse_metis_packet(&b), MetisPacket::UnexpectedType(2));
    b[0] = 0;
    assert_eq!(parse_metis_packet(&b), MetisPacket::BadHeader);
}

#[test]
fn start_and_stop() {
    let s = metis_start();
    assert_eq!(s.len(), 64);
    assert_eq!(&s[0..4], &[0xEF, 0xFE, 0x04, 0x03]);
    assert!(s[4..].iter().all(|&x| x == 0));
    let t = metis_stop();
    assert_eq!(t.len(), 64);
    assert_eq!(&t[0..4], &[0xEF, 0xFE, 0x04, 0x00]);
    assert!(t[4..].iter().all(|&x| x == 0));
}
