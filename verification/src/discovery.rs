use vstd::prelude::*;

use vstd::string::StringExecFns;

use crate::util::{append_digits, decimal_digits};

verus! {

/// The kinds of HPSDR board that discovery can report.
#[derive(Debug, Clone, Copy, PartialEq, Eq, Structural)]
pub enum Boards {
    Metis,
    Hermes,
    Hermes2,
    Angelia,
    Orion,
    Orion2,
    Saturn,
    HermesLite,
    HermesLite2,
    Unknown,
}

/// An IP address, version 4 or 6, as the number its octets make, most significant
/// first.
#[derive(Debug, Clone, Copy, PartialEq, Eq, Structural)]
pub enum IpAddress {
    V4(u32),
    V6(u128),
}

/// An IP address and a UDP port.
#[derive(Debug, Clone, Copy, PartialEq, Eq, Structural)]
pub struct SocketAddress {
    pub ip: IpAddress,
    pub port: u16,
}

/// A radio found by discovery: where it answered from, the local address that heard it,
/// and what its reply says of it.
#[derive(Debug, Clone, Copy)]
pub struct Device {
    pub address: SocketAddress,
    pub my_address: SocketAddress,
    /// The board number as the protocol numbers boards.
    pub device: u8,
    pub board: Boards,
    pub protocol: u8,
    pub version: u8,
    pub status: u8,
    pub mac: [u8; 6],
    pub supported_receivers: u8,
    pub supported_transmitters: u8,
    pub adcs: u8,
    pub frequency_min: u64,
    pub frequency_max: u64,
}

/// What a board number tells of a board.
#[derive(Debug, Clone, Copy, PartialEq, Eq, Structural)]
pub struct BoardInfo {
    pub board: Boards,
    pub adcs: u8,
    pub supported_receivers: u8,
    pub supported_transmitters: u8,
    pub frequency_min: u64,
    pub frequency_max: u64,
}

/// A board with `adcs` converters and `receivers` receivers, one transmitter, covering
/// 0 to 61.44 MHz.
pub open spec fn full_range_board(board: Boards, adcs: u8, receivers: u8) -> BoardInfo {
    BoardInfo {
        board,
        adcs,
        supported_receivers: receivers,
        supported_transmitters: 1,
        frequency_min: 0,
        frequency_max: 61440000,
    }
}

/// A Hermes Lite: one converter, one transmitter, 0 to 30.72 MHz.
pub open spec fn hermes_lite_board(board: Boards, receivers: u8) -> BoardInfo {
    BoardInfo {
        board,
        adcs: 1,
        supported_receivers: receivers,
        supported_transmitters: 1,
        frequency_min: 0,
        frequency_max: 30720000,
    }
}

/// The board that a protocol 1 reply describes, from its board number, its firmware
/// version and the byte that gives a Hermes Lite 2's receiver count. A Hermes Lite
/// with firmware below 42 is a Hermes Lite 1 with two receivers.
pub open spec fn protocol1_board(device: u8, version: u8, receivers: u8) -> BoardInfo {
    if device == 0 {
        full_range_board(Boards::Metis, 1, 5)
    } else if device == 1 {
        full_range_board(Boards::Hermes, 1, 5)
    } else if device == 4 {
        full_range_board(Boards::Angelia, 2, 7)
    } else if device == 5 {
        full_range_board(Boards::Orion, 2, 7)
    } else if device == 6 {
        if version < 42 {
            hermes_lite_board(Boards::HermesLite, 2)
        } else {
            hermes_lite_board(Boards::HermesLite2, receivers)
        }
    } else if device == 10 {
        full_range_board(Boards::Orion2, 2, 7)
    } else {
        full_range_board(Boards::Unknown, 1, 1)
    }
}

/// The board that a protocol 2 reply describes, from its board number.
pub open spec fn protocol2_board(device: u8) -> BoardInfo {
    if device == 0 {
        full_range_board(Boards::Metis, 1, 5)
    } else if device == 1 {
        full_range_board(Boards::Hermes, 1, 5)
    } else if device == 2 {
        full_range_board(Boards::Hermes2, 1, 5)
    } else if device == 3 {
        full_range_board(Boards::Angelia, 2, 7)
    } else if device == 4 {
        full_range_board(Boards::Orion, 2, 7)
    } else if device == 5 {
        full_range_board(Boards::Orion2, 2, 7)
    } else if device == 6 {
        hermes_lite_board(Boards::HermesLite2, 5)
    } else if device == 10 {
        full_range_board(Boards::Saturn, 2, 7)
    } else {
        full_range_board(Boards::Unknown, 1, 1)
    }
}

fn full_range(board: Boards, adcs: u8, receivers: u8) -> (info: BoardInfo)
    ensures
        info == full_range_board(board, adcs, receivers),
{
    BoardInfo {
        board,
        adcs,
        supported_receivers: receivers,
        supported_transmitters: 1,
        frequency_min: 0,
        frequency_max: 61440000,
    }
}

fn hermes_lite(board: Boards, receivers: u8) -> (info: BoardInfo)
    ensures
        info == hermes_lite_board(board, receivers),
{
    BoardInfo {
        board,
        adcs: 1,
        supported_receivers: receivers,
        supported_transmitters: 1,
        frequency_min: 0,
        frequency_max: 30720000,
    }
}

/// The board described by a protocol 1 reply's board number, firmware version and
/// receiver count byte.
pub fn board_protocol1(device: u8, version: u8, receivers: u8) -> (info: BoardInfo)
    ensures
        info == protocol1_board(device, version, receivers),
{
    match device {
        0 => full_range(Boards::Metis, 1, 5),
        1 => full_range(Boards::Hermes, 1, 5),
        4 => full_range(Boards::Angelia, 2, 7),
        5 => full_range(Boards::Orion, 2, 7),
        6 => {
            if version < 42 {
                hermes_lite(Boards::HermesLite, 2)
            } else {
                hermes_lite(Boards::HermesLite2, receivers)
            }
        },
        10 => full_range(Boards::Orion2, 2, 7),
        _ => full_range(Boards::Unknown, 1, 1),
    }
}

/// The board described by a protocol 2 reply's board number.
pub fn board_protocol2(device: u8) -> (info: BoardInfo)
    ensures
        info == protocol2_board(device),
{
    match device {
        0 => full_range(Boards::Metis, 1, 5),
        1 => full_range(Boards::Hermes, 1, 5),
        2 => full_range(Boards::Hermes2, 1, 5),
        3 => full_range(Boards::Angelia, 2, 7),
        4 => full_range(Boards::Orion, 2, 7),
        5 => full_range(Boards::Orion2, 2, 7),
        6 => hermes_lite(Boards::HermesLite2, 5),
        10 => full_range(Boards::Saturn, 2, 7),
        _ => full_range(Boards::Unknown, 1, 1),
    }
}

/// The length of a discovery reply.
pub const REPLY_LEN: usize = 60;

/// Whether `d` is the device that the protocol 1 reply `reply`, received from
/// `address` by a socket bound to `my_address`, describes.
pub open spec fn is_protocol1_device(
    d: Device,
    reply: Seq<u8>,
    address: SocketAddress,
    my_address: SocketAddress,
) -> bool {
    let info = protocol1_board(reply[10], reply[9], reply[19]);
    &&& d.address == address
    &&& d.my_address == my_address
    &&& d.device == reply[10]
    &&& d.board == info.board
    &&& d.protocol == 1
    &&& d.version == reply[9]
    &&& d.status == reply[2]
    &&& d.mac@ == reply.subrange(3, 9)
    &&& d.supported_receivers == info.supported_receivers
    &&& d.supported_transmitters == info.supported_transmitters
    &&& d.adcs == info.adcs
    &&& d.frequency_min == info.frequency_min
    &&& d.frequency_max == info.frequency_max
}

/// Whether `d` is the device that the protocol 2 reply `reply`, received from
/// `address` by a socket bound to `my_address`, describes.
pub open spec fn is_protocol2_device(
    d: Device,
    reply: Seq<u8>,
    address: SocketAddress,
    my_address: SocketAddress,
) -> bool {
    let info = protocol2_board(reply[11]);
    &&& d.address == address
    &&& d.my_address == my_address
    &&& d.device == reply[11]
    &&& d.board == info.board
    &&& d.protocol == 2
    &&& d.version == reply[13]
    &&& d.status == reply[4]
    &&& d.mac@ == reply.subrange(5, 11)
    &&& d.supported_receivers == info.supported_receivers
    &&& d.supported_transmitters == info.supported_transmitters
    &&& d.adcs == info.adcs
    &&& d.frequency_min == info.frequency_min
    &&& d.frequency_max == info.frequency_max
}

/// The device that a protocol 1 discovery reply describes. Only a reply of exactly 60
/// bytes describes one.
pub fn parse_protocol1_reply(reply: &[u8], address: SocketAddress, my_address: SocketAddress) -> (d:
    Option<Device>)
    ensures
        d is Some <==> reply@.len() == REPLY_LEN,
        d matches Some(dev) ==> is_protocol1_device(dev, reply@, address, my_address),
{
    if reply.len() != REPLY_LEN {
        return None;
    }
    let mac: [u8; 6] = [reply[3], reply[4], reply[5], reply[6], reply[7], reply[8]];
    let info = board_protocol1(reply[10], reply[9], reply[19]);
    let d = Device {
        address,
        my_address,
        device: reply[10],
        board: info.board,
        protocol: 1,
        version: reply[9],
        status: reply[2],
        mac,
        supported_receivers: info.supported_receivers,
        supported_transmitters: info.supported_transmitters,
        adcs: info.adcs,
        frequency_min: info.frequency_min,
        frequency_max: info.frequency_max,
    };
    assert(d.mac@ =~= reply@.subrange(3, 9));
    Some(d)
}

/// The device that a protocol 2 discovery reply describes. Only a reply of exactly 60
/// bytes describes one.
pub fn parse_protocol2_reply(reply: &[u8], address: SocketAddress, my_address: SocketAddress) -> (d:
    Option<Device>)
    ensures
        d is Some <==> reply@.len() == REPLY_LEN,
        d matches Some(dev) ==> is_protocol2_device(dev, reply@, address, my_address),
{
    if reply.len() != REPLY_LEN {
        return None;
    }
    let mac: [u8; 6] = [reply[5], reply[6], reply[7], reply[8], reply[9], reply[10]];
    let info = board_protocol2(reply[11]);
    let d = Device {
        address,
        my_address,
        device: reply[11],
        board: info.board,
        protocol: 2,
        version: reply[13],
        status: reply[4],
        mac,
        supported_receivers: info.supported_receivers,
        supported_transmitters: info.supported_transmitters,
        adcs: info.adcs,
        frequency_min: info.frequency_min,
        frequency_max: info.frequency_max,
    };
    assert(d.mac@ =~= reply@.subrange(5, 11));
    Some(d)
}

/// The device that a reply to a discovery sent to one address describes: a reply
/// counts only when it comes from the address that was asked, and then as
/// [`parse_protocol1_reply`] or [`parse_protocol2_reply`] reads it.
pub fn parse_manual_reply(
    protocol: u8,
    reply: &[u8],
    address: SocketAddress,
    my_address: SocketAddress,
    target: IpAddress,
) -> (d: Option<Device>)
    requires
        protocol == 1 || protocol == 2,
    ensures
        d is Some <==> (reply@.len() == REPLY_LEN && address.ip == target),
        d matches Some(dev) ==> (if protocol == 1 {
            is_protocol1_device(dev, reply@, address, my_address)
        } else {
            is_protocol2_device(dev, reply@, address, my_address)
        }),
{
    if address.ip != target {
        None
    } else if protocol == 1 {
        parse_protocol1_reply(reply, address, my_address)
    } else {
        parse_protocol2_reply(reply, address, my_address)
    }
}

/// The protocol a discovery of one address asks with next, after asking with protocol
/// `last` (0 before any request) and finding a radio or not: protocol 1 first, protocol
/// 2 only when protocol 1 found nothing, and nothing more once a radio has answered or
/// both have been tried.
pub fn next_manual_probe(last: u8, found: bool) -> (next: Option<u8>)
    ensures
        next == (if found || last >= 2 {
            None
        } else if last == 0 {
            Some(1u8)
        } else {
            Some(2u8)
        }),
{
    if found || last >= 2 {
        None
    } else if last == 0 {
        Some(1)
    } else {
        Some(2)
    }
}

/// The protocol 1 discovery request: 63 bytes, EF FE 02 and zeros.
pub fn protocol1_discovery_request() -> (buf: Vec<u8>)
    ensures
        buf@.len() == 63,
        buf@[0] == 0xEF && buf@[1] == 0xFE && buf@[2] == 0x02,
        forall|i: int| 3 <= i < 63 ==> buf@[i] == 0,
{
    let mut buf: Vec<u8> = vec![0u8; 63];
    buf.set(0, 0xEF);
    buf.set(1, 0xFE);
    buf.set(2, 0x02);
    buf
}

/// The protocol 2 discovery request: 60 zero bytes but byte 4, which is 2.
pub fn protocol2_discovery_request() -> (buf: Vec<u8>)
    ensures
        buf@.len() == 60,
        buf@[4] == 0x02,
        forall|i: int| 0 <= i < 60 && i != 4 ==> buf@[i] == 0,
{
    let mut buf: Vec<u8> = vec![0u8; 60];
    buf.set(4, 0x02);
    buf
}

/// Appends a found device to the list of devices.
pub fn add_device(devices: &mut Vec<Device>, device: Device)
    ensures
        final(devices)@ == old(devices)@.push(device),
{
    devices.push(device);
}

/// The name of each kind of board.
pub open spec fn board_name(board: Boards) -> Seq<char> {
    match board {
        Boards::Metis => "Metis"@,
        Boards::Hermes => "Hermes"@,
        Boards::Hermes2 => "Hermes2"@,
        Boards::Angelia => "Angelia"@,
        Boards::Orion => "Orion"@,
        Boards::Orion2 => "Orion2"@,
        Boards::Saturn => "Saturn"@,
        Boards::HermesLite => "HermesLite"@,
        Boards::HermesLite2 => "HermesLite2"@,
        Boards::Unknown => "Unknown"@,
    }
}

/// The name of the device's board.
pub fn device_name(device: Device) -> (name: String)
    ensures
        name@ == board_name(device.board),
{
    let s: &str = match device.board {
        Boards::Metis => "Metis",
        Boards::Hermes => "Hermes",
        Boards::Hermes2 => "Hermes2",
        Boards::Angelia => "Angelia",
        Boards::Orion => "Orion",
        Boards::Orion2 => "Orion2",
        Boards::Saturn => "Saturn",
        Boards::HermesLite => "HermesLite",
        Boards::HermesLite2 => "HermesLite2",
        Boards::Unknown => "Unknown",
    };
    s.to_string()
}

/// The words that describe a reply's status byte: 2 is available, 3 in use, any
/// other value unknown.
pub open spec fn status_name(status: u8) -> Seq<char> {
    if status == 2 {
        "Available"@
    } else if status == 3 {
        "In Use"@
    } else {
        "Unknown"@
    }
}

/// The description of a device's status.
pub fn status_text(status: u8) -> (text: &'static str)
    ensures
        text@ == status_name(status),
{
    if status == 2 {
        "Available"
    } else if status == 3 {
        "In Use"
    } else {
        "Unknown"
    }
}

/// Whether a device can be chosen to start: only an available one can.
pub fn is_selectable(status: u8) -> (selectable: bool)
    ensures
        selectable <==> status == 2,
{
    status == 2
}

/// The firmware version `v` written as tens, a point, and units (42 gives "4.2").
pub fn version_text(version: u8) -> (text: String)
    ensures
        text@ == decimal_digits((version / 10) as nat) + seq!['.'] + decimal_digits(
            (version % 10) as nat,
        ),
{
    let mut text = String::new();
    append_digits(&mut text, (version / 10) as u32);
    proof {
        reveal_strlit(".");
    }
    text.append(".");
    append_digits(&mut text, (version % 10) as u32);
    text
}

/// The local addresses discovery broadcasts from, given the first address of each
/// network interface that has one: each, with any port. An interface without an
/// address is passed over.
pub fn discovery_sources(first_addresses: &Vec<Option<IpAddress>>) -> (sources: Vec<SocketAddress>)
    requires
        forall|i: int|
            0 <= i < first_addresses@.len() ==> !(#[trigger] first_addresses@[i] matches Some(
                IpAddress::V6(_),
            )),
    ensures
        sources@ == first_addresses@.filter(|a: Option<IpAddress>| a is Some).map_values(
            |a: Option<IpAddress>| SocketAddress { ip: a.unwrap(), port: 0 },
        ),
{
    let mut sources: Vec<SocketAddress> = Vec::new();
    let mut i: usize = 0;
    while i < first_addresses.len()
        invariant
            i <= first_addresses@.len(),
            sources@ == first_addresses@.subrange(0, i as int).filter(
                |a: Option<IpAddress>| a is Some,
            ).map_values(|a: Option<IpAddress>| SocketAddress { ip: a.unwrap(), port: 0 }),
        decreases first_addresses@.len() - i,
    {
        let ghost prefix = first_addresses@.subrange(0, i as int);
        proof {
            assert(first_addresses@.subrange(0, i + 1) =~= prefix.push(first_addresses@[i as int]));
            prefix.lemma_filter_push(first_addresses@[i as int], |a: Option<IpAddress>| a is Some);
        }
        match first_addresses[i] {
            Some(ip) => {
                sources.push(SocketAddress { ip, port: 0 });
            },
            None => {},
        }
        i = i + 1;
    }
    proof {
        assert(first_addresses@.subrange(0, first_addresses@.len() as int) =~= first_addresses@);
    }
    sources
}

/// The board numbers a protocol 1 reply can carry (6 standing for both Hermes Lite
/// versions).
pub open spec fn known_protocol1_number(device: u8) -> bool {
    device == 0 || device == 1 || device == 4 || device == 5 || device == 6 || device == 10
}

/// Protocol 1 board numbers name boards one to one: 0 Metis, 1 Hermes, 4 Angelia,
/// 5 Orion, 6 a Hermes Lite (version 1 below firmware 42, else version 2), 10 Orion
/// MkII, whatever the firmware version and receiver count; two different known
/// numbers never name the same board; and a board both protocols know is described
/// alike by both.
pub proof fn lemma_protocol1_boards(device: u8, other: u8, version: u8, v2: u8, receivers: u8, r2: u8)
    ensures
        protocol1_board(0, version, receivers).board == Boards::Metis,
        protocol1_board(1, version, receivers).board == Boards::Hermes,
        protocol1_board(4, version, receivers).board == Boards::Angelia,
        protocol1_board(5, version, receivers).board == Boards::Orion,
        protocol1_board(10, version, receivers).board == Boards::Orion2,
        protocol1_board(6, version, receivers).board == (if version < 42 {
            Boards::HermesLite
        } else {
            Boards::HermesLite2
        }),
        known_protocol1_number(device) && known_protocol1_number(other) && device != other
            ==> protocol1_board(device, version, receivers).board != protocol1_board(
            other,
            v2,
            r2,
        ).board,
        known_protocol1_number(device) && device != 6 && protocol1_board(
            device,
            version,
            receivers,
        ).board == protocol2_board(other).board ==> protocol1_board(device, version, receivers)
            == protocol2_board(other),
{
}

/// The board numbers a protocol 2 reply can carry.
pub open spec fn known_protocol2_number(device: u8) -> bool {
    device <= 6 || device == 10
}

/// Protocol 2 board numbers name boards one to one: 0 Atlas/Metis, 1 Hermes,
/// 2 Hermes II, 3 Angelia, 4 Orion, 5 Orion MkII, 6 Hermes Lite 2, 10 Saturn; two
/// different known numbers never name the same board.
pub proof fn lemma_protocol2_boards(device: u8, other: u8)
    ensures
        protocol2_board(0).board == Boards::Metis,
        protocol2_board(1).board == Boards::Hermes,
        protocol2_board(2).board == Boards::Hermes2,
        protocol2_board(3).board == Boards::Angelia,
        protocol2_board(4).board == Boards::Orion,
        protocol2_board(5).board == Boards::Orion2,
        protocol2_board(6).board == Boards::HermesLite2,
        protocol2_board(10).board == Boards::Saturn,
        known_protocol2_number(device) && known_protocol2_number(other) && device != other
            ==> protocol2_board(device).board != protocol2_board(other).board,
        !known_protocol2_number(device) ==> protocol2_board(device).board == Boards::Unknown,
{
}

} // verus!
