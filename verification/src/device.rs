//! What is computed around the virtual interface: its names and addresses,
//! the commands that bring it up, the header that one family of systems puts
//! in front of every packet, and the search for a free unit.
//!
//! Opening the device and moving bytes through it is left to the program
//! around the engine.

use crate::message::{string_from_utf8, Id};
use crate::utils::{Command, Platform};
use vstd::prelude::*;
use vstd::slice::{slice_subrange, slice_to_vec};
use vstd::string::StringExecFns;
use vstd::utf8::{decode_utf8, valid_utf8};

verus! {

/// The first unit that is not tried any more.
pub const UNIT_LIMIT: u8 = 255;

/// Length of the name in an interface request.
pub const IFNAMSIZ: usize = 16;

/// Length of the header in front of a packet on a `utun` device.
pub const UTUN_HEADER_LEN: usize = 4;

/// Address family of IPv4 in a `utun` header.
pub const UTUN_INET: u8 = 2;

/// Address family of IPv6 in a `utun` header.
pub const UTUN_INET6: u8 = 10;

/// The character of a decimal digit.
pub open spec fn digit_char(d: nat) -> char
    recommends
        d < 10,
{
    (d + 48) as u8 as char
}

/// A number in decimal digits, without leading zeros.
pub open spec fn spec_decimal(n: nat) -> Seq<char>
    decreases n,
{
    if n < 10 {
        seq![digit_char(n)]
    } else {
        spec_decimal(n / 10) + seq![digit_char(n % 10)]
    }
}

/// The address of a member of the virtual network.
pub open spec fn spec_address(id: Id) -> Seq<char> {
    "10.10.10."@ + spec_decimal(id as nat)
}

/// The name of the interface of a unit.
pub open spec fn spec_tun_name(unit: u8) -> Seq<char> {
    "tun"@ + spec_decimal(unit as nat)
}

/// A decimal digit as text.
fn digit(d: u8) -> (text: &'static str)
    requires
        d < 10,
    ensures
        text@ == seq![digit_char(d as nat)],
{
    proof {
        reveal_strlit("0");
        reveal_strlit("1");
        reveal_strlit("2");
        reveal_strlit("3");
        reveal_strlit("4");
        reveal_strlit("5");
        reveal_strlit("6");
        reveal_strlit("7");
        reveal_strlit("8");
        reveal_strlit("9");
    }
    let text = if d == 0 {
        "0"
    } else if d == 1 {
        "1"
    } else if d == 2 {
        "2"
    } else if d == 3 {
        "3"
    } else if d == 4 {
        "4"
    } else if d == 5 {
        "5"
    } else if d == 6 {
        "6"
    } else if d == 7 {
        "7"
    } else if d == 8 {
        "8"
    } else {
        "9"
    };
    assert(text@ =~= seq![digit_char(d as nat)]);
    text
}

/// Appends a number in decimal digits.
fn append_decimal(text: &mut String, n: u8)
    ensures
        final(text)@ == old(text)@ + spec_decimal(n as nat),
{
    reveal_with_fuel(spec_decimal, 3);
    if n >= 100 {
        text.append(digit(n / 100));
    }
    if n >= 10 {
        text.append(digit(n / 10 % 10));
    }
    text.append(digit(n % 10));
    assert(text@ =~= old(text)@ + spec_decimal(n as nat));
}

/// The address of a member of the virtual network: `10.10.10.` and its
/// identity.
pub fn address(id: Id) -> (text: String)
    ensures
        text@ == spec_address(id),
{
    let mut text = String::from_str("10.10.10.");
    append_decimal(&mut text, id);
    text
}

/// The name of the interface of a unit: `tun` and the unit.
pub fn tun_name(unit: u8) -> (text: String)
    ensures
        text@ == spec_tun_name(unit),
{
    let mut text = String::from_str("tun");
    append_decimal(&mut text, unit);
    text
}

/// The byte of a decimal digit.
pub open spec fn digit_byte(d: nat) -> u8
    recommends
        d < 10,
{
    (d + 48) as u8
}

/// A number in decimal digits, as bytes.
pub open spec fn spec_decimal_bytes(n: nat) -> Seq<u8>
    decreases n,
{
    if n < 10 {
        seq![digit_byte(n)]
    } else {
        spec_decimal_bytes(n / 10) + seq![digit_byte(n % 10)]
    }
}

/// The name in the request for the interface of a unit: `tun` and the unit,
/// filled up with zero bytes to the length of the field.
pub open spec fn spec_request_name(unit: u8) -> Seq<u8> {
    let name = seq![0x74u8, 0x75u8, 0x6eu8] + spec_decimal_bytes(unit as nat);
    name + Seq::new((IFNAMSIZ - name.len()) as nat, |i: int| 0u8)
}

/// Number of bytes in front of the first zero byte.
pub open spec fn spec_name_len(buffer: Seq<u8>) -> nat
    decreases buffer.len(),
{
    if buffer.len() == 0 || buffer[0] == 0 {
        0
    } else {
        1 + spec_name_len(buffer.skip(1))
    }
}

/// The name that a buffer holds: the text in front of its first zero byte.
/// It holds none where no byte is zero or the bytes are no text.
pub open spec fn spec_interface_name(buffer: Seq<u8>) -> Option<Seq<char>> {
    let name = buffer.take(spec_name_len(buffer) as int);
    if spec_name_len(buffer) < buffer.len() && valid_utf8(name) {
        Some(decode_utf8(name))
    } else {
        None
    }
}

/// The name in the request for the interface of a unit.
pub fn request_name(unit: u8) -> (name: Vec<u8>)
    ensures
        name@ == spec_request_name(unit),
        name@.len() == IFNAMSIZ,
{
    reveal_with_fuel(spec_decimal_bytes, 3);
    let mut name: Vec<u8> = Vec::new();
    name.push(0x74);
    name.push(0x75);
    name.push(0x6e);
    if unit >= 100 {
        name.push(unit / 100 + 48);
    }
    if unit >= 10 {
        name.push(unit / 10 % 10 + 48);
    }
    name.push(unit % 10 + 48);
    let ghost text = name@;
    assert(text =~= seq![0x74u8, 0x75u8, 0x6eu8] + spec_decimal_bytes(unit as nat));
    while name.len() < IFNAMSIZ
        invariant
            text.len() <= name@.len() <= IFNAMSIZ,
            name@ == text + Seq::new((name@.len() - text.len()) as nat, |i: int| 0u8),
        decreases IFNAMSIZ - name@.len(),
    {
        let ghost before = name@;
        name.push(0);
        assert(name@ =~= text + Seq::new((name@.len() - text.len()) as nat, |i: int| 0u8));
    }
    name
}

/// The name of the interface that the system wrote into a buffer.
pub fn interface_name(buffer: &[u8]) -> (name: Option<String>)
    ensures
        match name {
            Some(name) => spec_interface_name(buffer@) == Some(name@),
            None => spec_interface_name(buffer@) is None,
        },
{
    let mut len: usize = 0;
    assert(buffer@.skip(0) =~= buffer@);
    while len < buffer.len() && buffer[len] != 0
        invariant
            len <= buffer@.len(),
            spec_name_len(buffer@) == len + spec_name_len(buffer@.skip(len as int)),
        decreases buffer@.len() - len,
    {
        assert(buffer@.skip(len as int).skip(1) =~= buffer@.skip(len + 1));
        len = len + 1;
    }
    if len == buffer.len() {
        return None;
    }
    assert(buffer@.take(len as int) =~= buffer@.subrange(0, len as int));
    string_from_utf8(slice_to_vec(slice_subrange(buffer, 0, len)))
}

/// The commands that bring an interface up for the member `self_id` of the
/// virtual network: the first gives it its address with a prefix of 24 bits,
/// the second sets the size of its packets and switches it on.
pub open spec fn spec_up(platform: Platform, name: Seq<char>, self_id: Id) -> Seq<
    (Seq<char>, Seq<Seq<char>>),
> {
    seq![
        (
            "ifconfig"@,
            match platform {
                Platform::Linux => seq![name, spec_address(self_id) + "/24"@],
                Platform::MacOs => seq![name, spec_address(self_id), "10.10.10.1"@],
            },
        ),
        ("ifconfig"@, seq![name, "mtu"@, "1380"@, "up"@]),
    ]
}

/// The commands that bring the interface `name` up for the member `self_id`
/// of the virtual network, in the order in which they are to be run.
pub fn up(platform: Platform, name: &str, self_id: Id) -> (commands: Vec<Command>)
    ensures
        commands@.len() == 2,
        forall|i: int|
            0 <= i < 2 ==> (#[trigger] commands@[i]@.program, commands@[i]@.args) == spec_up(
                platform,
                name@,
                self_id,
            )[i],
{
    let mut first: Vec<String> = Vec::new();
    first.push(name.to_owned());
    match platform {
        Platform::Linux => {
            first.push(address(self_id).concat("/24"));
        },
        Platform::MacOs => {
            first.push(address(self_id));
            first.push(String::from_str("10.10.10.1"));
        },
    }
    assert(first.deep_view() =~= spec_up(platform, name@, self_id)[0].1);
    let mut second: Vec<String> = Vec::new();
    second.push(name.to_owned());
    second.push(String::from_str("mtu"));
    second.push(String::from_str("1380"));
    second.push(String::from_str("up"));
    assert(second.deep_view() =~= spec_up(platform, name@, self_id)[1].1);
    let mut commands: Vec<Command> = Vec::new();
    commands.push(Command { program: String::from_str("ifconfig"), args: first });
    commands.push(Command { program: String::from_str("ifconfig"), args: second });
    commands
}

/// The header in front of a packet on a `utun` device: the address family
/// that the version in the first byte of the packet calls for, as a 32-bit
/// number in network order.
pub open spec fn spec_utun_header(packet: Seq<u8>) -> Seq<u8> {
    seq![
        0u8,
        0u8,
        0u8,
        if packet[0] / 16 == 6 {
            UTUN_INET6
        } else {
            UTUN_INET
        },
    ]
}

/// A packet as it is written to a `utun` device: its header and the packet.
pub fn utun_frame(packet: &[u8]) -> (frame: Vec<u8>)
    requires
        packet@.len() > 0,
    ensures
        frame@ == spec_utun_header(packet@) + packet@,
{
    let mut frame: Vec<u8> = Vec::new();
    frame.push(0);
    frame.push(0);
    frame.push(0);
    if packet[0] / 16 == 6 {
        frame.push(UTUN_INET6);
    } else {
        frame.push(UTUN_INET);
    }
    assert(frame@ =~= spec_utun_header(packet@));
    frame.extend_from_slice(packet);
    frame
}

/// The packet in what was read from a `utun` device: what follows the
/// header. There is none where less than a header was read.
pub fn utun_packet(frame: &[u8]) -> (packet: Option<&[u8]>)
    ensures
        match packet {
            Some(packet) => frame@.len() >= UTUN_HEADER_LEN && packet@ == frame@.skip(
                UTUN_HEADER_LEN as int,
            ),
            None => frame@.len() < UTUN_HEADER_LEN,
        },
{
    if frame.len() < UTUN_HEADER_LEN {
        None
    } else {
        Some(slice_subrange(frame, UTUN_HEADER_LEN, frame.len()))
    }
}

/// What is read back from a frame is the packet it was made of.
pub proof fn lemma_utun_round_trip(packet: Seq<u8>)
    ensures
        (spec_utun_header(packet) + packet).len() >= UTUN_HEADER_LEN,
        (spec_utun_header(packet) + packet).skip(UTUN_HEADER_LEN as int) == packet,
{
    assert((spec_utun_header(packet) + packet).skip(UTUN_HEADER_LEN as int) =~= packet);
}

/// How much of a packet a `utun` device took when it took `written` bytes of
/// the frame: the header does not count.
pub fn utun_written(written: usize) -> (taken: usize)
    ensures
        taken == if written > UTUN_HEADER_LEN {
            written - UTUN_HEADER_LEN
        } else {
            0
        },
{
    if written > UTUN_HEADER_LEN {
        written - UTUN_HEADER_LEN
    } else {
        0
    }
}

/// Looks for a unit on which the interface can be created: `create` is
/// tried on the units from zero up to, but without, `UNIT_LIMIT`, and the
/// first unit on which it gives something is returned with what it gave.
pub fn create_tun_attempt<T>(create: impl Fn(u8) -> Option<T>) -> (r: Option<(u8, T)>)
    requires
        forall|unit: u8| unit < UNIT_LIMIT ==> call_requires(create, (unit,)),
    ensures
        match r {
            Some((unit, tun)) => {
                &&& unit < UNIT_LIMIT
                &&& call_ensures(create, (unit,), Some(tun))
                &&& forall|earlier: u8|
                    earlier < unit ==> call_ensures(create, (earlier,), None::<T>)
            },
            None => forall|unit: u8|
                unit < UNIT_LIMIT ==> call_ensures(create, (unit,), None::<T>),
        },
{
    let mut unit: u8 = 0;
    while unit < UNIT_LIMIT
        invariant
            unit <= UNIT_LIMIT,
            forall|unit: u8| unit < UNIT_LIMIT ==> call_requires(create, (unit,)),
            forall|earlier: u8| earlier < unit ==> call_ensures(create, (earlier,), None::<T>),
        decreases UNIT_LIMIT - unit,
    {
        match create(unit) {
            Some(tun) => {
                return Some((unit, tun));
            },
            None => {},
        }
        unit = unit + 1;
    }
    None
}

} // verus!
