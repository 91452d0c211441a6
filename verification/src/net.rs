//! Multiplayer: the wire format of network packets and the Dukematch
//! frag table.
use vstd::prelude::*;
use vstd::utf8::{encode_utf8, decode_utf8, valid_utf8};
use vstd::string::StringSliceAdditionalSpecFns;
use crate::reader::{le_u16, le_u32, signed8, signed16, u16_from_le, u32_from_le, to_signed8, to_signed16,
    to_unsigned8, i16_bits, u16_to_le, u32_to_le, lemma_le16_digits, lemma_le32_digits};
use crate::text::{chars_of, string_from_chars, lossy_utf8, utf8_lossy_chars};

verus! {


#[derive(Debug, Clone, Copy, PartialEq, Eq, Structural, Default)]
pub enum NetMode {
    #[default]
    SinglePlayer,
    Dukematch,
    Cooperative,
}

/// A network packet. The position and angle fields of `PlayerStateSync`
/// carry IEEE-754 single-precision bit patterns.
#[derive(Debug, Clone)]
pub enum NetPacket {
    Connect { player_id: u8, name: String, color_pal: u8 },
    InputSync { player_id: u8, gametic: u32, forward: i8, strafe: i8, yaw: i16, pitch: i16, actions: u16, weapon: u8 },
    PlayerStateSync { player_id: u8, x: u32, y: u32, z: u32, yaw: u32, pitch: u32, health: i16, armor: i16 },
    FragEvent { killer_id: u8, victim_id: u8, weapon_type: u8 },
    ChatMessage { sender_id: u8, message: String },
}

/// A packet with its strings as character sequences.
pub enum PacketView {
    Connect { player_id: u8, name: Seq<char>, color_pal: u8 },
    InputSync { player_id: u8, gametic: u32, forward: i8, strafe: i8, yaw: i16, pitch: i16, actions: u16, weapon: u8 },
    PlayerStateSync { player_id: u8, x: u32, y: u32, z: u32, yaw: u32, pitch: u32, health: i16, armor: i16 },
    FragEvent { killer_id: u8, victim_id: u8, weapon_type: u8 },
    ChatMessage { sender_id: u8, message: Seq<char> },
}

impl View for NetPacket {
    type V = PacketView;

    open spec fn view(&self) -> PacketView {
        match self {
            NetPacket::Connect { player_id, name, color_pal } => PacketView::Connect { player_id: *player_id, name: name@, color_pal: *color_pal },
            NetPacket::InputSync { player_id, gametic, forward, strafe, yaw, pitch, actions, weapon } =>
                PacketView::InputSync { player_id: *player_id, gametic: *gametic, forward: *forward, strafe: *strafe, yaw: *yaw, pitch: *pitch, actions: *actions, weapon: *weapon },
            NetPacket::PlayerStateSync { player_id, x, y, z, yaw, pitch, health, armor } =>
                PacketView::PlayerStateSync { player_id: *player_id, x: *x, y: *y, z: *z, yaw: *yaw, pitch: *pitch, health: *health, armor: *armor },
            NetPacket::FragEvent { killer_id, victim_id, weapon_type } =>
                PacketView::FragEvent { killer_id: *killer_id, victim_id: *victim_id, weapon_type: *weapon_type },
            NetPacket::ChatMessage { sender_id, message } => PacketView::ChatMessage { sender_id: *sender_id, message: message@ },
        }
    }
}

/// The errors of packet decoding.
#[derive(Debug, Clone, Copy, PartialEq, Eq, Structural)]
pub enum NetError {
    Empty,
    InvalidConnect,
    TruncatedName,
    InvalidInputSync,
    InvalidPlayerStateSync,
    InvalidFragEvent,
    InvalidChatMessage,
    TruncatedMessage,
    UnknownType(u8),
}

pub open spec fn u8_of(v: i8) -> u8 {
    (if v >= 0 { v as int } else { v + 256 }) as u8
}

pub open spec fn le16(v: int) -> Seq<u8> {
    seq![(v % 256) as u8, (v / 256) as u8]
}

pub open spec fn le32(v: u32) -> Seq<u8> {
    seq![(v % 256) as u8, ((v / 256) % 256) as u8, ((v / 65536) % 256) as u8, (v / 16777216) as u8]
}

pub open spec fn i16_pattern(v: i16) -> int {
    if v >= 0 { v as int } else { v + 65536 }
}

/// At most the first `n` characters.
pub open spec fn first_chars(s: Seq<char>, n: int) -> Seq<char> {
    if s.len() <= n { s } else { s.take(n) }
}

/// The wire form of a packet: a type byte, then its fields in order,
/// integers little-endian; a name is cut to 32 characters and a message to
/// 128, each sent as UTF-8 after a length byte (a message's capped at 255).
pub open spec fn encode_packet(p: PacketView) -> Seq<u8> {
    match p {
        PacketView::Connect { player_id, name, color_pal } => {
            let b = encode_utf8(first_chars(name, 32));
            seq![1u8, player_id, color_pal, b.len() as u8] + b
        },
        PacketView::InputSync { player_id, gametic, forward, strafe, yaw, pitch, actions, weapon } =>
            seq![2u8, player_id] + le32(gametic) + seq![u8_of(forward), u8_of(strafe)] + le16(i16_pattern(yaw))
                + le16(i16_pattern(pitch)) + le16(actions as int) + seq![weapon],
        PacketView::PlayerStateSync { player_id, x, y, z, yaw, pitch, health, armor } =>
            seq![3u8, player_id] + le32(x) + le32(y) + le32(z) + le32(yaw) + le32(pitch)
                + le16(i16_pattern(health)) + le16(i16_pattern(armor)),
        PacketView::FragEvent { killer_id, victim_id, weapon_type } => seq![4u8, killer_id, victim_id, weapon_type],
        PacketView::ChatMessage { sender_id, message } => {
            let b = encode_utf8(first_chars(message, 128));
            seq![5u8, sender_id, (if b.len() < 255 { b.len() as int } else { 255 }) as u8] + b
        },
    }
}

/// Reads a packet from its wire form.
pub open spec fn decode_packet(d: Seq<u8>) -> Result<PacketView, NetError> {
    if d.len() == 0 {
        Err(NetError::Empty)
    } else if d[0] == 1 {
        if d.len() < 4 {
            Err(NetError::InvalidConnect)
        } else if d.len() < 4 + d[3] {
            Err(NetError::TruncatedName)
        } else {
            Ok(PacketView::Connect { player_id: d[1], name: utf8_lossy_chars(d.subrange(4, 4 + d[3])), color_pal: d[2] })
        }
    } else if d[0] == 2 {
        if d.len() < 15 {
            Err(NetError::InvalidInputSync)
        } else {
            Ok(PacketView::InputSync {
                player_id: d[1], gametic: le_u32(d, 2), forward: signed8(d[6]), strafe: signed8(d[7]),
                yaw: signed16(le_u16(d, 8)), pitch: signed16(le_u16(d, 10)), actions: le_u16(d, 12), weapon: d[14],
            })
        }
    } else if d[0] == 3 {
        if d.len() < 26 {
            Err(NetError::InvalidPlayerStateSync)
        } else {
            Ok(PacketView::PlayerStateSync {
                player_id: d[1], x: le_u32(d, 2), y: le_u32(d, 6), z: le_u32(d, 10), yaw: le_u32(d, 14),
                pitch: le_u32(d, 18), health: signed16(le_u16(d, 22)), armor: signed16(le_u16(d, 24)),
            })
        }
    } else if d[0] == 4 {
        if d.len() < 4 {
            Err(NetError::InvalidFragEvent)
        } else {
            Ok(PacketView::FragEvent { killer_id: d[1], victim_id: d[2], weapon_type: d[3] })
        }
    } else if d[0] == 5 {
        if d.len() < 3 {
            Err(NetError::InvalidChatMessage)
        } else if d.len() < 3 + d[2] {
            Err(NetError::TruncatedMessage)
        } else {
            Ok(PacketView::ChatMessage { sender_id: d[1], message: utf8_lossy_chars(d.subrange(3, 3 + d[2])) })
        }
    } else {
        Err(NetError::UnknownType(d[0]))
    }
}

/// Every packet whose name fits in 32 characters and whose message fits in
/// 128 characters and 255 bytes decodes to itself.
pub proof fn lemma_packet_roundtrip(p: PacketView)
    requires
        p matches PacketView::Connect { name, .. } ==> name.len() <= 32,
        p matches PacketView::ChatMessage { message, .. } ==> message.len() <= 128 && encode_utf8(message).len() <= 255,
    ensures
        decode_packet(encode_packet(p)) == Ok::<PacketView, NetError>(p),
{
    match p {
        PacketView::Connect { player_id, name, color_pal } => lemma_connect_roundtrip(player_id, name, color_pal),
        PacketView::InputSync { player_id, gametic, forward, strafe, yaw, pitch, actions, weapon } =>
            lemma_input_roundtrip(player_id, gametic, forward, strafe, yaw, pitch, actions, weapon),
        PacketView::PlayerStateSync { player_id, x, y, z, yaw, pitch, health, armor } =>
            lemma_state_roundtrip(player_id, x, y, z, yaw, pitch, health, armor),
        PacketView::FragEvent { killer_id, victim_id, weapon_type } => {},
        PacketView::ChatMessage { sender_id, message } => lemma_chat_roundtrip(sender_id, message),
    }
}

proof fn lemma_connect_roundtrip(player_id: u8, name: Seq<char>, color_pal: u8)
    requires
        name.len() <= 32,
    ensures
        ({
            let p = PacketView::Connect { player_id, name, color_pal };
            decode_packet(encode_packet(p)) == Ok::<PacketView, NetError>(p)
        }),
{
    let p = PacketView::Connect { player_id, name, color_pal };
    let d = encode_packet(p);
    let b = encode_utf8(name);
    lemma_utf8_len_bound(name);
    vstd::utf8::encode_utf8_valid_utf8(name);
    vstd::utf8::encode_utf8_decode_utf8(name);
    assert(first_chars(name, 32) == name);
    assert(d[3] as int == b.len());
    assert(d.subrange(4, 4 + d[3]) =~= b);
}

proof fn lemma_chat_roundtrip(sender_id: u8, message: Seq<char>)
    requires
        message.len() <= 128 && encode_utf8(message).len() <= 255,
    ensures
        ({
            let p = PacketView::ChatMessage { sender_id, message };
            decode_packet(encode_packet(p)) == Ok::<PacketView, NetError>(p)
        }),
{
    let p = PacketView::ChatMessage { sender_id, message };
    let d = encode_packet(p);
    let b = encode_utf8(message);
    vstd::utf8::encode_utf8_valid_utf8(message);
    vstd::utf8::encode_utf8_decode_utf8(message);
    assert(first_chars(message, 128) == message);
    assert(d[2] as int == b.len());
    assert(d.subrange(3, 3 + d[2]) =~= b);
}

proof fn lemma_input_roundtrip(player_id: u8, gametic: u32, forward: i8, strafe: i8, yaw: i16, pitch: i16, actions: u16, weapon: u8)
    ensures
        ({
            let p = PacketView::InputSync { player_id, gametic, forward, strafe, yaw, pitch, actions, weapon };
            decode_packet(encode_packet(p)) == Ok::<PacketView, NetError>(p)
        }),
{
    let p = PacketView::InputSync { player_id, gametic, forward, strafe, yaw, pitch, actions, weapon };
    let d = encode_packet(p);
    lemma_bytes_of_u32(gametic);
    assert(d.subrange(2, 6) =~= le32(gametic));
    assert(le_u32(d, 2) == gametic);
    lemma_u16_pattern(yaw);
    lemma_u16_pattern(pitch);
    assert(d[8] == le16(i16_pattern(yaw))[0] && d[9] == le16(i16_pattern(yaw))[1]);
    assert(d[10] == le16(i16_pattern(pitch))[0] && d[11] == le16(i16_pattern(pitch))[1]);
    assert(d[12] == le16(actions as int)[0] && d[13] == le16(actions as int)[1]);
}

proof fn lemma_u16_pattern(v: i16)
    ensures
        ({
            let b = le16(i16_pattern(v));
            signed16((b[0] as int + 256 * b[1] as int) as u16) == v
        }),
{
    let w = i16_pattern(v);
    let b = le16(w);
    assert(b[0] as int + 256 * b[1] as int == w) by (nonlinear_arith)
        requires b[0] == w % 256, b[1] == w / 256, 0 <= w < 65536;
}

proof fn lemma_state_roundtrip(player_id: u8, x: u32, y: u32, z: u32, yaw: u32, pitch: u32, health: i16, armor: i16)
    ensures
        ({
            let p = PacketView::PlayerStateSync { player_id, x, y, z, yaw, pitch, health, armor };
            decode_packet(encode_packet(p)) == Ok::<PacketView, NetError>(p)
        }),
{
    let p = PacketView::PlayerStateSync { player_id, x, y, z, yaw, pitch, health, armor };
    let d = encode_packet(p);
    lemma_bytes_of_u32(x);
    lemma_bytes_of_u32(y);
    lemma_bytes_of_u32(z);
    lemma_bytes_of_u32(yaw);
    lemma_bytes_of_u32(pitch);
    lemma_u16_pattern(health);
    lemma_u16_pattern(armor);
    assert(d[2] == le32(x)[0] && d[3] == le32(x)[1] && d[4] == le32(x)[2] && d[5] == le32(x)[3]);
    assert(d[6] == le32(y)[0] && d[7] == le32(y)[1] && d[8] == le32(y)[2] && d[9] == le32(y)[3]);
    assert(d[10] == le32(z)[0] && d[11] == le32(z)[1] && d[12] == le32(z)[2] && d[13] == le32(z)[3]);
    assert(d[14] == le32(yaw)[0] && d[15] == le32(yaw)[1] && d[16] == le32(yaw)[2] && d[17] == le32(yaw)[3]);
    assert(d[18] == le32(pitch)[0] && d[19] == le32(pitch)[1] && d[20] == le32(pitch)[2] && d[21] == le32(pitch)[3]);
    assert(d[22] == le16(i16_pattern(health))[0] && d[23] == le16(i16_pattern(health))[1]);
    assert(d[24] == le16(i16_pattern(armor))[0] && d[25] == le16(i16_pattern(armor))[1]);
}

proof fn lemma_bytes_of_u32(v: u32)
    ensures
        ({
            let b = le32(v);
            b[0] as int + 256 * b[1] as int + 65536 * b[2] as int + 16777216 * b[3] as int == v
        }),
{
    let b = le32(v);
    assert(b[0] as int + 256 * b[1] as int + 65536 * b[2] as int + 16777216 * b[3] as int == v) by (nonlinear_arith)
        requires b[0] == v % 256, b[1] == (v / 256) % 256, b[2] == (v / 65536) % 256, b[3] == v / 16777216, 0 <= v < 0x1_0000_0000;
}

/// UTF-8 takes at most four bytes per character.
proof fn lemma_utf8_len_bound(s: Seq<char>)
    ensures
        encode_utf8(s).len() <= 4 * s.len(),
    decreases s.len(),
{
    if s.len() > 0 {
        vstd::utf8::encode_utf8_first_scalar(s);
        lemma_utf8_len_bound(s.drop_first());
    }
}

fn push_all(out: &mut Vec<u8>, b: &[u8])
    ensures
        final(out)@ == old(out)@ + b@,
{
    let ghost o = out@;
    let mut i: usize = 0;
    while i < b.len()
        invariant
            i <= b@.len(),
            out@ == o + b@.subrange(0, i as int),
        decreases b@.len() - i,
    {
        out.push(b[i]);
        proof {
            assert(b@.subrange(0, i + 1) =~= b@.subrange(0, i as int).push(b@[i as int]));
        }
        i += 1;
    }
    assert(b@.subrange(0, b@.len() as int) =~= b@);
}

fn push_le32(out: &mut Vec<u8>, v: u32)
    ensures
        final(out)@ == old(out)@ + le32(v),
{
    let (b0, b1, b2, b3) = u32_to_le(v);
    out.push(b0);
    out.push(b1);
    out.push(b2);
    out.push(b3);
    assert(final(out)@ =~= old(out)@ + le32(v)) by {
        assert(out@ =~= old(out)@ + le32(v));
    }
}

fn push_le16(out: &mut Vec<u8>, v: u16)
    ensures
        final(out)@ == old(out)@ + le16(v as int),
{
    let (b0, b1) = u16_to_le(v);
    out.push(b0);
    out.push(b1);
    assert(out@ =~= old(out)@ + le16(v as int));
}

/// The UTF-8 bytes of the first `n` characters of `s`.
fn first_chars_utf8(s: &String, n: usize) -> (b: Vec<u8>)
    ensures
        b@ == encode_utf8(first_chars(s@, n as int)),
{
    let cs = chars_of(s.as_str());
    let m = if cs.len() <= n { cs.len() } else { n };
    let mut head: Vec<char> = Vec::new();
    let mut i: usize = 0;
    while i < m
        invariant
            i <= m <= cs@.len(),
            cs@ == s@,
            head@ == cs@.subrange(0, i as int),
        decreases m - i,
    {
        head.push(cs[i]);
        i += 1;
    }
    let t = string_from_chars(head.as_slice());
    assert(t@ =~= first_chars(s@, n as int));
    let bytes = t.as_str().as_bytes();
    let mut out: Vec<u8> = Vec::new();
    push_all(&mut out, bytes);
    assert(out@ =~= encode_utf8(first_chars(s@, n as int)));
    out
}

impl NetPacket {
    pub fn to_bytes(&self) -> (buf: Vec<u8>)
        ensures
            buf@ == encode_packet(self@),
    {
        let mut buf: Vec<u8> = Vec::new();
        match self {
            NetPacket::Connect { player_id, name, color_pal } => {
                let b = first_chars_utf8(name, 32);
                proof {
                    lemma_utf8_len_bound(first_chars(name@, 32));
                }
                buf.push(1);
                buf.push(*player_id);
                buf.push(*color_pal);
                buf.push(b.len() as u8);
                push_all(&mut buf, b.as_slice());
            },
            NetPacket::InputSync { player_id, gametic, forward, strafe, yaw, pitch, actions, weapon } => {
                buf.push(2);
                buf.push(*player_id);
                push_le32(&mut buf, *gametic);
                buf.push(to_unsigned8(*forward));
                buf.push(to_unsigned8(*strafe));
                push_le16(&mut buf, i16_bits(*yaw));
                push_le16(&mut buf, i16_bits(*pitch));
                push_le16(&mut buf, *actions);
                buf.push(*weapon);
            },
            NetPacket::PlayerStateSync { player_id, x, y, z, yaw, pitch, health, armor } => {
                buf.push(3);
                buf.push(*player_id);
                push_le32(&mut buf, *x);
                push_le32(&mut buf, *y);
                push_le32(&mut buf, *z);
                push_le32(&mut buf, *yaw);
                push_le32(&mut buf, *pitch);
                push_le16(&mut buf, i16_bits(*health));
                push_le16(&mut buf, i16_bits(*armor));
            },
            NetPacket::FragEvent { killer_id, victim_id, weapon_type } => {
                buf.push(4);
                buf.push(*killer_id);
                buf.push(*victim_id);
                buf.push(*weapon_type);
            },
            NetPacket::ChatMessage { sender_id, message } => {
                let b = first_chars_utf8(message, 128);
                buf.push(5);
                buf.push(*sender_id);
                let l: u8 = if b.len() < 255 { b.len() as u8 } else { 255 };
                buf.push(l);
                push_all(&mut buf, b.as_slice());
            },
        }
        assert(buf@ =~= encode_packet(self@));
        buf
    }

    pub fn from_bytes(data: &[u8]) -> (res: Result<Self, NetError>)
        ensures
            match decode_packet(data@) {
                Ok(v) => res matches Ok(p) && p@ == v,
                Err(e) => res == Err::<Self, NetError>(e),
            },
    {
        let len = data.len();
        if len == 0 {
            return Err(NetError::Empty);
        }
        match data[0] {
            1 => {
                if len < 4 {
                    return Err(NetError::InvalidConnect);
                }
                let name_len = data[3] as usize;
                if len < 4 + name_len {
                    return Err(NetError::TruncatedName);
                }
                let raw = crate::reader::copy_range(data, 4, 4 + name_len);
                let name = lossy_utf8(raw.as_slice());
                Ok(NetPacket::Connect { player_id: data[1], name, color_pal: data[2] })
            },
            2 => {
                if len < 15 {
                    return Err(NetError::InvalidInputSync);
                }
                Ok(NetPacket::InputSync {
                    player_id: data[1],
                    gametic: u32_from_le(data[2], data[3], data[4], data[5]),
                    forward: to_signed8(data[6]),
                    strafe: to_signed8(data[7]),
                    yaw: to_signed16(u16_from_le(data[8], data[9])),
                    pitch: to_signed16(u16_from_le(data[10], data[11])),
                    actions: u16_from_le(data[12], data[13]),
                    weapon: data[14],
                })
            },
            3 => {
                if len < 26 {
                    return Err(NetError::InvalidPlayerStateSync);
                }
                Ok(NetPacket::PlayerStateSync {
                    player_id: data[1],
                    x: u32_from_le(data[2], data[3], data[4], data[5]),
                    y: u32_from_le(data[6], data[7], data[8], data[9]),
                    z: u32_from_le(data[10], data[11], data[12], data[13]),
                    yaw: u32_from_le(data[14], data[15], data[16], data[17]),
                    pitch: u32_from_le(data[18], data[19], data[20], data[21]),
                    health: to_signed16(u16_from_le(data[22], data[23])),
                    armor: to_signed16(u16_from_le(data[24], data[25])),
                })
            },
            4 => {
                if len < 4 {
                    return Err(NetError::InvalidFragEvent);
                }
                Ok(NetPacket::FragEvent { killer_id: data[1], victim_id: data[2], weapon_type: data[3] })
            },
            5 => {
                if len < 3 {
                    return Err(NetError::InvalidChatMessage);
                }
                let msg_len = data[2] as usize;
                if len < 3 + msg_len {
                    return Err(NetError::TruncatedMessage);
                }
                let raw = crate::reader::copy_range(data, 3, 3 + msg_len);
                let message = lossy_utf8(raw.as_slice());
                Ok(NetPacket::ChatMessage { sender_id: data[1], message })
            },
            t => Err(NetError::UnknownType(t)),
        }
    }
}

} // verus!
