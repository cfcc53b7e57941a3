//! Packets, the command they carry, and the error packet that the proxy
//! itself can send.

use crate::wire::{
    encode_u16, frame, is_frame, lemma_frame, lemma_length_unique, parse_length, write_u16_le,
    write_u24_le, HEADER_LEN, MAX_PAYLOAD,
};
use vstd::prelude::*;
use vstd::utf8::encode_utf8;

verus! {

/// What can go wrong in the proxy.
#[derive(Clone, Copy, Debug, PartialEq, Eq, Structural)]
pub enum ProxyError {
    /// The command byte of a packet is none of the known commands.
    InvalidPacketType,
    /// A read returned no bytes: the peer has closed its side.
    ConnectionClosed,
    /// Any other failure of a read or a write.
    Transport,
}

/// The command that a client packet carries in the first byte of its payload.
#[derive(Clone, Copy, Debug, PartialEq, Eq, Structural)]
pub enum PacketType {
    ComSleep,
    ComQuit,
    ComInitDb,
    ComQuery,
    ComFieldList,
    ComCreateDb,
    ComDropDb,
    ComRefresh,
    ComShutdown,
    ComStatistics,
    ComProcessInfo,
    ComConnect,
    ComProcessKill,
    ComDebug,
    ComPing,
    ComTime,
    ComDelayedInsert,
    ComChangeUser,
    ComBinlogDump,
    ComTableDump,
    ComConnectOut,
    ComRegisterSlave,
    ComStmtPrepare,
    ComStmtExecute,
    ComStmtSendLongData,
    ComStmtClose,
    ComStmtReset,
    ComDaemon,
    ComBinlogDumpGtid,
    ComResetConnection,
}

impl PacketType {
    /// The command that the byte `code` stands for, if it stands for one.
    pub open spec fn from_code(code: u8) -> Option<PacketType> {
        match code {
            0x00 => Some(PacketType::ComSleep),
            0x01 => Some(PacketType::ComQuit),
            0x02 => Some(PacketType::ComInitDb),
            0x03 => Some(PacketType::ComQuery),
            0x04 => Some(PacketType::ComFieldList),
            0x05 => Some(PacketType::ComCreateDb),
            0x06 => Some(PacketType::ComDropDb),
            0x07 => Some(PacketType::ComRefresh),
            0x08 => Some(PacketType::ComShutdown),
            0x09 => Some(PacketType::ComStatistics),
            0x0a => Some(PacketType::ComProcessInfo),
            0x0b => Some(PacketType::ComConnect),
            0x0c => Some(PacketType::ComProcessKill),
            0x0d => Some(PacketType::ComDebug),
            0x0e => Some(PacketType::ComPing),
            0x0f => Some(PacketType::ComTime),
            0x10 => Some(PacketType::ComDelayedInsert),
            0x11 => Some(PacketType::ComChangeUser),
            0x12 => Some(PacketType::ComBinlogDump),
            0x13 => Some(PacketType::ComTableDump),
            0x14 => Some(PacketType::ComConnectOut),
            0x15 => Some(PacketType::ComRegisterSlave),
            0x16 => Some(PacketType::ComStmtPrepare),
            0x17 => Some(PacketType::ComStmtExecute),
            0x18 => Some(PacketType::ComStmtSendLongData),
            0x19 => Some(PacketType::ComStmtClose),
            0x1a => Some(PacketType::ComStmtReset),
            0x1d => Some(PacketType::ComDaemon),
            0x1e => Some(PacketType::ComBinlogDumpGtid),
            0x1f => Some(PacketType::ComResetConnection),
            _ => None,
        }
    }

    /// The byte that stands for this command on the wire.
    pub open spec fn spec_code(self) -> u8 {
        match self {
            PacketType::ComSleep => 0x00,
            PacketType::ComQuit => 0x01,
            PacketType::ComInitDb => 0x02,
            PacketType::ComQuery => 0x03,
            PacketType::ComFieldList => 0x04,
            PacketType::ComCreateDb => 0x05,
            PacketType::ComDropDb => 0x06,
            PacketType::ComRefresh => 0x07,
            PacketType::ComShutdown => 0x08,
            PacketType::ComStatistics => 0x09,
            PacketType::ComProcessInfo => 0x0a,
            PacketType::ComConnect => 0x0b,
            PacketType::ComProcessKill => 0x0c,
            PacketType::ComDebug => 0x0d,
            PacketType::ComPing => 0x0e,
            PacketType::ComTime => 0x0f,
            PacketType::ComDelayedInsert => 0x10,
            PacketType::ComChangeUser => 0x11,
            PacketType::ComBinlogDump => 0x12,
            PacketType::ComTableDump => 0x13,
            PacketType::ComConnectOut => 0x14,
            PacketType::ComRegisterSlave => 0x15,
            PacketType::ComStmtPrepare => 0x16,
            PacketType::ComStmtExecute => 0x17,
            PacketType::ComStmtSendLongData => 0x18,
            PacketType::ComStmtClose => 0x19,
            PacketType::ComStmtReset => 0x1a,
            PacketType::ComDaemon => 0x1d,
            PacketType::ComBinlogDumpGtid => 0x1e,
            PacketType::ComResetConnection => 0x1f,
        }
    }

    /// The byte that stands for this command on the wire.
    #[verifier::when_used_as_spec(spec_code)]
    pub fn code(self) -> (code: u8)
        ensures
            code == self.spec_code(),
            PacketType::from_code(code) == Some(self),
    {
        match self {
            PacketType::ComSleep => 0x00,
            PacketType::ComQuit => 0x01,
            PacketType::ComInitDb => 0x02,
            PacketType::ComQuery => 0x03,
            PacketType::ComFieldList => 0x04,
            PacketType::ComCreateDb => 0x05,
            PacketType::ComDropDb => 0x06,
            PacketType::ComRefresh => 0x07,
            PacketType::ComShutdown => 0x08,
            PacketType::ComStatistics => 0x09,
            PacketType::ComProcessInfo => 0x0a,
            PacketType::ComConnect => 0x0b,
            PacketType::ComProcessKill => 0x0c,
            PacketType::ComDebug => 0x0d,
            PacketType::ComPing => 0x0e,
            PacketType::ComTime => 0x0f,
            PacketType::ComDelayedInsert => 0x10,
            PacketType::ComChangeUser => 0x11,
            PacketType::ComBinlogDump => 0x12,
            PacketType::ComTableDump => 0x13,
            PacketType::ComConnectOut => 0x14,
            PacketType::ComRegisterSlave => 0x15,
            PacketType::ComStmtPrepare => 0x16,
            PacketType::ComStmtExecute => 0x17,
            PacketType::ComStmtSendLongData => 0x18,
            PacketType::ComStmtClose => 0x19,
            PacketType::ComStmtReset => 0x1a,
            PacketType::ComDaemon => 0x1d,
            PacketType::ComBinlogDumpGtid => 0x1e,
            PacketType::ComResetConnection => 0x1f,
        }
    }
}

/// A packet is just a wrapper for a Vec<u8>
#[derive(Clone, Debug, PartialEq, Eq)]
pub struct Packet {
    pub bytes: Vec<u8>,
}

impl View for Packet {
    type V = Seq<u8>;

    open spec fn view(&self) -> Seq<u8> {
        self.bytes@
    }
}

/// Bytes of an error payload before the message starts.
pub const ERROR_PREFIX_LEN: usize = 9;

/// The payload of an error packet: the marker `0xFF`, the code in little
/// endian, `'#'`, the five bytes of the SQL state, then the message.
pub open spec fn error_payload(code: u16, state: Seq<u8>, message: Seq<u8>) -> Seq<u8>
    recommends
        state.len() == 5,
{
    seq![0xFFu8] + encode_u16(code) + seq![0x23u8] + state + message
}

/// The bytes of the error packet for `code`, `state` and `message`. Its
/// sequence id is 1: it answers a command that was sent with sequence id 0.
pub open spec fn error_frame(code: u16, state: Seq<u8>, message: Seq<u8>) -> Seq<u8>
    recommends
        state.len() == 5,
        ERROR_PREFIX_LEN + message.len() <= MAX_PAYLOAD,
{
    frame(1, error_payload(code, state, message))
}

impl Packet {
    /// The packet is one complete frame.
    pub open spec fn wf(&self) -> bool {
        is_frame(self@)
    }

    /// The bytes after the header.
    pub open spec fn payload(&self) -> Seq<u8> {
        self@.skip(HEADER_LEN as int)
    }

    /// Create an error packet
    pub fn error_packet(code: u16, state: [u8; 5], msg: String) -> (p: Packet)
        requires
            ERROR_PREFIX_LEN + encode_utf8(msg@).len() <= MAX_PAYLOAD,
        ensures
            p@ == error_frame(code, state@, encode_utf8(msg@)),
            p.wf(),
    {
        let message = msg.as_str().as_bytes();

        // start building payload
        let mut payload: Vec<u8> = Vec::with_capacity(ERROR_PREFIX_LEN + message.len());
        payload.push(0xff);  // packet type
        write_u16_le(&mut payload, code);  // error code
        payload.push(0x23);  // sql_state_marker
        payload.extend_from_slice(state.as_slice());  // SQL STATE
        payload.extend_from_slice(message);

        // create header with length and sequence id
        let mut header: Vec<u8> = Vec::with_capacity(HEADER_LEN + payload.len());
        write_u24_le(&mut header, payload.len() as u32);
        header.push(1);  // sequence_id

        // combine the vectors
        header.extend_from_slice(payload.as_slice());
        proof {
            lemma_frame(1, payload@);
        }

        // now move the vector into the packet
        Packet { bytes: header }
    }

    /// Create an error packet, unless the message is too long for one.
    pub fn try_error_packet(code: u16, state: [u8; 5], msg: String) -> (r: Option<Packet>)
        ensures
            r is Some <==> ERROR_PREFIX_LEN + encode_utf8(msg@).len() <= MAX_PAYLOAD,
            r matches Some(p) ==> p@ == error_frame(code, state@, encode_utf8(msg@)) && p.wf(),
    {
        if msg.as_str().as_bytes().len() <= MAX_PAYLOAD - ERROR_PREFIX_LEN {
            Some(Packet::error_packet(code, state, msg))
        } else {
            None
        }
    }

    /// The sequence id that the header carries.
    pub fn sequence_id(&self) -> (id: u8)
        requires
            self@.len() >= HEADER_LEN,
        ensures
            id == self@[3],
    {
        self.bytes[3]
    }

    /// Determine the type of packet
    pub fn packet_type(&self) -> (r: Result<PacketType, ProxyError>)
        requires
            self@.len() > HEADER_LEN,
        ensures
            r == match PacketType::from_code(self@[4]) {
                Some(t) => Ok::<PacketType, ProxyError>(t),
                None => Err(ProxyError::InvalidPacketType),
            },
    {
        match self.bytes[4] {
            0x00 => Ok(PacketType::ComSleep),
            0x01 => Ok(PacketType::ComQuit),
            0x02 => Ok(PacketType::ComInitDb),
            0x03 => Ok(PacketType::ComQuery),
            0x04 => Ok(PacketType::ComFieldList),
            0x05 => Ok(PacketType::ComCreateDb),
            0x06 => Ok(PacketType::ComDropDb),
            0x07 => Ok(PacketType::ComRefresh),
            0x08 => Ok(PacketType::ComShutdown),
            0x09 => Ok(PacketType::ComStatistics),
            0x0a => Ok(PacketType::ComProcessInfo),
            0x0b => Ok(PacketType::ComConnect),
            0x0c => Ok(PacketType::ComProcessKill),
            0x0d => Ok(PacketType::ComDebug),
            0x0e => Ok(PacketType::ComPing),
            0x0f => Ok(PacketType::ComTime),
            0x10 => Ok(PacketType::ComDelayedInsert),
            0x11 => Ok(PacketType::ComChangeUser),
            0x12 => Ok(PacketType::ComBinlogDump),
            0x13 => Ok(PacketType::ComTableDump),
            0x14 => Ok(PacketType::ComConnectOut),
            0x15 => Ok(PacketType::ComRegisterSlave),
            0x16 => Ok(PacketType::ComStmtPrepare),
            0x17 => Ok(PacketType::ComStmtExecute),
            0x18 => Ok(PacketType::ComStmtSendLongData),
            0x19 => Ok(PacketType::ComStmtClose),
            0x1a => Ok(PacketType::ComStmtReset),
            0x1d => Ok(PacketType::ComDaemon),
            0x1e => Ok(PacketType::ComBinlogDumpGtid),
            0x1f => Ok(PacketType::ComResetConnection),
            _ => Err(ProxyError::InvalidPacketType),
        }
    }
}

/// A command and its byte determine each other: the byte of a command stands
/// for that command, and a byte that stands for a command is that command's
/// byte.
pub proof fn lemma_command_codes(t: PacketType, code: u8)
    ensures
        PacketType::from_code(t.spec_code()) == Some(t),
        PacketType::from_code(code) == Some(t) ==> t.spec_code() == code,
        PacketType::from_code(code) is None <==> code == 0x1b || code == 0x1c || code >= 0x20,
{
}

/// The header of every packet announces the length of its payload.
pub proof fn lemma_header_gives_payload_length(p: Packet)
    requires
        p.wf(),
    ensures
        parse_length(p@) == p.payload().len(),
        p@ == frame(p@[3], p.payload()),
{
    lemma_length_unique(p@.take(3));
}

/// The layout of an error packet, field by field: the header announces nine
/// bytes and the message, the sequence id is 1, and the payload is `0xFF`,
/// the code in little endian, `'#'`, the SQL state and the message.
pub proof fn lemma_error_frame_layout(code: u16, state: Seq<u8>, message: Seq<u8>)
    requires
        state.len() == 5,
        ERROR_PREFIX_LEN + message.len() <= MAX_PAYLOAD,
    ensures
        ({
            let f = error_frame(code, state, message);
            &&& is_frame(f)
            &&& f.len() == HEADER_LEN + ERROR_PREFIX_LEN + message.len()
            &&& parse_length(f) == ERROR_PREFIX_LEN + message.len()
            &&& f[3] == 1
            &&& f[4] == 0xFF
            &&& f[5] + 256 * f[6] == code
            &&& f[7] == 0x23
            &&& f.subrange(8, 13) == state
            &&& f.skip(13) == message
        }),
{
    lemma_frame(1, error_payload(code, state, message));
}

} // verus!
