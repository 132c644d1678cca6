//! The status packet that the server sends back to the client.
//!
//! ```text
//!             +----+----+----+----+----+----+----+----+
//!             | VN | CD | DSTPORT |      DSTIP        |
//!             +----+----+----+----+----+----+----+----+
//! # of bytes:    1    1      2              4
//! ```

use crate::byte_order::{
    lemma_u16_bytes_round_trip, lemma_u16_value_round_trip, lemma_u32_bytes_round_trip,
    lemma_u32_value_round_trip, u16_bytes, u16_from_bytes, u16_of_bytes, u16_to_bytes, u32_bytes,
    u32_from_bytes, u32_of_bytes, u32_to_bytes, ByteOrder,
};
use vstd::prelude::*;

verus! {

/// Length of a reply on the wire.
pub const REPLY_LEN: usize = 8;

/// The outcome that a reply reports.
#[derive(Clone, Copy, Debug, PartialEq, Eq, Structural)]
pub enum Socks4ReplyCode {
    /// The request was granted.
    RequestGranted,
    /// The request was rejected or failed.
    RequestFailed,
    /// Rejected because the server could not reach identd on the client.
    RequestRejected,
    /// Rejected because the client program and identd report different
    /// user-ids.
    RequestRejedtedB,
}

impl Socks4ReplyCode {
    /// The byte that stands for this code on the wire.
    pub open spec fn wire_value(self) -> u8 {
        match self {
            Socks4ReplyCode::RequestGranted => 0x5A,
            Socks4ReplyCode::RequestFailed => 0x5B,
            Socks4ReplyCode::RequestRejected => 0x5C,
            Socks4ReplyCode::RequestRejedtedB => 0x5D,
        }
    }

    /// The code that `byte` stands for, if it stands for one.
    pub open spec fn parse(byte: u8) -> Option<Socks4ReplyCode> {
        if byte == 0x5A {
            Some(Socks4ReplyCode::RequestGranted)
        } else if byte == 0x5B {
            Some(Socks4ReplyCode::RequestFailed)
        } else if byte == 0x5C {
            Some(Socks4ReplyCode::RequestRejected)
        } else if byte == 0x5D {
            Some(Socks4ReplyCode::RequestRejedtedB)
        } else {
            None
        }
    }

    /// The byte that stands for this code on the wire.
    pub fn to_byte(self) -> (byte: u8)
        ensures
            byte == self.wire_value(),
    {
        match self {
            Socks4ReplyCode::RequestGranted => 0x5A,
            Socks4ReplyCode::RequestFailed => 0x5B,
            Socks4ReplyCode::RequestRejected => 0x5C,
            Socks4ReplyCode::RequestRejedtedB => 0x5D,
        }
    }

    /// Reads a code from its wire byte; `None` for a byte that is no code.
    pub fn from_byte(byte: u8) -> (code: Option<Socks4ReplyCode>)
        ensures
            code == Socks4ReplyCode::parse(byte),
    {
        match byte {
            0x5A => Some(Socks4ReplyCode::RequestGranted),
            0x5B => Some(Socks4ReplyCode::RequestFailed),
            0x5C => Some(Socks4ReplyCode::RequestRejected),
            0x5D => Some(Socks4ReplyCode::RequestRejedtedB),
            _ => None,
        }
    }
}

/// A reply: sent once per handled connection, before any relayed byte.
#[derive(Clone, Copy, Debug, PartialEq, Eq, Structural)]
pub struct Sock4Reply {
    /// Version byte of the reply; by convention 0.
    pub version_number: u8,
    /// What became of the request.
    pub reply_code: Socks4ReplyCode,
    /// Destination port, echoed.
    pub dst_port: u16,
    /// Destination address, echoed.
    pub dst_ip: u32,
}

impl Sock4Reply {
    /// The eight bytes of this reply, with port and address in the given
    /// byte order.
    pub open spec fn wire(self, order: ByteOrder) -> Seq<u8> {
        seq![self.version_number, self.reply_code.wire_value()] + u16_bytes(self.dst_port, order)
            + u32_bytes(self.dst_ip, order)
    }

    /// The reply that eight bytes stand for, with port and address read in
    /// the given byte order. There is none where the second byte is no reply
    /// code, or where the bytes are not eight.
    pub open spec fn parse(bytes: Seq<u8>, order: ByteOrder) -> Option<Sock4Reply> {
        if bytes.len() != REPLY_LEN {
            None
        } else {
            match Socks4ReplyCode::parse(bytes[1]) {
                Some(code) => Some(
                    Sock4Reply {
                        version_number: bytes[0],
                        reply_code: code,
                        dst_port: u16_of_bytes(bytes.subrange(2, 4), order),
                        dst_ip: u32_of_bytes(bytes.subrange(4, 8), order),
                    },
                ),
                None => None,
            }
        }
    }

    /// The reply that tells the client that its request was granted:
    /// version 0, and port and address left at zero rather than echoed.
    pub open spec fn spec_granted() -> Sock4Reply {
        Sock4Reply {
            version_number: 0,
            reply_code: Socks4ReplyCode::RequestGranted,
            dst_port: 0,
            dst_ip: 0,
        }
    }

    /// The reply that tells the client that its request was granted:
    /// version 0, and port and address left at zero rather than echoed.
    #[verifier::when_used_as_spec(spec_granted)]
    pub fn granted() -> (reply: Sock4Reply)
        ensures
            reply == Sock4Reply::spec_granted(),
    {
        Sock4Reply {
            version_number: 0,
            reply_code: Socks4ReplyCode::RequestGranted,
            dst_port: 0,
            dst_ip: 0,
        }
    }

    /// Lays the reply out as its eight wire bytes.
    pub fn encode(&self, order: ByteOrder) -> (bytes: [u8; 8])
        ensures
            bytes@ == self.wire(order),
    {
        let port: [u8; 2] = u16_to_bytes(self.dst_port, order);
        let ip: [u8; 4] = u32_to_bytes(self.dst_ip, order);
        [
            self.version_number,
            self.reply_code.to_byte(),
            port[0],
            port[1],
            ip[0],
            ip[1],
            ip[2],
            ip[3],
        ]
    }

    /// Reads a reply back from its eight wire bytes.
    pub fn decode(bytes: &[u8; 8], order: ByteOrder) -> (reply: Option<Sock4Reply>)
        ensures
            reply == Sock4Reply::parse(bytes@, order),
    {
        let port: [u8; 2] = [bytes[2], bytes[3]];
        let ip: [u8; 4] = [bytes[4], bytes[5], bytes[6], bytes[7]];
        match Socks4ReplyCode::from_byte(bytes[1]) {
            Some(code) => Some(
                Sock4Reply {
                    version_number: bytes[0],
                    reply_code: code,
                    dst_port: u16_from_bytes(port, order),
                    dst_ip: u32_from_bytes(ip, order),
                },
            ),
            None => None,
        }
    }

    /// Appends the eight wire bytes of the reply to `buffer`, with port and
    /// address in the byte order of the running machine.
    ///
    /// Which order that is cannot be known here, so the contract allows
    /// both; `encode` is the same with the order chosen by the caller.
    pub fn serialize(self, buffer: &mut Vec<u8>)
        ensures
            final(buffer)@ == old(buffer)@ + self.wire(ByteOrder::BigEndian) || final(buffer)@
                == old(buffer)@ + self.wire(ByteOrder::LittleEndian),
    {
        let bytes: [u8; 8] = self.encode(ByteOrder::native());
        buffer.extend_from_slice(bytes.as_slice());
    }

    /// Reads back what `serialize` wrote on this machine: port and address
    /// are taken in the byte order of the running machine.
    pub fn deserialize(bytes: &[u8; 8]) -> (reply: Option<Sock4Reply>)
        ensures
            reply == Sock4Reply::parse(bytes@, ByteOrder::BigEndian) || reply == Sock4Reply::parse(
                bytes@,
                ByteOrder::LittleEndian,
            ),
    {
        Sock4Reply::decode(bytes, ByteOrder::native())
    }
}

/// A reply always takes eight bytes on the wire.
pub proof fn lemma_reply_wire_len(reply: Sock4Reply, order: ByteOrder)
    ensures
        reply.wire(order).len() == REPLY_LEN,
{
}

/// Encoding a reply and decoding the eight bytes again, in the same byte
/// order, gives back the reply: version, code, port and address.
pub proof fn lemma_reply_round_trip(reply: Sock4Reply, order: ByteOrder)
    ensures
        Sock4Reply::parse(reply.wire(order), order) == Some(reply),
{
    lemma_u16_value_round_trip(reply.dst_port, order);
    lemma_u32_value_round_trip(reply.dst_ip, order);
}

/// Eight bytes that decode to a reply are the bytes that the reply encodes
/// to: no two byte strings stand for the same reply.
pub proof fn lemma_reply_wire_unique(bytes: Seq<u8>, order: ByteOrder)
    requires
        Sock4Reply::parse(bytes, order) is Some,
    ensures
        Sock4Reply::parse(bytes, order).unwrap().wire(order) == bytes,
{
    lemma_u16_bytes_round_trip(bytes.subrange(2, 4), order);
    lemma_u32_bytes_round_trip(bytes.subrange(4, 8), order);
}

/// The eight bytes of the granted reply: a zero version, the code for
/// "granted", and six zero bytes.
pub open spec fn granted_reply_bytes() -> Seq<u8> {
    seq![0u8, 0x5Au8, 0u8, 0u8, 0u8, 0u8, 0u8, 0u8]
}

/// The granted reply is the same eight bytes in either byte order, and in
/// either byte order those bytes are read back as the granted reply.
pub proof fn lemma_granted_wire(order: ByteOrder)
    ensures
        Sock4Reply::granted().wire(order) == granted_reply_bytes(),
        Sock4Reply::parse(granted_reply_bytes(), order) == Some(Sock4Reply::granted()),
{
    lemma_reply_round_trip(Sock4Reply::granted(), order);
}

} // verus!
