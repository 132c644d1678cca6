//! The connection request that a client opens with.
//!
//! ```text
//!             +----+----+----+----+----+----+----+----+----+----+....+----+
//!             | VN | CD | DSTPORT |      DSTIP        | USERID       |NULL|
//!             +----+----+----+----+----+----+----+----+----+----+....+----+
//! # of bytes:    1    1      2              4           variable       1
//! ```

use crate::byte_order::{
    lemma_u16_bytes_round_trip, u16_bytes, u16_from_bytes, u16_of_bytes, u16_to_bytes, ByteOrder,
};
use crate::error::Socks4Error;
use crate::stream::{read_len, ByteStream};
use vstd::prelude::*;

verus! {

/// The protocol version that every request is recorded with.
pub const PROTOCOL_VERSION: u8 = 4;

/// Command code of a request to connect.
pub const COMMAND_CONNECT: u8 = 1;

/// Command code of a request to bind. It is decoded like any other; only
/// connect is served.
pub const COMMAND_BIND: u8 = 2;

/// Length of the fixed fields that open a request.
pub const REQUEST_FIXED_LEN: usize = 8;

/// The most that is taken off the stream for the user identifier.
pub const USERID_LIMIT: usize = 255;

/// What a request holds, as plain values.
pub struct RequestView {
    /// Protocol version.
    pub version_number: u8,
    /// Command code, as it arrived.
    pub command: u8,
    /// Destination port.
    pub dst_port: u16,
    /// Destination address: four octets.
    pub dst_ip: Seq<u8>,
    /// User identifier, where one was parsed.
    pub userid: Option<Seq<char>>,
}

impl RequestView {
    /// The eight bytes of the fixed fields: version, command, the port with
    /// its high byte first, and the four octets of the address.
    pub open spec fn wire(self) -> Seq<u8> {
        seq![self.version_number, self.command] + u16_bytes(self.dst_port, ByteOrder::BigEndian)
            + self.dst_ip
    }
}

/// One connection request of a client.
///
/// A request is made by decoding, once per accepted connection. Its version
/// is always 4, whatever the client sent as the first byte.
#[derive(Debug, PartialEq, Eq)]
pub struct Sock4Request {
    version_number: u8,
    command: u8,
    dst_port: u16,
    dst_ip: [u8; 4],
    userid: Option<String>,
}

impl View for Sock4Request {
    type V = RequestView;

    closed spec fn view(&self) -> RequestView {
        RequestView {
            version_number: self.version_number,
            command: self.command,
            dst_port: self.dst_port,
            dst_ip: self.dst_ip@,
            userid: match self.userid {
                Some(name) => Some(name@),
                None => None,
            },
        }
    }
}

impl Sock4Request {
    #[verifier::type_invariant]
    spec fn version_is_four(self) -> bool {
        self.version_number == PROTOCOL_VERSION
    }

    /// The request that a byte stream opens with, if it holds the eight
    /// bytes of the fixed fields.
    ///
    /// The first byte is not looked at: the version is 4 in any case. What
    /// follows the fixed fields is the user identifier, which is not parsed.
    pub open spec fn parse(bytes: Seq<u8>) -> Option<RequestView> {
        if bytes.len() < REQUEST_FIXED_LEN {
            None
        } else {
            Some(
                RequestView {
                    version_number: PROTOCOL_VERSION,
                    command: bytes[1],
                    dst_port: u16_of_bytes(bytes.subrange(2, 4), ByteOrder::BigEndian),
                    dst_ip: bytes.subrange(4, 8),
                    userid: None,
                },
            )
        }
    }

    /// How many bytes decoding takes off a stream that holds `available`
    /// bytes, eight of them at least: the fixed fields, and of the rest what
    /// one read of the user identifier field takes.
    pub open spec fn consumed(available: nat) -> nat {
        REQUEST_FIXED_LEN as nat + read_len((available - REQUEST_FIXED_LEN) as nat, USERID_LIMIT as nat)
    }

    /// Decodes the request at the front of `stream`.
    ///
    /// Version, command, port and address are read in turn, each in full or
    /// not at all. Then one read drains the user identifier field, as far as
    /// it is there and up to 255 bytes; those bytes are dropped unparsed, and
    /// the request holds no user identifier.
    ///
    /// A stream that ends within the fixed fields gives a framing error and
    /// is left empty: the connection is of no more use, and nothing remains
    /// that a later call could take for a request.
    pub fn deserialize(stream: &mut ByteStream) -> (request: Result<Sock4Request, Socks4Error>)
        ensures
            match request {
                Ok(decoded) => {
                    &&& Sock4Request::parse(old(stream)@) == Some(decoded@)
                    &&& final(stream)@ == old(stream)@.skip(
                        Sock4Request::consumed(old(stream)@.len()) as int,
                    )
                },
                Err(error) => {
                    &&& old(stream)@.len() < REQUEST_FIXED_LEN
                    &&& error == Socks4Error::Framing
                    &&& final(stream)@ == Seq::<u8>::empty()
                },
            },
    {
        let ghost input = stream@;
        let _version: Vec<u8> = stream.read_exact(1)?;
        let command: Vec<u8> = stream.read_exact(1)?;
        let dst_port: Vec<u8> = stream.read_exact(2)?;
        let dst_ip: Vec<u8> = stream.read_exact(4)?;
        let _userid: Vec<u8> = stream.read(USERID_LIMIT);

        let port: [u8; 2] = [dst_port[0], dst_port[1]];
        let ip: [u8; 4] = [dst_ip[0], dst_ip[1], dst_ip[2], dst_ip[3]];
        assert(port@ =~= input.subrange(2, 4));
        assert(ip@ =~= input.subrange(4, 8));
        Ok(
            Sock4Request {
                version_number: PROTOCOL_VERSION,
                command: command[0],
                dst_port: u16_from_bytes(port, ByteOrder::BigEndian),
                dst_ip: ip,
                userid: None,
            },
        )
    }

    /// Lays the fixed fields out again as they stand on the wire.
    pub fn fixed_fields(&self) -> (bytes: [u8; 8])
        ensures
            bytes@ == self@.wire(),
    {
        let port: [u8; 2] = u16_to_bytes(self.dst_port, ByteOrder::BigEndian);
        [
            self.version_number,
            self.command,
            port[0],
            port[1],
            self.dst_ip[0],
            self.dst_ip[1],
            self.dst_ip[2],
            self.dst_ip[3],
        ]
    }

    /// Protocol version of the request: always 4.
    pub fn version_number(&self) -> (version: u8)
        ensures
            version == self@.version_number,
            version == PROTOCOL_VERSION,
    {
        proof {
            use_type_invariant(self);
        }
        self.version_number
    }

    /// Command code, as the client sent it.
    pub fn command(&self) -> (command: u8)
        ensures
            command == self@.command,
    {
        self.command
    }

    /// Destination port.
    pub fn dst_port(&self) -> (port: u16)
        ensures
            port == self@.dst_port,
    {
        self.dst_port
    }

    /// Destination address, as its four octets.
    pub fn dst_ip(&self) -> (octets: [u8; 4])
        ensures
            octets@ == self@.dst_ip,
    {
        self.dst_ip
    }

    /// User identifier, where the request holds one.
    pub fn userid(&self) -> (userid: Option<&String>)
        ensures
            match userid {
                Some(name) => self@.userid == Some(name@),
                None => self@.userid is None,
            },
    {
        self.userid.as_ref()
    }
}

/// Decoding a request and laying its fixed fields out again gives back the
/// first eight bytes of the input, but for the version byte, which is 4:
/// command, port and address come through bit for bit.
pub proof fn lemma_request_fixed_fields_preserved(bytes: Seq<u8>)
    requires
        bytes.len() >= REQUEST_FIXED_LEN,
    ensures
        Sock4Request::parse(bytes) is Some,
        Sock4Request::parse(bytes).unwrap().wire() == bytes.subrange(0, 8).update(
            0,
            PROTOCOL_VERSION,
        ),
{
    lemma_u16_bytes_round_trip(bytes.subrange(2, 4), ByteOrder::BigEndian);
}

/// Fewer than eight bytes hold no request, and neither does the empty
/// stream that a failed decoding leaves behind.
pub proof fn lemma_short_request_rejected(bytes: Seq<u8>)
    requires
        bytes.len() < REQUEST_FIXED_LEN,
    ensures
        Sock4Request::parse(bytes) is None,
        Sock4Request::parse(Seq::<u8>::empty()) is None,
{
}

} // verus!
