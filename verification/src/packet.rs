//! The DHCP packet: a fixed-size record and its wire form.
//!
//! Layout, in bytes (RFC 951 and RFC 2131):
//!
//! | offset | size | field                         |
//! |-------:|-----:|-------------------------------|
//! |      0 |    1 | opcode                        |
//! |      1 |    1 | hardware type                 |
//! |      2 |    1 | hardware address length       |
//! |      3 |    1 | hop count                     |
//! |      4 |    4 | transaction id, big-endian    |
//! |      8 |    2 | seconds elapsed               |
//! |     10 |    2 | flags                         |
//! |     12 |    4 | client address                |
//! |     16 |    4 | assigned ("your") address     |
//! |     20 |    4 | server address                |
//! |     24 |    4 | gateway address               |
//! |     28 |    6 | client hardware address       |
//! |     34 |   10 | hardware address padding      |
//! |     44 |   64 | server host name, NUL-padded  |
//! |    108 |  128 | boot file name, NUL-padded    |
//! |    236 |    4 | vendor magic cookie           |
//! |    240 |  312 | options                       |
//!
//! The fields are written one after the other with no gaps, so a packet
//! and its 552 wire bytes determine each other.

use crate::error::RejectReason;
use crate::mac::mac_octets;
use crate::options::{VendorData, VendorDataView};
use crate::scan::{options_view, parse_options, parsed_options};
use crate::wire::{
    append_bytes, array_of, be_u32, lemma_array_of, padded_array, read_array, u32_from_be,
    zero_padded, zeros,
};
use mac_address::MacAddress;
use std::collections::HashMap;
use vstd::prelude::*;
use vstd::utf8::encode_utf8;

verus! {

/// The cookie that marks the options region as DHCP options (RFC 2131).
pub const VENDOR_MAGIC: [u8; 4] = [99, 130, 83, 99];

/// Size in bytes of a packet on the wire.
pub const PACKET_LEN: usize = 552;

/// Size in bytes of the server host name field.
pub const HOST_NAME_LEN: usize = 64;

/// Size in bytes of the boot file name field.
pub const BOOT_FILE_LEN: usize = 128;

/// A DHCP packet, field by field. Addresses are kept as raw octets and
/// multi-byte integers as their big-endian bytes, so that every byte of a
/// received packet is carried through unchanged.
#[derive(Clone, Copy, Debug, PartialEq, Eq)]
pub struct DHCPPacket {
    pub opcode: u8,
    pub _hwtype: u8,
    pub _hw_addr_len: u8,
    pub _hop_count: u8,
    pub _txn_id: [u8; 4],
    pub _num_secs: [u8; 2],
    pub _flags: [u8; 2],
    pub _client_ip: [u8; 4],
    pub your_ip: [u8; 4],
    pub _server_ip: [u8; 4],
    pub _gateway_ip: [u8; 4],
    pub _client_mac: [u8; 6],
    pub _client_mac_remainder: [u8; 10],
    pub _server_host_name: [u8; 64],
    pub _boot_file_name: [u8; 128],
    pub _vendor_magic: [u8; 4],
    pub _vendor_info: [u8; 312],
}

impl DHCPPacket {
    /// The wire form of the packet: its fields in declaration order.
    pub open spec fn wire(&self) -> Seq<u8> {
        seq![self.opcode, self._hwtype, self._hw_addr_len, self._hop_count] + self._txn_id@
            + self._num_secs@ + self._flags@ + self._client_ip@ + self.your_ip@ + self._server_ip@
            + self._gateway_ip@ + self._client_mac@ + self._client_mac_remainder@
            + self._server_host_name@ + self._boot_file_name@ + self._vendor_magic@
            + self._vendor_info@
    }

    /// The packet that the first `PACKET_LEN` bytes of `b` denote.
    pub open spec fn from_wire(b: Seq<u8>) -> DHCPPacket
        recommends
            b.len() >= PACKET_LEN,
    {
        DHCPPacket {
            opcode: b[0],
            _hwtype: b[1],
            _hw_addr_len: b[2],
            _hop_count: b[3],
            _txn_id: array_of::<4>(b.subrange(4, 8)),
            _num_secs: array_of::<2>(b.subrange(8, 10)),
            _flags: array_of::<2>(b.subrange(10, 12)),
            _client_ip: array_of::<4>(b.subrange(12, 16)),
            your_ip: array_of::<4>(b.subrange(16, 20)),
            _server_ip: array_of::<4>(b.subrange(20, 24)),
            _gateway_ip: array_of::<4>(b.subrange(24, 28)),
            _client_mac: array_of::<6>(b.subrange(28, 34)),
            _client_mac_remainder: array_of::<10>(b.subrange(34, 44)),
            _server_host_name: array_of::<64>(b.subrange(44, 108)),
            _boot_file_name: array_of::<128>(b.subrange(108, 236)),
            _vendor_magic: array_of::<4>(b.subrange(236, 240)),
            _vendor_info: array_of::<312>(b.subrange(240, 552)),
        }
    }

    /// What decoding `b` gives: the packet that its first `PACKET_LEN`
    /// bytes denote, or `TruncatedPacket` where there are fewer.
    pub open spec fn decoded(b: Seq<u8>) -> Result<DHCPPacket, RejectReason> {
        if b.len() < PACKET_LEN {
            Err(RejectReason::TruncatedPacket)
        } else {
            Ok(Self::from_wire(b))
        }
    }

    /// The packet with every byte zero.
    pub open spec fn zeroed() -> DHCPPacket {
        Self::from_wire(zeros(PACKET_LEN as nat))
    }

    /// The options that the packet carries, by code.
    pub open spec fn options(&self) -> Map<u8, VendorDataView> {
        parsed_options(self._vendor_info@)
    }

    /// The wire form has the fixed packet size, and each field stands at
    /// its offset in it.
    pub proof fn lemma_wire_layout(&self)
        ensures
            self.wire().len() == PACKET_LEN,
            self.wire()[0] == self.opcode,
            self.wire()[1] == self._hwtype,
            self.wire()[2] == self._hw_addr_len,
            self.wire()[3] == self._hop_count,
            self.wire().subrange(4, 8) == self._txn_id@,
            self.wire().subrange(8, 10) == self._num_secs@,
            self.wire().subrange(10, 12) == self._flags@,
            self.wire().subrange(12, 16) == self._client_ip@,
            self.wire().subrange(16, 20) == self.your_ip@,
            self.wire().subrange(20, 24) == self._server_ip@,
            self.wire().subrange(24, 28) == self._gateway_ip@,
            self.wire().subrange(28, 34) == self._client_mac@,
            self.wire().subrange(34, 44) == self._client_mac_remainder@,
            self.wire().subrange(44, 108) == self._server_host_name@,
            self.wire().subrange(108, 236) == self._boot_file_name@,
            self.wire().subrange(236, 240) == self._vendor_magic@,
            self.wire().subrange(240, 552) == self._vendor_info@,
    {
        let w = self.wire();
        assert(w.subrange(4, 8) =~= self._txn_id@);
        assert(w.subrange(8, 10) =~= self._num_secs@);
        assert(w.subrange(10, 12) =~= self._flags@);
        assert(w.subrange(12, 16) =~= self._client_ip@);
        assert(w.subrange(16, 20) =~= self.your_ip@);
        assert(w.subrange(20, 24) =~= self._server_ip@);
        assert(w.subrange(24, 28) =~= self._gateway_ip@);
        assert(w.subrange(28, 34) =~= self._client_mac@);
        assert(w.subrange(34, 44) =~= self._client_mac_remainder@);
        assert(w.subrange(44, 108) =~= self._server_host_name@);
        assert(w.subrange(108, 236) =~= self._boot_file_name@);
        assert(w.subrange(236, 240) =~= self._vendor_magic@);
        assert(w.subrange(240, 552) =~= self._vendor_info@);
    }

    /// Each array field of the packet that a buffer denotes holds the
    /// bytes of the buffer at the field's offset, and is the only array
    /// that does.
    proof fn lemma_fields_of(b: Seq<u8>)
        requires
            b.len() >= PACKET_LEN,
        ensures
            Self::from_wire(b)._txn_id@ == b.subrange(4, 8),
            Self::from_wire(b)._num_secs@ == b.subrange(8, 10),
            Self::from_wire(b)._flags@ == b.subrange(10, 12),
            Self::from_wire(b)._client_ip@ == b.subrange(12, 16),
            Self::from_wire(b).your_ip@ == b.subrange(16, 20),
            Self::from_wire(b)._server_ip@ == b.subrange(20, 24),
            Self::from_wire(b)._gateway_ip@ == b.subrange(24, 28),
            Self::from_wire(b)._client_mac@ == b.subrange(28, 34),
            Self::from_wire(b)._client_mac_remainder@ == b.subrange(34, 44),
            Self::from_wire(b)._server_host_name@ == b.subrange(44, 108),
            Self::from_wire(b)._boot_file_name@ == b.subrange(108, 236),
            Self::from_wire(b)._vendor_magic@ == b.subrange(236, 240),
            Self::from_wire(b)._vendor_info@ == b.subrange(240, 552),
            forall|a: [u8; 4]| a@ == b.subrange(4, 8) ==> a == Self::from_wire(b)._txn_id,
            forall|a: [u8; 2]| a@ == b.subrange(8, 10) ==> a == Self::from_wire(b)._num_secs,
            forall|a: [u8; 2]| a@ == b.subrange(10, 12) ==> a == Self::from_wire(b)._flags,
            forall|a: [u8; 4]| a@ == b.subrange(12, 16) ==> a == Self::from_wire(b)._client_ip,
            forall|a: [u8; 4]| a@ == b.subrange(16, 20) ==> a == Self::from_wire(b).your_ip,
            forall|a: [u8; 4]| a@ == b.subrange(20, 24) ==> a == Self::from_wire(b)._server_ip,
            forall|a: [u8; 4]| a@ == b.subrange(24, 28) ==> a == Self::from_wire(b)._gateway_ip,
            forall|a: [u8; 6]| a@ == b.subrange(28, 34) ==> a == Self::from_wire(b)._client_mac,
            forall|a: [u8; 10]|
                a@ == b.subrange(34, 44) ==> a == Self::from_wire(b)._client_mac_remainder,
            forall|a: [u8; 64]|
                a@ == b.subrange(44, 108) ==> a == Self::from_wire(b)._server_host_name,
            forall|a: [u8; 128]|
                a@ == b.subrange(108, 236) ==> a == Self::from_wire(b)._boot_file_name,
            forall|a: [u8; 4]| a@ == b.subrange(236, 240) ==> a == Self::from_wire(b)._vendor_magic,
            forall|a: [u8; 312]|
                a@ == b.subrange(240, 552) ==> a == Self::from_wire(b)._vendor_info,
    {
        lemma_array_of::<4>(b.subrange(4, 8));
        lemma_array_of::<2>(b.subrange(8, 10));
        lemma_array_of::<2>(b.subrange(10, 12));
        lemma_array_of::<4>(b.subrange(12, 16));
        lemma_array_of::<4>(b.subrange(16, 20));
        lemma_array_of::<4>(b.subrange(20, 24));
        lemma_array_of::<4>(b.subrange(24, 28));
        lemma_array_of::<6>(b.subrange(28, 34));
        lemma_array_of::<10>(b.subrange(34, 44));
        lemma_array_of::<64>(b.subrange(44, 108));
        lemma_array_of::<128>(b.subrange(108, 236));
        lemma_array_of::<4>(b.subrange(236, 240));
        lemma_array_of::<312>(b.subrange(240, 552));
    }

    /// Decoding the wire form of a packet gives the packet back.
    pub proof fn lemma_decode_encode(&self)
        ensures
            Self::decoded(self.wire()) == Ok::<DHCPPacket, RejectReason>(*self),
    {
        self.lemma_wire_layout();
        Self::lemma_fields_of(self.wire());
    }

    /// Encoding what a buffer of exactly `PACKET_LEN` bytes decodes to
    /// gives the buffer back, byte for byte.
    pub proof fn lemma_encode_decode(b: Seq<u8>)
        requires
            b.len() == PACKET_LEN,
        ensures
            Self::decoded(b) is Ok,
            Self::decoded(b)->Ok_0.wire() == b,
    {
        Self::lemma_from_wire(b);
        let p = Self::from_wire(b);
        assert(p.wire() =~= b.subrange(0, PACKET_LEN as int));
        assert(b.subrange(0, PACKET_LEN as int) =~= b);
    }

    /// The wire form of the packet that a buffer denotes is the buffer's
    /// first `PACKET_LEN` bytes.
    pub proof fn lemma_from_wire(b: Seq<u8>)
        requires
            b.len() >= PACKET_LEN,
        ensures
            Self::from_wire(b).wire() == b.subrange(0, PACKET_LEN as int),
    {
        Self::lemma_fields_of(b);
        assert(Self::from_wire(b).wire() =~= b.subrange(0, PACKET_LEN as int));
    }

    /// Every field of the zero packet is zero.
    pub proof fn lemma_zeroed()
        ensures
            Self::zeroed().wire() == zeros(PACKET_LEN as nat),
            Self::zeroed().opcode == 0,
            Self::zeroed()._hwtype == 0,
            Self::zeroed()._hw_addr_len == 0,
            Self::zeroed()._hop_count == 0,
            Self::zeroed()._txn_id@ == zeros(4),
            Self::zeroed()._num_secs@ == zeros(2),
            Self::zeroed()._flags@ == zeros(2),
            Self::zeroed()._client_ip@ == zeros(4),
            Self::zeroed().your_ip@ == zeros(4),
            Self::zeroed()._server_ip@ == zeros(4),
            Self::zeroed()._gateway_ip@ == zeros(4),
            Self::zeroed()._client_mac@ == zeros(6),
            Self::zeroed()._client_mac_remainder@ == zeros(10),
            Self::zeroed()._server_host_name@ == zeros(64),
            Self::zeroed()._boot_file_name@ == zeros(128),
            Self::zeroed()._vendor_magic@ == zeros(4),
            Self::zeroed()._vendor_info@ == zeros(312),
    {
        let z = zeros(PACKET_LEN as nat);
        let p = Self::zeroed();
        Self::lemma_from_wire(z);
        assert(z.subrange(0, PACKET_LEN as int) =~= z);
        p.lemma_wire_layout();
        assert(z.subrange(4, 8) =~= zeros(4));
        assert(z.subrange(8, 10) =~= zeros(2));
        assert(z.subrange(10, 12) =~= zeros(2));
        assert(z.subrange(12, 16) =~= zeros(4));
        assert(z.subrange(16, 20) =~= zeros(4));
        assert(z.subrange(20, 24) =~= zeros(4));
        assert(z.subrange(24, 28) =~= zeros(4));
        assert(z.subrange(28, 34) =~= zeros(6));
        assert(z.subrange(34, 44) =~= zeros(10));
        assert(z.subrange(44, 108) =~= zeros(64));
        assert(z.subrange(108, 236) =~= zeros(128));
        assert(z.subrange(236, 240) =~= zeros(4));
        assert(z.subrange(240, 552) =~= zeros(312));
    }

    /// A packet with every byte zero.
    pub fn new() -> (p: DHCPPacket)
        ensures
            p == Self::zeroed(),
            p.wire() == zeros(PACKET_LEN as nat),
            p.opcode == 0,
    {
        let p = DHCPPacket {
            opcode: 0,
            _hwtype: 0,
            _hw_addr_len: 0,
            _hop_count: 0,
            _txn_id: [0u8; 4],
            _num_secs: [0u8; 2],
            _flags: [0u8; 2],
            _client_ip: [0u8; 4],
            your_ip: [0u8; 4],
            _server_ip: [0u8; 4],
            _gateway_ip: [0u8; 4],
            _client_mac: [0u8; 6],
            _client_mac_remainder: [0u8; 10],
            _server_host_name: [0u8; 64],
            _boot_file_name: [0u8; 128],
            _vendor_magic: [0u8; 4],
            _vendor_info: [0u8; 312],
        };
        proof {
            let z = zeros(PACKET_LEN as nat);
            assert(p.wire() =~= z);
            p.lemma_decode_encode();
        }
        p
    }

    /// Decodes a packet from the first `PACKET_LEN` bytes of `bytes`.
    ///
    /// Fails with `TruncatedPacket` exactly when `bytes` is shorter than
    /// that. No byte is interpreted: addresses and reserved fields are
    /// taken as they come.
    pub fn decode(bytes: &[u8]) -> (r: Result<DHCPPacket, RejectReason>)
        ensures
            r == Self::decoded(bytes@),
    {
        if bytes.len() < PACKET_LEN {
            return Err(RejectReason::TruncatedPacket);
        }
        let p = DHCPPacket {
            opcode: bytes[0],
            _hwtype: bytes[1],
            _hw_addr_len: bytes[2],
            _hop_count: bytes[3],
            _txn_id: read_array::<4>(bytes, 4),
            _num_secs: read_array::<2>(bytes, 8),
            _flags: read_array::<2>(bytes, 10),
            _client_ip: read_array::<4>(bytes, 12),
            your_ip: read_array::<4>(bytes, 16),
            _server_ip: read_array::<4>(bytes, 20),
            _gateway_ip: read_array::<4>(bytes, 24),
            _client_mac: read_array::<6>(bytes, 28),
            _client_mac_remainder: read_array::<10>(bytes, 34),
            _server_host_name: read_array::<64>(bytes, 44),
            _boot_file_name: read_array::<128>(bytes, 108),
            _vendor_magic: read_array::<4>(bytes, 236),
            _vendor_info: read_array::<312>(bytes, 240),
        };
        proof {
            Self::lemma_fields_of(bytes@);
        }
        Ok(p)
    }

    /// Encodes the packet: `PACKET_LEN` bytes, the fields in declaration
    /// order.
    pub fn encode(&self) -> (bytes: Vec<u8>)
        ensures
            bytes@ == self.wire(),
            bytes@.len() == PACKET_LEN,
    {
        let mut bytes: Vec<u8> = Vec::with_capacity(PACKET_LEN);
        bytes.push(self.opcode);
        bytes.push(self._hwtype);
        bytes.push(self._hw_addr_len);
        bytes.push(self._hop_count);
        assert(bytes@ =~= seq![self.opcode, self._hwtype, self._hw_addr_len, self._hop_count]);
        append_bytes(&mut bytes, self._txn_id.as_slice());
        append_bytes(&mut bytes, self._num_secs.as_slice());
        append_bytes(&mut bytes, self._flags.as_slice());
        append_bytes(&mut bytes, self._client_ip.as_slice());
        append_bytes(&mut bytes, self.your_ip.as_slice());
        append_bytes(&mut bytes, self._server_ip.as_slice());
        append_bytes(&mut bytes, self._gateway_ip.as_slice());
        append_bytes(&mut bytes, self._client_mac.as_slice());
        append_bytes(&mut bytes, self._client_mac_remainder.as_slice());
        append_bytes(&mut bytes, self._server_host_name.as_slice());
        append_bytes(&mut bytes, self._boot_file_name.as_slice());
        append_bytes(&mut bytes, self._vendor_magic.as_slice());
        append_bytes(&mut bytes, self._vendor_info.as_slice());
        proof {
            self.lemma_wire_layout();
        }
        bytes
    }

    /// Sets the server host name field to `name`, NUL-padded.
    ///
    /// Fails with `FieldTooLong`, and leaves the packet as it is, exactly
    /// when `name` has more than 64 bytes.
    pub fn set_server_host_name(&mut self, name: &str) -> (r: Result<(), RejectReason>)
        ensures
            encode_utf8(name@).len() > HOST_NAME_LEN ==> r == Err::<(), RejectReason>(
                RejectReason::FieldTooLong,
            ) && *final(self) == *old(self),
            encode_utf8(name@).len() <= HOST_NAME_LEN ==> r == Ok::<(), RejectReason>(())
                && *final(self) == (DHCPPacket {
                _server_host_name: array_of::<64>(
                    zero_padded(encode_utf8(name@), HOST_NAME_LEN as nat),
                ),
                ..*old(self)
            }),
    {
        let bytes: &[u8] = name.as_bytes();
        if bytes.len() > HOST_NAME_LEN {
            return Err(RejectReason::FieldTooLong);
        }
        self._server_host_name = padded_array::<64>(bytes);
        proof {
            lemma_array_of::<64>(zero_padded(encode_utf8(name@), HOST_NAME_LEN as nat));
        }
        Ok(())
    }

    /// Sets the boot file name field to `name`, NUL-padded.
    ///
    /// Fails with `FieldTooLong`, and leaves the packet as it is, exactly
    /// when `name` has more than 128 bytes.
    pub fn set_boot_file_name(&mut self, name: &str) -> (r: Result<(), RejectReason>)
        ensures
            encode_utf8(name@).len() > BOOT_FILE_LEN ==> r == Err::<(), RejectReason>(
                RejectReason::FieldTooLong,
            ) && *final(self) == *old(self),
            encode_utf8(name@).len() <= BOOT_FILE_LEN ==> r == Ok::<(), RejectReason>(())
                && *final(self) == (DHCPPacket {
                _boot_file_name: array_of::<128>(
                    zero_padded(encode_utf8(name@), BOOT_FILE_LEN as nat),
                ),
                ..*old(self)
            }),
    {
        let bytes: &[u8] = name.as_bytes();
        if bytes.len() > BOOT_FILE_LEN {
            return Err(RejectReason::FieldTooLong);
        }
        self._boot_file_name = padded_array::<128>(bytes);
        proof {
            lemma_array_of::<128>(zero_padded(encode_utf8(name@), BOOT_FILE_LEN as nat));
        }
        Ok(())
    }

    /// The client's hardware address.
    pub fn client_mac(&self) -> (mac: MacAddress)
        ensures
            mac_octets(mac) == self._client_mac@,
    {
        MacAddress::new(self._client_mac)
    }

    /// The vendor magic cookie of the packet.
    pub fn vendor_magic(&self) -> (magic: [u8; 4])
        ensures
            magic == self._vendor_magic,
    {
        self._vendor_magic
    }

    /// The transaction id, read big-endian.
    pub fn txn_id(&self) -> (id: u32)
        ensures
            id == be_u32(self._txn_id@),
    {
        u32_from_be(&self._txn_id)
    }

    /// Parses the options region into the map from option code to option.
    ///
    /// Always succeeds: malformed entries degrade as [`parse_options`]
    /// describes.
    pub fn parse_vendor_data(&self) -> (r: Result<HashMap<u8, VendorData>, RejectReason>)
        ensures
            r is Ok,
            options_view(r->Ok_0@) == self.options(),
    {
        Ok(parse_options(self._vendor_info.as_slice()))
    }
}

} // verus!
