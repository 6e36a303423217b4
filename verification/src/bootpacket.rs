//! The plain BOOTP packet (RFC 951).
//!
//! It has the fields of a DHCP packet up to the vendor magic cookie, and a
//! vendor area of 60 bytes behind the cookie where DHCP has its options
//! region of 312: 300 bytes in all. The vendor area is read with the same
//! scanner as the DHCP options, and gives its entries in the order in which
//! they stand.

use crate::config::MachineConfig;
use crate::error::RejectReason;
use crate::mac::mac_octets;
use crate::options::{splice, views, VendorData, VendorDataView};
use crate::scan::{scan, scan_options};
use crate::wire::{append_bytes, array_of, lemma_array_of, read_array, zeros};
use mac_address::MacAddress;
use vstd::prelude::*;

verus! {

/// Size in bytes of the vendor area of a BOOTP packet.
pub const VENDOR_AREA_LEN: usize = 60;

/// Size in bytes of a BOOTP packet on the wire.
pub const BOOT_PACKET_LEN: usize = 300;

/// A BOOTP packet, field by field.
#[derive(Clone, Copy, Debug, PartialEq, Eq)]
pub struct BootPacket {
    pub opcode: u8,
    pub _hwtype: u8,
    pub _hw_addr_len: u8,
    pub _hop_count: u8,
    pub _txn_id: [u8; 4],
    pub _num_secs: [u8; 2],
    pub _unused: [u8; 2],
    pub _client_ip: [u8; 4],
    pub your_ip: [u8; 4],
    pub _server_ip: [u8; 4],
    pub _gateway_ip: [u8; 4],
    pub _client_mac: [u8; 6],
    pub _client_mac_remainder: [u8; 10],
    pub _server_host_name: [u8; 64],
    pub _boot_file_name: [u8; 128],
    pub _vendor_magic: [u8; 4],
    pub _vendor_info: [u8; 60],
}

/// Builds a vendor data entry for the vendor area of a BOOTP packet.
///
/// Fails with `ValueTooLong` exactly when `data` is longer than the vendor
/// area, 60 bytes.
pub fn new_vendor_data(code: u8, data: &Vec<u8>) -> (r: Result<VendorData, RejectReason>)
    ensures
        data@.len() > VENDOR_AREA_LEN ==> r == Err::<VendorData, RejectReason>(
            RejectReason::ValueTooLong,
        ),
        data@.len() <= VENDOR_AREA_LEN ==> r is Ok && r->Ok_0@ == (VendorDataView {
            code,
            len: data@.len() as u8,
            data: data@,
        }),
{
    if data.len() > VENDOR_AREA_LEN {
        Err(RejectReason::ValueTooLong)
    } else {
        VendorData::from_raw(code, data)
    }
}

/// A BOOTP packet with every byte zero.
pub fn alloc_boot_packet() -> (p: BootPacket)
    ensures
        p == BootPacket::zeroed(),
        p.wire() == zeros(BOOT_PACKET_LEN as nat),
{
    let p = BootPacket {
        opcode: 0,
        _hwtype: 0,
        _hw_addr_len: 0,
        _hop_count: 0,
        _txn_id: [0u8; 4],
        _num_secs: [0u8; 2],
        _unused: [0u8; 2],
        _client_ip: [0u8; 4],
        your_ip: [0u8; 4],
        _server_ip: [0u8; 4],
        _gateway_ip: [0u8; 4],
        _client_mac: [0u8; 6],
        _client_mac_remainder: [0u8; 10],
        _server_host_name: [0u8; 64],
        _boot_file_name: [0u8; 128],
        _vendor_magic: [0u8; 4],
        _vendor_info: [0u8; 60],
    };
    proof {
        assert(p.wire() =~= zeros(BOOT_PACKET_LEN as nat));
        p.lemma_decode_encode();
    }
    p
}

impl BootPacket {
    /// The wire form of the packet: its fields in declaration order.
    pub open spec fn wire(&self) -> Seq<u8> {
        seq![self.opcode, self._hwtype, self._hw_addr_len, self._hop_count] + self._txn_id@
            + self._num_secs@ + self._unused@ + self._client_ip@ + self.your_ip@ + self._server_ip@
            + self._gateway_ip@ + self._client_mac@ + self._client_mac_remainder@
            + self._server_host_name@ + self._boot_file_name@ + self._vendor_magic@
            + self._vendor_info@
    }

    /// The packet that the first `BOOT_PACKET_LEN` bytes of `b` denote.
    pub open spec fn from_wire(b: Seq<u8>) -> BootPacket
        recommends
            b.len() >= BOOT_PACKET_LEN,
    {
        BootPacket {
            opcode: b[0],
            _hwtype: b[1],
            _hw_addr_len: b[2],
            _hop_count: b[3],
            _txn_id: array_of::<4>(b.subrange(4, 8)),
            _num_secs: array_of::<2>(b.subrange(8, 10)),
            _unused: array_of::<2>(b.subrange(10, 12)),
            _client_ip: array_of::<4>(b.subrange(12, 16)),
            your_ip: array_of::<4>(b.subrange(16, 20)),
            _server_ip: array_of::<4>(b.subrange(20, 24)),
            _gateway_ip: array_of::<4>(b.subrange(24, 28)),
            _client_mac: array_of::<6>(b.subrange(28, 34)),
            _client_mac_remainder: array_of::<10>(b.subrange(34, 44)),
            _server_host_name: array_of::<64>(b.subrange(44, 108)),
            _boot_file_name: array_of::<128>(b.subrange(108, 236)),
            _vendor_magic: array_of::<4>(b.subrange(236, 240)),
            _vendor_info: array_of::<60>(b.subrange(240, 300)),
        }
    }

    /// What decoding `b` gives: the packet that its first `BOOT_PACKET_LEN`
    /// bytes denote, or `TruncatedPacket` where there are fewer.
    pub open spec fn decoded(b: Seq<u8>) -> Result<BootPacket, RejectReason> {
        if b.len() < BOOT_PACKET_LEN {
            Err(RejectReason::TruncatedPacket)
        } else {
            Ok(Self::from_wire(b))
        }
    }

    /// The packet with every byte zero.
    pub open spec fn zeroed() -> BootPacket {
        Self::from_wire(zeros(BOOT_PACKET_LEN as nat))
    }

    /// The wire form has the fixed packet size, and each field stands at
    /// its offset in it.
    pub proof fn lemma_wire_layout(&self)
        ensures
            self.wire().len() == BOOT_PACKET_LEN,
            self.wire()[0] == self.opcode,
            self.wire()[1] == self._hwtype,
            self.wire()[2] == self._hw_addr_len,
            self.wire()[3] == self._hop_count,
            self.wire().subrange(4, 8) == self._txn_id@,
            self.wire().subrange(8, 10) == self._num_secs@,
            self.wire().subrange(10, 12) == self._unused@,
            self.wire().subrange(12, 16) == self._client_ip@,
            self.wire().subrange(16, 20) == self.your_ip@,
            self.wire().subrange(20, 24) == self._server_ip@,
            self.wire().subrange(24, 28) == self._gateway_ip@,
            self.wire().subrange(28, 34) == self._client_mac@,
            self.wire().subrange(34, 44) == self._client_mac_remainder@,
            self.wire().subrange(44, 108) == self._server_host_name@,
            self.wire().subrange(108, 236) == self._boot_file_name@,
            self.wire().subrange(236, 240) == self._vendor_magic@,
            self.wire().subrange(240, 300) == self._vendor_info@,
    {
        let w = self.wire();
        assert(w.subrange(4, 8) =~= self._txn_id@);
        assert(w.subrange(8, 10) =~= self._num_secs@);
        assert(w.subrange(10, 12) =~= self._unused@);
        assert(w.subrange(12, 16) =~= self._client_ip@);
        assert(w.subrange(16, 20) =~= self.your_ip@);
        assert(w.subrange(20, 24) =~= self._server_ip@);
        assert(w.subrange(24, 28) =~= self._gateway_ip@);
        assert(w.subrange(28, 34) =~= self._client_mac@);
        assert(w.subrange(34, 44) =~= self._client_mac_remainder@);
        assert(w.subrange(44, 108) =~= self._server_host_name@);
        assert(w.subrange(108, 236) =~= self._boot_file_name@);
        assert(w.subrange(236, 240) =~= self._vendor_magic@);
        assert(w.subrange(240, 300) =~= self._vendor_info@);
    }

    /// The wire form of the packet that a buffer denotes is the buffer's
    /// first `BOOT_PACKET_LEN` bytes.
    pub proof fn lemma_from_wire(b: Seq<u8>)
        requires
            b.len() >= BOOT_PACKET_LEN,
        ensures
            Self::from_wire(b).wire() == b.subrange(0, BOOT_PACKET_LEN as int),
    {
        Self::lemma_fields_of(b);
        assert(Self::from_wire(b).wire() =~= b.subrange(0, BOOT_PACKET_LEN as int));
    }

    /// Each array field of the packet that a buffer denotes holds the
    /// bytes of the buffer at the field's offset, and is the only array
    /// that does.
    proof fn lemma_fields_of(b: Seq<u8>)
        requires
            b.len() >= BOOT_PACKET_LEN,
        ensures
            Self::from_wire(b)._txn_id@ == b.subrange(4, 8),
            Self::from_wire(b)._num_secs@ == b.subrange(8, 10),
            Self::from_wire(b)._unused@ == b.subrange(10, 12),
            Self::from_wire(b)._client_ip@ == b.subrange(12, 16),
            Self::from_wire(b).your_ip@ == b.subrange(16, 20),
            Self::from_wire(b)._server_ip@ == b.subrange(20, 24),
            Self::from_wire(b)._gateway_ip@ == b.subrange(24, 28),
            Self::from_wire(b)._client_mac@ == b.subrange(28, 34),
            Self::from_wire(b)._client_mac_remainder@ == b.subrange(34, 44),
            Self::from_wire(b)._server_host_name@ == b.subrange(44, 108),
            Self::from_wire(b)._boot_file_name@ == b.subrange(108, 236),
            Self::from_wire(b)._vendor_magic@ == b.subrange(236, 240),
            Self::from_wire(b)._vendor_info@ == b.subrange(240, 300),
            forall|a: [u8; 4]| a@ == b.subrange(4, 8) ==> a == Self::from_wire(b)._txn_id,
            forall|a: [u8; 2]| a@ == b.subrange(8, 10) ==> a == Self::from_wire(b)._num_secs,
            forall|a: [u8; 2]| a@ == b.subrange(10, 12) ==> a == Self::from_wire(b)._unused,
            forall|a: [u8; 4]| a@ == b.subrange(12, 16) ==> a == Self::from_wire(b)._client_ip,
            forall|a: [u8; 4]| a@ == b.subrange(16, 20) ==> a == Self::from_wire(b).your_ip,
            forall|a: [u8; 4]| a@ == b.subrange(20, 24) ==> a == Self::from_wire(b)._server_ip,
            forall|a: [u8; 4]| a@ == b.subrange(24, 28) ==> a == Self::from_wire(b)._gateway_ip,
            forall|a: [u8; 6]| a@ == b.subrange(28, 34) ==> a == Self::from_wire(b)._client_mac,
            forall|a: [u8; 10]|
                a@ == b.subrange(34, 44) ==> a == Self::from_wire(b)._client_mac_remainder,
            forall|a: [u8; 64]|
                a@ == b.subrange(44, 108) ==> a == Self::from_wire(b)._server_host_name,
            forall|a: [u8; 128]|
                a@ == b.subrange(108, 236) ==> a == Self::from_wire(b)._boot_file_name,
            forall|a: [u8; 4]| a@ == b.subrange(236, 240) ==> a == Self::from_wire(b)._vendor_magic,
            forall|a: [u8; 60]| a@ == b.subrange(240, 300) ==> a == Self::from_wire(b)._vendor_info,
    {
        lemma_array_of::<4>(b.subrange(4, 8));
        lemma_array_of::<2>(b.subrange(8, 10));
        lemma_array_of::<2>(b.subrange(10, 12));
        lemma_array_of::<4>(b.subrange(12, 16));
        lemma_array_of::<4>(b.subrange(16, 20));
        lemma_array_of::<4>(b.subrange(20, 24));
        lemma_array_of::<4>(b.subrange(24, 28));
        lemma_array_of::<6>(b.subrange(28, 34));
        lemma_array_of::<10>(b.subrange(34, 44));
        lemma_array_of::<64>(b.subrange(44, 108));
        lemma_array_of::<128>(b.subrange(108, 236));
        lemma_array_of::<4>(b.subrange(236, 240));
        lemma_array_of::<60>(b.subrange(240, 300));
    }

    /// Decoding the wire form of a packet gives the packet back.
    pub proof fn lemma_decode_encode(&self)
        ensures
            Self::decoded(self.wire()) == Ok::<BootPacket, RejectReason>(*self),
    {
        self.lemma_wire_layout();
        Self::lemma_fields_of(self.wire());
    }

    /// Encoding what a buffer of exactly `BOOT_PACKET_LEN` bytes decodes
    /// to gives the buffer back, byte for byte.
    pub proof fn lemma_encode_decode(b: Seq<u8>)
        requires
            b.len() == BOOT_PACKET_LEN,
        ensures
            Self::decoded(b) is Ok,
            Self::decoded(b)->Ok_0.wire() == b,
    {
        Self::lemma_from_wire(b);
        assert(b.subrange(0, BOOT_PACKET_LEN as int) =~= b);
    }

    /// Decodes a packet from the first `BOOT_PACKET_LEN` bytes of `bytes`.
    ///
    /// Fails with `TruncatedPacket` exactly when `bytes` is shorter than
    /// that.
    pub fn decode(bytes: &[u8]) -> (r: Result<BootPacket, RejectReason>)
        ensures
            r == Self::decoded(bytes@),
    {
        if bytes.len() < BOOT_PACKET_LEN {
            return Err(RejectReason::TruncatedPacket);
        }
        let p = BootPacket {
            opcode: bytes[0],
            _hwtype: bytes[1],
            _hw_addr_len: bytes[2],
            _hop_count: bytes[3],
            _txn_id: read_array::<4>(bytes, 4),
            _num_secs: read_array::<2>(bytes, 8),
            _unused: read_array::<2>(bytes, 10),
            _client_ip: read_array::<4>(bytes, 12),
            your_ip: read_array::<4>(bytes, 16),
            _server_ip: read_array::<4>(bytes, 20),
            _gateway_ip: read_array::<4>(bytes, 24),
            _client_mac: read_array::<6>(bytes, 28),
            _client_mac_remainder: read_array::<10>(bytes, 34),
            _server_host_name: read_array::<64>(bytes, 44),
            _boot_file_name: read_array::<128>(bytes, 108),
            _vendor_magic: read_array::<4>(bytes, 236),
            _vendor_info: read_array::<60>(bytes, 240),
        };
        proof {
            Self::lemma_fields_of(bytes@);
        }
        Ok(p)
    }

    /// Encodes the packet: `BOOT_PACKET_LEN` bytes, the fields in
    /// declaration order.
    pub fn encode(&self) -> (bytes: Vec<u8>)
        ensures
            bytes@ == self.wire(),
            bytes@.len() == BOOT_PACKET_LEN,
    {
        let mut bytes: Vec<u8> = Vec::with_capacity(BOOT_PACKET_LEN);
        bytes.push(self.opcode);
        bytes.push(self._hwtype);
        bytes.push(self._hw_addr_len);
        bytes.push(self._hop_count);
        assert(bytes@ =~= seq![self.opcode, self._hwtype, self._hw_addr_len, self._hop_count]);
        append_bytes(&mut bytes, self._txn_id.as_slice());
        append_bytes(&mut bytes, self._num_secs.as_slice());
        append_bytes(&mut bytes, self._unused.as_slice());
        append_bytes(&mut bytes, self._client_ip.as_slice());
        append_bytes(&mut bytes, self.your_ip.as_slice());
        append_bytes(&mut bytes, self._server_ip.as_slice());
        append_bytes(&mut bytes, self._gateway_ip.as_slice());
        append_bytes(&mut bytes, self._client_mac.as_slice());
        append_bytes(&mut bytes, self._client_mac_remainder.as_slice());
        append_bytes(&mut bytes, self._server_host_name.as_slice());
        append_bytes(&mut bytes, self._boot_file_name.as_slice());
        append_bytes(&mut bytes, self._vendor_magic.as_slice());
        append_bytes(&mut bytes, self._vendor_info.as_slice());
        proof {
            self.lemma_wire_layout();
        }
        bytes
    }

    /// The client's hardware address.
    pub fn client_mac(&self) -> (mac: MacAddress)
        ensures
            mac_octets(mac) == self._client_mac@,
    {
        MacAddress::new(self._client_mac)
    }

    /// The vendor magic cookie of the packet.
    pub fn vendor_magic(&self) -> (magic: [u8; 4])
        ensures
            magic == self._vendor_magic,
    {
        self._vendor_magic
    }
}

/// The response to a BOOTP request: `request` with opcode 2 (reply), the
/// server's name written over the start of the server host name field, and
/// the server and assigned addresses of the static configuration.
pub open spec fn boot_response(request: BootPacket) -> BootPacket {
    let cfg = MachineConfig::static_values();
    BootPacket {
        opcode: 2,
        _server_host_name: array_of::<64>(
            splice(request._server_host_name@, 0, cfg.server_host_name),
        ),
        _server_ip: array_of::<4>(cfg.server_ip),
        your_ip: array_of::<4>(cfg.your_ip),
        ..request
    }
}

/// Answers a BOOTP request with the values configured for its client.
pub fn generate_response(packet: BootPacket) -> (response: BootPacket)
    ensures
        response == boot_response(packet),
{
    let config = MachineConfig::new(packet.client_mac());
    let mut response = packet;
    let name: &[u8] = config.server_host_name.as_str().as_bytes();
    proof {
        MachineConfig::lemma_static_names();
    }
    let mut i: usize = 0;
    while i < name.len()
        invariant
            0 <= i <= name@.len(),
            name@ == MachineConfig::static_values().server_host_name,
            name@.len() == 9,
            response == (BootPacket { _server_host_name: response._server_host_name, ..packet }),
            forall|j: int| 0 <= j < i ==> response._server_host_name@[j] == name@[j],
            forall|j: int|
                i <= j < 64 ==> response._server_host_name@[j] == packet._server_host_name@[j],
        decreases name@.len() - i,
    {
        response._server_host_name[i] = name[i];
        i += 1;
    }
    response._server_ip = config.server_ip();
    response.your_ip = config.your_ip();
    response.opcode = 2;
    proof {
        let cfg = MachineConfig::static_values();
        let host = splice(packet._server_host_name@, 0, cfg.server_host_name);
        assert(response._server_host_name@ =~= host);
        lemma_array_of::<64>(host);
        lemma_array_of::<4>(cfg.server_ip);
        lemma_array_of::<4>(cfg.your_ip);
    }
    response
}

/// Scans the vendor area of a BOOTP packet and returns its entries in
/// order. An entry cut short by the end of the area is returned with its
/// announced length and an empty value.
pub fn parse_vendor_data(packet: &BootPacket) -> (entries: Vec<VendorData>)
    ensures
        views(entries@) == scan(packet._vendor_info@),
{
    scan_options(packet._vendor_info.as_slice())
}

} // verus!
