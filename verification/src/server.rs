//! Deciding how to answer a request, and building the answer.
//!
//! A request is classified by its DHCP message type option. A DISCOVER is
//! answered with an OFFER, a REQUEST with an ACK; every other request is
//! turned down with a [`RejectReason`]. Classification and building are
//! pure: the same request and configuration always give the same result,
//! and nothing is read or written but the values handed in.

use crate::codes::{DHCPMessageType, DHCPOptCodes, DHCPOptionCode};
use crate::config::{MachineConfig, MachineConfigView};
use crate::error::RejectReason;
use crate::options::{
    serialized, views, write_options, VendorData, VendorDataView, END, OPTIONS_LEN,
};
use crate::packet::{DHCPPacket, HOST_NAME_LEN, BOOT_FILE_LEN, VENDOR_MAGIC};
use crate::scan::{lemma_scan_serialized, option_map, options_view, parse_options, scan, wires};
use crate::wire::{array_of, be_bytes_u32, bytes_of, lemma_array_of, u32_to_be, zero_padded, zeros};
use mac_address::MacAddress;
use std::collections::HashMap;
use vstd::prelude::*;

verus! {

/// The UDP port on which a DHCP server listens.
pub const SERVER_PORT: u16 = 67;

/// The server: how it was asked to run. The fields drive the loop around
/// the core; building a response depends on none of them.
#[derive(Clone, Debug, PartialEq, Eq)]
pub struct DHCPServer {
    /// Whether packets are to be logged.
    pub logging: bool,
    /// The address to listen on.
    pub local_ipv4: [u8; 4],
    /// Whether packets are to be captured to disk.
    pub capture: bool,
    /// Where captured packets go.
    pub capture_dir: String,
    /// The port to listen on and to answer to.
    pub server_port: u16,
}

/// A response ready to be sent: the encoded packet and where it goes.
#[derive(Clone, Debug, PartialEq, Eq)]
pub struct Outgoing {
    /// The encoded response packet.
    pub bytes: Vec<u8>,
    /// The address that the response assigns, which is also its
    /// destination.
    pub dest_ip: [u8; 4],
    pub dest_port: u16,
}

/// The option `code` with value `data`.
pub open spec fn option_of(code: DHCPOptionCode, data: Seq<u8>) -> VendorDataView {
    VendorDataView { code: code.code(), len: data.len() as u8, data }
}

/// The `End` marker.
pub open spec fn end_marker() -> VendorDataView {
    VendorDataView { code: END, len: 0, data: Seq::empty() }
}

/// The options of an OFFER, in the order in which they are written.
pub open spec fn offer_options(cfg: MachineConfigView) -> Seq<VendorDataView> {
    seq![
        option_of(DHCPOptionCode::DHCPMessageType, seq![DHCPMessageType::DHCPOFFER.code()]),
        option_of(DHCPOptionCode::DomainSearch, cfg.domain_search),
        end_marker(),
    ]
}

/// The options of an ACK, in the order in which they are written.
pub open spec fn ack_options(cfg: MachineConfigView) -> Seq<VendorDataView> {
    seq![
        option_of(DHCPOptionCode::DHCPMessageType, seq![DHCPMessageType::DHCPACK.code()]),
        option_of(DHCPOptionCode::SubnetMask, cfg.subnet_mask),
        option_of(DHCPOptionCode::Router, cfg.router),
        option_of(DHCPOptionCode::IPAddressLeaseTime, be_bytes_u32(cfg.lease_time)),
        option_of(DHCPOptionCode::DHCPServer, cfg.dhcp_server),
        option_of(DHCPOptionCode::DNSServers, cfg.dns_servers),
        end_marker(),
    ]
}

/// The options region that writing `opts` into a zeroed region gives.
pub open spec fn options_region(opts: Seq<VendorDataView>) -> Seq<u8> {
    serialized(opts, zeros(OPTIONS_LEN as nat), 0).0
}

/// The message type that a map of options declares, or why there is none:
/// `UnknownMessageType` where the option is missing or its value is not a
/// message type, `MalformedMessageTypeOption` where it does not hold
/// exactly one byte.
pub open spec fn declared_type(options: Map<u8, VendorDataView>) -> Result<
    DHCPMessageType,
    RejectReason,
> {
    let code = DHCPOptionCode::DHCPMessageType.code();
    if !options.contains_key(code) {
        Err(RejectReason::UnknownMessageType)
    } else if options[code].len != 1 || options[code].data.len() != 1 {
        Err(RejectReason::MalformedMessageTypeOption)
    } else {
        match DHCPMessageType::from_code(options[code].data[0]) {
            Some(kind) => Ok(kind),
            None => Err(RejectReason::UnknownMessageType),
        }
    }
}

/// The message type of a request, or why it has none: `BadVendorMagic`
/// where the cookie is wrong, else what its options declare.
pub open spec fn message_type(request: DHCPPacket) -> Result<DHCPMessageType, RejectReason> {
    if request._vendor_magic@ != VENDOR_MAGIC@ {
        Err(RejectReason::BadVendorMagic)
    } else {
        declared_type(request.options())
    }
}

/// `response` with the fields that every response has in common: opcode
/// RESPONSE, the cookie, what identifies the exchange copied from the
/// request, and the addresses and server name from the configuration.
pub open spec fn with_common_fields(
    response: DHCPPacket,
    request: DHCPPacket,
    cfg: MachineConfigView,
) -> DHCPPacket {
    DHCPPacket {
        opcode: DHCPOptCodes::RESPONSE.code(),
        _hwtype: request._hwtype,
        _hw_addr_len: request._hw_addr_len,
        _txn_id: request._txn_id,
        your_ip: array_of::<4>(cfg.your_ip),
        _server_ip: array_of::<4>(cfg.server_ip),
        _client_mac: request._client_mac,
        _server_host_name: array_of::<64>(zero_padded(cfg.server_host_name, HOST_NAME_LEN as nat)),
        _vendor_magic: VENDOR_MAGIC,
        ..response
    }
}

/// The OFFER that answers `request` under `cfg`: `FieldTooLong` where the
/// server name or the boot file name does not fit in its field,
/// `ValueTooLong` where the domain search string does not fit in an option.
pub open spec fn offer(request: DHCPPacket, cfg: MachineConfigView) -> Result<
    DHCPPacket,
    RejectReason,
> {
    if cfg.server_host_name.len() > HOST_NAME_LEN || cfg.boot_file_name.len() > BOOT_FILE_LEN {
        Err(RejectReason::FieldTooLong)
    } else if cfg.domain_search.len() > 255 {
        Err(RejectReason::ValueTooLong)
    } else {
        Ok(
            DHCPPacket {
                _boot_file_name: array_of::<128>(
                    zero_padded(cfg.boot_file_name, BOOT_FILE_LEN as nat),
                ),
                _vendor_info: array_of::<312>(options_region(offer_options(cfg))),
                ..with_common_fields(DHCPPacket::zeroed(), request, cfg)
            },
        )
    }
}

/// The ACK that answers `request` under `cfg`: `FieldTooLong` where the
/// server name does not fit in its field, `ValueTooLong` where the name
/// servers do not fit in an option.
pub open spec fn ack(request: DHCPPacket, cfg: MachineConfigView) -> Result<
    DHCPPacket,
    RejectReason,
> {
    if cfg.server_host_name.len() > HOST_NAME_LEN {
        Err(RejectReason::FieldTooLong)
    } else if cfg.dns_servers.len() > 255 {
        Err(RejectReason::ValueTooLong)
    } else {
        Ok(
            DHCPPacket {
                _vendor_info: array_of::<312>(options_region(ack_options(cfg))),
                ..with_common_fields(DHCPPacket::zeroed(), request, cfg)
            },
        )
    }
}

/// The answer to `request` under `cfg`: the rejection of a request without
/// a usable message type, an OFFER for a DISCOVER, an ACK for a REQUEST,
/// and `UnsupportedMessageType` for every other message type.
pub open spec fn response(request: DHCPPacket, cfg: MachineConfigView) -> Result<
    DHCPPacket,
    RejectReason,
> {
    match message_type(request) {
        Err(reason) => Err(reason),
        Ok(DHCPMessageType::DHCPDISCOVER) => offer(request, cfg),
        Ok(DHCPMessageType::DHCPREQUEST) => ack(request, cfg),
        Ok(_) => Err(RejectReason::UnsupportedMessageType),
    }
}

/// The rules by which a request is answered, one by one: a wrong cookie is
/// rejected before anything else is looked at; a request without a usable
/// message type is rejected with the reason for it; a DISCOVER gets an
/// OFFER and a REQUEST an ACK; every other message type is rejected as
/// unsupported.
pub proof fn lemma_response_rules(request: DHCPPacket, cfg: MachineConfigView)
    ensures
        request._vendor_magic@ != VENDOR_MAGIC@ ==> response(request, cfg) == Err::<
            DHCPPacket,
            RejectReason,
        >(RejectReason::BadVendorMagic),
        message_type(request) is Err ==> response(request, cfg) == Err::<DHCPPacket, RejectReason>(
            message_type(request)->Err_0,
        ),
        message_type(request) == Ok::<DHCPMessageType, RejectReason>(DHCPMessageType::DHCPDISCOVER)
            ==> response(request, cfg) == offer(request, cfg),
        message_type(request) == Ok::<DHCPMessageType, RejectReason>(DHCPMessageType::DHCPREQUEST)
            ==> response(request, cfg) == ack(request, cfg),
        message_type(request) is Ok && message_type(request)->Ok_0 != DHCPMessageType::DHCPDISCOVER
            && message_type(request)->Ok_0 != DHCPMessageType::DHCPREQUEST ==> response(
            request,
            cfg,
        ) == Err::<DHCPPacket, RejectReason>(RejectReason::UnsupportedMessageType),
{
}

/// An OFFER read back: it is a RESPONSE, and its options region holds the
/// message type OFFER and the domain search string, in that order, closed
/// by `End`.
pub proof fn lemma_offer_options(request: DHCPPacket, cfg: MachineConfigView)
    requires
        offer(request, cfg) is Ok,
    ensures
        offer(request, cfg)->Ok_0.opcode == DHCPOptCodes::RESPONSE.code(),
        offer(request, cfg)->Ok_0._vendor_info@ == options_region(offer_options(cfg)),
        scan(offer(request, cfg)->Ok_0._vendor_info@) == seq![
            option_of(DHCPOptionCode::DHCPMessageType, seq![DHCPMessageType::DHCPOFFER.code()]),
            option_of(DHCPOptionCode::DomainSearch, cfg.domain_search),
        ],
        offer(request, cfg)->Ok_0.options() == Map::<u8, VendorDataView>::empty().insert(
            DHCPOptionCode::DHCPMessageType.code(),
            option_of(DHCPOptionCode::DHCPMessageType, seq![DHCPMessageType::DHCPOFFER.code()]),
        ).insert(
            DHCPOptionCode::DomainSearch.code(),
            option_of(DHCPOptionCode::DomainSearch, cfg.domain_search),
        ),
{
    let kind = option_of(
        DHCPOptionCode::DHCPMessageType,
        seq![DHCPMessageType::DHCPOFFER.code()],
    );
    let domain = option_of(DHCPOptionCode::DomainSearch, cfg.domain_search);
    let entries = seq![kind, domain];
    assert(offer_options(cfg) =~= entries.push(end_marker()));
    reveal_with_fuel(wires, 3);
    assert(entries.skip(1) =~= seq![domain]);
    assert(entries.skip(1).skip(1) =~= Seq::<VendorDataView>::empty());
    assert(wires(entries).len() == 3 + 2 + cfg.domain_search.len());
    lemma_scan_serialized(entries);
    lemma_array_of::<312>(options_region(offer_options(cfg)));
    reveal_with_fuel(option_map, 3);
    assert(entries.drop_last() =~= seq![kind]);
    assert(entries.drop_last().drop_last() =~= Seq::<VendorDataView>::empty());
}

/// An ACK read back: it is a RESPONSE, and its options region holds the
/// message type ACK, the subnet mask, the router, the lease time in
/// big-endian seconds, the DHCP server and the name servers, in that
/// order, closed by `End`.
pub proof fn lemma_ack_options(request: DHCPPacket, cfg: MachineConfigView)
    requires
        cfg.well_formed(),
        ack(request, cfg) is Ok,
    ensures
        ack(request, cfg)->Ok_0.opcode == DHCPOptCodes::RESPONSE.code(),
        ack(request, cfg)->Ok_0._vendor_info@ == options_region(ack_options(cfg)),
        scan(ack(request, cfg)->Ok_0._vendor_info@) == seq![
            option_of(DHCPOptionCode::DHCPMessageType, seq![DHCPMessageType::DHCPACK.code()]),
            option_of(DHCPOptionCode::SubnetMask, cfg.subnet_mask),
            option_of(DHCPOptionCode::Router, cfg.router),
            option_of(DHCPOptionCode::IPAddressLeaseTime, be_bytes_u32(cfg.lease_time)),
            option_of(DHCPOptionCode::DHCPServer, cfg.dhcp_server),
            option_of(DHCPOptionCode::DNSServers, cfg.dns_servers),
        ],
        ack(request, cfg)->Ok_0.options() == Map::<u8, VendorDataView>::empty().insert(
            DHCPOptionCode::DHCPMessageType.code(),
            option_of(DHCPOptionCode::DHCPMessageType, seq![DHCPMessageType::DHCPACK.code()]),
        ).insert(
            DHCPOptionCode::SubnetMask.code(),
            option_of(DHCPOptionCode::SubnetMask, cfg.subnet_mask),
        ).insert(
            DHCPOptionCode::Router.code(),
            option_of(DHCPOptionCode::Router, cfg.router),
        ).insert(
            DHCPOptionCode::IPAddressLeaseTime.code(),
            option_of(DHCPOptionCode::IPAddressLeaseTime, be_bytes_u32(cfg.lease_time)),
        ).insert(
            DHCPOptionCode::DHCPServer.code(),
            option_of(DHCPOptionCode::DHCPServer, cfg.dhcp_server),
        ).insert(
            DHCPOptionCode::DNSServers.code(),
            option_of(DHCPOptionCode::DNSServers, cfg.dns_servers),
        ),
{
    let kind = option_of(DHCPOptionCode::DHCPMessageType, seq![DHCPMessageType::DHCPACK.code()]);
    let mask = option_of(DHCPOptionCode::SubnetMask, cfg.subnet_mask);
    let router = option_of(DHCPOptionCode::Router, cfg.router);
    let lease = option_of(DHCPOptionCode::IPAddressLeaseTime, be_bytes_u32(cfg.lease_time));
    let server = option_of(DHCPOptionCode::DHCPServer, cfg.dhcp_server);
    let dns = option_of(DHCPOptionCode::DNSServers, cfg.dns_servers);
    let entries = seq![kind, mask, router, lease, server, dns];
    assert(ack_options(cfg) =~= entries.push(end_marker()));
    reveal_with_fuel(wires, 7);
    assert(entries.skip(1) =~= seq![mask, router, lease, server, dns]);
    assert(entries.skip(1).skip(1) =~= seq![router, lease, server, dns]);
    assert(entries.skip(1).skip(1).skip(1) =~= seq![lease, server, dns]);
    assert(entries.skip(1).skip(1).skip(1).skip(1) =~= seq![server, dns]);
    assert(entries.skip(1).skip(1).skip(1).skip(1).skip(1) =~= seq![dns]);
    assert(entries.skip(1).skip(1).skip(1).skip(1).skip(1).skip(1) =~= Seq::<
        VendorDataView,
    >::empty());
    assert(wires(entries).len() == 3 + 6 + 6 + 6 + 6 + 2 + cfg.dns_servers.len());
    lemma_scan_serialized(entries);
    lemma_array_of::<312>(options_region(ack_options(cfg)));
    reveal_with_fuel(option_map, 7);
    assert(entries.drop_last() =~= seq![kind, mask, router, lease, server]);
    assert(entries.drop_last().drop_last() =~= seq![kind, mask, router, lease]);
    assert(entries.drop_last().drop_last().drop_last() =~= seq![kind, mask, router]);
    assert(entries.drop_last().drop_last().drop_last().drop_last() =~= seq![kind, mask]);
    assert(entries.drop_last().drop_last().drop_last().drop_last().drop_last() =~= seq![kind]);
    assert(entries.drop_last().drop_last().drop_last().drop_last().drop_last().drop_last()
        =~= Seq::<VendorDataView>::empty());
}

/// With the static values no response fails to be built: the names fit in
/// their fields and the values in their options.
pub proof fn lemma_static_values_fit(request: DHCPPacket)
    ensures
        MachineConfig::static_values().well_formed(),
        offer(request, MachineConfig::static_values()) is Ok,
        ack(request, MachineConfig::static_values()) is Ok,
{
    MachineConfig::lemma_static_names();
}

/// Every DISCOVER with the DHCP cookie is answered, and the answer is a
/// RESPONSE whose options are the message type OFFER and the domain search
/// string "younglogic.net".
pub proof fn lemma_discover_gets_offer(request: DHCPPacket)
    requires
        message_type(request) == Ok::<DHCPMessageType, RejectReason>(
            DHCPMessageType::DHCPDISCOVER,
        ),
    ensures
        response(request, MachineConfig::static_values()) is Ok,
        response(request, MachineConfig::static_values())->Ok_0.opcode == 2,
        response(request, MachineConfig::static_values())->Ok_0.options() == Map::<
            u8,
            VendorDataView,
        >::empty().insert(53, VendorDataView { code: 53, len: 1, data: seq![2u8] }).insert(
            119,
            VendorDataView {
                code: 119,
                len: 14,
                data: seq![
                    121u8, 111u8, 117u8, 110u8, 103u8, 108u8, 111u8, 103u8, 105u8, 99u8, 46u8,
                    110u8, 101u8, 116u8,
                ],
            },
        ),
{
    let cfg = MachineConfig::static_values();
    MachineConfig::lemma_static_names();
    lemma_static_values_fit(request);
    lemma_offer_options(request, cfg);
}

/// Every REQUEST with the DHCP cookie is answered, and the answer is a
/// RESPONSE whose options are the message type ACK, the subnet mask
/// 255.255.255.0, the router and the DHCP server 192.168.144.1, the lease
/// time 86400 in big-endian bytes, and the name servers 75.75.75.75,
/// 75.75.75.76 and 8.8.8.8.
pub proof fn lemma_request_gets_ack(request: DHCPPacket)
    requires
        message_type(request) == Ok::<DHCPMessageType, RejectReason>(DHCPMessageType::DHCPREQUEST),
    ensures
        response(request, MachineConfig::static_values()) is Ok,
        response(request, MachineConfig::static_values())->Ok_0.opcode == 2,
        response(request, MachineConfig::static_values())->Ok_0.options() == Map::<
            u8,
            VendorDataView,
        >::empty().insert(53, VendorDataView { code: 53, len: 1, data: seq![5u8] }).insert(
            1,
            VendorDataView { code: 1, len: 4, data: seq![255u8, 255u8, 255u8, 0u8] },
        ).insert(
            3,
            VendorDataView { code: 3, len: 4, data: seq![192u8, 168u8, 144u8, 1u8] },
        ).insert(
            51,
            VendorDataView { code: 51, len: 4, data: seq![0u8, 1u8, 81u8, 128u8] },
        ).insert(
            54,
            VendorDataView { code: 54, len: 4, data: seq![192u8, 168u8, 144u8, 1u8] },
        ).insert(
            6,
            VendorDataView {
                code: 6,
                len: 12,
                data: seq![75u8, 75u8, 75u8, 75u8, 75u8, 75u8, 75u8, 76u8, 8u8, 8u8, 8u8, 8u8],
            },
        ),
{
    let cfg = MachineConfig::static_values();
    lemma_static_values_fit(request);
    lemma_ack_options(request, cfg);
    assert(be_bytes_u32(86400) =~= seq![0u8, 1u8, 81u8, 128u8]);
}

/// Whether `magic` is the DHCP cookie.
pub fn is_dhcp_magic(magic: &[u8; 4]) -> (b: bool)
    ensures
        b == (magic@ == VENDOR_MAGIC@),
{
    let b = magic[0] == VENDOR_MAGIC[0] && magic[1] == VENDOR_MAGIC[1] && magic[2]
        == VENDOR_MAGIC[2] && magic[3] == VENDOR_MAGIC[3];
    assert(b ==> magic@ =~= VENDOR_MAGIC@);
    b
}

/// Reads the message type out of parsed options.
pub fn message_type_of(options: &HashMap<u8, VendorData>) -> (r: Result<
    DHCPMessageType,
    RejectReason,
>)
    ensures
        r == declared_type(options_view(options@)),
{
    broadcast use vstd::std_specs::hash::group_hash_axioms;

    let code: u8 = DHCPOptionCode::DHCPMessageType.to_u8();
    match options.get(&code) {
        None => Err(RejectReason::UnknownMessageType),
        Some(option) => {
            assert(options_view(options@)[code] == option@);
            if option.len != 1 || option.data.len() != 1 {
                Err(RejectReason::MalformedMessageTypeOption)
            } else {
                match DHCPMessageType::from_u8(option.data[0]) {
                    Some(kind) => Ok(kind),
                    None => Err(RejectReason::UnknownMessageType),
                }
            }
        },
    }
}

/// Classifies a request by its message type.
pub fn classify(request: &DHCPPacket) -> (r: Result<DHCPMessageType, RejectReason>)
    ensures
        r == message_type(*request),
{
    if !is_dhcp_magic(&request._vendor_magic) {
        return Err(RejectReason::BadVendorMagic);
    }
    let options = parse_options(request._vendor_info.as_slice());
    message_type_of(&options)
}

/// Sets in `response` the fields that every response has in common.
///
/// Fails with `FieldTooLong`, leaving `response` as it is, exactly when
/// the configured server name has more than 64 bytes.
pub fn fill_common_fields(
    request: &DHCPPacket,
    config: &MachineConfig,
    response: &mut DHCPPacket,
) -> (r: Result<(), RejectReason>)
    ensures
        config@.server_host_name.len() > HOST_NAME_LEN ==> r == Err::<(), RejectReason>(
            RejectReason::FieldTooLong,
        ) && *final(response) == *old(response),
        config@.server_host_name.len() <= HOST_NAME_LEN ==> r == Ok::<(), RejectReason>(())
            && *final(response) == with_common_fields(*old(response), *request, config@),
{
    match response.set_server_host_name(config.server_host_name.as_str()) {
        Err(reason) => {
            return Err(reason);
        },
        Ok(()) => {},
    }
    response._vendor_magic = VENDOR_MAGIC;
    response.opcode = DHCPOptCodes::RESPONSE.to_u8();
    response._hwtype = request._hwtype;
    response._hw_addr_len = request._hw_addr_len;
    response._client_mac = request._client_mac;
    response._txn_id = request._txn_id;
    response._server_ip = config.server_ip();
    response.your_ip = config.your_ip();
    proof {
        lemma_array_of::<4>(config@.server_ip);
        lemma_array_of::<4>(config@.your_ip);
    }
    Ok(())
}

/// Builds the OFFER that answers `request` with the values of `config`.
pub fn build_offer(request: &DHCPPacket, config: &MachineConfig) -> (r: Result<
    DHCPPacket,
    RejectReason,
>)
    ensures
        r == offer(*request, config@),
{
    let mut response = DHCPPacket::new();
    match fill_common_fields(request, config, &mut response) {
        Err(reason) => {
            return Err(reason);
        },
        Ok(()) => {},
    }
    match response.set_boot_file_name(config.boot_file_name.as_str()) {
        Err(reason) => {
            return Err(reason);
        },
        Ok(()) => {},
    }
    let mut vendor_data: Vec<VendorData> = Vec::new();
    let mut kind: Vec<u8> = Vec::new();
    kind.push(DHCPMessageType::DHCPOFFER.to_u8());
    match VendorData::new(DHCPOptionCode::DHCPMessageType, &kind) {
        Err(reason) => {
            return Err(reason);
        },
        Ok(option) => {
            vendor_data.push(option);
        },
    }
    let domain = bytes_of(config.domain_search.as_str().as_bytes());
    match VendorData::new(DHCPOptionCode::DomainSearch, &domain) {
        Err(reason) => {
            return Err(reason);
        },
        Ok(option) => {
            vendor_data.push(option);
        },
    }
    vendor_data.push(VendorData::end());
    assert(views(vendor_data@) =~= offer_options(config@));
    assert(offer_options(config@)[2].code == END);
    let mut region: [u8; 312] = response._vendor_info;
    proof {
        DHCPPacket::lemma_zeroed();
    }
    write_options(&vendor_data, &mut region);
    response._vendor_info = region;
    proof {
        lemma_array_of::<312>(options_region(offer_options(config@)));
    }
    Ok(response)
}

/// Builds the ACK that answers `request` with the values of `config`.
pub fn build_ack(request: &DHCPPacket, config: &MachineConfig) -> (r: Result<
    DHCPPacket,
    RejectReason,
>)
    ensures
        r == ack(*request, config@),
{
    let mut response = DHCPPacket::new();
    match fill_common_fields(request, config, &mut response) {
        Err(reason) => {
            return Err(reason);
        },
        Ok(()) => {},
    }
    let servers = config.dns_servers();
    let mut vendor_data: Vec<VendorData> = Vec::new();
    let mut kind: Vec<u8> = Vec::new();
    kind.push(DHCPMessageType::DHCPACK.to_u8());
    match VendorData::new(DHCPOptionCode::DHCPMessageType, &kind) {
        Err(reason) => {
            return Err(reason);
        },
        Ok(option) => {
            vendor_data.push(option);
        },
    }
    match VendorData::new(DHCPOptionCode::SubnetMask, &bytes_of(config.subnet_mask().as_slice())) {
        Err(reason) => {
            return Err(reason);
        },
        Ok(option) => {
            vendor_data.push(option);
        },
    }
    match VendorData::new(DHCPOptionCode::Router, &bytes_of(config.router().as_slice())) {
        Err(reason) => {
            return Err(reason);
        },
        Ok(option) => {
            vendor_data.push(option);
        },
    }
    match VendorData::new(
        DHCPOptionCode::IPAddressLeaseTime,
        &bytes_of(u32_to_be(config.lease_time()).as_slice()),
    ) {
        Err(reason) => {
            return Err(reason);
        },
        Ok(option) => {
            vendor_data.push(option);
        },
    }
    match VendorData::new(DHCPOptionCode::DHCPServer, &bytes_of(config.dhcp_server().as_slice())) {
        Err(reason) => {
            return Err(reason);
        },
        Ok(option) => {
            vendor_data.push(option);
        },
    }
    match VendorData::new(DHCPOptionCode::DNSServers, &servers) {
        Err(reason) => {
            return Err(reason);
        },
        Ok(option) => {
            vendor_data.push(option);
        },
    }
    vendor_data.push(VendorData::end());
    assert(views(vendor_data@) =~= ack_options(config@));
    assert(ack_options(config@)[6].code == END);
    let mut region: [u8; 312] = response._vendor_info;
    proof {
        DHCPPacket::lemma_zeroed();
    }
    write_options(&vendor_data, &mut region);
    response._vendor_info = region;
    proof {
        lemma_array_of::<312>(options_region(ack_options(config@)));
    }
    Ok(response)
}

/// Answers `request` with the values of `config`.
pub fn build_response(request: &DHCPPacket, config: &MachineConfig) -> (r: Result<
    DHCPPacket,
    RejectReason,
>)
    ensures
        r == response(*request, config@),
{
    match classify(request) {
        Err(reason) => Err(reason),
        Ok(DHCPMessageType::DHCPDISCOVER) => build_offer(request, config),
        Ok(DHCPMessageType::DHCPREQUEST) => build_ack(request, config),
        Ok(_) => Err(RejectReason::UnsupportedMessageType),
    }
}

impl DHCPServer {
    /// A server that listens on every local address, on the DHCP server
    /// port.
    pub fn new(logging: bool, capture: bool, capture_dir: &str) -> (r: Result<
        DHCPServer,
        RejectReason,
    >)
        ensures
            r is Ok,
            r->Ok_0.logging == logging,
            r->Ok_0.capture == capture,
            r->Ok_0.capture_dir@ == capture_dir@,
            r->Ok_0.local_ipv4@ == zeros(4),
            r->Ok_0.server_port == SERVER_PORT,
    {
        let server = DHCPServer {
            logging,
            local_ipv4: [0u8; 4],
            capture,
            capture_dir: capture_dir.to_owned(),
            server_port: SERVER_PORT,
        };
        assert(server.local_ipv4@ =~= zeros(4));
        Ok(server)
    }

    /// The configuration for the client with hardware address `mac`.
    pub fn machine_config(&self, mac: &MacAddress) -> (config: MachineConfig)
        ensures
            config.mac_address == *mac,
            config@ == MachineConfig::static_values(),
    {
        MachineConfig::new(*mac)
    }

    /// Sets in `response` the fields that every response has in common,
    /// with the values configured for the client of `request`.
    pub fn set_common_fields(&self, request: &DHCPPacket, response: &mut DHCPPacket) -> (r: Result<
        (),
        RejectReason,
    >)
        ensures
            r == Ok::<(), RejectReason>(()),
            *final(response) == with_common_fields(
                *old(response),
                *request,
                MachineConfig::static_values(),
            ),
    {
        let config = self.machine_config(&request.client_mac());
        proof {
            lemma_static_values_fit(*request);
        }
        fill_common_fields(request, &config, response)
    }

    /// Answers a DISCOVER with an OFFER.
    pub fn handle_dhcpdiscover(&self, request: &DHCPPacket) -> (r: Result<
        DHCPPacket,
        RejectReason,
    >)
        ensures
            r is Ok,
            r == offer(*request, MachineConfig::static_values()),
    {
        let config = self.machine_config(&request.client_mac());
        proof {
            lemma_static_values_fit(*request);
        }
        build_offer(request, &config)
    }

    /// Answers a REQUEST with an ACK.
    pub fn handle_dhcprequest(&self, request: &DHCPPacket) -> (r: Result<DHCPPacket, RejectReason>)
        ensures
            r is Ok,
            r == ack(*request, MachineConfig::static_values()),
    {
        let config = self.machine_config(&request.client_mac());
        proof {
            lemma_static_values_fit(*request);
        }
        build_ack(request, &config)
    }

    /// Classifies `request` and builds the response to it, or says why
    /// there is none.
    pub fn generate_response(&self, request: &DHCPPacket) -> (r: Result<DHCPPacket, RejectReason>)
        ensures
            r == response(*request, MachineConfig::static_values()),
    {
        match classify(request) {
            Err(reason) => Err(reason),
            Ok(DHCPMessageType::DHCPDISCOVER) => self.handle_dhcpdiscover(request),
            Ok(DHCPMessageType::DHCPREQUEST) => self.handle_dhcprequest(request),
            Ok(_) => Err(RejectReason::UnsupportedMessageType),
        }
    }

    /// What comes of decoding `datagram` and answering it: the response
    /// packet, or the reason for which nothing is sent.
    pub open spec fn answer(datagram: Seq<u8>) -> Result<DHCPPacket, RejectReason> {
        match DHCPPacket::decoded(datagram) {
            Err(reason) => Err(reason),
            Ok(request) => response(request, MachineConfig::static_values()),
        }
    }

    /// Handles one received datagram: decodes it, builds the response and
    /// encodes it, addressed to the assigned address on the server's port.
    ///
    /// Fails with `TruncatedPacket` where the datagram is shorter than a
    /// packet, else with the reason for which the request is not answered.
    pub fn handle_packet(&self, datagram: &[u8]) -> (r: Result<Outgoing, RejectReason>)
        ensures
            match Self::answer(datagram@) {
                Err(reason) => r == Err::<Outgoing, RejectReason>(reason),
                Ok(packet) => r is Ok && r->Ok_0.bytes@ == packet.wire() && r->Ok_0.dest_ip
                    == packet.your_ip && r->Ok_0.dest_port == self.server_port,
            },
    {
        let request = match DHCPPacket::decode(datagram) {
            Err(reason) => {
                return Err(reason);
            },
            Ok(request) => request,
        };
        match self.generate_response(&request) {
            Err(reason) => Err(reason),
            Ok(packet) => Ok(
                Outgoing {
                    bytes: packet.encode(),
                    dest_ip: packet.your_ip,
                    dest_port: self.server_port,
                },
            ),
        }
    }
}

impl DHCPPacket {
    /// The response to this request, or the reason for which there is none:
    /// what every [`DHCPServer`] gives, whatever it was started with.
    pub fn generate_response(request_packet: &DHCPPacket) -> (r: Result<DHCPPacket, RejectReason>)
        ensures
            r == response(*request_packet, MachineConfig::static_values()),
    {
        let config = MachineConfig::new(request_packet.client_mac());
        build_response(request_packet, &config)
    }
}

} // verus!
