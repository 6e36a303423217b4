//! What the server answers a client with.
//!
//! A [`MachineConfig`] holds the values that go into the response to one
//! client: addresses, lease time, resolvers and names. It is looked up by
//! the client's hardware address; for now every client gets the same
//! values, those of [`MachineConfig::new`].

use mac_address::MacAddress;
use vstd::prelude::*;
use vstd::utf8::{encode_utf8, is_ascii_chars, is_ascii_chars_encode_utf8};

verus! {

/// The answer values for one client.
pub struct MachineConfig {
    /// The client that the values are for.
    pub mac_address: MacAddress,
    /// Name that the server gives itself in the packet.
    pub server_host_name: String,
    /// Address of the boot server.
    pub server_ip: [u8; 4],
    /// Address assigned to the client.
    pub your_ip: [u8; 4],
    pub subnet_mask: [u8; 4],
    pub router: [u8; 4],
    /// Lease time in seconds.
    pub lease_time: u32,
    /// Address of the DHCP server itself.
    pub dhcp_server: [u8; 4],
    /// Name servers, in the order in which the client should try them.
    pub resolvers: Vec<[u8; 4]>,
    pub boot_file_name: String,
    pub domain_search: String,
}

/// The mathematical value of a [`MachineConfig`]: names as their bytes,
/// the name servers as their octets one after the other.
pub struct MachineConfigView {
    pub server_host_name: Seq<u8>,
    pub server_ip: Seq<u8>,
    pub your_ip: Seq<u8>,
    pub subnet_mask: Seq<u8>,
    pub router: Seq<u8>,
    pub lease_time: u32,
    pub dhcp_server: Seq<u8>,
    pub dns_servers: Seq<u8>,
    pub boot_file_name: Seq<u8>,
    pub domain_search: Seq<u8>,
}

impl MachineConfigView {
    /// Each address has four octets. This holds of the value of every
    /// [`MachineConfig`].
    pub open spec fn well_formed(self) -> bool {
        &&& self.server_ip.len() == 4
        &&& self.your_ip.len() == 4
        &&& self.subnet_mask.len() == 4
        &&& self.router.len() == 4
        &&& self.dhcp_server.len() == 4
    }
}

/// The octets of a list of addresses, one address after the other.
pub open spec fn flat_octets(addrs: Seq<[u8; 4]>) -> Seq<u8>
    decreases addrs.len(),
{
    if addrs.len() == 0 {
        Seq::empty()
    } else {
        flat_octets(addrs.drop_last()) + addrs.last()@
    }
}

impl View for MachineConfig {
    type V = MachineConfigView;

    open spec fn view(&self) -> MachineConfigView {
        MachineConfigView {
            server_host_name: encode_utf8(self.server_host_name@),
            server_ip: self.server_ip@,
            your_ip: self.your_ip@,
            subnet_mask: self.subnet_mask@,
            router: self.router@,
            lease_time: self.lease_time,
            dhcp_server: self.dhcp_server@,
            dns_servers: flat_octets(self.resolvers@),
            boot_file_name: encode_utf8(self.boot_file_name@),
            domain_search: encode_utf8(self.domain_search@),
        }
    }
}

impl MachineConfig {
    /// The value of a configuration is well formed: every address has
    /// four octets.
    pub proof fn lemma_view_well_formed(&self)
        ensures
            self@.well_formed(),
    {
    }

    /// The values that every client is answered with.
    pub open spec fn static_values() -> MachineConfigView {
        MachineConfigView {
            server_host_name: encode_utf8("ayoungP40"@),
            server_ip: seq![192u8, 168u8, 144u8, 1u8],
            your_ip: seq![192u8, 168u8, 144u8, 100u8],
            subnet_mask: seq![255u8, 255u8, 255u8, 0u8],
            router: seq![192u8, 168u8, 144u8, 1u8],
            lease_time: 86400,
            dhcp_server: seq![192u8, 168u8, 144u8, 1u8],
            dns_servers: seq![75u8, 75u8, 75u8, 75u8, 75u8, 75u8, 75u8, 76u8, 8u8, 8u8, 8u8, 8u8],
            boot_file_name: encode_utf8("pxelinux/pxelinux.0"@),
            domain_search: encode_utf8("younglogic.net"@),
        }
    }

    /// The names among the static values, byte by byte: "ayoungP40",
    /// "pxelinux/pxelinux.0" and "younglogic.net" in ASCII.
    pub proof fn lemma_static_names()
        ensures
            Self::static_values().server_host_name == seq![97u8, 121u8, 111u8, 117u8, 110u8, 103u8, 80u8, 52u8, 48u8],
            Self::static_values().boot_file_name == seq![
                112u8, 120u8, 101u8, 108u8, 105u8, 110u8, 117u8, 120u8, 47u8, 112u8, 120u8, 101u8, 108u8, 105u8, 110u8, 117u8, 120u8, 46u8, 48u8,
            ],
            Self::static_values().domain_search == seq![
                121u8, 111u8, 117u8, 110u8, 103u8, 108u8, 111u8, 103u8, 105u8, 99u8, 46u8, 110u8, 101u8, 116u8,
            ],
    {
        reveal_strlit("ayoungP40");
        reveal_strlit("pxelinux/pxelinux.0");
        reveal_strlit("younglogic.net");
        let host = "ayoungP40"@;
        let file = "pxelinux/pxelinux.0"@;
        let domain = "younglogic.net"@;
        assert(is_ascii_chars(host) && is_ascii_chars(file) && is_ascii_chars(domain));
        is_ascii_chars_encode_utf8(host);
        is_ascii_chars_encode_utf8(file);
        is_ascii_chars_encode_utf8(domain);
        assert(encode_utf8(host) =~= seq![97u8, 121u8, 111u8, 117u8, 110u8, 103u8, 80u8, 52u8, 48u8]);
        assert(encode_utf8(file) =~= seq![
            112u8, 120u8, 101u8, 108u8, 105u8, 110u8, 117u8, 120u8, 47u8, 112u8, 120u8, 101u8, 108u8, 105u8, 110u8, 117u8, 120u8, 46u8, 48u8,
        ]);
        assert(encode_utf8(domain) =~= seq![
            121u8, 111u8, 117u8, 110u8, 103u8, 108u8, 111u8, 103u8, 105u8, 99u8, 46u8, 110u8, 101u8, 116u8,
        ]);
    }

    /// The configuration for the client with hardware address `mac`: the
    /// static values, whichever client asks.
    pub fn new(mac: MacAddress) -> (config: MachineConfig)
        ensures
            config.mac_address == mac,
            config@ == Self::static_values(),
    {
        let mut resolvers: Vec<[u8; 4]> = Vec::new();
        resolvers.push([75, 75, 75, 75]);
        resolvers.push([75, 75, 75, 76]);
        resolvers.push([8, 8, 8, 8]);
        let config = MachineConfig {
            mac_address: mac,
            server_host_name: "ayoungP40".to_owned(),
            server_ip: [192, 168, 144, 1],
            your_ip: [192, 168, 144, 100],
            subnet_mask: [255, 255, 255, 0],
            router: [192, 168, 144, 1],
            lease_time: 86400,
            dhcp_server: [192, 168, 144, 1],
            resolvers,
            boot_file_name: "pxelinux/pxelinux.0".to_owned(),
            domain_search: "younglogic.net".to_owned(),
        };
        proof {
            let r = config.resolvers@;
            reveal_with_fuel(flat_octets, 4);
            assert(r.drop_last() =~= seq![r[0], r[1]]);
            assert(r.drop_last().drop_last() =~= seq![r[0]]);
            assert(r.drop_last().drop_last().drop_last() =~= Seq::<[u8; 4]>::empty());
            assert(flat_octets(r) =~= Self::static_values().dns_servers);
            assert(config.server_ip@ =~= Self::static_values().server_ip);
            assert(config.your_ip@ =~= Self::static_values().your_ip);
            assert(config.subnet_mask@ =~= Self::static_values().subnet_mask);
            assert(config.router@ =~= Self::static_values().router);
            assert(config.dhcp_server@ =~= Self::static_values().dhcp_server);
        }
        config
    }

    /// Address of the boot server.
    pub fn server_ip(&self) -> (ip: [u8; 4])
        ensures
            ip == self.server_ip,
    {
        self.server_ip
    }

    /// Address assigned to the client.
    pub fn your_ip(&self) -> (ip: [u8; 4])
        ensures
            ip == self.your_ip,
    {
        self.your_ip
    }

    pub fn subnet_mask(&self) -> (mask: [u8; 4])
        ensures
            mask == self.subnet_mask,
    {
        self.subnet_mask
    }

    pub fn router(&self) -> (ip: [u8; 4])
        ensures
            ip == self.router,
    {
        self.router
    }

    /// Lease time in seconds.
    pub fn lease_time(&self) -> (seconds: u32)
        ensures
            seconds == self.lease_time,
    {
        self.lease_time
    }

    /// Address of the DHCP server itself.
    pub fn dhcp_server(&self) -> (ip: [u8; 4])
        ensures
            ip == self.dhcp_server,
    {
        self.dhcp_server
    }

    pub fn boot_file_name(&self) -> (name: String)
        ensures
            name@ == self.boot_file_name@,
    {
        self.boot_file_name.clone()
    }

    pub fn domain_search(&self) -> (name: String)
        ensures
            name@ == self.domain_search@,
    {
        self.domain_search.clone()
    }

    /// The octets of the name servers, one server after the other, in the
    /// configured order.
    pub fn dns_servers(&self) -> (octets: Vec<u8>)
        ensures
            octets@ == flat_octets(self.resolvers@),
            octets@ == self@.dns_servers,
    {
        let mut octets: Vec<u8> = Vec::new();
        let mut i: usize = 0;
        while i < self.resolvers.len()
            invariant
                0 <= i <= self.resolvers@.len(),
                octets@ == flat_octets(self.resolvers@.take(i as int)),
            decreases self.resolvers@.len() - i,
        {
            let addr: [u8; 4] = self.resolvers[i];
            octets.push(addr[0]);
            octets.push(addr[1]);
            octets.push(addr[2]);
            octets.push(addr[3]);
            proof {
                let next = self.resolvers@.take(i + 1);
                assert(next.drop_last() =~= self.resolvers@.take(i as int));
                assert(next.last() == addr);
                assert(octets@ =~= flat_octets(next.drop_last()) + addr@);
            }
            i += 1;
        }
        assert(self.resolvers@.take(i as int) =~= self.resolvers@);
        octets
    }
}

} // verus!
