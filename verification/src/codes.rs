//! The enumerated byte values of the protocol: option codes, packet
//! opcodes and DHCP message types, each with a checked conversion from and
//! to its wire byte.
//!
//! Option codes are assigned by IANA ("BOOTP Vendor Extensions and DHCP
//! Options"); the ones listed are those a PXE client sends and this server
//! answers with.

use vstd::prelude::*;

verus! {

/// A known option code.
#[derive(Clone, Copy, Debug, PartialEq, Eq, Hash, Structural)]
pub enum DHCPOptionCode {
    Pad,
    /// RFC 2132, 3.3
    SubnetMask,
    /// RFC 2132, 3.5
    Router,
    /// RFC 2132, 3.8
    DNSServers,
    /// RFC 2132, 3.14
    HOSTNAME,
    /// RFC 2132, 9.2
    IPAddressLeaseTime,
    /// RFC 2132, 9.7
    DHCPServer,
    /// RFC 2132, 9.6
    DHCPMessageType,
    /// RFC 2132, 9.8
    ParameterRequestList,
    /// RFC 2132, 9.10
    MaximumDHCPMessageSize,
    /// RFC 2132, 9.13
    VendorClassIdentifier,
    /// RFC 2132, 9.14
    ClientIdentifier,
    /// RFC 3004, 4
    UserClassInfo,
    /// RFC 4578, 2.1
    ClientSystemArchitectureType,
    /// RFC 4578, 2.2
    ClientNetworkInterfaceIdentifier,
    /// RFC 4578, 2.3
    ClientMachineIdentifier,
    /// RFC 3397, 2
    DomainSearch,
    /// RFC 4578, 2.4
    PXE128,
    PXE129,
    PXE130,
    PXE131,
    PXE132,
    PXE133,
    PXE134,
    PXE135,
    /// Sent by Etherboot and iPXE clients; not documented in an RFC.
    Etherboot,
    End,
}

impl DHCPOptionCode {
    /// The wire byte of this code.
    pub open spec fn code(self) -> u8 {
        match self {
            DHCPOptionCode::Pad => 0,
            DHCPOptionCode::SubnetMask => 1,
            DHCPOptionCode::Router => 3,
            DHCPOptionCode::DNSServers => 6,
            DHCPOptionCode::HOSTNAME => 12,
            DHCPOptionCode::IPAddressLeaseTime => 51,
            DHCPOptionCode::DHCPMessageType => 53,
            DHCPOptionCode::DHCPServer => 54,
            DHCPOptionCode::ParameterRequestList => 55,
            DHCPOptionCode::MaximumDHCPMessageSize => 57,
            DHCPOptionCode::VendorClassIdentifier => 60,
            DHCPOptionCode::ClientIdentifier => 61,
            DHCPOptionCode::UserClassInfo => 77,
            DHCPOptionCode::ClientSystemArchitectureType => 93,
            DHCPOptionCode::ClientNetworkInterfaceIdentifier => 94,
            DHCPOptionCode::ClientMachineIdentifier => 97,
            DHCPOptionCode::DomainSearch => 119,
            DHCPOptionCode::PXE128 => 128,
            DHCPOptionCode::PXE129 => 129,
            DHCPOptionCode::PXE130 => 130,
            DHCPOptionCode::PXE131 => 131,
            DHCPOptionCode::PXE132 => 132,
            DHCPOptionCode::PXE133 => 133,
            DHCPOptionCode::PXE134 => 134,
            DHCPOptionCode::PXE135 => 135,
            DHCPOptionCode::Etherboot => 175,
            DHCPOptionCode::End => 255,
        }
    }

    /// The code that a wire byte stands for, if it is a known one.
    pub open spec fn from_code(c: u8) -> Option<DHCPOptionCode> {
        if c == 0 {
            Some(DHCPOptionCode::Pad)
        } else if c == 1 {
            Some(DHCPOptionCode::SubnetMask)
        } else if c == 3 {
            Some(DHCPOptionCode::Router)
        } else if c == 6 {
            Some(DHCPOptionCode::DNSServers)
        } else if c == 12 {
            Some(DHCPOptionCode::HOSTNAME)
        } else if c == 51 {
            Some(DHCPOptionCode::IPAddressLeaseTime)
        } else if c == 53 {
            Some(DHCPOptionCode::DHCPMessageType)
        } else if c == 54 {
            Some(DHCPOptionCode::DHCPServer)
        } else if c == 55 {
            Some(DHCPOptionCode::ParameterRequestList)
        } else if c == 57 {
            Some(DHCPOptionCode::MaximumDHCPMessageSize)
        } else if c == 60 {
            Some(DHCPOptionCode::VendorClassIdentifier)
        } else if c == 61 {
            Some(DHCPOptionCode::ClientIdentifier)
        } else if c == 77 {
            Some(DHCPOptionCode::UserClassInfo)
        } else if c == 93 {
            Some(DHCPOptionCode::ClientSystemArchitectureType)
        } else if c == 94 {
            Some(DHCPOptionCode::ClientNetworkInterfaceIdentifier)
        } else if c == 97 {
            Some(DHCPOptionCode::ClientMachineIdentifier)
        } else if c == 119 {
            Some(DHCPOptionCode::DomainSearch)
        } else if c == 128 {
            Some(DHCPOptionCode::PXE128)
        } else if c == 129 {
            Some(DHCPOptionCode::PXE129)
        } else if c == 130 {
            Some(DHCPOptionCode::PXE130)
        } else if c == 131 {
            Some(DHCPOptionCode::PXE131)
        } else if c == 132 {
            Some(DHCPOptionCode::PXE132)
        } else if c == 133 {
            Some(DHCPOptionCode::PXE133)
        } else if c == 134 {
            Some(DHCPOptionCode::PXE134)
        } else if c == 135 {
            Some(DHCPOptionCode::PXE135)
        } else if c == 175 {
            Some(DHCPOptionCode::Etherboot)
        } else if c == 255 {
            Some(DHCPOptionCode::End)
        } else {
            None
        }
    }

    /// The wire byte of this code.
    pub fn to_u8(&self) -> (c: u8)
        ensures
            c == self.code(),
    {
        match self {
            DHCPOptionCode::Pad => 0,
            DHCPOptionCode::SubnetMask => 1,
            DHCPOptionCode::Router => 3,
            DHCPOptionCode::DNSServers => 6,
            DHCPOptionCode::HOSTNAME => 12,
            DHCPOptionCode::IPAddressLeaseTime => 51,
            DHCPOptionCode::DHCPMessageType => 53,
            DHCPOptionCode::DHCPServer => 54,
            DHCPOptionCode::ParameterRequestList => 55,
            DHCPOptionCode::MaximumDHCPMessageSize => 57,
            DHCPOptionCode::VendorClassIdentifier => 60,
            DHCPOptionCode::ClientIdentifier => 61,
            DHCPOptionCode::UserClassInfo => 77,
            DHCPOptionCode::ClientSystemArchitectureType => 93,
            DHCPOptionCode::ClientNetworkInterfaceIdentifier => 94,
            DHCPOptionCode::ClientMachineIdentifier => 97,
            DHCPOptionCode::DomainSearch => 119,
            DHCPOptionCode::PXE128 => 128,
            DHCPOptionCode::PXE129 => 129,
            DHCPOptionCode::PXE130 => 130,
            DHCPOptionCode::PXE131 => 131,
            DHCPOptionCode::PXE132 => 132,
            DHCPOptionCode::PXE133 => 133,
            DHCPOptionCode::PXE134 => 134,
            DHCPOptionCode::PXE135 => 135,
            DHCPOptionCode::Etherboot => 175,
            DHCPOptionCode::End => 255,
        }
    }

    /// Checked conversion from a wire byte: `None` for a byte that is not a
    /// known option code.
    pub fn from_u8(c: u8) -> (r: Option<DHCPOptionCode>)
        ensures
            r == Self::from_code(c),
    {
        match c {
            0 => Some(DHCPOptionCode::Pad),
            1 => Some(DHCPOptionCode::SubnetMask),
            3 => Some(DHCPOptionCode::Router),
            6 => Some(DHCPOptionCode::DNSServers),
            12 => Some(DHCPOptionCode::HOSTNAME),
            51 => Some(DHCPOptionCode::IPAddressLeaseTime),
            53 => Some(DHCPOptionCode::DHCPMessageType),
            54 => Some(DHCPOptionCode::DHCPServer),
            55 => Some(DHCPOptionCode::ParameterRequestList),
            57 => Some(DHCPOptionCode::MaximumDHCPMessageSize),
            60 => Some(DHCPOptionCode::VendorClassIdentifier),
            61 => Some(DHCPOptionCode::ClientIdentifier),
            77 => Some(DHCPOptionCode::UserClassInfo),
            93 => Some(DHCPOptionCode::ClientSystemArchitectureType),
            94 => Some(DHCPOptionCode::ClientNetworkInterfaceIdentifier),
            97 => Some(DHCPOptionCode::ClientMachineIdentifier),
            119 => Some(DHCPOptionCode::DomainSearch),
            128 => Some(DHCPOptionCode::PXE128),
            129 => Some(DHCPOptionCode::PXE129),
            130 => Some(DHCPOptionCode::PXE130),
            131 => Some(DHCPOptionCode::PXE131),
            132 => Some(DHCPOptionCode::PXE132),
            133 => Some(DHCPOptionCode::PXE133),
            134 => Some(DHCPOptionCode::PXE134),
            135 => Some(DHCPOptionCode::PXE135),
            175 => Some(DHCPOptionCode::Etherboot),
            255 => Some(DHCPOptionCode::End),
            _ => None,
        }
    }

    /// The byte of a code converts back to that code, and a byte that
    /// converts to a code is the byte of that code.
    pub proof fn lemma_code_round_trip(self, c: u8)
        ensures
            Self::from_code(self.code()) == Some(self),
            Self::from_code(c) == Some(self) ==> self.code() == c,
    {
    }
}

/// The packet opcode.
#[derive(Clone, Copy, Debug, PartialEq, Eq, Hash, Structural)]
pub enum DHCPOptCodes {
    REQUEST,
    RESPONSE,
}

impl DHCPOptCodes {
    /// The wire byte of this opcode.
    pub open spec fn code(self) -> u8 {
        match self {
            DHCPOptCodes::REQUEST => 1,
            DHCPOptCodes::RESPONSE => 2,
        }
    }

    /// The opcode that a wire byte stands for, if any.
    pub open spec fn from_code(c: u8) -> Option<DHCPOptCodes> {
        if c == 1 {
            Some(DHCPOptCodes::REQUEST)
        } else if c == 2 {
            Some(DHCPOptCodes::RESPONSE)
        } else {
            None
        }
    }

    /// The wire byte of this opcode.
    pub fn to_u8(&self) -> (c: u8)
        ensures
            c == self.code(),
    {
        match self {
            DHCPOptCodes::REQUEST => 1,
            DHCPOptCodes::RESPONSE => 2,
        }
    }

    /// Checked conversion from a wire byte.
    pub fn from_u8(c: u8) -> (r: Option<DHCPOptCodes>)
        ensures
            r == Self::from_code(c),
    {
        match c {
            1 => Some(DHCPOptCodes::REQUEST),
            2 => Some(DHCPOptCodes::RESPONSE),
            _ => None,
        }
    }
}

/// The value carried in the DHCP message type option.
#[derive(Clone, Copy, Debug, PartialEq, Eq, Hash, Structural)]
pub enum DHCPMessageType {
    DHCPDISCOVER,
    DHCPOFFER,
    DHCPREQUEST,
    DHCPDECLINE,
    DHCPACK,
    DHCPNAK,
    DHCPRELEASE,
}

impl DHCPMessageType {
    /// The wire byte of this message type.
    pub open spec fn code(self) -> u8 {
        match self {
            DHCPMessageType::DHCPDISCOVER => 1,
            DHCPMessageType::DHCPOFFER => 2,
            DHCPMessageType::DHCPREQUEST => 3,
            DHCPMessageType::DHCPDECLINE => 4,
            DHCPMessageType::DHCPACK => 5,
            DHCPMessageType::DHCPNAK => 6,
            DHCPMessageType::DHCPRELEASE => 7,
        }
    }

    /// The message type that a wire byte stands for, if any.
    pub open spec fn from_code(c: u8) -> Option<DHCPMessageType> {
        if c == 1 {
            Some(DHCPMessageType::DHCPDISCOVER)
        } else if c == 2 {
            Some(DHCPMessageType::DHCPOFFER)
        } else if c == 3 {
            Some(DHCPMessageType::DHCPREQUEST)
        } else if c == 4 {
            Some(DHCPMessageType::DHCPDECLINE)
        } else if c == 5 {
            Some(DHCPMessageType::DHCPACK)
        } else if c == 6 {
            Some(DHCPMessageType::DHCPNAK)
        } else if c == 7 {
            Some(DHCPMessageType::DHCPRELEASE)
        } else {
            None
        }
    }

    /// The wire byte of this message type.
    pub fn to_u8(&self) -> (c: u8)
        ensures
            c == self.code(),
    {
        match self {
            DHCPMessageType::DHCPDISCOVER => 1,
            DHCPMessageType::DHCPOFFER => 2,
            DHCPMessageType::DHCPREQUEST => 3,
            DHCPMessageType::DHCPDECLINE => 4,
            DHCPMessageType::DHCPACK => 5,
            DHCPMessageType::DHCPNAK => 6,
            DHCPMessageType::DHCPRELEASE => 7,
        }
    }

    /// Checked conversion from a wire byte: `None` outside 1..=7.
    pub fn from_u8(c: u8) -> (r: Option<DHCPMessageType>)
        ensures
            r == Self::from_code(c),
    {
        match c {
            1 => Some(DHCPMessageType::DHCPDISCOVER),
            2 => Some(DHCPMessageType::DHCPOFFER),
            3 => Some(DHCPMessageType::DHCPREQUEST),
            4 => Some(DHCPMessageType::DHCPDECLINE),
            5 => Some(DHCPMessageType::DHCPACK),
            6 => Some(DHCPMessageType::DHCPNAK),
            7 => Some(DHCPMessageType::DHCPRELEASE),
            _ => None,
        }
    }
}

} // verus!
