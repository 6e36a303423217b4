//! Why a packet, or a value offered to the codec, is turned down.

use vstd::prelude::*;

verus! {

/// The reasons for which the core refuses to answer a packet or to build a
/// value. Every failure is returned as one of these; nothing here panics.
#[derive(Clone, Copy, Debug, PartialEq, Eq, Structural)]
pub enum RejectReason {
    /// The input buffer is shorter than the fixed wire size of a packet.
    TruncatedPacket,
    /// The vendor magic cookie is not the DHCP cookie.
    BadVendorMagic,
    /// The request carries no message type, or one outside the known range.
    UnknownMessageType,
    /// The message type option does not hold exactly one byte.
    MalformedMessageTypeOption,
    /// The message type is known, but this server does not answer it.
    UnsupportedMessageType,
    /// A configured name does not fit in its fixed-size packet field.
    FieldTooLong,
    /// An option value is longer than a one-byte length can announce.
    ValueTooLong,
}

impl RejectReason {
    /// The text that `message` returns for each reason.
    pub open spec fn text(self) -> Seq<char> {
        match self {
            RejectReason::TruncatedPacket => "packet shorter than the wire size"@,
            RejectReason::BadVendorMagic => "Bad Vendor magic value"@,
            RejectReason::UnknownMessageType => "unknown message type"@,
            RejectReason::MalformedMessageTypeOption => "malformed DHCPMessageType option"@,
            RejectReason::UnsupportedMessageType => "cannot handle request for type"@,
            RejectReason::FieldTooLong => "name too long for its packet field"@,
            RejectReason::ValueTooLong => "vendor data too long"@,
        }
    }

    /// A short human-readable description, for diagnostics.
    pub fn message(&self) -> (s: &'static str)
        ensures
            s@ == self.text(),
    {
        match self {
            RejectReason::TruncatedPacket => "packet shorter than the wire size",
            RejectReason::BadVendorMagic => "Bad Vendor magic value",
            RejectReason::UnknownMessageType => "unknown message type",
            RejectReason::MalformedMessageTypeOption => "malformed DHCPMessageType option",
            RejectReason::UnsupportedMessageType => "cannot handle request for type",
            RejectReason::FieldTooLong => "name too long for its packet field",
            RejectReason::ValueTooLong => "vendor data too long",
        }
    }
}

} // verus!
