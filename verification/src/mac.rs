//! Hardware addresses, as the `mac_address` crate represents them.
//!
//! The crate's `MacAddress` is a small value type around six octets. The
//! declarations below are believed, not proved: they say of
//! `MacAddress::new` what its source shows.

use mac_address::MacAddress;
use vstd::prelude::*;

verus! {

/// `mac_address::MacAddress`, taken as an opaque value.
#[verifier::external_type_specification]
#[verifier::external_body]
pub struct ExMacAddress(MacAddress);

/// The six octets that a hardware address holds, in transmission order:
/// what `MacAddress::bytes` hands out.
pub uninterp spec fn mac_octets(mac: MacAddress) -> Seq<u8>;

/// `MacAddress::new` stores the six octets it is given, unchanged and in
/// the same order. It cannot fail.
pub assume_specification[ MacAddress::new ](bytes: [u8; 6]) -> (mac: MacAddress)
    ensures
        mac_octets(mac) == bytes@,
;

} // verus!
