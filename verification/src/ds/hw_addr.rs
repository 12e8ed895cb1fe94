//! Hardware and network addresses as fixed-size byte arrays.

use crate::err::Error;
use vstd::prelude::*;

verus! {

/// Length of an Ethernet address in bytes.
pub const ETHERNET_ADDRESS_LENGTH: usize = 6;

/// An Ethernet address.
pub type EthernetAddress = [u8; 6];

/// Length of an IPv4 address in bytes.
pub const IPV4_ADDRESS_LENGTH: usize = 4;

/// An IPv4 address.
pub type IPv4Address = [u8; 4];

/// Length in bytes of what an IPv6 match field carries.
pub const IPV6_ADDRESS_LENGTH: usize = 8;

/// The bytes of an IPv6 match field.
pub type IPv6Address = [u8; 8];

/// The six bytes of `b` from offset `i` on, as an Ethernet address.
pub open spec fn spec_eth(b: Seq<u8>, i: int) -> EthernetAddress {
    [b[i], b[i + 1], b[i + 2], b[i + 3], b[i + 4], b[i + 5]]
}

/// The four bytes of `b` from offset `i` on, as an IPv4 address.
pub open spec fn spec_v4(b: Seq<u8>, i: int) -> IPv4Address {
    [b[i], b[i + 1], b[i + 2], b[i + 3]]
}

/// The eight bytes of `b` from offset `i` on, as an IPv6 field.
pub open spec fn spec_v6(b: Seq<u8>, i: int) -> IPv6Address {
    [b[i], b[i + 1], b[i + 2], b[i + 3], b[i + 4], b[i + 5], b[i + 6], b[i + 7]]
}

/// What a slice gives as an Ethernet address: its six bytes, or
/// `InvalidSliceLength` where it has another length.
pub open spec fn spec_from_slice_eth(s: Seq<u8>) -> Result<EthernetAddress, Error> {
    if s.len() != 6 {
        Err(Error::InvalidSliceLength(6, s.len() as usize, "EthernetAddress"))
    } else {
        Ok(spec_eth(s, 0))
    }
}

/// What a slice gives as an IPv4 address: its four bytes, or
/// `InvalidSliceLength` where it has another length.
pub open spec fn spec_from_slice_v4(s: Seq<u8>) -> Result<IPv4Address, Error> {
    if s.len() != 4 {
        Err(Error::InvalidSliceLength(4, s.len() as usize, "IPv4Address"))
    } else {
        Ok(spec_v4(s, 0))
    }
}

/// What a slice gives as an IPv6 field: its eight bytes, or
/// `InvalidSliceLength` where it has another length.
pub open spec fn spec_from_slice_v6(s: Seq<u8>) -> Result<IPv6Address, Error> {
    if s.len() != 8 {
        Err(Error::InvalidSliceLength(8, s.len() as usize, "IPv6Address"))
    } else {
        Ok(spec_v6(s, 0))
    }
}

/// Copies a slice of exactly six bytes into an Ethernet address.
pub fn from_slice_eth(slice: &[u8]) -> (res: Result<EthernetAddress, Error>)
    ensures
        res == spec_from_slice_eth(slice@),
        res matches Ok(a) ==> a@ == slice@,
{
    if slice.len() != ETHERNET_ADDRESS_LENGTH {
        return Err(
            Error::InvalidSliceLength(ETHERNET_ADDRESS_LENGTH, slice.len(), "EthernetAddress"),
        );
    }
    let addr: EthernetAddress = [slice[0], slice[1], slice[2], slice[3], slice[4], slice[5]];
    assert(addr =~= spec_eth(slice@, 0));
    assert(addr@ =~= slice@);
    Ok(addr)
}

/// Copies a slice of exactly four bytes into an IPv4 address.
pub fn from_slice_v4(slice: &[u8]) -> (res: Result<IPv4Address, Error>)
    ensures
        res == spec_from_slice_v4(slice@),
        res matches Ok(a) ==> a@ == slice@,
{
    if slice.len() != IPV4_ADDRESS_LENGTH {
        return Err(Error::InvalidSliceLength(IPV4_ADDRESS_LENGTH, slice.len(), "IPv4Address"));
    }
    let addr: IPv4Address = [slice[0], slice[1], slice[2], slice[3]];
    assert(addr =~= spec_v4(slice@, 0));
    assert(addr@ =~= slice@);
    Ok(addr)
}

/// Copies a slice of exactly eight bytes into an IPv6 field.
pub fn from_slice_v6(slice: &[u8]) -> (res: Result<IPv6Address, Error>)
    ensures
        res == spec_from_slice_v6(slice@),
        res matches Ok(a) ==> a@ == slice@,
{
    if slice.len() != IPV6_ADDRESS_LENGTH {
        return Err(Error::InvalidSliceLength(IPV6_ADDRESS_LENGTH, slice.len(), "IPv6Address"));
    }
    let addr: IPv6Address = [
        slice[0],
        slice[1],
        slice[2],
        slice[3],
        slice[4],
        slice[5],
        slice[6],
        slice[7],
    ];
    assert(addr =~= spec_v6(slice@, 0));
    assert(addr@ =~= slice@);
    Ok(addr)
}

} // verus!
