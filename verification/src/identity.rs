//! The identity of the program: the one address under which it is deployed
//! and by which a caller names it.

use vstd::prelude::*;
use crate::address::Address;

verus! {

/// The bytes of the program's address. Written in base58 they read
/// `2xoAoRGcm47pSQZShj5muH8b763iyREz388bw2YGQS6L`.
pub const ID_BYTES: [u8; 32] = [
    0x1d, 0x26, 0xd5, 0xb8, 0x8f, 0x62, 0xce, 0x9b,
    0x68, 0xbb, 0xa8, 0x2c, 0x6f, 0x30, 0xa7, 0x32,
    0x23, 0xd2, 0xc9, 0x2f, 0x3a, 0xd7, 0x97, 0x23,
    0x18, 0x6d, 0x12, 0x55, 0x4b, 0xe8, 0xb6, 0xe1,
];

/// The program's address, as its bytes.
pub open spec fn declared_id() -> Seq<u8> {
    ID_BYTES@
}

/// The program's address.
pub fn id() -> (id: Address)
    ensures
        id@ == declared_id(),
{
    Address::new_from_array(ID_BYTES)
}

/// Whether `id` is the program's address.
pub fn check_id(id: &Address) -> (same: bool)
    ensures
        same == (id@ == declared_id()),
{
    *id == self::id()
}

} // verus!
