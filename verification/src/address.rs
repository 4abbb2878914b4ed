//! Addresses: the 32-byte values that name programs and accounts.

use vstd::prelude::*;

verus! {

/// The address of a program or an account: 32 bytes.
#[derive(Clone, Copy, Debug, Eq)]
pub struct Address {
    bytes: [u8; 32],
}

impl View for Address {
    type V = Seq<u8>;

    closed spec fn view(&self) -> Seq<u8> {
        self.bytes@
    }
}

/// The written form of the address with the bytes `bytes`: the text that an
/// `anchor_lang::prelude::Pubkey` of these bytes gives when it is formatted
/// with `{:?}`. That type writes itself in base58.
pub uninterp spec fn address_text(bytes: Seq<u8>) -> Seq<char>;

/// Makes the `anchor_lang::prelude::Pubkey` of these bytes with
/// `Pubkey::new_from_array` and formats it with `{:?}`, that is, through the
/// `Debug` impl of that type. The contract only gives the text its name,
/// `address_text`: the same bytes give the same text. What the text is, it
/// does not say.
#[verifier::external_body]
fn format_address(bytes: &[u8; 32]) -> (text: String)
    ensures
        text@ == address_text(bytes@),
{
    format!("{:?}", anchor_lang::prelude::Pubkey::new_from_array(*bytes))
}

impl Address {
    /// The address with the given bytes.
    pub fn new_from_array(bytes: [u8; 32]) -> (address: Address)
        ensures
            address@ == bytes@,
    {
        Address { bytes }
    }

    /// The bytes of the address.
    pub fn to_bytes(&self) -> (bytes: [u8; 32])
        ensures
            bytes@ == self@,
    {
        self.bytes
    }

    /// The written form of the address.
    pub fn to_text(&self) -> (text: String)
        ensures
            text@ == address_text(self@),
    {
        format_address(&self.bytes)
    }

    /// An address has 32 bytes, and two addresses with the same bytes are the
    /// same address.
    pub proof fn lemma_bytes(self, other: Address)
        ensures
            self@.len() == 32,
            self@ == other@ <==> self == other,
    {
        if self@ == other@ {
            assert(self.bytes =~= other.bytes);
        }
    }
}

impl PartialEq for Address {
    /// Two addresses are equal when their bytes are.
    fn eq(&self, other: &Address) -> (equal: bool) {
        let mut i: usize = 0;
        while i < 32
            invariant
                i <= 32,
                forall|j: int| 0 <= j < i ==> self.bytes@[j] == other.bytes@[j],
            decreases 32 - i,
        {
            if self.bytes[i] != other.bytes[i] {
                return false;
            }
            i += 1;
        }
        assert(self.bytes@ =~= other.bytes@);
        true
    }
}

impl vstd::std_specs::cmp::PartialEqSpecImpl for Address {
    open spec fn obeys_eq_spec() -> bool {
        true
    }

    open spec fn eq_spec(&self, other: &Address) -> bool {
        self@ == other@
    }
}

} // verus!
