//! Account addresses: thirty-two opaque bytes naming a principal, a token account or a program.

use anchor_lang::prelude::Pubkey;
use vstd::prelude::*;

verus! {

/// Number of bytes in an address.
pub const ADDRESS_BYTES: usize = 32;

/// The identity of an account on the ledger.
#[derive(Clone, Copy, Debug)]
pub struct Address {
    pub bytes: [u8; 32],
}

impl View for Address {
    type V = Seq<u8>;

    open spec fn view(&self) -> Seq<u8> {
        self.bytes@
    }
}

impl Address {
    /// Two addresses with the same bytes are the same address.
    pub proof fn lemma_view_injective(a: Address, b: Address)
        ensures
            a@ == b@ <==> a == b,
            a@.len() == ADDRESS_BYTES,
    {
        if a@ == b@ {
            assert forall|i: int| 0 <= i < 32 implies a.bytes[i] == b.bytes[i] by {
                assert(a.bytes[i] == a@[i]);
                assert(b.bytes[i] == b@[i]);
            }
            assert(a.bytes =~= b.bytes);
        }
    }
}

impl PartialEq for Address {
    fn eq(&self, other: &Address) -> (r: bool) {
        let mut i: usize = 0;
        while i < 32
            invariant
                i <= 32,
                forall|j: int| 0 <= j < i ==> self.bytes[j] == other.bytes[j],
            decreases 32 - i,
        {
            if self.bytes[i] != other.bytes[i] {
                return false;
            }
            i = i + 1;
        }
        assert(self@ =~= other@);
        true
    }
}

impl Eq for Address {

}

impl vstd::std_specs::cmp::PartialEqSpecImpl for Address {
    open spec fn obeys_eq_spec() -> bool {
        true
    }

    open spec fn eq_spec(&self, other: &Address) -> bool {
        self@ == other@
    }
}

/// The tag that sets trading records apart among the addresses derived for a program: the
/// seven letters of the word "trading".
pub const TRADING_SEED: [u8; 7] = [0x74, 0x72, 0x61, 0x64, 0x69, 0x6e, 0x67];

/// The address that `Pubkey::create_program_address` derives for the program `program_id`
/// from the three seeds `tag`, `owner` and the single byte `bump`, in this order; `None`
/// where it derives none.
pub uninterp spec fn program_address(
    tag: Seq<u8>,
    owner: Seq<u8>,
    bump: u8,
    program_id: Seq<u8>,
) -> Option<Seq<u8>>;

/// The address and bump seed that `Pubkey::try_find_program_address` finds for the program
/// `program_id` from the two seeds `tag` and `owner`, in this order; `None` where it finds
/// none.
pub uninterp spec fn found_program_address(tag: Seq<u8>, owner: Seq<u8>, program_id: Seq<u8>) -> Option<
    (Seq<u8>, u8),
>;

/// An optional address as optional bytes.
pub open spec fn address_bytes(address: Option<Address>) -> Option<Seq<u8>> {
    match address {
        Some(address) => Some(address@),
        None => None,
    }
}

/// An optional pair of address and bump seed, the address as bytes.
pub open spec fn found_bytes(found: Option<(Address, u8)>) -> Option<(Seq<u8>, u8)> {
    match found {
        Some((address, bump)) => Some((address@, bump)),
        None => None,
    }
}

/// Calls `Pubkey::create_program_address` with the seeds `tag`, `owner` and `[bump]`. The
/// outcome is a function of the four arguments alone and is known here only by its name;
/// an error of the outside function, which it gives for a seed that is too long and for
/// derived bytes that lie on the curve, comes back as `None`.
#[verifier::external_body]
fn create_program_address(tag: &[u8], owner: &Address, bump: u8, program_id: &Address) -> (address:
    Option<Address>)
    ensures
        address_bytes(address) == program_address(tag@, owner@, bump, program_id@),
{
    let salt = [bump];
    let seeds: [&[u8]; 3] = [tag, &owner.bytes, &salt];
    match Pubkey::create_program_address(&seeds, &Pubkey::new_from_array(program_id.bytes)) {
        Ok(key) => Some(Address { bytes: key.to_bytes() }),
        Err(_) => None,
    }
}

/// Calls `Pubkey::try_find_program_address` with the seeds `tag` and `owner`. The outcome
/// is a function of the three arguments alone and is known here by its name, and by what
/// the outside function is documented for: the address it finds is the one that
/// `Pubkey::create_program_address` derives from the same seeds followed by the bump seed
/// it found.
#[verifier::external_body]
fn try_find_program_address(tag: &[u8], owner: &Address, program_id: &Address) -> (found: Option<
    (Address, u8),
>)
    ensures
        found_bytes(found) == found_program_address(tag@, owner@, program_id@),
        found matches Some((address, bump)) ==> program_address(tag@, owner@, bump, program_id@)
            == Some(address@),
{
    let seeds: [&[u8]; 2] = [tag, &owner.bytes];
    match Pubkey::try_find_program_address(&seeds, &Pubkey::new_from_array(program_id.bytes)) {
        Some((key, bump)) => Some((Address { bytes: key.to_bytes() }, bump)),
        None => None,
    }
}

/// The address of `owner`'s trading record under the program `program_id`, derived with
/// the salt `bump`; `None` where that salt gives no valid address.
pub open spec fn trading_address(owner: Seq<u8>, bump: u8, program_id: Seq<u8>) -> Option<Seq<u8>> {
    program_address(TRADING_SEED@, owner, bump, program_id)
}

/// The address and salt chosen for `owner`'s trading record under the program `program_id`
/// when it is created; `None` where no salt gives a valid address.
pub open spec fn found_trading_address(owner: Seq<u8>, program_id: Seq<u8>) -> Option<(Seq<u8>, u8)> {
    found_program_address(TRADING_SEED@, owner, program_id)
}

/// Finds where `owner`'s trading record lives under the program `program_id`, and the salt
/// to store in it. The address depends on nothing but the tag, the owner and the program,
/// and it is the address that the salt reproduces.
pub fn find_trading_address(owner: &Address, program_id: &Address) -> (found: Option<(Address, u8)>)
    ensures
        found_bytes(found) == found_trading_address(owner@, program_id@),
        found matches Some((address, bump)) ==> trading_address(owner@, bump, program_id@) == Some(
            address@,
        ),
{
    try_find_program_address(TRADING_SEED.as_slice(), owner, program_id)
}

/// Derives the address of `owner`'s trading record under the program `program_id` from
/// the salt `bump`, without searching.
pub fn create_trading_address(owner: &Address, bump: u8, program_id: &Address) -> (address: Option<
    Address,
>)
    ensures
        address_bytes(address) == trading_address(owner@, bump, program_id@),
{
    create_program_address(TRADING_SEED.as_slice(), owner, bump, program_id)
}

} // verus!
