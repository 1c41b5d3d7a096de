//! Where the record of a subscription is stored: an address derived from the
//! parties and the label, so that no table of records is needed.

use vstd::prelude::*;
use vstd::slice::slice_to_vec;
use vstd::utf8::encode_utf8;
use anchor_lang::prelude::Pubkey;
use crate::account::AccountId;
use crate::record::{label_fits, EscrowSlot, MAX_SUBSCRIPTION_ID_LEN};

verus! {

/// The address that the host ledger derives for a program from a list of
/// seeds, with the bump that goes with it, or `None` where it derives none:
/// what `Pubkey::try_find_program_address` returns.
pub uninterp spec fn program_address(seeds: Seq<Seq<u8>>, program_id: Seq<u8>) -> Option<
    (Seq<u8>, u8),
>;

/// The tag that sets escrow addresses apart: the bytes of the word `escrow`.
pub open spec fn escrow_tag() -> Seq<u8> {
    seq![101u8, 115u8, 99u8, 114u8, 111u8, 119u8]
}

/// The seeds of an escrow address: the tag, the buyer, the seller and the
/// bytes of the label.
pub open spec fn escrow_seeds(buyer: Seq<u8>, seller: Seq<u8>, subscription_id: Seq<char>) -> Seq<
    Seq<u8>,
> {
    seq![escrow_tag(), buyer, seller, encode_utf8(subscription_id)]
}

/// The address, with its bump, of the escrow account of a subscription under
/// the program `program_id`. A label that does not fit a record has none.
pub open spec fn escrow_address(
    program_id: Seq<u8>,
    buyer: Seq<u8>,
    seller: Seq<u8>,
    subscription_id: Seq<char>,
) -> Option<(Seq<u8>, u8)> {
    if label_fits(subscription_id) {
        program_address(escrow_seeds(buyer, seller, subscription_id), program_id)
    } else {
        None
    }
}

/// Calls `Pubkey::try_find_program_address` of solana_program, as anchor_lang
/// hands it on. Believed of it, not proved: what it returns is a function of
/// the seeds and the program's identifier alone.
#[verifier::external_body]
pub(crate) fn try_find_program_address(seeds: &Vec<Vec<u8>>, program_id: &AccountId) -> (r: Option<
    (AccountId, u8),
>)
    ensures
        match r {
            Some((key, bump)) => program_address(seeds.deep_view(), program_id@) == Some(
                (key@, bump),
            ),
            None => program_address(seeds.deep_view(), program_id@) is None,
        },
{
    let slices: Vec<&[u8]> = seeds.iter().map(|seed| seed.as_slice()).collect();
    let program = Pubkey::new_from_array(program_id.bytes);
    match Pubkey::try_find_program_address(&slices, &program) {
        Some((key, bump)) => Some((AccountId { bytes: key.to_bytes() }, bump)),
        None => None,
    }
}

/// Derives the address of the escrow account of the subscription labelled
/// `subscription_id` between `buyer` and `seller`, under the program
/// `program_id`. The same four values always give the same address.
pub fn find_escrow_address(
    program_id: &AccountId,
    buyer: &AccountId,
    seller: &AccountId,
    subscription_id: &str,
) -> (r: Option<(AccountId, u8)>)
    ensures
        match r {
            Some((key, bump)) => escrow_address(program_id@, buyer@, seller@, subscription_id@)
                == Some((key@, bump)),
            None => escrow_address(program_id@, buyer@, seller@, subscription_id@) is None,
        },
{
    let label = subscription_id.as_bytes();
    if label.len() > MAX_SUBSCRIPTION_ID_LEN {
        return None;
    }
    let mut seeds: Vec<Vec<u8>> = Vec::new();
    seeds.push(vec![101u8, 115u8, 99u8, 114u8, 111u8, 119u8]);
    seeds.push(slice_to_vec(buyer.bytes.as_slice()));
    seeds.push(slice_to_vec(seller.bytes.as_slice()));
    seeds.push(slice_to_vec(label));
    assert(seeds.deep_view() =~~= escrow_seeds(buyer@, seller@, subscription_id@));
    try_find_program_address(&seeds, program_id)
}

impl EscrowSlot {
    /// Whether the account is at the address that a derivation gave.
    pub fn is_at(&self, derived: &Option<(AccountId, u8)>) -> (r: bool)
        ensures
            r == (derived is Some && derived.unwrap().0@ == self.key@),
    {
        match derived {
            Some((key, _)) => self.key == *key,
            None => false,
        }
    }
}

} // verus!
