//! The identity deriver.
//!
//! Every escrow instance lives at two derived addresses: the record at
//! one computed under the `escrow_state` prefix, its custody slot at one
//! computed under the `escrow_wallet` prefix, both from the (sender,
//! receiver, deposit-index) triple.  The derivation also yields a small
//! authorization tag ("bump") found by bounded search; the tag is stored
//! at creation and re-verified on every later operation.

use vstd::prelude::*;
use crate::errors::ErrorCode;

verus! {

/// The role prefix of record addresses: the bytes of `escrow_state`.
pub open spec fn state_seed() -> Seq<u8> {
    seq![101u8, 115u8, 99u8, 114u8, 111u8, 119u8, 95u8, 115u8, 116u8, 97u8, 116u8, 101u8]
}

/// The role prefix of custody-slot addresses: the bytes of `escrow_wallet`.
pub open spec fn wallet_seed() -> Seq<u8> {
    seq![
        101u8,
        115u8,
        99u8,
        114u8,
        111u8,
        119u8,
        95u8,
        119u8,
        97u8,
        108u8,
        108u8,
        101u8,
        116u8,
    ]
}

/// The record role prefix as bytes.
pub fn state_seed_bytes() -> (r: Vec<u8>)
    ensures
        r@ == state_seed(),
{
    let mut v: Vec<u8> = Vec::new();
    v.push(101);
    v.push(115);
    v.push(99);
    v.push(114);
    v.push(111);
    v.push(119);
    v.push(95);
    v.push(115);
    v.push(116);
    v.push(97);
    v.push(116);
    v.push(101);
    proof {
        assert(v@ =~= state_seed());
    }
    v
}

/// The custody-slot role prefix as bytes.
pub fn wallet_seed_bytes() -> (r: Vec<u8>)
    ensures
        r@ == wallet_seed(),
{
    let mut v: Vec<u8> = Vec::new();
    v.push(101);
    v.push(115);
    v.push(99);
    v.push(114);
    v.push(111);
    v.push(119);
    v.push(95);
    v.push(119);
    v.push(97);
    v.push(108);
    v.push(108);
    v.push(101);
    v.push(116);
    proof {
        assert(v@ =~= wallet_seed());
    }
    v
}

// What the bump search returns for the seed list [prefix, sender,
// receiver, little-endian index] under a given program identity: `None`
// when no authorization tag in the search space yields a valid derived
// address, otherwise the derived address bytes and the tag.  The search
// is a pure function of these five inputs.
pub uninterp spec fn pda_of(
    prefix: Seq<u8>,
    sender: Seq<u8>,
    receiver: Seq<u8>,
    index: u64,
    program: Seq<u8>,
) -> Option<(Seq<u8>, u8)>;

/// Whether the bounded search finds a valid derived address at all.
pub open spec fn pda_found(
    prefix: Seq<u8>,
    sender: Seq<u8>,
    receiver: Seq<u8>,
    index: u64,
    program: Seq<u8>,
) -> bool {
    pda_of(prefix, sender, receiver, index, program) is Some
}

/// The canonical derived address of the tuple.
pub open spec fn pda_address(
    prefix: Seq<u8>,
    sender: Seq<u8>,
    receiver: Seq<u8>,
    index: u64,
    program: Seq<u8>,
) -> Seq<u8> {
    (pda_of(prefix, sender, receiver, index, program)->Some_0).0
}

/// The canonical authorization tag of the tuple.
pub open spec fn pda_bump(
    prefix: Seq<u8>,
    sender: Seq<u8>,
    receiver: Seq<u8>,
    index: u64,
    program: Seq<u8>,
) -> u8 {
    (pda_of(prefix, sender, receiver, index, program)->Some_0).1
}

/// Relies on `Pubkey::try_find_program_address` (reached through
/// anchor_lang's `solana_program` re-export): it searches authorization
/// tags from the highest down, derives a candidate address for each by
/// hashing the seeds, and returns the first valid one with its tag, or
/// `None` when the bounded search space is exhausted.  Off chain the
/// search is computed inline from the seed bytes and the program
/// identity alone, so its outcome is a function of this wrapper's
/// arguments.
#[verifier::external_body]
pub(crate) fn find_pda(
    prefix: &[u8],
    sender: &[u8; 32],
    receiver: &[u8; 32],
    index: u64,
    program: &[u8; 32],
) -> (r: Option<([u8; 32], u8)>)
    ensures
        r is Some <==> pda_of(prefix@, sender@, receiver@, index, program@) is Some,
        r matches Some(p) ==> pda_of(prefix@, sender@, receiver@, index, program@) == Some(
            (p.0@, p.1),
        ),
{
    let program_id = anchor_lang::solana_program::pubkey::Pubkey::new_from_array(*program);
    let index_bytes = index.to_le_bytes();
    anchor_lang::solana_program::pubkey::Pubkey::try_find_program_address(
        &[prefix, sender.as_ref(), receiver.as_ref(), index_bytes.as_ref()],
        &program_id,
    ).map(|(address, bump)| (address.to_bytes(), bump))
}

/// Computes the canonical derived address and authorization tag of one
/// role prefix and one (sender, receiver, deposit-index) triple under
/// `program`.  Fails with `DerivationExhausted` exactly when no tag in
/// the bounded search space yields a valid address.
pub fn derive_identity(
    prefix: &[u8],
    sender: &[u8; 32],
    receiver: &[u8; 32],
    index: u64,
    program: &[u8; 32],
) -> (r: Result<([u8; 32], u8), ErrorCode>)
    ensures
        r is Ok <==> pda_found(prefix@, sender@, receiver@, index, program@),
        r matches Ok(p) ==> p.0@ == pda_address(prefix@, sender@, receiver@, index, program@)
            && p.1 == pda_bump(prefix@, sender@, receiver@, index, program@),
        r matches Err(e) ==> e == ErrorCode::DerivationExhausted,
{
    match find_pda(prefix, sender, receiver, index, program) {
        Some(p) => Ok(p),
        None => Err(ErrorCode::DerivationExhausted),
    }
}

} // verus!
