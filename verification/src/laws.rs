//! The laws of the escrow lifecycle, proved once over the transition
//! functions that the executable operations are bound to.

use vstd::prelude::*;
use crate::errors::ErrorCode;
use crate::escrow::{close_spec, deposit_spec, refund_spec, release_spec, settle_spec, state_addr,
    state_found, state_tag, validate_spec, wallet_addr, wallet_found, wallet_tag, EscrowView};

verus! {

/// A deposit followed immediately by a release, with the canonical tags
/// and the exact amount, succeeds and moves exactly `amount`: the
/// sender's balance drops by it, the receiver's rises by it, and the
/// custody slot is left empty.  Holds for distinct parties that both
/// hold accounts, a fresh triple whose addresses derive, a sufficient
/// sender balance, and a receiver balance the credit cannot overflow.
pub proof fn lemma_deposit_then_release(
    pre: EscrowView,
    sender: [u8; 32],
    receiver: [u8; 32],
    index: u64,
    amount: u64,
)
    requires
        state_found(pre.program, sender, receiver, index),
        wallet_found(pre.program, sender, receiver, index),
        !pre.records.contains_key(state_addr(pre.program, sender, receiver, index)),
        !pre.balances.contains_key(wallet_addr(pre.program, sender, receiver, index)),
        pre.balances.contains_key(sender@),
        pre.balances.contains_key(receiver@),
        pre.balances[sender@] >= amount,
        pre.balances[receiver@] + amount <= u64::MAX,
        sender@ != receiver@,
    ensures
        ({
            let (s1, r1) = deposit_spec(pre, sender, receiver, index, amount);
            let (s2, r2) = release_spec(
                s1,
                sender,
                receiver,
                index,
                amount,
                state_tag(pre.program, sender, receiver, index),
                wallet_tag(pre.program, sender, receiver, index),
            );
            &&& r1 == Ok::<(), ErrorCode>(())
            &&& r2 == Ok::<(), ErrorCode>(())
            &&& s2.balances[sender@] == pre.balances[sender@] - amount
            &&& s2.balances[receiver@] == pre.balances[receiver@] + amount
            &&& s2.balances[wallet_addr(pre.program, sender, receiver, index)] == 0
        }),
{
    let sa = state_addr(pre.program, sender, receiver, index);
    let wa = wallet_addr(pre.program, sender, receiver, index);
    let (s1, r1) = deposit_spec(pre, sender, receiver, index, amount);
    assert(wa != sender@);
    assert(wa != receiver@);
    assert(s1.balances[wa] == amount);
    assert(s1.balances[receiver@] == pre.balances[receiver@]);
    let rec = s1.records[sa];
    assert(rec.sender == sender && rec.receiver == receiver);
    let (s2, r2) = release_spec(
        s1,
        sender,
        receiver,
        index,
        amount,
        state_tag(pre.program, sender, receiver, index),
        wallet_tag(pre.program, sender, receiver, index),
    );
    assert(r2 == Ok::<(), ErrorCode>(()));
}

/// A release or refund whose claimed amount differs from the amount the
/// record committed fails with `InvalidAmount`, and nothing moves.
/// Holds whenever the caller's tags and parties do locate the record —
/// a forged tag is rejected earlier, with an address-mismatch error.
pub proof fn lemma_mismatched_amount_rejected(
    pre: EscrowView,
    sender: [u8; 32],
    receiver: [u8; 32],
    index: u64,
    claimed_amount: u64,
    state_tag_c: u8,
    wallet_tag_c: u8,
)
    requires
        validate_spec(pre, sender, receiver, index, state_tag_c, wallet_tag_c) is Ok,
        (validate_spec(pre, sender, receiver, index, state_tag_c, wallet_tag_c)->Ok_0).amount
            != claimed_amount,
    ensures
        release_spec(pre, sender, receiver, index, claimed_amount, state_tag_c, wallet_tag_c) == (
            pre,
            Err::<(), ErrorCode>(ErrorCode::InvalidAmount),
        ),
        refund_spec(pre, sender, receiver, index, claimed_amount, state_tag_c, wallet_tag_c) == (
            pre,
            Err::<(), ErrorCode>(ErrorCode::InvalidAmount),
        ),
{
}

/// A forged or stale record tag — one that does not re-derive the
/// record's canonical address — is rejected with `InvalidStateAddress`
/// on both terminal paths, and nothing moves.
pub proof fn lemma_forged_state_tag_rejected(
    pre: EscrowView,
    sender: [u8; 32],
    receiver: [u8; 32],
    index: u64,
    claimed_amount: u64,
    state_tag_c: u8,
    wallet_tag_c: u8,
)
    requires
        !state_found(pre.program, sender, receiver, index) || state_tag_c != state_tag(
            pre.program,
            sender,
            receiver,
            index,
        ),
    ensures
        release_spec(pre, sender, receiver, index, claimed_amount, state_tag_c, wallet_tag_c) == (
            pre,
            Err::<(), ErrorCode>(ErrorCode::InvalidStateAddress),
        ),
        refund_spec(pre, sender, receiver, index, claimed_amount, state_tag_c, wallet_tag_c) == (
            pre,
            Err::<(), ErrorCode>(ErrorCode::InvalidStateAddress),
        ),
{
}

/// A forged or stale custody tag — one that does not match the
/// re-derived custody tag or the tag the record stored — is rejected
/// with `InvalidWalletBump` on both terminal paths, and nothing moves.
pub proof fn lemma_forged_wallet_tag_rejected(
    pre: EscrowView,
    sender: [u8; 32],
    receiver: [u8; 32],
    index: u64,
    claimed_amount: u64,
    wallet_tag_c: u8,
)
    requires
        state_found(pre.program, sender, receiver, index),
        pre.records.contains_key(state_addr(pre.program, sender, receiver, index)),
        pre.records[state_addr(pre.program, sender, receiver, index)].sender@ == sender@,
        pre.records[state_addr(pre.program, sender, receiver, index)].receiver@ == receiver@,
        !wallet_found(pre.program, sender, receiver, index) || wallet_tag_c != wallet_tag(
            pre.program,
            sender,
            receiver,
            index,
        ) || pre.records[state_addr(pre.program, sender, receiver, index)].wallet_bump
            != wallet_tag_c,
    ensures
        ({
            let canonical = state_tag(pre.program, sender, receiver, index);
            release_spec(pre, sender, receiver, index, claimed_amount, canonical, wallet_tag_c) == (
                pre,
                Err::<(), ErrorCode>(ErrorCode::InvalidWalletBump),
            ) && refund_spec(pre, sender, receiver, index, claimed_amount, canonical, wallet_tag_c)
                == (pre, Err::<(), ErrorCode>(ErrorCode::InvalidWalletBump))
        }),
{
}

/// Releasing the same escrow twice: the second call finds the record
/// already settled, fails, and credits the receiver nothing more — the
/// state after the failed second call is exactly the state after the
/// first.
pub proof fn lemma_release_twice_rejected(
    pre: EscrowView,
    sender: [u8; 32],
    receiver: [u8; 32],
    index: u64,
    amount: u64,
    state_tag_c: u8,
    wallet_tag_c: u8,
)
    requires
        release_spec(pre, sender, receiver, index, amount, state_tag_c, wallet_tag_c).1 == Ok::<
            (),
            ErrorCode,
        >(()),
    ensures
        ({
            let (s1, _) = release_spec(pre, sender, receiver, index, amount, state_tag_c, wallet_tag_c);
            release_spec(s1, sender, receiver, index, amount, state_tag_c, wallet_tag_c) == (
                s1,
                Err::<(), ErrorCode>(ErrorCode::AlreadySettled),
            )
        }),
{
}

/// Closing an escrow that has seen neither release nor refund is
/// rejected: the record is still `Created` and its custody slot still
/// holds the committed amount.  Nothing is removed.
pub proof fn lemma_close_before_settle_rejected(
    pre: EscrowView,
    sender: [u8; 32],
    receiver: [u8; 32],
    index: u64,
    state_tag_c: u8,
    wallet_tag_c: u8,
)
    requires
        validate_spec(pre, sender, receiver, index, state_tag_c, wallet_tag_c) is Ok,
        (validate_spec(pre, sender, receiver, index, state_tag_c, wallet_tag_c)->Ok_0).status
            is Created,
    ensures
        close_spec(pre, sender, receiver, index, state_tag_c, wallet_tag_c) == (
            pre,
            Err::<(), ErrorCode>(ErrorCode::CustodyNotEmpty),
        ),
{
}

/// Depositing the same (sender, receiver, index) triple twice: the
/// second deposit finds the record address occupied, fails, and leaves
/// the first escrow's record and funds exactly as they were.
pub proof fn lemma_deposit_twice_rejected(
    pre: EscrowView,
    sender: [u8; 32],
    receiver: [u8; 32],
    index: u64,
    amount: u64,
    second_amount: u64,
)
    requires
        deposit_spec(pre, sender, receiver, index, amount).1 == Ok::<(), ErrorCode>(()),
    ensures
        ({
            let (s1, _) = deposit_spec(pre, sender, receiver, index, amount);
            deposit_spec(s1, sender, receiver, index, second_amount) == (
                s1,
                Err::<(), ErrorCode>(ErrorCode::AccountAlreadyExists),
            )
        }),
{
}

/// An escrow settles exactly once: after one successful terminal
/// operation — release or refund — every further terminal operation on
/// it, on either path, fails with `AlreadySettled` and moves nothing.
pub proof fn lemma_settle_twice_rejected(
    pre: EscrowView,
    sender: [u8; 32],
    receiver: [u8; 32],
    index: u64,
    amount: u64,
    state_tag_c: u8,
    wallet_tag_c: u8,
    first_to_receiver: bool,
    second_to_receiver: bool,
)
    requires
        settle_spec(pre, sender, receiver, index, amount, state_tag_c, wallet_tag_c,
            first_to_receiver).1 == Ok::<(), ErrorCode>(()),
    ensures
        ({
            let (s1, _) = settle_spec(pre, sender, receiver, index, amount, state_tag_c,
                wallet_tag_c, first_to_receiver);
            settle_spec(s1, sender, receiver, index, amount, state_tag_c, wallet_tag_c,
                second_to_receiver) == (s1, Err::<(), ErrorCode>(ErrorCode::AlreadySettled))
        }),
{
}

/// A settled escrow can be closed: when the custody slot held exactly
/// the committed amount and the settlement moved it to a party other
/// than the slot itself, a close with the same canonical tags succeeds
/// and removes both the record and the now-empty custody slot.
pub proof fn lemma_settled_escrow_closes(
    pre: EscrowView,
    sender: [u8; 32],
    receiver: [u8; 32],
    index: u64,
    amount: u64,
    state_tag_c: u8,
    wallet_tag_c: u8,
    to_receiver: bool,
)
    requires
        settle_spec(pre, sender, receiver, index, amount, state_tag_c, wallet_tag_c,
            to_receiver).1 == Ok::<(), ErrorCode>(()),
        pre.balances[wallet_addr(pre.program, sender, receiver, index)] == amount,
        (if to_receiver { receiver@ } else { sender@ }) != wallet_addr(
            pre.program,
            sender,
            receiver,
            index,
        ),
    ensures
        ({
            let (s1, _) = settle_spec(pre, sender, receiver, index, amount, state_tag_c,
                wallet_tag_c, to_receiver);
            let (s2, r2) = close_spec(s1, sender, receiver, index, state_tag_c, wallet_tag_c);
            &&& r2 == Ok::<(), ErrorCode>(())
            &&& !s2.records.contains_key(state_addr(pre.program, sender, receiver, index))
            &&& !s2.balances.contains_key(wallet_addr(pre.program, sender, receiver, index))
        }),
{
}

} // verus!

