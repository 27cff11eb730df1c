//! The escrow state machine.
//!
//! One `EscrowLedger` owns the value ledger and the table of escrow
//! records.  `deposite_grant` creates a record and moves the committed
//! amount into its custody slot; `complete_grant` releases the amount to
//! the receiver; `withdraw_grant` refunds it to the sender;
//! `close_escrow` removes a settled record and its empty custody slot.
//! Every mutating operation first re-derives the canonical addresses and
//! tags and compares them against the caller-supplied values and against
//! the record's stored fields; any mismatch is rejected before anything
//! changes.
//!
//! Each operation's behaviour is stated once, as a function from the
//! mathematical state to the next state and the result, and the
//! executable methods are proved to follow it exactly.

use vstd::prelude::*;
use vstd::pervasive::VecAdditionalExecFns;
use crate::deriver::{derive_identity, pda_address, pda_bump, pda_found, state_seed, state_seed_bytes,
    wallet_seed, wallet_seed_bytes};
use crate::errors::ErrorCode;
use crate::kv::{addr_eq, kv_distinct, kv_map, lemma_kv_contains, lemma_kv_index, lemma_kv_push,
    lemma_kv_remove, lemma_kv_update};
use crate::ledger::{transfer_spec, Ledger};

verus! {

/// The lifecycle stage of one escrow record.  A record is created, then
/// settles exactly once — released to the receiver or refunded to the
/// sender — and only a settled record can be closed.
#[derive(Clone, Copy, Debug, PartialEq, Eq, Structural)]
pub enum Status {
    Created,
    Released,
    Refunded,
}

/// One escrow record.  The parties, the amount and the custody-slot
/// authorization tag are set at creation and never change; only the
/// status moves, forward.
#[derive(Clone, Copy, Debug)]
pub struct EscrowState {
    pub sender: [u8; 32],
    pub receiver: [u8; 32],
    pub amount: u64,
    pub wallet_bump: u8,
    pub status: Status,
}

/// The mathematical state of the system: the program identity the
/// addresses are derived under, every account balance, and every live
/// escrow record keyed by its derived record address.
#[verifier::ext_equal]
pub struct EscrowView {
    pub program: Seq<u8>,
    pub balances: Map<Seq<u8>, u64>,
    pub records: Map<Seq<u8>, EscrowState>,
}

/// Whether the record address of the triple derives at all.
pub open spec fn state_found(program: Seq<u8>, sender: [u8; 32], receiver: [u8; 32], index: u64) -> bool {
    pda_found(state_seed(), sender@, receiver@, index, program)
}

/// The canonical record address of the triple.
pub open spec fn state_addr(program: Seq<u8>, sender: [u8; 32], receiver: [u8; 32], index: u64) -> Seq<u8> {
    pda_address(state_seed(), sender@, receiver@, index, program)
}

/// The canonical record authorization tag of the triple.
pub open spec fn state_tag(program: Seq<u8>, sender: [u8; 32], receiver: [u8; 32], index: u64) -> u8 {
    pda_bump(state_seed(), sender@, receiver@, index, program)
}

/// Whether the custody-slot address of the triple derives at all.
pub open spec fn wallet_found(program: Seq<u8>, sender: [u8; 32], receiver: [u8; 32], index: u64) -> bool {
    pda_found(wallet_seed(), sender@, receiver@, index, program)
}

/// The canonical custody-slot address of the triple.
pub open spec fn wallet_addr(program: Seq<u8>, sender: [u8; 32], receiver: [u8; 32], index: u64) -> Seq<u8> {
    pda_address(wallet_seed(), sender@, receiver@, index, program)
}

/// The canonical custody-slot authorization tag of the triple.
pub open spec fn wallet_tag(program: Seq<u8>, sender: [u8; 32], receiver: [u8; 32], index: u64) -> u8 {
    pda_bump(wallet_seed(), sender@, receiver@, index, program)
}

/// The validation every post-creation operation performs before touching
/// anything: re-derive the record address from the caller's tag and
/// match it against the actual record location, re-derive the custody
/// address from the caller's other tag, and match both against the
/// record's own stored fields.
pub open spec fn validate_spec(
    pre: EscrowView,
    sender: [u8; 32],
    receiver: [u8; 32],
    index: u64,
    state_tag_c: u8,
    wallet_tag_c: u8,
) -> Result<EscrowState, ErrorCode> {
    if !state_found(pre.program, sender, receiver, index) {
        Err(ErrorCode::InvalidStateAddress)
    } else if state_tag_c != state_tag(pre.program, sender, receiver, index) {
        Err(ErrorCode::InvalidStateAddress)
    } else if !pre.records.contains_key(state_addr(pre.program, sender, receiver, index)) {
        Err(ErrorCode::AccountNotFound)
    } else {
        let rec = pre.records[state_addr(pre.program, sender, receiver, index)];
        if rec.sender@ != sender@ || rec.receiver@ != receiver@ {
            Err(ErrorCode::InvalidStateAddress)
        } else if !wallet_found(pre.program, sender, receiver, index) {
            Err(ErrorCode::InvalidWalletBump)
        } else if wallet_tag_c != wallet_tag(pre.program, sender, receiver, index) {
            Err(ErrorCode::InvalidWalletBump)
        } else if rec.wallet_bump != wallet_tag_c {
            Err(ErrorCode::InvalidWalletBump)
        } else {
            Ok(rec)
        }
    }
}

/// How a deposit acts on the state: both addresses must derive, neither
/// may be occupied, and the sender must hold the amount; then the record
/// is created and the amount moves into the fresh custody slot.
pub open spec fn deposit_spec(
    pre: EscrowView,
    sender: [u8; 32],
    receiver: [u8; 32],
    index: u64,
    amount: u64,
) -> (EscrowView, Result<(), ErrorCode>) {
    if !state_found(pre.program, sender, receiver, index) || !wallet_found(
        pre.program,
        sender,
        receiver,
        index,
    ) {
        (pre, Err(ErrorCode::DerivationExhausted))
    } else {
        let sa = state_addr(pre.program, sender, receiver, index);
        let wa = wallet_addr(pre.program, sender, receiver, index);
        if pre.records.contains_key(sa) || pre.balances.contains_key(wa) {
            (pre, Err(ErrorCode::AccountAlreadyExists))
        } else if !pre.balances.contains_key(sender@) {
            (pre, Err(ErrorCode::AccountNotFound))
        } else if pre.balances[sender@] < amount {
            (pre, Err(ErrorCode::InsufficientBalance))
        } else {
            let rec = EscrowState {
                sender,
                receiver,
                amount,
                wallet_bump: wallet_tag(pre.program, sender, receiver, index),
                status: Status::Created,
            };
            (
                EscrowView {
                    balances: pre.balances.insert(
                        sender@,
                        (pre.balances[sender@] - amount) as u64,
                    ).insert(wa, amount),
                    records: pre.records.insert(sa, rec),
                    ..pre
                },
                Ok(()),
            )
        }
    }
}

/// How a settlement — release or refund — acts on the state: full
/// validation, exact amount match, a still-unsettled record; then the
/// amount moves from the custody slot to the receiver (release) or back
/// to the sender (refund), and the status advances.
pub open spec fn settle_spec(
    pre: EscrowView,
    sender: [u8; 32],
    receiver: [u8; 32],
    index: u64,
    claimed_amount: u64,
    state_tag_c: u8,
    wallet_tag_c: u8,
    to_receiver: bool,
) -> (EscrowView, Result<(), ErrorCode>) {
    match validate_spec(pre, sender, receiver, index, state_tag_c, wallet_tag_c) {
        Err(e) => (pre, Err(e)),
        Ok(rec) => {
            if rec.amount != claimed_amount {
                (pre, Err(ErrorCode::InvalidAmount))
            } else if !(rec.status is Created) {
                (pre, Err(ErrorCode::AlreadySettled))
            } else {
                let sa = state_addr(pre.program, sender, receiver, index);
                let wa = wallet_addr(pre.program, sender, receiver, index);
                let dest = if to_receiver {
                    receiver@
                } else {
                    sender@
                };
                let (moved, res) = transfer_spec(pre.balances, wa, dest, claimed_amount);
                if res is Err {
                    (pre, res)
                } else {
                    let settled = EscrowState {
                        status: if to_receiver {
                            Status::Released
                        } else {
                            Status::Refunded
                        },
                        ..rec
                    };
                    (
                        EscrowView { balances: moved, records: pre.records.insert(sa, settled), ..pre },
                        Ok(()),
                    )
                }
            }
        },
    }
}

/// A release: the terminal success path.
pub open spec fn release_spec(
    pre: EscrowView,
    sender: [u8; 32],
    receiver: [u8; 32],
    index: u64,
    claimed_amount: u64,
    state_tag_c: u8,
    wallet_tag_c: u8,
) -> (EscrowView, Result<(), ErrorCode>) {
    settle_spec(pre, sender, receiver, index, claimed_amount, state_tag_c, wallet_tag_c, true)
}

/// A refund: the terminal cancel path.
pub open spec fn refund_spec(
    pre: EscrowView,
    sender: [u8; 32],
    receiver: [u8; 32],
    index: u64,
    claimed_amount: u64,
    state_tag_c: u8,
    wallet_tag_c: u8,
) -> (EscrowView, Result<(), ErrorCode>) {
    settle_spec(pre, sender, receiver, index, claimed_amount, state_tag_c, wallet_tag_c, false)
}

/// How closing acts on the state: full validation, and the record must
/// have settled — a record still in `Created` is rejected, as is a
/// custody slot that somehow still holds value; then record and slot are
/// removed.
pub open spec fn close_spec(
    pre: EscrowView,
    sender: [u8; 32],
    receiver: [u8; 32],
    index: u64,
    state_tag_c: u8,
    wallet_tag_c: u8,
) -> (EscrowView, Result<(), ErrorCode>) {
    match validate_spec(pre, sender, receiver, index, state_tag_c, wallet_tag_c) {
        Err(e) => (pre, Err(e)),
        Ok(rec) => {
            if rec.status is Created {
                (pre, Err(ErrorCode::CustodyNotEmpty))
            } else {
                let sa = state_addr(pre.program, sender, receiver, index);
                let wa = wallet_addr(pre.program, sender, receiver, index);
                if !pre.balances.contains_key(wa) {
                    (pre, Err(ErrorCode::AccountNotFound))
                } else if pre.balances[wa] != 0 {
                    (pre, Err(ErrorCode::CustodyNotEmpty))
                } else {
                    (
                        EscrowView {
                            balances: pre.balances.remove(wa),
                            records: pre.records.remove(sa),
                            ..pre
                        },
                        Ok(()),
                    )
                }
            }
        },
    }
}

/// The whole system: the program identity, the value ledger, and the
/// table of escrow records.
pub struct EscrowLedger {
    program_id: [u8; 32],
    ledger: Ledger,
    records: Vec<([u8; 32], EscrowState)>,
}

impl View for EscrowLedger {
    type V = EscrowView;

    closed spec fn view(&self) -> EscrowView {
        EscrowView {
            program: self.program_id@,
            balances: self.ledger@,
            records: kv_map(self.records@),
        }
    }
}

impl EscrowLedger {
    /// Internal well-formedness: no address keys two accounts or two
    /// records.
    pub closed spec fn wf(&self) -> bool {
        self.ledger.wf() && kv_distinct(self.records@)
    }

    /// A fresh system under the given program identity: no accounts, no
    /// records.
    pub fn new(program_id: &[u8; 32]) -> (r: EscrowLedger)
        ensures
            r.wf(),
            r@.program == program_id@,
            r@.balances == Map::<Seq<u8>, u64>::empty(),
            r@.records == Map::<Seq<u8>, EscrowState>::empty(),
    {
        let r = EscrowLedger { program_id: *program_id, ledger: Ledger::new(), records: Vec::new() };
        proof {
            assert(r@.records =~= Map::<Seq<u8>, EscrowState>::empty());
        }
        r
    }

    /// Creates an ordinary account holding `balance`; host-level setup
    /// for the parties of future escrows.
    pub fn open_account(&mut self, addr: &[u8; 32], balance: u64) -> (r: Result<(), ErrorCode>)
        requires
            old(self).wf(),
        ensures
            final(self).wf(),
            final(self)@.program == old(self)@.program,
            final(self)@.records == old(self)@.records,
            old(self)@.balances.contains_key(addr@) ==> r == Err::<(), ErrorCode>(
                ErrorCode::AccountAlreadyExists,
            ) && final(self)@ == old(self)@,
            !old(self)@.balances.contains_key(addr@) ==> r == Ok::<(), ErrorCode>(())
                && final(self)@.balances == old(self)@.balances.insert(addr@, balance),
    {
        self.ledger.create_account(addr, balance)
    }

    /// The balance of the account at `addr`, if one exists.
    pub fn balance_of(&self, addr: &[u8; 32]) -> (r: Option<u64>)
        requires
            self.wf(),
        ensures
            self@.balances.contains_key(addr@) ==> r == Some(self@.balances[addr@]),
            !self@.balances.contains_key(addr@) ==> r is None,
    {
        self.ledger.balance_of(addr)
    }

    /// The program identity the system derives addresses under.
    pub fn program(&self) -> (r: [u8; 32])
        ensures
            r@ == self@.program,
    {
        self.program_id
    }

    /// The position of the record at `addr`, if one exists.
    fn record_index(&self, addr: &[u8; 32]) -> (r: Option<usize>)
        ensures
            match r {
                Some(i) => i < self.records@.len() && self.records@[i as int].0@ == addr@,
                None => forall|j: int| 0 <= j < self.records@.len() ==> self.records@[j].0@ != addr@,
            },
    {
        let mut i: usize = 0;
        while i < self.records.len()
            invariant
                0 <= i <= self.records@.len(),
                forall|j: int| 0 <= j < i ==> self.records@[j].0@ != addr@,
            decreases self.records@.len() - i,
        {
            if addr_eq(&self.records[i].0, addr) {
                return Some(i);
            }
            i += 1;
        }
        None
    }

    /// The escrow record of the triple, if one exists.
    pub fn escrow_record(&self, sender: &[u8; 32], receiver: &[u8; 32], deposite_idx: u64) -> (r:
        Option<EscrowState>)
        requires
            self.wf(),
        ensures
            ({
                let sf = state_found(self@.program, *sender, *receiver, deposite_idx);
                let sa = state_addr(self@.program, *sender, *receiver, deposite_idx);
                if sf && self@.records.contains_key(sa) {
                    r == Some(self@.records[sa])
                } else {
                    r is None
                }
            }),
    {
        let prefix = state_seed_bytes();
        let sa = match derive_identity(prefix.as_slice(), sender, receiver, deposite_idx, &self.program_id) {
            Ok(p) => p.0,
            Err(_) => {
                return None;
            },
        };
        proof {
            lemma_kv_contains(self.records@, sa@);
        }
        match self.record_index(&sa) {
            Some(i) => {
                proof {
                    lemma_kv_index(self.records@, i as int);
                }
                Some(self.records[i].1)
            },
            None => None,
        }
    }

    /// The balance of the triple's custody slot, if the slot exists.
    pub fn custody_balance(&self, sender: &[u8; 32], receiver: &[u8; 32], deposite_idx: u64) -> (r:
        Option<u64>)
        requires
            self.wf(),
        ensures
            ({
                let wf_ = wallet_found(self@.program, *sender, *receiver, deposite_idx);
                let wa = wallet_addr(self@.program, *sender, *receiver, deposite_idx);
                if wf_ && self@.balances.contains_key(wa) {
                    r == Some(self@.balances[wa])
                } else {
                    r is None
                }
            }),
    {
        let prefix = wallet_seed_bytes();
        let wa = match derive_identity(prefix.as_slice(), sender, receiver, deposite_idx, &self.program_id) {
            Ok(p) => p.0,
            Err(_) => {
                return None;
            },
        };
        self.ledger.balance_of(&wa)
    }

    /// Creates the escrow of the triple and moves `amount` from the
    /// sender into its custody slot.
    pub fn deposite_grant(
        &mut self,
        sender: &[u8; 32],
        receiver: &[u8; 32],
        deposite_idx: u64,
        amount: u64,
    ) -> (r: Result<(), ErrorCode>)
        requires
            old(self).wf(),
        ensures
            final(self).wf(),
            ({
                let (post, res) = deposit_spec(old(self)@, *sender, *receiver, deposite_idx, amount);
                final(self)@ == post && r == res
            }),
    {
        let prefix_s = state_seed_bytes();
        let prefix_w = wallet_seed_bytes();
        let sd = derive_identity(prefix_s.as_slice(), sender, receiver, deposite_idx, &self.program_id);
        let wd = derive_identity(prefix_w.as_slice(), sender, receiver, deposite_idx, &self.program_id);
        let (sa, wa, wb): ([u8; 32], [u8; 32], u8);
        match (sd, wd) {
            (Ok(sp), Ok(wp)) => {
                sa = sp.0;
                wa = wp.0;
                wb = wp.1;
            },
            _ => {
                return Err(ErrorCode::DerivationExhausted);
            },
        }
        proof {
            lemma_kv_contains(self.records@, sa@);
        }
        let record_occupied = match self.record_index(&sa) {
            Some(_) => true,
            None => false,
        };
        if record_occupied || self.ledger.contains(&wa) {
            return Err(ErrorCode::AccountAlreadyExists);
        }
        let sender_balance = match self.ledger.balance_of(sender) {
            Some(b) => b,
            None => {
                return Err(ErrorCode::AccountNotFound);
            },
        };
        if sender_balance < amount {
            return Err(ErrorCode::InsufficientBalance);
        }
        // all checks passed: create the custody slot, move the amount
        // in, and store the record
        let created = self.ledger.create_account(&wa, 0);
        assert(created is Ok);
        let moved = self.ledger.transfer(sender, &wa, amount);
        assert(moved is Ok);
        let rec = EscrowState {
            sender: *sender,
            receiver: *receiver,
            amount,
            wallet_bump: wb,
            status: Status::Created,
        };
        proof {
            lemma_kv_push(self.records@, sa, rec);
        }
        self.records.push((sa, rec));
        proof {
            let (post, res) = deposit_spec(old(self)@, *sender, *receiver, deposite_idx, amount);
            assert(final(self)@.balances =~= post.balances);
            assert(final(self)@ =~= post);
        }
        Ok(())
    }

    /// Shared validation of the post-creation operations; on success
    /// yields the record's position and both canonical addresses.
    fn validate(
        &self,
        sender: &[u8; 32],
        receiver: &[u8; 32],
        deposite_idx: u64,
        state_bump: u8,
        wallet_bump: u8,
    ) -> (r: Result<(usize, [u8; 32], [u8; 32]), ErrorCode>)
        requires
            self.wf(),
        ensures
            match r {
                Ok(t) => {
                    &&& t.0 < self.records@.len()
                    &&& self.records@[t.0 as int].0@ == state_addr(
                        self@.program,
                        *sender,
                        *receiver,
                        deposite_idx,
                    )
                    &&& t.1@ == state_addr(self@.program, *sender, *receiver, deposite_idx)
                    &&& t.2@ == wallet_addr(self@.program, *sender, *receiver, deposite_idx)
                    &&& validate_spec(
                        self@,
                        *sender,
                        *receiver,
                        deposite_idx,
                        state_bump,
                        wallet_bump,
                    ) == Ok::<EscrowState, ErrorCode>(self.records@[t.0 as int].1)
                },
                Err(e) => validate_spec(
                    self@,
                    *sender,
                    *receiver,
                    deposite_idx,
                    state_bump,
                    wallet_bump,
                ) == Err::<EscrowState, ErrorCode>(e),
            },
    {
        let prefix_s = state_seed_bytes();
        let (sa, sb) = match derive_identity(
            prefix_s.as_slice(),
            sender,
            receiver,
            deposite_idx,
            &self.program_id,
        ) {
            Ok(p) => p,
            Err(_) => {
                return Err(ErrorCode::InvalidStateAddress);
            },
        };
        if state_bump != sb {
            return Err(ErrorCode::InvalidStateAddress);
        }
        proof {
            lemma_kv_contains(self.records@, sa@);
        }
        let ri = match self.record_index(&sa) {
            Some(i) => i,
            None => {
                return Err(ErrorCode::AccountNotFound);
            },
        };
        proof {
            lemma_kv_index(self.records@, ri as int);
        }
        let rec = self.records[ri].1;
        if !addr_eq(&rec.sender, sender) || !addr_eq(&rec.receiver, receiver) {
            return Err(ErrorCode::InvalidStateAddress);
        }
        let prefix_w = wallet_seed_bytes();
        let (wa, wb) = match derive_identity(
            prefix_w.as_slice(),
            sender,
            receiver,
            deposite_idx,
            &self.program_id,
        ) {
            Ok(p) => p,
            Err(_) => {
                return Err(ErrorCode::InvalidWalletBump);
            },
        };
        if wallet_bump != wb {
            return Err(ErrorCode::InvalidWalletBump);
        }
        if rec.wallet_bump != wallet_bump {
            return Err(ErrorCode::InvalidWalletBump);
        }
        Ok((ri, sa, wa))
    }

    /// Shared body of release and refund.
    fn settle(
        &mut self,
        sender: &[u8; 32],
        receiver: &[u8; 32],
        deposite_idx: u64,
        state_bump: u8,
        wallet_bump: u8,
        amount: u64,
        to_receiver: bool,
    ) -> (r: Result<(), ErrorCode>)
        requires
            old(self).wf(),
        ensures
            final(self).wf(),
            ({
                let (post, res) = settle_spec(
                    old(self)@,
                    *sender,
                    *receiver,
                    deposite_idx,
                    amount,
                    state_bump,
                    wallet_bump,
                    to_receiver,
                );
                final(self)@ == post && r == res
            }),
    {
        let (ri, _sa, wa) = match self.validate(
            sender,
            receiver,
            deposite_idx,
            state_bump,
            wallet_bump,
        ) {
            Ok(t) => t,
            Err(e) => {
                return Err(e);
            },
        };
        let rec = self.records[ri].1;
        if rec.amount != amount {
            return Err(ErrorCode::InvalidAmount);
        }
        if !(matches!(rec.status, Status::Created)) {
            return Err(ErrorCode::AlreadySettled);
        }
        let dest: &[u8; 32] = if to_receiver {
            receiver
        } else {
            sender
        };
        match self.ledger.transfer(&wa, dest, amount) {
            Ok(_) => {},
            Err(e) => {
                return Err(e);
            },
        }
        let mut settled = rec;
        settled.status = if to_receiver {
            Status::Released
        } else {
            Status::Refunded
        };
        let key = self.records[ri].0;
        proof {
            lemma_kv_update(self.records@, ri as int, settled);
        }
        self.records.set(ri, (key, settled));
        proof {
            let (post, res) = settle_spec(
                old(self)@,
                *sender,
                *receiver,
                deposite_idx,
                amount,
                state_bump,
                wallet_bump,
                to_receiver,
            );
            assert(final(self)@ =~= post);
        }
        Ok(())
    }

    /// Releases the escrow of the triple: after full validation, moves
    /// the committed amount from the custody slot to the receiver.  The
    /// terminal success path.
    pub fn complete_grant(
        &mut self,
        sender: &[u8; 32],
        receiver: &[u8; 32],
        deposite_idx: u64,
        state_bump: u8,
        wallet_bump: u8,
        amount: u64,
    ) -> (r: Result<(), ErrorCode>)
        requires
            old(self).wf(),
        ensures
            final(self).wf(),
            ({
                let (post, res) = release_spec(
                    old(self)@,
                    *sender,
                    *receiver,
                    deposite_idx,
                    amount,
                    state_bump,
                    wallet_bump,
                );
                final(self)@ == post && r == res
            }),
    {
        self.settle(sender, receiver, deposite_idx, state_bump, wallet_bump, amount, true)
    }

    /// Refunds the escrow of the triple: after full validation, moves
    /// the committed amount from the custody slot back to the sender.
    /// The terminal cancel path.
    pub fn withdraw_grant(
        &mut self,
        sender: &[u8; 32],
        receiver: &[u8; 32],
        deposite_idx: u64,
        state_bump: u8,
        wallet_bump: u8,
        amount: u64,
    ) -> (r: Result<(), ErrorCode>)
        requires
            old(self).wf(),
        ensures
            final(self).wf(),
            ({
                let (post, res) = refund_spec(
                    old(self)@,
                    *sender,
                    *receiver,
                    deposite_idx,
                    amount,
                    state_bump,
                    wallet_bump,
                );
                final(self)@ == post && r == res
            }),
    {
        self.settle(sender, receiver, deposite_idx, state_bump, wallet_bump, amount, false)
    }

    /// Removes a settled escrow's record and its empty custody slot.
    pub fn close_escrow(
        &mut self,
        sender: &[u8; 32],
        receiver: &[u8; 32],
        deposite_idx: u64,
        state_bump: u8,
        wallet_bump: u8,
    ) -> (r: Result<(), ErrorCode>)
        requires
            old(self).wf(),
        ensures
            final(self).wf(),
            ({
                let (post, res) = close_spec(
                    old(self)@,
                    *sender,
                    *receiver,
                    deposite_idx,
                    state_bump,
                    wallet_bump,
                );
                final(self)@ == post && r == res
            }),
    {
        let (ri, _sa, wa) = match self.validate(
            sender,
            receiver,
            deposite_idx,
            state_bump,
            wallet_bump,
        ) {
            Ok(t) => t,
            Err(e) => {
                return Err(e);
            },
        };
        let rec = self.records[ri].1;
        if matches!(rec.status, Status::Created) {
            return Err(ErrorCode::CustodyNotEmpty);
        }
        match self.ledger.close_account(&wa) {
            Ok(_) => {},
            Err(e) => {
                return Err(e);
            },
        }
        proof {
            lemma_kv_remove(self.records@, ri as int);
        }
        self.records.remove(ri);
        proof {
            let (post, res) = close_spec(
                old(self)@,
                *sender,
                *receiver,
                deposite_idx,
                state_bump,
                wallet_bump,
            );
            assert(final(self)@ =~= post);
        }
        Ok(())
    }
}

} // verus!
