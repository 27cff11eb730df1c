//! The value ledger: accounts, balances, and atomic movements.
//!
//! The ledger maps 32-byte addresses to balances.  It refuses transfers
//! that exceed a balance, creation of an account at an occupied address,
//! and removal of an account that still holds value — the refusals the
//! escrow state machine relies on.

use vstd::prelude::*;
use vstd::pervasive::VecAdditionalExecFns;
use crate::errors::ErrorCode;
use crate::kv::{addr_eq, kv_distinct, kv_map, lemma_kv_contains, lemma_kv_index, lemma_kv_push,
    lemma_kv_remove, lemma_kv_update};

verus! {

/// How a transfer acts on a balance map: both parties must exist, the
/// debited party must hold at least `amount`, and the credited balance
/// must not overflow.  A transfer to oneself leaves the map unchanged.
pub open spec fn transfer_spec(m: Map<Seq<u8>, u64>, from: Seq<u8>, to: Seq<u8>, amount: u64) -> (
    Map<Seq<u8>, u64>,
    Result<(), ErrorCode>,
) {
    if !m.contains_key(from) || !m.contains_key(to) {
        (m, Err(ErrorCode::AccountNotFound))
    } else if m[from] < amount {
        (m, Err(ErrorCode::InsufficientBalance))
    } else if from == to {
        (m, Ok(()))
    } else if m[to] + amount > u64::MAX {
        (m, Err(ErrorCode::BalanceOverflow))
    } else {
        (
            m.insert(from, (m[from] - amount) as u64).insert(to, (m[to] + amount) as u64),
            Ok(()),
        )
    }
}

/// A store of accounts, each an address holding a balance.
pub struct Ledger {
    accounts: Vec<([u8; 32], u64)>,
}

impl View for Ledger {
    type V = Map<Seq<u8>, u64>;

    closed spec fn view(&self) -> Map<Seq<u8>, u64> {
        kv_map(self.accounts@)
    }
}

impl Ledger {
    /// Internal well-formedness: no address occurs twice.
    pub closed spec fn wf(&self) -> bool {
        kv_distinct(self.accounts@)
    }

    /// An empty ledger.
    pub fn new() -> (r: Ledger)
        ensures
            r.wf(),
            r@ == Map::<Seq<u8>, u64>::empty(),
    {
        let r = Ledger { accounts: Vec::new() };
        proof {
            assert(r@ =~= Map::<Seq<u8>, u64>::empty());
        }
        r
    }

    /// The position of the account at `addr`, if one exists.
    fn index_of(&self, addr: &[u8; 32]) -> (r: Option<usize>)
        ensures
            match r {
                Some(i) => i < self.accounts@.len() && self.accounts@[i as int].0@ == addr@,
                None => forall|j: int| 0 <= j < self.accounts@.len() ==> self.accounts@[j].0@ != addr@,
            },
    {
        let mut i: usize = 0;
        while i < self.accounts.len()
            invariant
                0 <= i <= self.accounts@.len(),
                forall|j: int| 0 <= j < i ==> self.accounts@[j].0@ != addr@,
            decreases self.accounts@.len() - i,
        {
            if addr_eq(&self.accounts[i].0, addr) {
                return Some(i);
            }
            i += 1;
        }
        None
    }

    /// Whether an account exists at `addr`.
    pub fn contains(&self, addr: &[u8; 32]) -> (r: bool)
        ensures
            r == self@.contains_key(addr@),
    {
        proof {
            lemma_kv_contains(self.accounts@, addr@);
        }
        match self.index_of(addr) {
            Some(_) => true,
            None => false,
        }
    }

    /// The balance of the account at `addr`, if one exists.
    pub fn balance_of(&self, addr: &[u8; 32]) -> (r: Option<u64>)
        requires
            self.wf(),
        ensures
            self@.contains_key(addr@) ==> r == Some(self@[addr@]),
            !self@.contains_key(addr@) ==> r is None,
    {
        proof {
            lemma_kv_contains(self.accounts@, addr@);
        }
        match self.index_of(addr) {
            Some(i) => {
                proof {
                    lemma_kv_index(self.accounts@, i as int);
                }
                Some(self.accounts[i].1)
            },
            None => None,
        }
    }

    /// Creates an account holding `balance` at a fresh address; rejected
    /// if the address is already occupied.
    pub fn create_account(&mut self, addr: &[u8; 32], balance: u64) -> (r: Result<(), ErrorCode>)
        requires
            old(self).wf(),
        ensures
            final(self).wf(),
            old(self)@.contains_key(addr@) ==> r == Err::<(), ErrorCode>(
                ErrorCode::AccountAlreadyExists,
            ) && final(self)@ == old(self)@,
            !old(self)@.contains_key(addr@) ==> r == Ok::<(), ErrorCode>(()) && final(self)@
                == old(self)@.insert(addr@, balance),
    {
        if self.contains(addr) {
            return Err(ErrorCode::AccountAlreadyExists);
        }
        proof {
            lemma_kv_push(self.accounts@, *addr, balance);
        }
        self.accounts.push((*addr, balance));
        Ok(())
    }

    /// Moves `amount` from one account to another, atomically: every
    /// check precedes any mutation.
    pub fn transfer(&mut self, from: &[u8; 32], to: &[u8; 32], amount: u64) -> (r: Result<
        (),
        ErrorCode,
    >)
        requires
            old(self).wf(),
        ensures
            final(self).wf(),
            ({
                let (m2, res) = transfer_spec(old(self)@, from@, to@, amount);
                final(self)@ == m2 && r == res
            }),
    {
        proof {
            lemma_kv_contains(self.accounts@, from@);
            lemma_kv_contains(self.accounts@, to@);
        }
        let fi: usize;
        let ti: usize;
        match (self.index_of(from), self.index_of(to)) {
            (Some(a), Some(b)) => {
                fi = a;
                ti = b;
            },
            _ => {
                return Err(ErrorCode::AccountNotFound);
            },
        }
        proof {
            lemma_kv_index(self.accounts@, fi as int);
            lemma_kv_index(self.accounts@, ti as int);
        }
        let bf = self.accounts[fi].1;
        if bf < amount {
            return Err(ErrorCode::InsufficientBalance);
        }
        if fi == ti {
            return Ok(());
        }
        assert(from@ != to@);
        let bt = self.accounts[ti].1;
        if bt > u64::MAX - amount {
            return Err(ErrorCode::BalanceOverflow);
        }
        let fa = self.accounts[fi].0;
        proof {
            lemma_kv_update(self.accounts@, fi as int, (bf - amount) as u64);
        }
        self.accounts.set(fi, (fa, bf - amount));
        let ta = self.accounts[ti].0;
        proof {
            lemma_kv_update(self.accounts@, ti as int, (bt + amount) as u64);
        }
        self.accounts.set(ti, (ta, bt + amount));
        Ok(())
    }

    /// Removes the account at `addr`; refused while it still holds value.
    pub fn close_account(&mut self, addr: &[u8; 32]) -> (r: Result<(), ErrorCode>)
        requires
            old(self).wf(),
        ensures
            final(self).wf(),
            !old(self)@.contains_key(addr@) ==> r == Err::<(), ErrorCode>(ErrorCode::AccountNotFound)
                && final(self)@ == old(self)@,
            old(self)@.contains_key(addr@) && old(self)@[addr@] != 0 ==> r == Err::<(), ErrorCode>(
                ErrorCode::CustodyNotEmpty,
            ) && final(self)@ == old(self)@,
            old(self)@.contains_key(addr@) && old(self)@[addr@] == 0 ==> r == Ok::<(), ErrorCode>(())
                && final(self)@ == old(self)@.remove(addr@),
    {
        proof {
            lemma_kv_contains(self.accounts@, addr@);
        }
        let i: usize;
        match self.index_of(addr) {
            Some(a) => {
                i = a;
            },
            None => {
                return Err(ErrorCode::AccountNotFound);
            },
        }
        proof {
            lemma_kv_index(self.accounts@, i as int);
        }
        if self.accounts[i].1 != 0 {
            return Err(ErrorCode::CustodyNotEmpty);
        }
        proof {
            lemma_kv_remove(self.accounts@, i as int);
        }
        self.accounts.remove(i);
        Ok(())
    }
}

} // verus!
