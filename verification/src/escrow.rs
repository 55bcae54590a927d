//! The escrow vault: custody of one task's budget.
//!
//! A vault belongs to the task whose key it carries, and it is made
//! from that task, never from a key chosen elsewhere. It knows two
//! movements, funding and release, and neither can be called from
//! outside this library: funds move only as part of the task operation
//! that they belong to.

use crate::error::ErrorCode;
use crate::error::Failure;
use crate::task::Task;
use crate::task::TaskView;
use vstd::prelude::*;

verus! {

/// The funds held for one task.
#[derive(Clone, Debug, PartialEq, Eq)]
pub struct EscrowVault {
    task_id: String,
    balance: u64,
    released: u64,
}

/// A vault as plain values.
pub struct VaultView {
    /// The key of the task that the vault belongs to.
    pub task_id: Seq<char>,
    /// What the vault holds now.
    pub balance: nat,
    /// Everything that ever left the vault.
    pub released: nat,
}

impl View for EscrowVault {
    type V = VaultView;

    closed spec fn view(&self) -> VaultView {
        VaultView {
            task_id: self.task_id@,
            balance: self.balance as nat,
            released: self.released as nat,
        }
    }
}

impl VaultView {
    /// Everything that ever entered the vault: what it holds and what
    /// has left it.
    pub open spec fn funded(self) -> nat {
        self.balance + self.released
    }

    /// Whether the vault is the one of `task`.
    pub open spec fn belongs_to(self, task: TaskView) -> bool {
        self.task_id == task.task_id
    }

    /// Whether `amount` can enter the vault: the balance stays within
    /// 64 bits.
    pub open spec fn can_take(self, amount: nat) -> bool {
        self.balance + amount <= u64::MAX
    }

    /// Why `amount` cannot leave the vault, if it cannot: the vault
    /// holds less, or the record of releases would leave 64 bits.
    pub open spec fn release_fault(self, amount: nat) -> Option<Failure> {
        if amount > self.balance {
            Some(Failure::InsufficientFunds)
        } else if self.released + amount > u64::MAX {
            Some(Failure::Rule(ErrorCode::ArithmeticOverflow))
        } else {
            None
        }
    }

    /// Whether `amount` can leave the vault: it is there, and the
    /// record of releases stays within 64 bits.
    pub open spec fn can_give(self, amount: nat) -> bool {
        self.release_fault(amount) is None
    }

    /// The vault after `amount` has entered it.
    pub open spec fn after_funding(self, amount: nat) -> VaultView {
        VaultView { balance: self.balance + amount, ..self }
    }

    /// The vault after `amount` has left it.
    pub open spec fn after_release(self, amount: nat) -> VaultView {
        VaultView {
            balance: (self.balance - amount) as nat,
            released: self.released + amount,
            ..self
        }
    }
}

impl EscrowVault {
    /// The vault of `task`, before anything has entered it.
    pub fn open(task: &Task) -> (vault: EscrowVault)
        ensures
            vault@ == (VaultView { task_id: task@.task_id, balance: 0, released: 0 }),
    {
        EscrowVault { task_id: task.task_id.clone(), balance: 0, released: 0 }
    }

    /// The vault of `task`, found holding `balance`, with no release
    /// on record.
    pub fn holding(task: &Task, balance: u64) -> (vault: EscrowVault)
        ensures
            vault@ == (VaultView { task_id: task@.task_id, balance: balance as nat, released: 0 }),
    {
        EscrowVault { task_id: task.task_id.clone(), balance, released: 0 }
    }

    /// The key of the task that the vault belongs to.
    pub fn task_id(&self) -> (key: &str)
        ensures
            key@ == self@.task_id,
    {
        self.task_id.as_str()
    }

    /// What the vault holds now.
    pub fn balance(&self) -> (held: u64)
        ensures
            held == self@.balance,
    {
        self.balance
    }

    /// Everything that ever left the vault.
    pub fn released(&self) -> (paid_out: u64)
        ensures
            paid_out == self@.released,
    {
        self.released
    }

    /// Whether the vault is the one of `task`.
    pub fn belongs_to(&self, task: &Task) -> (own: bool)
        ensures
            own == self@.belongs_to(task@),
    {
        self.task_id == task.task_id
    }

    /// Why `amount` cannot leave the vault, if it cannot.
    pub fn release_refusal(&self, amount: u64) -> (refusal: Option<Failure>)
        ensures
            refusal == self@.release_fault(amount as nat),
    {
        if amount > self.balance {
            Some(Failure::InsufficientFunds)
        } else if amount > u64::MAX - self.released {
            Some(Failure::Rule(ErrorCode::ArithmeticOverflow))
        } else {
            None
        }
    }

    /// Moves `amount` into the vault. If the balance would overflow,
    /// nothing moves and the answer is `ArithmeticOverflow`.
    pub(crate) fn fund(&mut self, amount: u64) -> (done: Result<(), ErrorCode>)
        ensures
            old(self)@.can_take(amount as nat) ==> done is Ok && final(self)@ == old(
                self,
            )@.after_funding(amount as nat),
            !old(self)@.can_take(amount as nat) ==> done == Err::<(), ErrorCode>(
                ErrorCode::ArithmeticOverflow,
            ) && *final(self) == *old(self),
    {
        match self.balance.checked_add(amount) {
            Some(balance) => {
                self.balance = balance;
                Ok(())
            },
            None => Err(ErrorCode::ArithmeticOverflow),
        }
    }

    /// Moves `amount` out of the vault. If the vault holds less, the
    /// answer is `InsufficientFunds`; if the record of releases would
    /// overflow, it is `ArithmeticOverflow`. Either way nothing moves.
    pub(crate) fn release(&mut self, amount: u64) -> (done: Result<(), Failure>)
        ensures
            match done {
                Ok(_) => old(self)@.release_fault(amount as nat) is None && final(self)@ == old(
                    self,
                )@.after_release(amount as nat),
                Err(failure) => old(self)@.release_fault(amount as nat) == Some(failure)
                    && *final(self) == *old(self),
            },
    {
        let balance: u64 = match self.balance.checked_sub(amount) {
            Some(rest) => rest,
            None => { return Err(Failure::InsufficientFunds); },
        };
        let released: u64 = match self.released.checked_add(amount) {
            Some(sum) => sum,
            None => { return Err(Failure::Rule(ErrorCode::ArithmeticOverflow)); },
        };
        self.balance = balance;
        self.released = released;
        Ok(())
    }
}

} // verus!
