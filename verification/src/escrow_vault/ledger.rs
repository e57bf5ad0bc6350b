//! The ledger of one token as a whole: every user's record and the custody
//! record, and what the operations do to them together.
//!
//! What the users have available never exceeds what is in custody. The
//! difference is what is locked as collateral: taking from a balance locks,
//! adding to a balance unlocks, and every other operation leaves the
//! difference as it is. An operation that fails changes nothing.
use vstd::prelude::*;
use crate::escrow_vault::instructions::{
    credit_balance, slash_balance, transfer_out, DepositCollateral, TransferBalance,
    WithdrawCollateral,
};
use crate::escrow_vault::instructions::transfer_out::PaymentRoute;
use crate::escrow_vault::state::{UserBalance, VaultAuthority, VaultConfig};
use crate::escrow_vault::utils::InstructionsSysvar;
use crate::pubkey::Pubkey;

verus! {

/// The records of one token: one per user, and the custody record.
pub struct Ledger {
    pub balances: Seq<UserBalance>,
    pub authority: VaultAuthority,
}

/// One operation on the ledger of a token; users are named by the place of
/// their record.
pub enum LedgerOp {
    Deposit { user: int, amount: u64 },
    Withdraw { user: int, amount: u64 },
    Slash { user: int, amount: u64 },
    Credit { user: int, amount: u64 },
    Transfer { from: int, to: int, amount: u64 },
    TransferOut { user: int, amount: u64 },
}

/// What all users together have available.
pub open spec fn total_available(balances: Seq<UserBalance>) -> nat
    decreases balances.len(),
{
    if balances.len() == 0 {
        0
    } else {
        total_available(balances.drop_last()) + balances.last().balance as nat
    }
}

impl Ledger {
    /// What is in custody and not available to any user: the collateral
    /// that is locked.
    pub open spec fn locked(self) -> int {
        self.authority.total_deposits - total_available(self.balances)
    }

    /// The users have no more available than is in custody.
    pub open spec fn solvent(self) -> bool {
        total_available(self.balances) <= self.authority.total_deposits
    }

    /// Whether `user` names a record.
    pub open spec fn has(self, user: int) -> bool {
        0 <= user < self.balances.len()
    }

    /// The ledger with `record` in the place of `user`.
    pub open spec fn with_balance(self, user: int, record: UserBalance) -> Ledger {
        Ledger { balances: self.balances.update(user, record), ..self }
    }

    /// The ledger after `op`, which is the ledger itself where `op` fails.
    ///
    /// A deposit or a withdrawal changes a balance and the custody total
    /// together, and so does a payment out of custody. Taking from a
    /// balance, adding to one, and moving between two leave the custody
    /// total as it is. Amounts are positive; the two sides of a move are
    /// different users.
    pub open spec fn apply(self, op: LedgerOp) -> Ledger {
        match op {
            LedgerOp::Deposit { user, amount } => {
                if self.has(user) && amount > 0 {
                    match (
                        self.balances[user].spec_credit(amount),
                        self.authority.spec_add_deposit(amount),
                    ) {
                        (Ok(record), Ok(authority)) => Ledger {
                            balances: self.balances.update(user, record),
                            authority,
                        },
                        _ => self,
                    }
                } else {
                    self
                }
            },
            LedgerOp::Withdraw { user, amount } | LedgerOp::TransferOut { user, amount } => {
                if self.has(user) && amount > 0 {
                    match (
                        self.balances[user].spec_slash(amount),
                        self.authority.spec_subtract_deposit(amount),
                    ) {
                        (Ok(record), Ok(authority)) => Ledger {
                            balances: self.balances.update(user, record),
                            authority,
                        },
                        _ => self,
                    }
                } else {
                    self
                }
            },
            LedgerOp::Slash { user, amount } => {
                if self.has(user) && amount > 0 {
                    match self.balances[user].spec_slash(amount) {
                        Ok(record) => self.with_balance(user, record),
                        Err(_) => self,
                    }
                } else {
                    self
                }
            },
            LedgerOp::Credit { user, amount } => {
                if self.has(user) && amount > 0 {
                    match self.balances[user].spec_credit(amount) {
                        Ok(record) => self.with_balance(user, record),
                        Err(_) => self,
                    }
                } else {
                    self
                }
            },
            LedgerOp::Transfer { from, to, amount } => {
                if self.has(from) && self.has(to) && from != to && amount > 0 {
                    match (
                        self.balances[from].spec_slash(amount),
                        self.balances[to].spec_credit(amount),
                    ) {
                        (Ok(taken), Ok(given)) => self.with_balance(from, taken).with_balance(
                            to,
                            given,
                        ),
                        _ => self,
                    }
                } else {
                    self
                }
            },
        }
    }

    /// Whether `op` unlocks no more than is locked. Every operation but
    /// adding to a balance does.
    pub open spec fn admits(self, op: LedgerOp) -> bool {
        op matches LedgerOp::Credit { user, amount } ==> amount <= self.locked()
    }

    /// The ledger after the operations `ops`, one after the other.
    pub open spec fn run(self, ops: Seq<LedgerOp>) -> Ledger
        decreases ops.len(),
    {
        if ops.len() == 0 {
            self
        } else {
            self.run(ops.drop_last()).apply(ops.last())
        }
    }

    /// Whether each of `ops`, when its turn comes, unlocks no more than is
    /// locked then.
    pub open spec fn admits_all(self, ops: Seq<LedgerOp>) -> bool
        decreases ops.len(),
    {
        ops.len() == 0 || (self.admits_all(ops.drop_last()) && self.run(ops.drop_last()).admits(
            ops.last(),
        ))
    }
}

/// Replacing one record changes the total by the difference between the
/// two balances.
pub proof fn lemma_total_after_update(balances: Seq<UserBalance>, user: int, record: UserBalance)
    requires
        0 <= user < balances.len(),
    ensures
        total_available(balances.update(user, record)) == total_available(balances)
            - balances[user].balance + record.balance,
    decreases balances.len(),
{
    let after = balances.update(user, record);
    if user == balances.len() - 1 {
        assert(after.drop_last() == balances.drop_last());
    } else {
        assert(after.drop_last() == balances.drop_last().update(user, record));
        lemma_total_after_update(balances.drop_last(), user, record);
    }
}

/// What one operation does to the locked collateral: taking from a balance
/// locks the amount, adding to a balance unlocks it, and everything else,
/// and every operation that fails, leaves it as it is.
pub proof fn lemma_apply_locked(ledger: Ledger, op: LedgerOp)
    ensures
        ledger.apply(op) == ledger ==> ledger.apply(op).locked() == ledger.locked(),
        ledger.apply(op) != ledger ==> ledger.apply(op).locked() == ledger.locked() + match op {
            LedgerOp::Slash { user, amount } => amount as int,
            LedgerOp::Credit { user, amount } => -(amount as int),
            _ => 0,
        },
        ledger.apply(op).balances.len() == ledger.balances.len(),
{
    match op {
        LedgerOp::Deposit { user, amount } => {
            if ledger.has(user) && amount > 0 {
                if let (Ok(record), Ok(authority)) = (
                    ledger.balances[user].spec_credit(amount),
                    ledger.authority.spec_add_deposit(amount),
                ) {
                    lemma_total_after_update(ledger.balances, user, record);
                }
            }
        },
        LedgerOp::Withdraw { user, amount } | LedgerOp::TransferOut { user, amount } => {
            if ledger.has(user) && amount > 0 {
                if let (Ok(record), Ok(authority)) = (
                    ledger.balances[user].spec_slash(amount),
                    ledger.authority.spec_subtract_deposit(amount),
                ) {
                    lemma_total_after_update(ledger.balances, user, record);
                }
            }
        },
        LedgerOp::Slash { user, amount } => {
            if ledger.has(user) && amount > 0 {
                if let Ok(record) = ledger.balances[user].spec_slash(amount) {
                    lemma_total_after_update(ledger.balances, user, record);
                }
            }
        },
        LedgerOp::Credit { user, amount } => {
            if ledger.has(user) && amount > 0 {
                if let Ok(record) = ledger.balances[user].spec_credit(amount) {
                    lemma_total_after_update(ledger.balances, user, record);
                }
            }
        },
        LedgerOp::Transfer { from, to, amount } => {
            if ledger.has(from) && ledger.has(to) && from != to && amount > 0 {
                if let (Ok(taken), Ok(given)) = (
                    ledger.balances[from].spec_slash(amount),
                    ledger.balances[to].spec_credit(amount),
                ) {
                    lemma_total_after_update(ledger.balances, from, taken);
                    lemma_total_after_update(ledger.balances.update(from, taken), to, given);
                }
            }
        },
    }
}

/// One operation keeps the ledger solvent, as long as it unlocks no more
/// than is locked.
pub proof fn lemma_apply_keeps_solvent(ledger: Ledger, op: LedgerOp)
    requires
        ledger.solvent(),
        ledger.admits(op),
    ensures
        ledger.apply(op).solvent(),
{
    lemma_apply_locked(ledger, op);
}

/// Any sequence of deposits, withdrawals, payments, locks, unlocks and
/// moves keeps the ledger solvent: the users never have more available
/// than is in custody, as long as no operation unlocks more than is locked
/// when its turn comes.
pub proof fn lemma_run_keeps_solvent(ledger: Ledger, ops: Seq<LedgerOp>)
    requires
        ledger.solvent(),
        ledger.admits_all(ops),
    ensures
        ledger.run(ops).solvent(),
    decreases ops.len(),
{
    if ops.len() > 0 {
        lemma_run_keeps_solvent(ledger, ops.drop_last());
        lemma_apply_keeps_solvent(ledger.run(ops.drop_last()), ops.last());
    }
}

/// Moving an amount between two users leaves what all users together have
/// available as it is.
pub proof fn lemma_transfer_keeps_total(ledger: Ledger, from: int, to: int, amount: u64)
    ensures
        total_available(ledger.apply(LedgerOp::Transfer { from, to, amount }).balances)
            == total_available(ledger.balances),
        ledger.apply(LedgerOp::Transfer { from, to, amount }).authority == ledger.authority,
{
    lemma_apply_locked(ledger, LedgerOp::Transfer { from, to, amount });
}

/// A deposit that succeeds does to the ledger what `LedgerOp::Deposit`
/// does, on the user's record and the custody record as the deposit finds
/// or starts them.
pub proof fn lemma_deposit_is_step(ctx: DepositCollateral, amount: u64, ledger: Ledger, user: int)
    requires
        ctx.spec_check(amount) is Ok,
        ledger.has(user),
        ledger.balances[user] == ctx.opened_balance(),
        ledger.authority == ctx.opened_authority(),
    ensures
        ledger.apply(LedgerOp::Deposit { user, amount }) == (Ledger {
            balances: ledger.balances.update(user, ctx.spec_after(amount).user_balance),
            authority: ctx.spec_after(amount).vault_authority,
        }),
{
}

/// A withdrawal that succeeds does to the ledger what `LedgerOp::Withdraw`
/// does.
pub proof fn lemma_withdraw_is_step(ctx: WithdrawCollateral, amount: u64, ledger: Ledger, user: int)
    requires
        ctx.spec_check(amount) is Ok,
        ledger.has(user),
        ledger.balances[user] == ctx.user_balance,
        ledger.authority == ctx.vault_authority,
    ensures
        ledger.apply(LedgerOp::Withdraw { user, amount }) == (Ledger {
            balances: ledger.balances.update(user, ctx.spec_after(amount).user_balance),
            authority: ctx.spec_after(amount).vault_authority,
        }),
{
}

/// Taking from a balance, where it succeeds, does to the ledger what
/// `LedgerOp::Slash` does.
pub proof fn lemma_slash_is_step(
    config: VaultConfig,
    shown: InstructionsSysvar,
    amount: u64,
    ledger: Ledger,
    user: int,
)
    requires
        ledger.has(user),
        slash_balance::spec_check(config, ledger.balances[user], shown, amount) is Ok,
    ensures
        ledger.apply(LedgerOp::Slash { user, amount }) == ledger.with_balance(
            user,
            slash_balance::spec_after(ledger.balances[user], amount),
        ),
{
}

/// Adding to a balance, where it succeeds, does to the ledger what
/// `LedgerOp::Credit` does.
pub proof fn lemma_credit_is_step(
    config: VaultConfig,
    shown: InstructionsSysvar,
    amount: u64,
    ledger: Ledger,
    user: int,
)
    requires
        ledger.has(user),
        credit_balance::spec_check(config, ledger.balances[user], shown, amount) is Ok,
    ensures
        ledger.apply(LedgerOp::Credit { user, amount }) == ledger.with_balance(
            user,
            credit_balance::spec_after(ledger.balances[user], amount),
        ),
{
}

/// A payment out of custody that succeeds does to the ledger what
/// `LedgerOp::TransferOut` does.
pub proof fn lemma_transfer_out_is_step(
    config: VaultConfig,
    route: PaymentRoute,
    shown: InstructionsSysvar,
    amount: u64,
    ledger: Ledger,
    user: int,
)
    requires
        ledger.has(user),
        transfer_out::spec_check(
            config,
            ledger.balances[user],
            ledger.authority,
            route,
            shown,
            amount,
        ) is Ok,
    ensures
        ledger.apply(LedgerOp::TransferOut { user, amount }) == (Ledger {
            balances: ledger.balances.update(
                user,
                transfer_out::spec_balance_after(ledger.balances[user], amount),
            ),
            authority: transfer_out::spec_authority_after(ledger.authority, amount),
        }),
{
}

/// A move between two users that succeeds does to the ledger what
/// `LedgerOp::Transfer` does.
pub proof fn lemma_transfer_is_step(
    ctx: TransferBalance,
    from_user: Pubkey,
    to_user: Pubkey,
    amount: u64,
    ledger: Ledger,
    from: int,
    to: int,
)
    requires
        ctx.spec_check(from_user, to_user, amount) is Ok,
        ledger.has(from),
        ledger.has(to),
        from != to,
        ledger.balances[from] == ctx.from_balance,
        ledger.balances[to] == ctx.to_balance,
    ensures
        ledger.apply(LedgerOp::Transfer { from, to, amount }) == ledger.with_balance(
            from,
            ctx.spec_after(amount).from_balance,
        ).with_balance(to, ctx.spec_after(amount).to_balance),
{
}

/// What a privileged caller locks and then unlocks is available again as
/// before: an admitted lock of an amount that is available, followed by an
/// unlock of the same amount under the same configuration and in the same
/// transaction, succeeds and gives the user's record back exactly.
pub proof fn lemma_lock_then_unlock_restores(
    config: VaultConfig,
    shown: InstructionsSysvar,
    record: UserBalance,
    amount: u64,
)
    requires
        slash_balance::spec_check(config, record, shown, amount) is Ok,
    ensures
        credit_balance::spec_check(
            config,
            slash_balance::spec_after(record, amount),
            shown,
            amount,
        ) is Ok,
        credit_balance::spec_after(slash_balance::spec_after(record, amount), amount) == record,
{
}

} // verus!
