use vstd::prelude::*;

use crate::errors::TimelockError;

verus! {

/// The identity of a party on the ledger: a 256-bit account key held
/// as four plain 64-bit words.
///
/// The vault logic never inspects an identity beyond comparing it for
/// equality, but it compares the whole key: the surrounding system maps
/// each 32-byte account key onto these four words losslessly, so two
/// identities are equal here exactly when their keys are equal there.
#[derive(Clone, Copy, Debug, PartialEq, Eq, Structural)]
pub struct AccountId(pub u64, pub u64, pub u64, pub u64);

/// The vault record: the sole entity of the system.
///
/// `owner`, `recipient` and `unlock_ts` are immutable after creation;
/// `amount` is set once at creation and driven to zero by the first
/// successful withdrawal, where it remains as an audit marker.
#[derive(Clone, Copy, Debug, PartialEq, Eq, Structural)]
pub struct Vault {
    /// Identity of the depositor; authorized to withdraw after unlock.
    pub owner: AccountId,
    /// Identity named at creation as the alternate authorized withdrawer.
    pub recipient: AccountId,
    /// Quantity deposited at creation, in the smallest indivisible unit.
    pub amount: u64,
    /// Absolute timestamp after which withdrawal is permitted.
    pub unlock_ts: i64,
    /// Marks that creation completed; guards against half-constructed
    /// or reused records.
    pub is_initialized: bool,
}

/// The storage key of a vault, derived deterministically from the
/// (owner, recipient, unlock time) triple.
///
/// The same triple always maps to the same key and distinct triples to
/// distinct keys, so no separate lookup index is needed and no two
/// vaults for the same parties and deadline can coexist.
#[derive(Clone, Copy, Debug, PartialEq, Eq, Structural)]
pub struct VaultKey {
    pub owner: AccountId,
    pub recipient: AccountId,
    pub unlock_ts: i64,
}

/// The storage key that the triple (owner, recipient, unlock time)
/// derives to.
pub open spec fn key_of(owner: AccountId, recipient: AccountId, unlock_ts: i64) -> VaultKey {
    VaultKey { owner, recipient, unlock_ts }
}

/// Derives the storage key for a vault with the given parties and
/// deadline.
pub fn vault_key(owner: AccountId, recipient: AccountId, unlock_ts: i64) -> (k: VaultKey)
    ensures
        k == key_of(owner, recipient, unlock_ts),
{
    VaultKey { owner, recipient, unlock_ts }
}

impl Vault {
    /// Re-derives this record's storage key from the seed values it
    /// stores itself, closing the loop against spoofed records.
    pub fn key(&self) -> (k: VaultKey)
        ensures
            k == key_of(self.owner, self.recipient, self.unlock_ts),
    {
        VaultKey { owner: self.owner, recipient: self.recipient, unlock_ts: self.unlock_ts }
    }
}

/// Everything a creation call reads and writes: the parties, the ledger
/// balances involved, the occupancy of the derived storage slot, and
/// one trusted clock reading taken for the call.
#[derive(Clone, Copy, Debug, PartialEq, Eq, Structural)]
pub struct InitializeLock {
    /// Authenticated identity of the depositor funding the lock.
    pub owner: AccountId,
    /// Identity named as the counterparty; no proof of control required.
    pub recipient: AccountId,
    /// The depositor's ledger balance.
    pub owner_balance: u64,
    /// The held balance of the vault's storage slot.
    pub vault_balance: u64,
    /// Whether the derived slot already holds an initialized vault.
    pub vault_in_use: bool,
    /// The current trusted time, read once for this call.
    pub now: i64,
}

/// Everything a withdrawal call reads and writes: the caller, the
/// destination and its balance, the vault's held balance, the minimum
/// reserve the storage substrate demands, and one trusted clock reading
/// taken for the call.
#[derive(Clone, Copy, Debug, PartialEq, Eq, Structural)]
pub struct Withdraw {
    /// Authenticated identity issuing the withdrawal.
    pub caller: AccountId,
    /// Identity to receive the funds; caller-supplied, unauthenticated.
    pub to: AccountId,
    /// The destination's ledger balance.
    pub to_balance: u64,
    /// The vault record's held balance.
    pub vault_balance: u64,
    /// The floor below which the vault record would become invalid.
    pub reserve: u64,
    /// The current trusted time, read once for this call.
    pub now: i64,
}

/// The result a creation call returns for the given request, checked in
/// order: the deadline must lie in the future, the derived slot must be
/// free, and the depositor's balance must cover the amount.
pub open spec fn lock_outcome(
    ctx: InitializeLock,
    amount: u64,
    unlock_ts: i64,
) -> Result<Vault, TimelockError> {
    if unlock_ts <= ctx.now {
        Err(TimelockError::InvalidUnlockTime)
    } else if ctx.vault_in_use {
        Err(TimelockError::AlreadyInitialized)
    } else if amount > ctx.owner_balance {
        Err(TimelockError::TransferFailure)
    } else {
        Ok(
            Vault {
                owner: ctx.owner,
                recipient: ctx.recipient,
                amount,
                unlock_ts,
                is_initialized: true,
            },
        )
    }
}

/// The state a creation call leaves behind: on success the amount has
/// moved from the depositor into the vault's held balance and the slot
/// is occupied; on any failure nothing has changed.
pub open spec fn lock_step(ctx: InitializeLock, amount: u64, unlock_ts: i64) -> InitializeLock {
    if lock_outcome(ctx, amount, unlock_ts) is Ok {
        InitializeLock {
            owner_balance: (ctx.owner_balance - amount) as u64,
            vault_balance: (ctx.vault_balance + amount) as u64,
            vault_in_use: true,
            ..ctx
        }
    } else {
        ctx
    }
}

/// Creates a time lock: moves `amount` from the depositor's balance
/// into the vault's held balance and returns the initialized vault
/// record for the derived slot.
///
/// Fails with `InvalidUnlockTime` when the deadline is not strictly in
/// the future, with `AlreadyInitialized` when the slot already holds a
/// vault, and with `TransferFailure` when the depositor's balance does
/// not cover the amount. Every failure leaves all state unchanged: the
/// transfer and the record write happen together or not at all.
pub fn initialize_lock(
    ctx: &mut InitializeLock,
    amount: u64,
    unlock_ts: i64,
) -> (r: Result<Vault, TimelockError>)
    requires
        amount >= 1,
        lock_outcome(*old(ctx), amount, unlock_ts) is Ok ==> old(ctx).vault_balance + amount
            <= u64::MAX,
    ensures
        r == lock_outcome(*old(ctx), amount, unlock_ts),
        *final(ctx) == lock_step(*old(ctx), amount, unlock_ts),
        r is Ok <==> (unlock_ts > old(ctx).now && !old(ctx).vault_in_use && amount
            <= old(ctx).owner_balance),
        r == Err::<Vault, TimelockError>(TimelockError::InvalidUnlockTime) <==> unlock_ts <= old(
            ctx,
        ).now,
        r == Err::<Vault, TimelockError>(TimelockError::AlreadyInitialized) <==> (unlock_ts > old(
            ctx,
        ).now && old(ctx).vault_in_use),
        r == Err::<Vault, TimelockError>(TimelockError::TransferFailure) <==> (unlock_ts > old(
            ctx,
        ).now && !old(ctx).vault_in_use && amount > old(ctx).owner_balance),
        r is Err ==> *final(ctx) == *old(ctx),
        r matches Ok(v) ==> {
            &&& v.owner == old(ctx).owner
            &&& v.recipient == old(ctx).recipient
            &&& v.amount == amount
            &&& v.unlock_ts == unlock_ts
            &&& v.is_initialized
        },
        r is Ok ==> {
            &&& final(ctx).owner_balance == old(ctx).owner_balance - amount
            &&& final(ctx).vault_balance == old(ctx).vault_balance + amount
            &&& final(ctx).vault_in_use
            &&& final(ctx).owner == old(ctx).owner
            &&& final(ctx).recipient == old(ctx).recipient
            &&& final(ctx).now == old(ctx).now
        },
{
    if unlock_ts <= ctx.now {
        return Err(TimelockError::InvalidUnlockTime);
    }
    if ctx.vault_in_use {
        return Err(TimelockError::AlreadyInitialized);
    }
    if amount > ctx.owner_balance {
        return Err(TimelockError::TransferFailure);
    }
    ctx.owner_balance = ctx.owner_balance - amount;
    ctx.vault_balance = ctx.vault_balance + amount;
    ctx.vault_in_use = true;
    Ok(
        Vault {
            owner: ctx.owner,
            recipient: ctx.recipient,
            amount,
            unlock_ts,
            is_initialized: true,
        },
    )
}

/// How much a withdrawal may move out of a vault holding `held` while
/// the substrate demands `reserve`: the difference, clamped at zero.
pub open spec fn spec_withdrawable(held: u64, reserve: u64) -> u64 {
    if held >= reserve {
        (held - reserve) as u64
    } else {
        0
    }
}

/// Computes the withdrawable quantity: the held balance minus the
/// reserve, saturating at zero.
pub fn withdrawable_amount(held: u64, reserve: u64) -> (r: u64)
    ensures
        r == spec_withdrawable(held, reserve),
{
    if held >= reserve {
        held - reserve
    } else {
        0
    }
}

/// The result a withdrawal call returns for the given request, checked
/// in order: the unlock time must have passed, and the caller must be
/// the vault's owner or its recipient.
pub open spec fn withdraw_outcome(ctx: Withdraw, vault: Vault) -> Result<(), TimelockError> {
    if ctx.now < vault.unlock_ts {
        Err(TimelockError::TooEarly)
    } else if ctx.caller != vault.owner && ctx.caller != vault.recipient {
        Err(TimelockError::Unauthorized)
    } else {
        Ok(())
    }
}

/// The balances a withdrawal call leaves behind: on success the
/// withdrawable quantity has moved from the vault's held balance to the
/// destination; on any failure nothing has changed.
pub open spec fn withdraw_step_ctx(ctx: Withdraw, vault: Vault) -> Withdraw {
    if withdraw_outcome(ctx, vault) is Ok {
        Withdraw {
            vault_balance: (ctx.vault_balance - spec_withdrawable(
                ctx.vault_balance,
                ctx.reserve,
            )) as u64,
            to_balance: (ctx.to_balance + spec_withdrawable(ctx.vault_balance, ctx.reserve)) as u64,
            ..ctx
        }
    } else {
        ctx
    }
}

/// The vault record a withdrawal call leaves behind: drained on
/// success, untouched on failure.
pub open spec fn withdraw_step_vault(ctx: Withdraw, vault: Vault) -> Vault {
    if withdraw_outcome(ctx, vault) is Ok {
        Vault { amount: 0, ..vault }
    } else {
        vault
    }
}

/// Releases a vault: moves the withdrawable quantity (held balance
/// minus reserve, clamped at zero) to the destination and drives the
/// record's `amount` to zero.
///
/// Fails with `TooEarly` when the unlock time has not yet passed, and
/// with `Unauthorized` when the caller is neither the vault's owner nor
/// its recipient; both checks are made in that order, and every failure
/// leaves all state unchanged. A repeated call after a successful one
/// passes both checks again but finds nothing left above the reserve
/// and moves nothing: value never leaves the vault twice.
pub fn withdraw(ctx: &mut Withdraw, vault: &mut Vault) -> (r: Result<(), TimelockError>)
    requires
        old(vault).is_initialized,
        withdraw_outcome(*old(ctx), *old(vault)) is Ok ==> old(ctx).to_balance
            + spec_withdrawable(old(ctx).vault_balance, old(ctx).reserve) <= u64::MAX,
    ensures
        r == withdraw_outcome(*old(ctx), *old(vault)),
        *final(ctx) == withdraw_step_ctx(*old(ctx), *old(vault)),
        *final(vault) == withdraw_step_vault(*old(ctx), *old(vault)),
        r is Ok <==> (old(ctx).now >= old(vault).unlock_ts && (old(ctx).caller == old(
            vault,
        ).owner || old(ctx).caller == old(vault).recipient)),
        r == Err::<(), TimelockError>(TimelockError::TooEarly) <==> old(ctx).now < old(
            vault,
        ).unlock_ts,
        r == Err::<(), TimelockError>(TimelockError::Unauthorized) <==> (old(ctx).now >= old(
            vault,
        ).unlock_ts && old(ctx).caller != old(vault).owner && old(ctx).caller != old(
            vault,
        ).recipient),
        r is Err ==> *final(ctx) == *old(ctx) && *final(vault) == *old(vault),
        r is Ok ==> {
            &&& final(ctx).to_balance == old(ctx).to_balance + spec_withdrawable(
                old(ctx).vault_balance,
                old(ctx).reserve,
            )
            &&& final(ctx).vault_balance == old(ctx).vault_balance - spec_withdrawable(
                old(ctx).vault_balance,
                old(ctx).reserve,
            )
            &&& final(vault).amount == 0
            &&& final(vault).owner == old(vault).owner
            &&& final(vault).recipient == old(vault).recipient
            &&& final(vault).unlock_ts == old(vault).unlock_ts
            &&& final(vault).is_initialized == old(vault).is_initialized
            &&& final(ctx).caller == old(ctx).caller
            &&& final(ctx).to == old(ctx).to
            &&& final(ctx).reserve == old(ctx).reserve
            &&& final(ctx).now == old(ctx).now
        },
{
    if ctx.now < vault.unlock_ts {
        return Err(TimelockError::TooEarly);
    }
    if ctx.caller != vault.owner && ctx.caller != vault.recipient {
        return Err(TimelockError::Unauthorized);
    }
    let withdrawable = withdrawable_amount(ctx.vault_balance, ctx.reserve);
    ctx.vault_balance = ctx.vault_balance - withdrawable;
    ctx.to_balance = ctx.to_balance + withdrawable;
    vault.amount = 0;
    Ok(())
}

} // verus!
