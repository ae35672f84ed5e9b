use vstd::prelude::*;

use crate::errors::TimelockError;
use crate::vault::AccountId;
use crate::vault::InitializeLock;
use crate::vault::Vault;
use crate::vault::Withdraw;
use crate::vault::key_of;
use crate::vault::lock_outcome;
use crate::vault::lock_step;
use crate::vault::spec_withdrawable;
use crate::vault::withdraw_outcome;
use crate::vault::withdraw_step_ctx;
use crate::vault::withdraw_step_vault;

verus! {

/// A creation request whose deadline does not lie strictly in the
/// future fails with `InvalidUnlockTime`: no value moves and no record
/// is created.
pub proof fn lemma_lock_rejects_past_deadline(ctx: InitializeLock, amount: u64, unlock_ts: i64)
    requires
        unlock_ts <= ctx.now,
    ensures
        lock_outcome(ctx, amount, unlock_ts) == Err::<Vault, TimelockError>(
            TimelockError::InvalidUnlockTime,
        ),
        lock_step(ctx, amount, unlock_ts) == ctx,
{
}

/// A successful creation stores exactly the requested amount in the
/// vault record, decreases the depositor's balance by exactly that
/// amount, and (where the held balance can take it without exceeding
/// the machine word) increases the vault's held balance by the same
/// amount.
pub proof fn lemma_lock_conserves_value(ctx: InitializeLock, amount: u64, unlock_ts: i64)
    requires
        lock_outcome(ctx, amount, unlock_ts) is Ok,
    ensures
        lock_outcome(ctx, amount, unlock_ts)->Ok_0.amount == amount,
        lock_outcome(ctx, amount, unlock_ts)->Ok_0.owner == ctx.owner,
        lock_outcome(ctx, amount, unlock_ts)->Ok_0.recipient == ctx.recipient,
        lock_outcome(ctx, amount, unlock_ts)->Ok_0.unlock_ts == unlock_ts,
        lock_outcome(ctx, amount, unlock_ts)->Ok_0.is_initialized,
        lock_step(ctx, amount, unlock_ts).owner_balance == ctx.owner_balance - amount,
        ctx.vault_balance + amount <= u64::MAX ==> lock_step(ctx, amount, unlock_ts).vault_balance
            == ctx.vault_balance + amount,
{
}

/// A withdrawal attempted before the unlock time fails with `TooEarly`
/// and moves no value, whoever the caller is.
pub proof fn lemma_withdraw_rejects_early(ctx: Withdraw, vault: Vault)
    requires
        ctx.now < vault.unlock_ts,
    ensures
        withdraw_outcome(ctx, vault) == Err::<(), TimelockError>(TimelockError::TooEarly),
        withdraw_step_ctx(ctx, vault) == ctx,
        withdraw_step_vault(ctx, vault) == vault,
{
}

/// A withdrawal attempted after unlock by an identity that is neither
/// the vault's owner nor its recipient fails with `Unauthorized` and
/// moves no value. Before unlock such an attempt also moves nothing,
/// but surfaces as `TooEarly`: the time gate is checked first.
pub proof fn lemma_withdraw_rejects_unauthorized(ctx: Withdraw, vault: Vault)
    requires
        ctx.now >= vault.unlock_ts,
        ctx.caller != vault.owner,
        ctx.caller != vault.recipient,
    ensures
        withdraw_outcome(ctx, vault) == Err::<(), TimelockError>(TimelockError::Unauthorized),
        withdraw_step_ctx(ctx, vault) == ctx,
        withdraw_step_vault(ctx, vault) == vault,
{
}

/// A successful withdrawal moves exactly the withdrawable quantity —
/// held balance minus reserve, clamped at zero — out of the vault and
/// into the destination, and drives the record's stored amount to zero.
pub proof fn lemma_withdraw_pays_out(ctx: Withdraw, vault: Vault)
    requires
        withdraw_outcome(ctx, vault) is Ok,
        ctx.to_balance + spec_withdrawable(ctx.vault_balance, ctx.reserve) <= u64::MAX,
    ensures
        withdraw_step_ctx(ctx, vault).to_balance == ctx.to_balance + spec_withdrawable(
            ctx.vault_balance,
            ctx.reserve,
        ),
        withdraw_step_ctx(ctx, vault).vault_balance == ctx.vault_balance - spec_withdrawable(
            ctx.vault_balance,
            ctx.reserve,
        ),
        withdraw_step_vault(ctx, vault).amount == 0,
        withdraw_step_vault(ctx, vault).owner == vault.owner,
        withdraw_step_vault(ctx, vault).recipient == vault.recipient,
        withdraw_step_vault(ctx, vault).unlock_ts == vault.unlock_ts,
{
}

/// A second withdrawal after a successful one never moves value again:
/// the first leaves the held balance at or below the reserve, so any
/// later attempt against that balance — whatever its caller, clock
/// reading or outcome — finds nothing withdrawable and changes no
/// balance.
pub proof fn lemma_withdraw_idempotent(ctx1: Withdraw, vault1: Vault, ctx2: Withdraw)
    requires
        withdraw_outcome(ctx1, vault1) is Ok,
        ctx2.vault_balance == withdraw_step_ctx(ctx1, vault1).vault_balance,
        ctx2.reserve == ctx1.reserve,
    ensures
        spec_withdrawable(ctx2.vault_balance, ctx2.reserve) == 0,
        withdraw_step_ctx(ctx2, withdraw_step_vault(ctx1, vault1)).to_balance == ctx2.to_balance,
        withdraw_step_ctx(ctx2, withdraw_step_vault(ctx1, vault1)).vault_balance
            == ctx2.vault_balance,
{
}

/// Under the backing invariant — the vault's held balance is the stored
/// amount plus the substrate's reserve — a withdrawal moves exactly the
/// stored amount, so the total value ever transferred out of the vault
/// never exceeds the amount originally deposited.
pub proof fn lemma_total_withdrawn_bounded(ctx: Withdraw, vault: Vault)
    requires
        ctx.vault_balance == vault.amount + ctx.reserve,
    ensures
        spec_withdrawable(ctx.vault_balance, ctx.reserve) == vault.amount,
{
}

/// Deriving a vault's storage key is deterministic and collision-free:
/// two triples map to the same key exactly when they are the same
/// triple.
pub proof fn lemma_vault_key_injective(
    o1: AccountId,
    r1: AccountId,
    t1: i64,
    o2: AccountId,
    r2: AccountId,
    t2: i64,
)
    ensures
        key_of(o1, r1, t1) == key_of(o2, r2, t2) <==> (o1 == o2 && r1 == r2 && t1 == t2),
{
}

} // verus!
