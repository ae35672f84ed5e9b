//! A time-locked value vault.
//!
//! A depositor locks a quantity of value together with a designated
//! recipient and an absolute unlock timestamp. Once that timestamp has
//! elapsed, either the depositor or the recipient may withdraw the held
//! balance, minus the minimum reserve the storage substrate requires to
//! keep the vault record alive.
//!
//! The library is the vault's state machine: creation
//! ([`initialize_lock`]) and release ([`withdraw`]), with their
//! authorization and time-gating rules. Clock reads and the actual
//! movement of value on a ledger are collaborators that the caller
//! performs; the operations here take their readings as plain values and
//! say exactly how balances and the vault record change.

use vstd::prelude::*;

mod errors;
mod laws;
mod vault;

pub use errors::TimelockError;
pub use laws::lemma_lock_conserves_value;
pub use laws::lemma_lock_rejects_past_deadline;
pub use laws::lemma_total_withdrawn_bounded;
pub use laws::lemma_vault_key_injective;
pub use laws::lemma_withdraw_idempotent;
pub use laws::lemma_withdraw_pays_out;
pub use laws::lemma_withdraw_rejects_early;
pub use laws::lemma_withdraw_rejects_unauthorized;
pub use vault::AccountId;
pub use vault::InitializeLock;
pub use vault::Vault;
pub use vault::VaultKey;
pub use vault::Withdraw;
pub use vault::initialize_lock;
pub use vault::key_of;
pub use vault::lock_outcome;
pub use vault::lock_step;
pub use vault::spec_withdrawable;
pub use vault::vault_key;
pub use vault::withdraw;
pub use vault::withdraw_outcome;
pub use vault::withdraw_step_ctx;
pub use vault::withdraw_step_vault;
pub use vault::withdrawable_amount;
