use timelock::AccountId;
use timelock::InitializeLock;
use timelock::TimelockError;
use timelock::Vault;
use timelock::Withdraw;
use timelock::initialize_lock;
use timelock::vault_key;
use timelock::withdraw;
use timelock::withdrawable_amount;

const NOW: i64 = 1_700_000_000;

fn acct(n: u64) -> AccountId {
    AccountId(n, 0, 0, 0)
}

fn fresh_lock_ctx() -> InitializeLock {
    InitializeLock {
        owner: acct(1),
        recipient: acct(2),
        owner_balance: 5_000,
        vault_balance: 0,
        vault_in_use: false,
        now: NOW,
    }
}

#[test]
fn lock_creates_vault_and_moves_deposit() {
    let mut ctx = fresh_lock_ctx();
    let r = initialize_lock(&mut ctx, 1_000, NOW + 3_600);
    let vault = r.expect("creation with a future deadline succeeds");
    assert_eq!(vault.owner, acct(1));
    assert_eq!(vault.recipient, acct(2));
    assert_eq!(vault.amount, 1_000);
    assert_eq!(vault.unlock_ts, NOW + 3_600);
    assert!(vault.is_initialized);
    assert_eq!(ctx.owner_balance, 4_000);
    assert_eq!(ctx.vault_balance, 1_000);
    assert!(ctx.vault_in_use);
}

#[test]
fn lock_rejects_past_deadline() {
    let mut ctx = fresh_lock_ctx();
    let r = initialize_lock(&mut ctx, 1_000, NOW - 1);
    assert_eq!(r, Err(TimelockError::InvalidUnlockTime));
    assert_eq!(ctx.owner_balance, 5_000);
    assert_eq!(ctx.vault_balance, 0);
    assert!(!ctx.vault_in_use);
}

#[test]
fn lock_rejects_deadline_at_current_time() {
    let mut ctx = fresh_lock_ctx();
    let r = initialize_lock(&mut ctx, 1_000, NOW);
    assert_eq!(r, Err(TimelockError::InvalidUnlockTime));
    assert_eq!(ctx, fresh_lock_ctx());
}

#[test]
fn lock_rejects_occupied_slot() {
    let mut ctx = fresh_lock_ctx();
    ctx.vault_in_use = true;
    let r = initialize_lock(&mut ctx, 1_000, NOW + 3_600);
    assert_eq!(r, Err(TimelockError::AlreadyInitialized));
    assert_eq!(ctx.owner_balance, 5_000);
    assert_eq!(ctx.vault_balance, 0);
}

#[test]
fn lock_rejects_uncovered_amount() {
    let mut ctx = fresh_lock_ctx();
    let r = initialize_lock(&mut ctx, 5_001, NOW + 3_600);
    assert_eq!(r, Err(TimelockError::TransferFailure));
    assert_eq!(ctx, fresh_lock_ctx());
}

#[test]
fn withdraw_too_early() {
    let mut ctx = fresh_lock_ctx();
    let mut vault = initialize_lock(&mut ctx, 1_000, NOW + 3_600).expect("creation succeeds");
    let mut w = Withdraw {
        caller: acct(2),
        to: acct(2),
        to_balance: 0,
        vault_balance: ctx.vault_balance,
        reserve: 100,
        now: NOW,
    };
    let r = withdraw(&mut w, &mut vault);
    assert_eq!(r, Err(TimelockError::TooEarly));
    assert_eq!(w.to_balance, 0);
    assert_eq!(w.vault_balance, 1_000);
    assert_eq!(vault.amount, 1_000);
}

#[test]
fn withdraw_by_recipient_after_unlock() {
    let mut ctx = fresh_lock_ctx();
    let mut vault = initialize_lock(&mut ctx, 1_000, NOW + 3_600).expect("creation succeeds");
    let mut w = Withdraw {
        caller: acct(2),
        to: acct(2),
        to_balance: 250,
        vault_balance: ctx.vault_balance,
        reserve: 100,
        now: NOW + 3_601,
    };
    let r = withdraw(&mut w, &mut vault);
    assert_eq!(r, Ok(()));
    assert_eq!(w.to_balance, 250 + (1_000 - 100));
    assert_eq!(w.vault_balance, 100);
    assert_eq!(vault.amount, 0);
    assert!(vault.is_initialized);
}

#[test]
fn withdraw_by_owner_after_unlock() {
    let mut vault = Vault {
        owner: acct(1),
        recipient: acct(2),
        amount: 700,
        unlock_ts: NOW + 60,
        is_initialized: true,
    };
    let mut w = Withdraw {
        caller: acct(1),
        to: acct(1),
        to_balance: 0,
        vault_balance: 800,
        reserve: 100,
        now: NOW + 61,
    };
    let r = withdraw(&mut w, &mut vault);
    assert_eq!(r, Ok(()));
    assert_eq!(w.to_balance, 700);
    assert_eq!(w.vault_balance, 100);
    assert_eq!(vault.amount, 0);
}

#[test]
fn withdraw_by_third_party_after_unlock() {
    let mut ctx = fresh_lock_ctx();
    let mut vault = initialize_lock(&mut ctx, 1_000, NOW + 3_600).expect("creation succeeds");
    let mut w = Withdraw {
        caller: acct(3),
        to: acct(3),
        to_balance: 0,
        vault_balance: ctx.vault_balance,
        reserve: 100,
        now: NOW + 3_601,
    };
    let r = withdraw(&mut w, &mut vault);
    assert_eq!(r, Err(TimelockError::Unauthorized));
    assert_eq!(w.to_balance, 0);
    assert_eq!(w.vault_balance, 1_000);
    assert_eq!(vault.amount, 1_000);
}

#[test]
fn withdraw_at_exact_unlock_time_succeeds() {
    let mut vault = Vault {
        owner: acct(1),
        recipient: acct(2),
        amount: 300,
        unlock_ts: NOW + 10,
        is_initialized: true,
    };
    let mut w = Withdraw {
        caller: acct(2),
        to: acct(2),
        to_balance: 0,
        vault_balance: 400,
        reserve: 100,
        now: NOW + 10,
    };
    let r = withdraw(&mut w, &mut vault);
    assert_eq!(r, Ok(()));
    assert_eq!(w.to_balance, 300);
}

#[test]
fn withdraw_twice_moves_value_once() {
    // The vault's slot starts at the reserve, so after the deposit the
    // held balance fully backs the stored amount plus the reserve.
    let mut ctx = fresh_lock_ctx();
    ctx.vault_balance = 100;
    let mut vault = initialize_lock(&mut ctx, 1_000, NOW + 3_600).expect("creation succeeds");
    assert_eq!(ctx.vault_balance, 1_100);

    let mut w = Withdraw {
        caller: acct(2),
        to: acct(2),
        to_balance: 0,
        vault_balance: ctx.vault_balance,
        reserve: 100,
        now: NOW + 4_000,
    };
    assert_eq!(withdraw(&mut w, &mut vault), Ok(()));
    assert_eq!(w.to_balance, 1_000);
    assert_eq!(w.vault_balance, 100);
    assert_eq!(vault.amount, 0);

    let mut w2 = Withdraw {
        caller: acct(2),
        to: acct(2),
        to_balance: w.to_balance,
        vault_balance: w.vault_balance,
        reserve: 100,
        now: NOW + 5_000,
    };
    assert_eq!(withdraw(&mut w2, &mut vault), Ok(()));
    assert_eq!(w2.to_balance, 1_000);
    assert_eq!(w2.vault_balance, 100);
    assert_eq!(vault.amount, 0);
}

#[test]
fn withdraw_clamps_below_reserve() {
    let mut vault = Vault {
        owner: acct(1),
        recipient: acct(2),
        amount: 50,
        unlock_ts: NOW,
        is_initialized: true,
    };
    let mut w = Withdraw {
        caller: acct(1),
        to: acct(4),
        to_balance: 10,
        vault_balance: 50,
        reserve: 100,
        now: NOW + 1,
    };
    let r = withdraw(&mut w, &mut vault);
    assert_eq!(r, Ok(()));
    assert_eq!(w.to_balance, 10);
    assert_eq!(w.vault_balance, 50);
    assert_eq!(vault.amount, 0);
}

#[test]
fn withdraw_compares_the_whole_identity() {
    // An impostor whose key matches the recipient's in the first word
    // but differs in a later one is a different identity.
    let mut vault = Vault {
        owner: AccountId(1, 1, 1, 1),
        recipient: AccountId(2, 2, 2, 2),
        amount: 500,
        unlock_ts: NOW,
        is_initialized: true,
    };
    let mut w = Withdraw {
        caller: AccountId(2, 2, 2, 3),
        to: AccountId(2, 2, 2, 3),
        to_balance: 0,
        vault_balance: 600,
        reserve: 100,
        now: NOW + 1,
    };
    let r = withdraw(&mut w, &mut vault);
    assert_eq!(r, Err(TimelockError::Unauthorized));
    assert_eq!(w.to_balance, 0);
    assert_eq!(vault.amount, 500);

    let mut w2 = Withdraw {
        caller: AccountId(2, 2, 2, 2),
        to: AccountId(2, 2, 2, 2),
        to_balance: 0,
        vault_balance: 600,
        reserve: 100,
        now: NOW + 1,
    };
    assert_eq!(withdraw(&mut w2, &mut vault), Ok(()));
    assert_eq!(w2.to_balance, 500);
}

#[test]
fn withdrawable_amount_formula() {
    assert_eq!(withdrawable_amount(1_000, 100), 900);
    assert_eq!(withdrawable_amount(100, 100), 0);
    assert_eq!(withdrawable_amount(50, 100), 0);
    assert_eq!(withdrawable_amount(0, 0), 0);
    assert_eq!(withdrawable_amount(u64::MAX, 0), u64::MAX);
}

#[test]
fn vault_key_is_deterministic_and_collision_free() {
    let k = vault_key(acct(1), acct(2), NOW);
    assert_eq!(k, vault_key(acct(1), acct(2), NOW));
    assert_ne!(k, vault_key(acct(9), acct(2), NOW));
    assert_ne!(k, vault_key(acct(1), acct(9), NOW));
    assert_ne!(k, vault_key(acct(1), acct(2), NOW + 1));
}

#[test]
fn vault_rederives_its_own_key() {
    let vault = Vault {
        owner: acct(1),
        recipient: acct(2),
        amount: 1_000,
        unlock_ts: NOW + 3_600,
        is_initialized: true,
    };
    assert_eq!(vault.key(), vault_key(acct(1), acct(2), NOW + 3_600));
}
