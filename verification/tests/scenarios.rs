use asset_vault::{
    deposit_transfer, CustodyAccounts, DepositEvent, DerivedAuthority, Identity,
    InvestorPosition, TransferFailure, Vault, VaultError, VaultEvent, VaultRegistry,
    WithdrawEvent,
};

fn id(byte: u8) -> Identity {
    Identity::new([byte; 32])
}

fn manager() -> Identity {
    id(1)
}

fn investor() -> Identity {
    id(2)
}

fn authority() -> DerivedAuthority {
    DerivedAuthority { address: id(20), bump: 255 }
}

fn custody() -> CustodyAccounts {
    CustodyAccounts { token_mint: id(10), investor_token_account: id(11), vault_token_account: id(12) }
}

fn fund1() -> Vault {
    Vault { manager: manager(), name: String::from("fund1"), total_value: 0 }
}

fn fund1_with(total_value: u64) -> Vault {
    Vault { total_value, ..fund1() }
}

fn held(who: Identity, amount: u64) -> InvestorPosition {
    InvestorPosition { vault: id(20), investor: who, amount }
}

/// A registry with the vault "fund1" in which the investor has deposited 100.
fn after_first_deposit() -> (VaultRegistry, usize, Vec<VaultEvent>) {
    let mut registry = VaultRegistry::new();
    let mut events: Vec<VaultEvent> = Vec::new();
    let vault = registry.create(String::from("fund1"), manager(), authority()).unwrap();
    registry.deposit(vault, investor(), &custody(), 100, Ok(()), &mut events).unwrap();
    (registry, vault, events)
}

/// The same after the investor has withdrawn 40.
fn after_first_withdrawal() -> (VaultRegistry, usize, Vec<VaultEvent>) {
    let (mut registry, vault, mut events) = after_first_deposit();
    registry.withdraw(vault, investor(), &custody(), 40, Ok(()), &mut events).unwrap();
    (registry, vault, events)
}

#[test]
fn deposit_into_a_new_vault() {
    let mut registry = VaultRegistry::new();
    let mut events: Vec<VaultEvent> = Vec::new();
    let vault = registry.create(String::from("fund1"), manager(), authority()).unwrap();
    assert_eq!(registry.book(vault).vault(), &fund1());
    assert!(registry.book(vault).positions().is_empty());

    let booked = registry.deposit(vault, investor(), &custody(), 100, Ok(()), &mut events);
    let event = DepositEvent { investor: investor(), amount: 100, total_invested: 100 };
    assert_eq!(booked, Ok(event));
    assert_eq!(registry.book(vault).vault().total_value, 100);
    assert_eq!(registry.book(vault).position(&investor()), Some(held(investor(), 100)));
    assert_eq!(events, vec![VaultEvent::Deposit(event)]);
}

#[test]
fn withdraw_part_of_a_deposit() {
    let (mut registry, vault, mut events) = after_first_deposit();
    let booked = registry.withdraw(vault, investor(), &custody(), 40, Ok(()), &mut events);
    let event = WithdrawEvent { investor: investor(), amount: 40, remaining_balance: 60 };
    assert_eq!(booked, Ok(event));
    assert_eq!(registry.book(vault).vault().total_value, 60);
    assert_eq!(registry.book(vault).position(&investor()), Some(held(investor(), 60)));
    assert_eq!(events.len(), 2);
    assert_eq!(events[1], VaultEvent::Withdraw(event));
}

#[test]
fn withdraw_more_than_is_held() {
    let (mut registry, vault, mut events) = after_first_withdrawal();
    let refused = registry.withdraw(vault, investor(), &custody(), 1000, Ok(()), &mut events);
    assert_eq!(refused, Err(VaultError::InsufficientFunds));
    assert_eq!(registry.book(vault).vault(), &fund1_with(60));
    assert_eq!(registry.book(vault).positions(), &vec![held(investor(), 60)]);
    assert_eq!(events.len(), 2);
}

#[test]
fn manager_attempts_to_withdraw() {
    let (mut registry, vault, mut events) = after_first_withdrawal();
    let refused = registry.withdraw(vault, manager(), &custody(), 10, Ok(()), &mut events);
    assert_eq!(refused, Err(VaultError::ManagerCannotWithdraw));
    assert_eq!(registry.book(vault).vault(), &fund1_with(60));
    assert_eq!(registry.book(vault).positions(), &vec![held(investor(), 60)]);
    assert_eq!(registry.book(vault).position(&manager()), None);
    assert_eq!(events.len(), 2);
}

#[test]
fn two_investors_in_one_vault() {
    let first = id(2);
    let second = id(3);
    let mut registry = VaultRegistry::new();
    let mut events: Vec<VaultEvent> = Vec::new();
    let vault = registry.create(String::from("fund1"), manager(), authority()).unwrap();
    assert_eq!(
        registry.deposit(vault, first, &custody(), 50, Ok(()), &mut events),
        Ok(DepositEvent { investor: first, amount: 50, total_invested: 50 })
    );
    assert_eq!(
        registry.deposit(vault, second, &custody(), 30, Ok(()), &mut events),
        Ok(DepositEvent { investor: second, amount: 30, total_invested: 30 })
    );
    assert_eq!(registry.book(vault).vault().total_value, 80);
    assert_eq!(registry.book(vault).position(&first), Some(held(first, 50)));
    assert_eq!(registry.book(vault).position(&second), Some(held(second, 30)));
    assert_eq!(registry.book(vault).positions(), &vec![held(first, 50), held(second, 30)]);
}

#[test]
fn deposit_of_nothing_is_refused_before_any_transfer() {
    let mut registry = VaultRegistry::new();
    let mut events: Vec<VaultEvent> = Vec::new();
    let vault = registry.create(String::from("fund1"), manager(), authority()).unwrap();

    let ctx = registry.book(vault).deposit_accounts(investor(), &custody());
    assert_eq!(deposit_transfer(&ctx, 0), Err(VaultError::InvalidAmount));

    let refused = registry.deposit(
        vault,
        investor(),
        &custody(),
        0,
        Err(TransferFailure::InsufficientBalance),
        &mut events,
    );
    assert_eq!(refused, Err(VaultError::InvalidAmount));
    assert_eq!(registry.book(vault).vault(), &fund1());
    assert!(registry.book(vault).positions().is_empty());
    assert!(events.is_empty());
}
