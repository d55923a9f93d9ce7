use asset_vault::{
    withdraw_transfer, CustodyAccounts, DepositEvent, DepositFunds, DerivedAuthority, Identity,
    InvestorPosition, TransferFailure, Vault, VaultBook, VaultError, VaultEvent, WithdrawEvent,
    WithdrawFunds,
};

fn id(byte: u8) -> Identity {
    Identity::new([byte; 32])
}

fn manager() -> Identity {
    id(1)
}

fn authority() -> DerivedAuthority {
    DerivedAuthority { address: id(20), bump: 253 }
}

fn custody() -> CustodyAccounts {
    CustodyAccounts { token_mint: id(10), investor_token_account: id(11), vault_token_account: id(12) }
}

fn held(who: Identity, amount: u64) -> InvestorPosition {
    InvestorPosition { vault: id(20), investor: who, amount }
}

fn open_book() -> VaultBook {
    VaultBook::open(authority(), manager(), String::from("growth"))
}

fn sum_of_positions(book: &VaultBook) -> u128 {
    let mut sum: u128 = 0;
    for position in book.positions() {
        sum += position.amount as u128;
    }
    sum
}

#[test]
fn open_books_hold_nothing() {
    let book = open_book();
    assert_eq!(book.authority(), authority());
    assert_eq!(
        book.vault(),
        &Vault { manager: manager(), name: String::from("growth"), total_value: 0 }
    );
    assert!(book.positions().is_empty());
}

#[test]
fn get_or_create_gives_an_empty_position_to_a_new_investor() {
    let book = open_book();
    assert_eq!(book.position(&id(2)), None);
    assert_eq!(book.get_or_create(id(2)), held(id(2), 0));
    assert!(book.positions().is_empty());
}

#[test]
fn get_or_create_gives_the_position_on_the_books() {
    let mut book = open_book();
    let mut events: Vec<VaultEvent> = Vec::new();
    book.deposit(id(2), &custody(), 70, Ok(()), &mut events).unwrap();
    book.deposit(id(3), &custody(), 5, Ok(()), &mut events).unwrap();
    assert_eq!(book.get_or_create(id(2)), held(id(2), 70));
    assert_eq!(book.get_or_create(id(3)), held(id(3), 5));
    assert_eq!(book.position(&id(3)), Some(held(id(3), 5)));
    assert_eq!(book.position(&id(4)), None);
}

#[test]
fn deposit_accounts_resolve_vault_and_position() {
    let mut book = open_book();
    let mut events: Vec<VaultEvent> = Vec::new();
    book.deposit(id(2), &custody(), 70, Ok(()), &mut events).unwrap();
    assert_eq!(
        book.deposit_accounts(id(2), &custody()),
        DepositFunds {
            vault: Vault { manager: manager(), name: String::from("growth"), total_value: 70 },
            investor: id(2),
            token_mint: id(10),
            investor_token_account: id(11),
            investor_position: held(id(2), 70),
            vault_token_account: id(12),
        }
    );
}

#[test]
fn withdraw_accounts_carry_the_vaults_authority() {
    let mut book = open_book();
    let mut events: Vec<VaultEvent> = Vec::new();
    book.deposit(id(2), &custody(), 70, Ok(()), &mut events).unwrap();
    let ctx = book.withdraw_accounts(id(2), &custody());
    assert_eq!(
        ctx,
        WithdrawFunds {
            vault: Vault { manager: manager(), name: String::from("growth"), total_value: 70 },
            vault_authority: authority(),
            investor: id(2),
            token_mint: id(10),
            investor_token_account: id(11),
            investor_position: held(id(2), 70),
            vault_token_account: id(12),
        }
    );
    let instruction = withdraw_transfer(&ctx, 70).unwrap();
    assert_eq!(instruction.authority, id(20));
    assert_eq!(
        instruction.signer_seeds,
        vec![b"asset_vault".to_vec(), b"growth".to_vec(), vec![253u8]]
    );
}

#[test]
fn second_deposit_adds_to_the_same_position() {
    let mut book = open_book();
    let mut events: Vec<VaultEvent> = Vec::new();
    book.deposit(id(2), &custody(), 70, Ok(()), &mut events).unwrap();
    let booked = book.deposit(id(2), &custody(), 30, Ok(()), &mut events);
    assert_eq!(booked, Ok(DepositEvent { investor: id(2), amount: 30, total_invested: 100 }));
    assert_eq!(book.positions(), &vec![held(id(2), 100)]);
    assert_eq!(book.vault().total_value, 100);
}

#[test]
fn emptied_position_stays_on_the_books() {
    let mut book = open_book();
    let mut events: Vec<VaultEvent> = Vec::new();
    book.deposit(id(2), &custody(), 70, Ok(()), &mut events).unwrap();
    let booked = book.withdraw(id(2), &custody(), 70, Ok(()), &mut events);
    assert_eq!(booked, Ok(WithdrawEvent { investor: id(2), amount: 70, remaining_balance: 0 }));
    assert_eq!(book.position(&id(2)), Some(held(id(2), 0)));
    assert_eq!(book.vault().total_value, 0);
}

#[test]
fn refused_first_deposit_leaves_no_position() {
    let mut book = open_book();
    let mut events: Vec<VaultEvent> = Vec::new();
    let refused =
        book.deposit(id(2), &custody(), 70, Err(TransferFailure::AccountFrozen), &mut events);
    assert_eq!(refused, Err(VaultError::TransferFailed(TransferFailure::AccountFrozen)));
    assert_eq!(book.position(&id(2)), None);
    assert!(book.positions().is_empty());
    assert_eq!(book.vault().total_value, 0);
    assert!(events.is_empty());
}

#[test]
fn withdrawal_without_a_position_is_refused() {
    let mut book = open_book();
    let mut events: Vec<VaultEvent> = Vec::new();
    book.deposit(id(2), &custody(), 70, Ok(()), &mut events).unwrap();
    let refused = book.withdraw(id(3), &custody(), 1, Ok(()), &mut events);
    assert_eq!(refused, Err(VaultError::InsufficientFunds));
    assert_eq!(book.position(&id(3)), None);
    assert_eq!(book.positions(), &vec![held(id(2), 70)]);
}

#[test]
fn manager_may_deposit_but_not_withdraw() {
    let mut book = open_book();
    let mut events: Vec<VaultEvent> = Vec::new();
    book.deposit(manager(), &custody(), 500, Ok(()), &mut events).unwrap();
    assert_eq!(book.position(&manager()), Some(held(manager(), 500)));
    for amount in [1u64, 500, 501, u64::MAX] {
        let refused = book.withdraw(manager(), &custody(), amount, Ok(()), &mut events);
        assert_eq!(refused, Err(VaultError::ManagerCannotWithdraw));
    }
    assert_eq!(book.position(&manager()), Some(held(manager(), 500)));
    assert_eq!(book.vault().total_value, 500);
    assert_eq!(events.len(), 1);
}

#[test]
fn manager_withdrawing_nothing_is_an_invalid_amount() {
    let mut book = open_book();
    let mut events: Vec<VaultEvent> = Vec::new();
    let refused = book.withdraw(manager(), &custody(), 0, Ok(()), &mut events);
    assert_eq!(refused, Err(VaultError::InvalidAmount));
}

#[test]
fn total_is_the_sum_of_positions_after_every_request() {
    let mut book = open_book();
    let mut events: Vec<VaultEvent> = Vec::new();
    let requests: [(bool, u8, u64, Result<(), TransferFailure>); 10] = [
        (true, 2, 100, Ok(())),
        (true, 3, 40, Ok(())),
        (false, 2, 30, Ok(())),
        (false, 3, 41, Ok(())),
        (true, 4, 0, Ok(())),
        (true, 4, 9, Err(TransferFailure::InsufficientBalance)),
        (false, 1, 10, Ok(())),
        (true, 1, 10, Ok(())),
        (false, 3, 40, Ok(())),
        (false, 2, 5, Err(TransferFailure::AuthorizationError)),
    ];
    for (is_deposit, who, amount, transfer) in requests {
        if is_deposit {
            let _ = book.deposit(id(who), &custody(), amount, transfer, &mut events);
        } else {
            let _ = book.withdraw(id(who), &custody(), amount, transfer, &mut events);
        }
        assert_eq!(book.vault().total_value as u128, sum_of_positions(&book));
    }
    assert_eq!(book.positions(), &vec![held(id(2), 70), held(id(3), 0), held(id(1), 10)]);
    assert_eq!(book.vault().total_value, 80);
    assert_eq!(events.len(), 5);
}

#[test]
fn positions_fall_only_by_booked_withdrawals() {
    let mut book = open_book();
    let mut events: Vec<VaultEvent> = Vec::new();
    book.deposit(id(2), &custody(), 100, Ok(()), &mut events).unwrap();
    book.deposit(id(3), &custody(), 40, Ok(()), &mut events).unwrap();

    let before = book.positions().clone();
    book.deposit(id(3), &custody(), 1, Ok(()), &mut events).unwrap();
    assert_eq!(book.positions(), &vec![before[0], held(id(3), 41)]);

    let before = book.positions().clone();
    let booked = book.withdraw(id(2), &custody(), 25, Ok(()), &mut events);
    assert!(booked.is_ok());
    assert_eq!(book.positions(), &vec![held(id(2), 75), before[1]]);

    let before = book.positions().clone();
    let refused = book.withdraw(id(2), &custody(), 76, Ok(()), &mut events);
    assert_eq!(refused, Err(VaultError::InsufficientFunds));
    assert_eq!(book.positions(), &before);
}

#[test]
fn deposit_that_would_overflow_the_books_is_refused() {
    let mut book = open_book();
    let mut events: Vec<VaultEvent> = Vec::new();
    book.deposit(id(2), &custody(), u64::MAX - 1, Ok(()), &mut events).unwrap();
    let refused = book.deposit(id(3), &custody(), 2, Ok(()), &mut events);
    assert_eq!(refused, Err(VaultError::ArithmeticOverflow));
    assert_eq!(book.positions(), &vec![held(id(2), u64::MAX - 1)]);
    assert_eq!(book.vault().total_value, u64::MAX - 1);
    let booked = book.deposit(id(3), &custody(), 1, Ok(()), &mut events);
    assert_eq!(booked, Ok(DepositEvent { investor: id(3), amount: 1, total_invested: 1 }));
    assert_eq!(book.vault().total_value, u64::MAX);
}
