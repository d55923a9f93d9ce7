use asset_vault::{Identity, InvestorPosition, VaultError};

fn position_with(amount: u64) -> InvestorPosition {
    InvestorPosition { vault: Identity::new([1; 32]), investor: Identity::new([2; 32]), amount }
}

#[test]
fn new_position_holds_nothing() {
    let vault = Identity::new([1; 32]);
    let investor = Identity::new([2; 32]);
    let position = InvestorPosition::new(vault, investor);
    assert_eq!(position, InvestorPosition { vault, investor, amount: 0 });
}

#[test]
fn credit_adds_to_the_position() {
    let mut position = position_with(0);
    assert_eq!(position.credit(100), Ok(()));
    assert_eq!(position.amount, 100);
    assert_eq!(position.credit(23), Ok(()));
    assert_eq!(position, position_with(123));
}

#[test]
fn credit_reaches_the_largest_amount() {
    let mut position = position_with(u64::MAX - 5);
    assert_eq!(position.credit(5), Ok(()));
    assert_eq!(position.amount, u64::MAX);
}

#[test]
fn credit_refuses_what_does_not_fit() {
    let mut position = position_with(u64::MAX - 5);
    assert_eq!(position.credit(6), Err(VaultError::ArithmeticOverflow));
    assert_eq!(position, position_with(u64::MAX - 5));
}

#[test]
fn debit_takes_from_the_position() {
    let mut position = position_with(100);
    assert_eq!(position.debit(40), Ok(()));
    assert_eq!(position, position_with(60));
}

#[test]
fn debit_may_empty_the_position() {
    let mut position = position_with(60);
    assert_eq!(position.debit(60), Ok(()));
    assert_eq!(position, position_with(0));
}

#[test]
fn debit_refuses_more_than_is_held() {
    let mut position = position_with(60);
    assert_eq!(position.debit(61), Err(VaultError::InsufficientFunds));
    assert_eq!(position, position_with(60));
}
