use zk_payroll::address::Address;
use zk_payroll::token::Token;
use zk_payroll::token::TokenError;

fn holder(tag: u8) -> Address {
    Address::Account([tag; 32])
}

#[test]
fn mint_and_transfer_move_balances() {
    let mut token = Token::new();
    assert_eq!(token.balance(&holder(1)), 0);
    assert_eq!(token.mint(holder(1), 10_000), Ok(()));
    assert_eq!(token.mint(holder(1), 5), Ok(()));
    assert_eq!(token.balance(&holder(1)), 10_005);

    assert_eq!(token.transfer(holder(1), holder(2), 5_000), Ok(()));
    assert_eq!(token.balance(&holder(1)), 5_005);
    assert_eq!(token.balance(&holder(2)), 5_000);

    // To oneself: nothing changes.
    assert_eq!(token.transfer(holder(1), holder(1), 5_005), Ok(()));
    assert_eq!(token.balance(&holder(1)), 5_005);
    assert_eq!(token.transfer(holder(1), holder(2), 0), Ok(()));
    assert_eq!(token.balance(&holder(2)), 5_000);
}

#[test]
fn every_token_error_has_its_input() {
    let mut token = Token::new();
    assert_eq!(token.mint(holder(1), -1), Err(TokenError::NegativeAmount));
    assert_eq!(token.mint(holder(1), i128::MAX), Ok(()));
    assert_eq!(token.mint(holder(1), 1), Err(TokenError::BalanceOverflow));
    assert_eq!(token.balance(&holder(1)), i128::MAX);

    assert_eq!(token.transfer(holder(1), holder(2), -5), Err(TokenError::NegativeAmount));
    assert_eq!(token.transfer(holder(2), holder(1), 1), Err(TokenError::InsufficientBalance));
    assert_eq!(token.mint(holder(2), 10), Ok(()));
    assert_eq!(token.transfer(holder(2), holder(1), 1), Err(TokenError::BalanceOverflow));
    // A failed transfer changes nothing.
    assert_eq!(token.balance(&holder(1)), i128::MAX);
    assert_eq!(token.balance(&holder(2)), 10);
    // The whole balance may move to oneself even at the top of the range.
    assert_eq!(token.transfer(holder(1), holder(1), i128::MAX), Ok(()));
    assert_eq!(token.balance(&holder(1)), i128::MAX);
}

#[test]
fn a_transfer_is_checked_without_moving_anything() {
    let mut token = Token::new();
    assert_eq!(token.mint(holder(1), 100), Ok(()));
    assert_eq!(token.check_transfer(holder(1), holder(2), 100), Ok(()));
    assert_eq!(token.check_transfer(holder(1), holder(2), 101), Err(TokenError::InsufficientBalance));
    assert_eq!(token.check_transfer(holder(1), holder(2), -1), Err(TokenError::NegativeAmount));
    assert_eq!(token.check_transfer(holder(3), holder(2), 0), Ok(()));
    assert_eq!(token.balance(&holder(1)), 100);
    assert_eq!(token.balance(&holder(2)), 0);

    assert_eq!(token.mint(holder(2), i128::MAX), Ok(()));
    assert_eq!(token.check_transfer(holder(1), holder(2), 1), Err(TokenError::BalanceOverflow));
    assert_eq!(token.check_transfer(holder(2), holder(2), i128::MAX), Ok(()));
    // The check and the transfer agree.
    assert_eq!(token.transfer(holder(1), holder(2), 1), Err(TokenError::BalanceOverflow));
    assert_eq!(token.transfer(holder(2), holder(1), 50), Ok(()));
    assert_eq!(token.balance(&holder(1)), 150);
}

#[test]
fn a_duplicated_ledger_goes_its_own_way() {
    let mut token = Token::new();
    assert_eq!(token.mint(holder(1), 100), Ok(()));
    let mut copy = token.duplicate();
    assert_eq!(copy.balance(&holder(1)), 100);
    assert_eq!(copy.transfer(holder(1), holder(2), 40), Ok(()));
    assert_eq!(copy.balance(&holder(1)), 60);
    assert_eq!(copy.balance(&holder(2)), 40);
    assert_eq!(token.balance(&holder(1)), 100);
    assert_eq!(token.balance(&holder(2)), 0);
}
