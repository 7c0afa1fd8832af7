use erc20::events::Approval;
use erc20::events::Event;
use erc20::events::Transfer;
use erc20::token::Erc20Token;

const ALICE: u64 = 1;
const BOB: u64 = 2;
const CHARLIE: u64 = 3;

#[test]
fn it_works() {
    let mut erc20_token = Erc20Token::new(ALICE, 1_000);
    assert_eq!(erc20_token.total_supply(), 1_000);
    assert_eq!(erc20_token.balance_of(ALICE), 1_000);

    assert!(erc20_token.transfer(ALICE, BOB, 500));
    assert_eq!(erc20_token.balance_of(ALICE), 500);
    assert_eq!(erc20_token.balance_of(BOB), 500);

    assert!(erc20_token.approve(ALICE, CHARLIE, 200));
    assert_eq!(erc20_token.allowance(ALICE, CHARLIE), 200);

    assert!(erc20_token.transfer_from(CHARLIE, ALICE, CHARLIE, 200));
    assert_eq!(erc20_token.balance_of(ALICE), 300);
    assert_eq!(erc20_token.balance_of(CHARLIE), 200);
    assert_eq!(erc20_token.allowance(ALICE, CHARLIE), 0);
}

#[test]
fn construction_credits_creator_with_whole_supply() {
    let token = Erc20Token::new(ALICE, 777);
    assert_eq!(token.total_supply(), 777);
    assert_eq!(token.balance_of(ALICE), 777);
    assert_eq!(token.balance_of(BOB), 0);
    assert_eq!(token.allowance(ALICE, BOB), 0);
    assert!(token.events.is_empty());
}

#[test]
fn unknown_account_reads_zero() {
    let token = Erc20Token::new(ALICE, 10);
    assert_eq!(token.balance_of(999), 0);
    assert_eq!(token.allowance(999, 1000), 0);
    assert_eq!(token.allowance(ALICE, ALICE), 0);
}

#[test]
fn approve_overwrites_previous_allowance() {
    let mut token = Erc20Token::new(ALICE, 100);
    assert!(token.approve(ALICE, BOB, 30));
    assert_eq!(token.allowance(ALICE, BOB), 30);
    assert!(token.approve(ALICE, BOB, 70));
    assert_eq!(token.allowance(ALICE, BOB), 70);
}

#[test]
fn approve_is_not_bounded_by_balance() {
    let mut token = Erc20Token::new(ALICE, 5);
    assert!(token.approve(ALICE, BOB, 1_000_000));
    assert_eq!(token.allowance(ALICE, BOB), 1_000_000);
}

#[test]
fn transfer_from_decrements_exactly_by_spent_amount() {
    let mut token = Erc20Token::new(ALICE, 1_000);
    assert!(token.approve(ALICE, BOB, 100));
    assert!(token.transfer_from(BOB, ALICE, CHARLIE, 40));
    assert_eq!(token.allowance(ALICE, BOB), 60);
    assert_eq!(token.balance_of(ALICE), 960);
    assert_eq!(token.balance_of(CHARLIE), 40);
}

#[test]
fn transfer_from_with_exact_allowance_succeeds() {
    let mut token = Erc20Token::new(ALICE, 100);
    assert!(token.approve(ALICE, BOB, 50));
    assert!(token.transfer_from(BOB, ALICE, BOB, 50));
    assert_eq!(token.allowance(ALICE, BOB), 0);
    assert_eq!(token.balance_of(BOB), 50);
}

#[test]
fn zero_value_transfer_fails_and_changes_nothing() {
    let mut token = Erc20Token::new(ALICE, 1_000);
    let before = token.clone();
    assert!(!token.transfer(ALICE, BOB, 0));
    assert_eq!(token, before);
}

#[test]
fn insufficient_balance_fails_and_changes_nothing() {
    let mut token = Erc20Token::new(ALICE, 100);
    assert!(token.transfer(ALICE, BOB, 60));
    let before = token.clone();
    assert!(!token.transfer(ALICE, CHARLIE, 41));
    assert_eq!(token, before);
}

#[test]
fn insufficient_allowance_fails_and_changes_nothing() {
    let mut token = Erc20Token::new(ALICE, 1_000);
    assert!(token.approve(ALICE, BOB, 50));
    let before = token.clone();
    assert!(!token.transfer_from(BOB, ALICE, CHARLIE, 51));
    assert_eq!(token, before);
}

#[test]
fn transfer_from_needs_allowance_of_its_own_caller() {
    let mut token = Erc20Token::new(ALICE, 1_000);
    assert!(token.approve(ALICE, BOB, 500));
    let before = token.clone();
    assert!(!token.transfer_from(CHARLIE, ALICE, CHARLIE, 500));
    assert_eq!(token, before);
}

#[test]
fn transfer_from_with_insufficient_balance_spends_no_allowance() {
    let mut token = Erc20Token::new(ALICE, 10);
    assert!(token.approve(ALICE, BOB, 100));
    let before = token.clone();
    assert!(!token.transfer_from(BOB, ALICE, CHARLIE, 11));
    assert_eq!(token, before);
    assert_eq!(token.allowance(ALICE, BOB), 100);
}

#[test]
fn self_transfer_keeps_balance_but_emits_notification() {
    let mut token = Erc20Token::new(ALICE, 100);
    assert!(token.transfer(ALICE, ALICE, 40));
    assert_eq!(token.balance_of(ALICE), 100);
    assert_eq!(token.events.len(), 1);
    assert_eq!(
        token.events[0],
        Event::Transfer(Transfer { from: ALICE, to: ALICE, value: 40 })
    );
}

#[test]
fn self_transfer_still_requires_covering_balance() {
    let mut token = Erc20Token::new(ALICE, 100);
    let before = token.clone();
    assert!(!token.transfer(ALICE, ALICE, 101));
    assert_eq!(token, before);
}

#[test]
fn notifications_record_successful_operations_in_order() {
    let mut token = Erc20Token::new(ALICE, 1_000);
    assert!(token.events.is_empty());

    assert!(token.transfer(ALICE, BOB, 500));
    assert!(token.approve(ALICE, CHARLIE, 200));
    assert!(token.transfer_from(CHARLIE, ALICE, CHARLIE, 200));

    assert_eq!(token.events.len(), 3);
    assert_eq!(
        token.events[0],
        Event::Transfer(Transfer { from: ALICE, to: BOB, value: 500 })
    );
    assert_eq!(
        token.events[1],
        Event::Approval(Approval { owner: ALICE, spender: CHARLIE, value: 200 })
    );
    assert_eq!(
        token.events[2],
        Event::Transfer(Transfer { from: ALICE, to: CHARLIE, value: 200 })
    );
}

#[test]
fn failed_operations_emit_no_notification() {
    let mut token = Erc20Token::new(ALICE, 100);
    assert!(!token.transfer(ALICE, BOB, 0));
    assert!(!token.transfer(ALICE, BOB, 101));
    assert!(!token.transfer_from(BOB, ALICE, BOB, 1));
    assert!(token.events.is_empty());
}

#[test]
fn approving_the_same_value_again_still_notifies() {
    let mut token = Erc20Token::new(ALICE, 100);
    assert!(token.approve(ALICE, BOB, 25));
    assert!(token.approve(ALICE, BOB, 25));
    assert_eq!(token.events.len(), 2);
    assert_eq!(
        token.events[1],
        Event::Approval(Approval { owner: ALICE, spender: BOB, value: 25 })
    );
}

#[test]
fn balances_always_sum_to_total_supply() {
    let mut token = Erc20Token::new(ALICE, 1_000);
    let accounts: [u64; 4] = [ALICE, BOB, CHARLIE, 4];
    let observed_sum = |token: &Erc20Token| -> u128 {
        let mut sum: u128 = 0;
        for account in accounts.iter() {
            sum += token.balance_of(*account);
        }
        sum
    };
    assert_eq!(observed_sum(&token), token.total_supply());

    assert!(token.transfer(ALICE, BOB, 400));
    assert_eq!(observed_sum(&token), token.total_supply());

    assert!(token.approve(BOB, CHARLIE, 300));
    assert_eq!(observed_sum(&token), token.total_supply());

    assert!(token.transfer_from(CHARLIE, BOB, 4, 250));
    assert_eq!(observed_sum(&token), token.total_supply());

    assert!(!token.transfer(4, ALICE, 251));
    assert_eq!(observed_sum(&token), token.total_supply());
}

#[test]
fn entire_balance_can_be_transferred() {
    let mut token = Erc20Token::new(ALICE, 42);
    assert!(token.transfer(ALICE, BOB, 42));
    assert_eq!(token.balance_of(ALICE), 0);
    assert_eq!(token.balance_of(BOB), 42);
    assert!(!token.transfer(ALICE, BOB, 1));
}
