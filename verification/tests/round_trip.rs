use basic_staking::{
    initialize, stake_nft, unstake_nft, Address, ErrorCode, Initialize, Ledger, StakeNFT,
    Transfer, UnstakeNFT,
};

fn key(tag: u8) -> Address {
    Address::new([tag; 32])
}

/// A stand-in for the token ledger: balances by token account.
struct Book {
    balances: Vec<(Address, u64)>,
}

fn balance(book: &Book, account: &Address) -> u64 {
    book.balances.iter().find(|(a, _)| a == account).map(|(_, n)| *n).unwrap_or(0)
}

fn carry_out(book: &mut Book, transfer: &Transfer) -> Result<(), &'static str> {
    if balance(book, &transfer.from) < transfer.amount {
        return Err("insufficient funds");
    }
    for (account, amount) in book.balances.iter_mut() {
        if *account == transfer.from {
            *amount -= transfer.amount;
        }
    }
    for (account, amount) in book.balances.iter_mut() {
        if *account == transfer.to {
            *amount += transfer.amount;
        }
    }
    Ok(())
}

/// One stake as a transaction: nothing is written unless the token ledger
/// carried the transfer out.
fn submit_stake(ledger: &mut Ledger, book: &mut Book, now: i64) -> Result<(), String> {
    let mut ctx = StakeNFT {
        staker: key(1),
        nft_mint_address: key(2),
        nft_token_account: key(3),
        staked_nft: ledger.receipt(&key(2), &key(1)),
        staked_nft_token_account: key(4),
    };
    let deposit = stake_nft(&mut ctx, key(2), now).map_err(|e| format!("{:?}", e))?;
    carry_out(book, &deposit).map_err(|e| e.to_string())?;
    ledger.create_receipt(ctx.staked_nft.unwrap()).map_err(|e| format!("{:?}", e))
}

fn submit_unstake(ledger: &mut Ledger, book: &mut Book, now: i64) -> Result<(), String> {
    let mut ctx = UnstakeNFT {
        staker: key(1),
        nft_mint_address: key(2),
        nft_token_account: key(3),
        staked_nft: ledger.receipt(&key(2), &key(1)),
        staking_data: ledger.pool(&key(9)).unwrap(),
        staked_nft_token_account: key(4),
    };
    let release = unstake_nft(&mut ctx, key(2), now).map_err(|e| format!("{:?}", e))?;
    carry_out(book, &release).map_err(|e| e.to_string())?;
    ledger.close_receipt(&key(2), &key(1)).map_err(|e| format!("{:?}", e))
}

fn ledger_with_pool(unstaking_period: i64) -> Ledger {
    let mut ledger = Ledger::new();
    let mut ctx = Initialize { staking_data: None, reward_mint_address: key(8), authority: key(9) };
    initialize(&mut ctx, 10, unstaking_period).unwrap();
    ledger.create_pool(ctx.staking_data.unwrap()).unwrap();
    ledger
}

#[test]
fn stake_then_unstake_returns_the_nft() {
    let mut ledger = ledger_with_pool(86400);
    let mut book = Book { balances: vec![(key(3), 1), (key(4), 0)] };
    assert_eq!(submit_stake(&mut ledger, &mut book, 0), Ok(()));
    assert_eq!((balance(&book, &key(3)), balance(&book, &key(4))), (0, 1));
    assert!(ledger.receipt(&key(2), &key(1)).is_some());
    assert_eq!(submit_unstake(&mut ledger, &mut book, 86400), Ok(()));
    assert_eq!((balance(&book, &key(3)), balance(&book, &key(4))), (1, 0));
    assert_eq!(ledger.receipt(&key(2), &key(1)), None);
}

#[test]
fn receipt_cannot_be_used_for_a_second_unstake() {
    let mut ledger = ledger_with_pool(10);
    let mut book = Book { balances: vec![(key(3), 1), (key(4), 0)] };
    submit_stake(&mut ledger, &mut book, 0).unwrap();
    submit_unstake(&mut ledger, &mut book, 10).unwrap();
    assert_eq!(
        submit_unstake(&mut ledger, &mut book, 20),
        Err(format!("{:?}", ErrorCode::AccountNotInitialized))
    );
    assert_eq!((balance(&book, &key(3)), balance(&book, &key(4))), (1, 0));
}

#[test]
fn staking_an_nft_that_is_not_held_fails_at_the_transfer() {
    let mut ledger = ledger_with_pool(10);
    let mut book = Book { balances: vec![(key(3), 0), (key(4), 0)] };
    assert_eq!(submit_stake(&mut ledger, &mut book, 0), Err("insufficient funds".to_string()));
    assert_eq!(ledger.receipt(&key(2), &key(1)), None);
    assert_eq!((balance(&book, &key(3)), balance(&book, &key(4))), (0, 0));
}

#[test]
fn staking_twice_before_unstaking_fails_as_a_duplicate() {
    let mut ledger = ledger_with_pool(10);
    let mut book = Book { balances: vec![(key(3), 2), (key(4), 0)] };
    submit_stake(&mut ledger, &mut book, 0).unwrap();
    assert_eq!(
        submit_stake(&mut ledger, &mut book, 5),
        Err(format!("{:?}", ErrorCode::ReceiptAlreadyExists))
    );
    assert_eq!((balance(&book, &key(3)), balance(&book, &key(4))), (1, 1));
    assert_eq!(ledger.receipt(&key(2), &key(1)).unwrap().staked_at, 0);
}

#[test]
fn early_unstake_moves_nothing() {
    let mut ledger = ledger_with_pool(86400);
    let mut book = Book { balances: vec![(key(3), 1), (key(4), 0)] };
    submit_stake(&mut ledger, &mut book, 0).unwrap();
    assert_eq!(
        submit_unstake(&mut ledger, &mut book, 86399),
        Err(format!("{:?}", ErrorCode::UnstakingPeriodNotReached))
    );
    assert_eq!((balance(&book, &key(3)), balance(&book, &key(4))), (0, 1));
    assert!(ledger.receipt(&key(2), &key(1)).is_some());
}
