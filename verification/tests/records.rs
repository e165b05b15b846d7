use solana_escrow::{initialize, transfer, Escrow, EscrowError, Initialize, Pubkey, TokenAccount};

fn key(tag: u8) -> Pubkey {
    Pubkey::new_from_array([tag; 32])
}

#[test]
fn key_keeps_its_bytes() {
    let mut bytes: [u8; 32] = [0; 32];
    for (i, byte) in bytes.iter_mut().enumerate() {
        *byte = (i * 7) as u8;
    }
    let made = Pubkey::new_from_array(bytes);
    assert_eq!(made.to_bytes(), bytes);
    assert_eq!(made.bytes, bytes);
}

#[test]
fn keys_with_the_same_bytes_are_equal() {
    assert!(key(1) == key(1));
    assert_eq!(key(9), Pubkey::new_from_array([9; 32]));
}

#[test]
fn keys_that_differ_in_one_byte_are_not_equal() {
    assert!(key(1) != key(2));
    for at in 0usize..32 {
        let mut bytes: [u8; 32] = [5; 32];
        bytes[at] = 6;
        assert!(key(5) != Pubkey::new_from_array(bytes));
        assert!(!(Pubkey::new_from_array(bytes) == key(5)));
    }
}

#[test]
fn error_messages() {
    assert_eq!(EscrowError::InvalidAmount.message(), "Invalid amount");
    assert_eq!(EscrowError::Unauthorized.message(), "Unauthorized");
    assert_eq!(EscrowError::InvalidShares.message(), "Invalid shares");
    assert_eq!(EscrowError::InsufficientBalance.message(), "Insufficient balance");
    assert_eq!(EscrowError::AlreadyInitialized.message(), "Already initialized");
    assert_eq!(EscrowError::InvalidHolding.message(), "Invalid holding");
}

#[test]
fn stored_record_takes_seventy_two_bytes() {
    assert_eq!(Escrow::LEN, 72);
}

#[test]
fn new_holding_is_empty() {
    let holding = TokenAccount::new(key(3));
    assert_eq!(holding, TokenAccount { mint: key(3), amount: 0 });
}

#[test]
fn transfer_moves_the_amount() {
    let mut from = TokenAccount { mint: key(1), amount: 500 };
    let mut to = TokenAccount { mint: key(1), amount: 20 };
    assert_eq!(transfer(&mut from, &mut to, 120), Ok(()));
    assert_eq!(from, TokenAccount { mint: key(1), amount: 380 });
    assert_eq!(to, TokenAccount { mint: key(1), amount: 140 });
}

#[test]
fn transfer_of_everything_empties_the_source() {
    let mut from = TokenAccount { mint: key(1), amount: 500 };
    let mut to = TokenAccount { mint: key(1), amount: 0 };
    assert_eq!(transfer(&mut from, &mut to, 500), Ok(()));
    assert_eq!(from.amount, 0);
    assert_eq!(to.amount, 500);
}

#[test]
fn transfer_of_nothing_changes_nothing() {
    let mut from = TokenAccount { mint: key(1), amount: 0 };
    let mut to = TokenAccount { mint: key(1), amount: u64::MAX };
    assert_eq!(transfer(&mut from, &mut to, 0), Ok(()));
    assert_eq!(from.amount, 0);
    assert_eq!(to.amount, u64::MAX);
}

#[test]
fn transfer_of_more_than_the_source_holds_fails() {
    let mut from = TokenAccount { mint: key(1), amount: 99 };
    let mut to = TokenAccount { mint: key(1), amount: 20 };
    assert_eq!(transfer(&mut from, &mut to, 100), Err(EscrowError::InsufficientBalance));
    assert_eq!(from, TokenAccount { mint: key(1), amount: 99 });
    assert_eq!(to, TokenAccount { mint: key(1), amount: 20 });
}

#[test]
fn transfer_between_asset_kinds_fails() {
    let mut from = TokenAccount { mint: key(1), amount: 500 };
    let mut to = TokenAccount { mint: key(2), amount: 20 };
    assert_eq!(transfer(&mut from, &mut to, 100), Err(EscrowError::InvalidHolding));
    assert_eq!(from, TokenAccount { mint: key(1), amount: 500 });
    assert_eq!(to, TokenAccount { mint: key(2), amount: 20 });
}

#[test]
fn transfer_into_a_holding_without_room_fails() {
    let mut from = TokenAccount { mint: key(1), amount: 500 };
    let mut to = TokenAccount { mint: key(1), amount: u64::MAX - 99 };
    assert_eq!(transfer(&mut from, &mut to, 100), Err(EscrowError::InvalidHolding));
    assert_eq!(from.amount, 500);
    assert_eq!(to.amount, u64::MAX - 99);
    assert_eq!(transfer(&mut from, &mut to, 99), Ok(()));
    assert_eq!(from.amount, 401);
    assert_eq!(to.amount, u64::MAX);
}

#[test]
fn transfer_looks_at_the_balance_before_the_destination() {
    let mut from = TokenAccount { mint: key(1), amount: 5 };
    let mut to = TokenAccount { mint: key(2), amount: u64::MAX };
    assert_eq!(transfer(&mut from, &mut to, 6), Err(EscrowError::InsufficientBalance));
}

#[test]
fn initialize_writes_the_record() {
    let mut ctx = Initialize { escrow: None, authority: key(1), token_mint: key(2) };
    assert_eq!(initialize(&mut ctx, 100), Ok(()));
    assert_eq!(
        ctx.escrow,
        Some(Escrow { authority: key(1), token_mint: key(2), buy_in_amount: 100 })
    );
    assert_eq!(ctx.authority, key(1));
    assert_eq!(ctx.token_mint, key(2));
}

#[test]
fn initialize_takes_any_buy_in() {
    let mut free = Initialize { escrow: None, authority: key(1), token_mint: key(2) };
    assert_eq!(initialize(&mut free, 0), Ok(()));
    assert_eq!(free.escrow.unwrap().buy_in_amount, 0);
    let mut dear = Initialize { escrow: None, authority: key(1), token_mint: key(2) };
    assert_eq!(initialize(&mut dear, u64::MAX), Ok(()));
    assert_eq!(dear.escrow.unwrap().buy_in_amount, u64::MAX);
}

#[test]
fn initialize_twice_fails_and_keeps_the_record() {
    let mut ctx = Initialize { escrow: None, authority: key(1), token_mint: key(2) };
    assert_eq!(initialize(&mut ctx, 100), Ok(()));
    let first = ctx;
    ctx.authority = key(7);
    ctx.token_mint = key(8);
    let before = ctx;
    assert_eq!(initialize(&mut ctx, 250), Err(EscrowError::AlreadyInitialized));
    assert_eq!(ctx, before);
    assert_eq!(ctx.escrow, first.escrow);
}
