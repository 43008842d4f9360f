use sai_swap::errors::SaiCitizenshipError;
use sai_swap::ledger::{Address, TokenAccount};
use sai_swap::token_swap::{
    initialize_swap, start_sale, stop_sale, swap, update_prices, withdraw_proceeds,
    CreatedAccounts, InitializeSwap, Swap, UpdatePrice, UpdateSale, WithdrawProceeds,
};

fn addr(tag: u8) -> Address {
    Address { bytes: vec![tag; 32] }
}

fn addr_copy(a: &Address) -> Address {
    Address { bytes: a.bytes.clone() }
}

fn init_inputs() -> InitializeSwap {
    InitializeSwap {
        program_id: addr(7),
        state_address: addr(2),
        owner: addr(1),
        mint: addr(3),
        proceeds_mint: addr(4),
    }
}

fn initialized(price_proceeds: u64, price_vault: u64) -> CreatedAccounts {
    match initialize_swap(init_inputs(), price_proceeds, price_vault) {
        Ok(c) => c,
        Err(e) => panic!("initialize_swap failed: {:?}", e),
    }
}

fn started(price_proceeds: u64, price_vault: u64) -> CreatedAccounts {
    let created = initialized(price_proceeds, price_vault);
    let mut sale = UpdateSale { state: created.state, owner: addr(1) };
    start_sale(&mut sale).unwrap();
    CreatedAccounts {
        state: sale.state,
        vault: created.vault,
        proceeds_vault: created.proceeds_vault,
    }
}

fn swap_bag(created: CreatedAccounts, payment_balance: u64, vault_balance: u64) -> Swap {
    let mut vault = created.vault;
    vault.amount = vault_balance;
    let buyer = addr(9);
    let buyer_out = TokenAccount {
        address: addr(10),
        authority: addr_copy(&buyer),
        mint: addr_copy(&created.proceeds_vault.mint),
        amount: payment_balance,
    };
    let buyer_in = TokenAccount {
        address: addr(11),
        authority: addr_copy(&buyer),
        mint: addr_copy(&vault.mint),
        amount: 0,
    };
    Swap {
        state: created.state,
        proceeds_vault: created.proceeds_vault,
        mint: addr_copy(&vault.mint),
        vault,
        buyer_out_token_account: buyer_out,
        buyer_in_token_account: buyer_in,
        buyer,
    }
}

#[test]
fn initialize_starts_inactive() {
    let created = initialized(100, 1);
    assert!(!created.state.active);
    assert_eq!(created.state.price_proceeds_mint, 100);
    assert_eq!(created.state.price_vault_mint, 1);
    assert_eq!(created.vault.amount, 0);
    assert_eq!(created.proceeds_vault.amount, 0);
}

#[test]
fn initialize_rejects_zero_prices() {
    assert!(matches!(
        initialize_swap(init_inputs(), 0, 1),
        Err(SaiCitizenshipError::InvalidConfiguration)
    ));
    assert!(matches!(
        initialize_swap(init_inputs(), 100, 0),
        Err(SaiCitizenshipError::InvalidConfiguration)
    ));
}

#[test]
fn initialize_derives_the_stored_vault_references() {
    let created = initialized(100, 1);
    let program = anchor_lang::prelude::Pubkey::try_from(&[7u8; 32][..]).unwrap();
    let (vault_key, vault_bump) = anchor_lang::prelude::Pubkey::find_program_address(
        &[b"vault", &[2u8; 32]],
        &program,
    );
    let (proceeds_key, proceeds_bump) = anchor_lang::prelude::Pubkey::find_program_address(
        &[b"proceeds_vault", &[2u8; 32]],
        &program,
    );
    assert_eq!(created.state.vault.bytes, vault_key.to_bytes().to_vec());
    assert_eq!(created.state.vault_bump, vault_bump);
    assert_eq!(created.state.proceeds_vault.bytes, proceeds_key.to_bytes().to_vec());
    assert_eq!(created.state.proceeds_bump, proceeds_bump);
    // the derived custody address is not any address handed in
    assert_ne!(created.state.vault.bytes, vec![2u8; 32]);
    assert_ne!(created.state.vault.bytes, vec![7u8; 32]);
    // the vault account stands at the derived address and is self-authorized
    assert_eq!(created.vault.address.bytes, created.state.vault.bytes);
    assert_eq!(created.vault.authority.bytes, created.state.vault.bytes);
}

#[test]
fn initialize_is_deterministic() {
    let a = initialized(100, 1);
    let b = initialized(100, 1);
    assert_eq!(a.state.vault.bytes, b.state.vault.bytes);
    assert_eq!(a.state.vault_bump, b.state.vault_bump);
    assert_eq!(a.state.proceeds_vault.bytes, b.state.proceeds_vault.bytes);
    assert_eq!(a.state.proceeds_bump, b.state.proceeds_bump);
}

#[test]
fn start_sale_twice_fails_already_active() {
    let created = initialized(100, 1);
    let mut sale = UpdateSale { state: created.state, owner: addr(1) };
    start_sale(&mut sale).unwrap();
    assert!(sale.state.active);
    let r = start_sale(&mut sale);
    assert_eq!(r, Err(SaiCitizenshipError::AlreadyActive));
    assert!(sale.state.active);
    assert_eq!(sale.state.price_proceeds_mint, 100);
}

#[test]
fn stop_sale_when_stopped_fails_already_inactive() {
    let created = initialized(100, 1);
    let mut sale = UpdateSale { state: created.state, owner: addr(1) };
    let r = stop_sale(&mut sale);
    assert_eq!(r, Err(SaiCitizenshipError::AlreadyInactive));
    assert!(!sale.state.active);
}

#[test]
fn sale_toggles_require_the_administrator() {
    let created = initialized(100, 1);
    let mut sale = UpdateSale { state: created.state, owner: addr(8) };
    assert_eq!(start_sale(&mut sale), Err(SaiCitizenshipError::Unauthorized));
    assert!(!sale.state.active);
}

#[test]
fn swap_while_inactive_fails_sale_not_started() {
    let created = initialized(100, 1);
    let mut bag = swap_bag(created, 150, 1);
    let r = swap(&mut bag);
    assert_eq!(r, Err(SaiCitizenshipError::SaleNotStarted));
    assert_eq!(bag.buyer_out_token_account.amount, 150);
    assert_eq!(bag.proceeds_vault.amount, 0);
    assert_eq!(bag.vault.amount, 1);
    assert_eq!(bag.buyer_in_token_account.amount, 0);
}

#[test]
fn successful_swap_moves_exactly_the_configured_amounts() {
    let created = started(100, 1);
    let mut bag = swap_bag(created, 150, 1);
    swap(&mut bag).unwrap();
    assert_eq!(bag.buyer_out_token_account.amount, 50);
    assert_eq!(bag.proceeds_vault.amount, 100);
    assert_eq!(bag.vault.amount, 0);
    assert_eq!(bag.buyer_in_token_account.amount, 1);
}

#[test]
fn swap_with_underfunded_buyer_fails_insufficient_funds() {
    let created = started(100, 1);
    let mut bag = swap_bag(created, 50, 1);
    let r = swap(&mut bag);
    assert_eq!(r, Err(SaiCitizenshipError::InsufficientFunds));
    assert_eq!(bag.buyer_out_token_account.amount, 50);
    assert_eq!(bag.proceeds_vault.amount, 0);
    assert_eq!(bag.vault.amount, 1);
    assert_eq!(bag.buyer_in_token_account.amount, 0);
}

#[test]
fn swap_with_insolvent_vault_changes_nothing() {
    let created = started(100, 2);
    let mut bag = swap_bag(created, 150, 1);
    let r = swap(&mut bag);
    assert_eq!(r, Err(SaiCitizenshipError::InsolventVault));
    assert_eq!(bag.buyer_out_token_account.amount, 150);
    assert_eq!(bag.proceeds_vault.amount, 0);
    assert_eq!(bag.vault.amount, 1);
    assert_eq!(bag.buyer_in_token_account.amount, 0);
}

#[test]
fn swap_with_wrong_destination_mint_fails_destination_mismatch() {
    let created = started(100, 1);
    let mut bag = swap_bag(created, 150, 1);
    bag.buyer_in_token_account.mint = addr(12);
    let r = swap(&mut bag);
    assert_eq!(r, Err(SaiCitizenshipError::DestinationMismatch));
    assert_eq!(bag.buyer_out_token_account.amount, 150);
    assert_eq!(bag.proceeds_vault.amount, 0);
}

#[test]
fn swap_with_foreign_vault_fails_relationship_violation() {
    let created = started(100, 1);
    let mut bag = swap_bag(created, 150, 1);
    bag.vault.address = addr(13);
    let r = swap(&mut bag);
    assert_eq!(r, Err(SaiCitizenshipError::RelationshipViolation));
    assert_eq!(bag.buyer_out_token_account.amount, 150);
    assert_eq!(bag.proceeds_vault.amount, 0);
}

#[test]
fn update_prices_overwrites_both_prices() {
    let created = initialized(100, 1);
    let mut bag = UpdatePrice { state: created.state, owner: addr(1) };
    update_prices(&mut bag, 250, 3).unwrap();
    assert_eq!(bag.state.price_proceeds_mint, 250);
    assert_eq!(bag.state.price_vault_mint, 3);
    assert!(!bag.state.active);
}

#[test]
fn update_prices_by_stranger_fails_unauthorized() {
    let created = initialized(100, 1);
    let mut bag = UpdatePrice { state: created.state, owner: addr(8) };
    let r = update_prices(&mut bag, 250, 3);
    assert_eq!(r, Err(SaiCitizenshipError::Unauthorized));
    assert_eq!(bag.state.price_proceeds_mint, 100);
    assert_eq!(bag.state.price_vault_mint, 1);
}

#[test]
fn update_prices_rejects_zero() {
    let created = initialized(100, 1);
    let mut bag = UpdatePrice { state: created.state, owner: addr(1) };
    let r = update_prices(&mut bag, 0, 3);
    assert_eq!(r, Err(SaiCitizenshipError::InvalidConfiguration));
    assert_eq!(bag.state.price_proceeds_mint, 100);
}

#[test]
fn withdraw_sweeps_the_entire_balance_and_then_nothing_is_left() {
    let created = started(100, 1);
    let mut swap_accounts = swap_bag(created, 150, 1);
    swap(&mut swap_accounts).unwrap();
    let owner = addr(1);
    let owner_in = TokenAccount {
        address: addr(14),
        authority: addr_copy(&owner),
        mint: addr_copy(&swap_accounts.proceeds_vault.mint),
        amount: 7,
    };
    let mut bag = WithdrawProceeds {
        state: swap_accounts.state,
        mint: addr_copy(&swap_accounts.proceeds_vault.mint),
        proceeds_vault: swap_accounts.proceeds_vault,
        owner_in_token_account: owner_in,
        owner,
    };
    withdraw_proceeds(&mut bag).unwrap();
    assert_eq!(bag.proceeds_vault.amount, 0);
    assert_eq!(bag.owner_in_token_account.amount, 107);
    let r = withdraw_proceeds(&mut bag);
    assert_eq!(r, Err(SaiCitizenshipError::NothingToWithdraw));
    assert_eq!(bag.owner_in_token_account.amount, 107);
}

#[test]
fn withdraw_by_stranger_fails_unauthorized() {
    let created = started(100, 1);
    let mut swap_accounts = swap_bag(created, 150, 1);
    swap(&mut swap_accounts).unwrap();
    let stranger = addr(8);
    let stranger_in = TokenAccount {
        address: addr(14),
        authority: addr_copy(&stranger),
        mint: addr_copy(&swap_accounts.proceeds_vault.mint),
        amount: 0,
    };
    let mut bag = WithdrawProceeds {
        state: swap_accounts.state,
        mint: addr_copy(&swap_accounts.proceeds_vault.mint),
        proceeds_vault: swap_accounts.proceeds_vault,
        owner_in_token_account: stranger_in,
        owner: stranger,
    };
    let r = withdraw_proceeds(&mut bag);
    assert_eq!(r, Err(SaiCitizenshipError::Unauthorized));
    assert_eq!(bag.proceeds_vault.amount, 100);
    assert_eq!(bag.owner_in_token_account.amount, 0);
}
