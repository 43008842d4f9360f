//! The generic variant of the protocol: one custody vault paying out a
//! configured amount per swap, one proceeds vault accumulating the payment
//! asset, and an administrator who configures prices, toggles the sale and
//! sweeps the proceeds.

use vstd::prelude::*;

use crate::derivation::{
    derived_ref, find_derived_ref, proceeds_vault_label, proceeds_vault_seed, vault_label,
    vault_seed,
};
use crate::errors::SaiCitizenshipError;
use crate::ledger::{credited, debited, transfer, transfer_from_custody, Address, TokenAccount};

verus! {

/// The configuration store: administrative identity, pricing, the sale flag,
/// and the address and derivation nonce of each protocol-held vault. The
/// vault references are set once at initialization and never change.
pub struct State {
    pub active: bool,
    pub price_proceeds_mint: u64,
    pub price_vault_mint: u64,
    pub owner: Address,
    pub vault: Address,
    pub vault_bump: u8,
    pub proceeds_vault: Address,
    pub proceeds_bump: u8,
}

/// The inputs of `initialize_swap`: the identities the configuration store
/// records and the parents of the custody derivation.
pub struct InitializeSwap {
    pub program_id: Address,
    pub state_address: Address,
    pub owner: Address,
    pub mint: Address,
    pub proceeds_mint: Address,
}

/// What `initialize_swap` creates, in one atomic step: the configuration
/// store and the two protocol-held vaults, both empty and self-authorized.
pub struct CreatedAccounts {
    pub state: State,
    pub vault: TokenAccount,
    pub proceeds_vault: TokenAccount,
}

/// A freshly created custody account: it stands at `address`, is authorized
/// by its own address (so only the protocol's derivation proof can debit it),
/// holds asset class `mint`, and is empty.
pub open spec fn vault_created(v: TokenAccount, address: Seq<u8>, mint: Seq<u8>) -> bool {
    &&& v.address@ == address
    &&& v.authority@ == address
    &&& v.mint@ == mint
    &&& v.amount == 0
}

/// The custody derivation of the vault reference for these inputs.
pub open spec fn vault_ref_of(a: InitializeSwap) -> Option<(Seq<u8>, u8)> {
    derived_ref(vault_label(), a.state_address@, a.program_id@)
}

/// The custody derivation of the proceeds vault reference for these inputs.
pub open spec fn proceeds_ref_of(a: InitializeSwap) -> Option<(Seq<u8>, u8)> {
    derived_ref(proceeds_vault_label(), a.state_address@, a.program_id@)
}

/// Creates the configuration store and both vaults. Fails with
/// `InvalidConfiguration` if a price is not positive, and with
/// `DerivationFailed` if a custody derivation yields no viable nonce. The
/// sale starts inactive.
pub fn initialize_swap(
    accounts: InitializeSwap,
    price_proceeds_mint: u64,
    price_vault_mint: u64,
) -> (r: Result<CreatedAccounts, SaiCitizenshipError>)
    requires
        accounts.state_address@.len() == 32,
        accounts.program_id@.len() == 32,
    ensures
        price_proceeds_mint == 0 || price_vault_mint == 0 ==> r == Err::<
            CreatedAccounts,
            SaiCitizenshipError,
        >(SaiCitizenshipError::InvalidConfiguration),
        price_proceeds_mint > 0 && price_vault_mint > 0 && (vault_ref_of(accounts) is None
            || proceeds_ref_of(accounts) is None) ==> r == Err::<
            CreatedAccounts,
            SaiCitizenshipError,
        >(SaiCitizenshipError::DerivationFailed),
        price_proceeds_mint > 0 && price_vault_mint > 0 && vault_ref_of(accounts) is Some
            && proceeds_ref_of(accounts) is Some ==> (r matches Ok(c) && {
            &&& c.state.active == false
            &&& c.state.price_proceeds_mint == price_proceeds_mint
            &&& c.state.price_vault_mint == price_vault_mint
            &&& c.state.owner@ == accounts.owner@
            &&& Some((c.state.vault@, c.state.vault_bump)) == vault_ref_of(accounts)
            &&& Some((c.state.proceeds_vault@, c.state.proceeds_bump)) == proceeds_ref_of(accounts)
            &&& vault_created(c.vault, c.state.vault@, accounts.mint@)
            &&& vault_created(c.proceeds_vault, c.state.proceeds_vault@, accounts.proceeds_mint@)
        }),
{
    if price_proceeds_mint == 0 || price_vault_mint == 0 {
        return Err(SaiCitizenshipError::InvalidConfiguration);
    }
    let vault_seed_bytes = vault_seed();
    let (vault_address, vault_bump) = match find_derived_ref(
        &vault_seed_bytes,
        &accounts.state_address,
        &accounts.program_id,
    ) {
        Some(p) => p,
        None => {
            return Err(SaiCitizenshipError::DerivationFailed);
        },
    };
    let proceeds_seed_bytes = proceeds_vault_seed();
    let (proceeds_address, proceeds_bump) = match find_derived_ref(
        &proceeds_seed_bytes,
        &accounts.state_address,
        &accounts.program_id,
    ) {
        Some(p) => p,
        None => {
            return Err(SaiCitizenshipError::DerivationFailed);
        },
    };
    let vault = TokenAccount {
        address: vault_address.duplicate(),
        authority: vault_address.duplicate(),
        mint: accounts.mint,
        amount: 0,
    };
    let proceeds_vault = TokenAccount {
        address: proceeds_address.duplicate(),
        authority: proceeds_address.duplicate(),
        mint: accounts.proceeds_mint,
        amount: 0,
    };
    let state = State {
        active: false,
        price_proceeds_mint: price_proceeds_mint,
        price_vault_mint: price_vault_mint,
        owner: accounts.owner,
        vault: vault_address,
        vault_bump: vault_bump,
        proceeds_vault: proceeds_address,
        proceeds_bump: proceeds_bump,
    };
    Ok(CreatedAccounts { state: state, vault: vault, proceeds_vault: proceeds_vault })
}

/// The accounts of `update_prices`: the configuration store and the caller,
/// whose identity the execution environment has verified.
pub struct UpdatePrice {
    pub state: State,
    pub owner: Address,
}

/// Which error `update_prices` refuses these inputs with, if any: the caller
/// must be the administrator and both new prices must be positive.
pub open spec fn update_prices_check(
    a: UpdatePrice,
    price_proceeds_mint: u64,
    price_vault_mint: u64,
) -> Option<SaiCitizenshipError> {
    if a.owner@ != a.state.owner@ {
        Some(SaiCitizenshipError::Unauthorized)
    } else if price_proceeds_mint == 0 || price_vault_mint == 0 {
        Some(SaiCitizenshipError::InvalidConfiguration)
    } else {
        None
    }
}

/// The configuration store with both prices overwritten and everything else
/// as it was.
pub open spec fn repriced(s: State, price_proceeds_mint: u64, price_vault_mint: u64) -> State {
    State {
        active: s.active,
        price_proceeds_mint: price_proceeds_mint,
        price_vault_mint: price_vault_mint,
        owner: s.owner,
        vault: s.vault,
        vault_bump: s.vault_bump,
        proceeds_vault: s.proceeds_vault,
        proceeds_bump: s.proceeds_bump,
    }
}

/// Overwrites the two prices. Only the administrator may call this, the new
/// prices must be positive, and neither the sale flag nor the vault
/// references change.
pub fn update_prices(
    accounts: &mut UpdatePrice,
    price_proceeds_mint: u64,
    price_vault_mint: u64,
) -> (r: Result<(), SaiCitizenshipError>)
    ensures
        update_prices_check(*old(accounts), price_proceeds_mint, price_vault_mint) matches Some(e)
            ==> r == Err::<(), SaiCitizenshipError>(e) && *final(accounts) == *old(accounts),
        update_prices_check(*old(accounts), price_proceeds_mint, price_vault_mint) is None ==> r
            is Ok && final(accounts).state == repriced(
            old(accounts).state,
            price_proceeds_mint,
            price_vault_mint,
        ) && final(accounts).owner == old(accounts).owner,
{
    if !accounts.owner.equals(&accounts.state.owner) {
        return Err(SaiCitizenshipError::Unauthorized);
    }
    if price_proceeds_mint == 0 || price_vault_mint == 0 {
        return Err(SaiCitizenshipError::InvalidConfiguration);
    }
    accounts.state.price_proceeds_mint = price_proceeds_mint;
    accounts.state.price_vault_mint = price_vault_mint;
    Ok(())
}

/// The accounts of `start_sale` and `stop_sale`: the configuration store and
/// the verified caller.
pub struct UpdateSale {
    pub state: State,
    pub owner: Address,
}

/// The configuration store with the sale flag set to `active` and everything
/// else as it was.
pub open spec fn with_sale_active(s: State, active: bool) -> State {
    State {
        active: active,
        price_proceeds_mint: s.price_proceeds_mint,
        price_vault_mint: s.price_vault_mint,
        owner: s.owner,
        vault: s.vault,
        vault_bump: s.vault_bump,
        proceeds_vault: s.proceeds_vault,
        proceeds_bump: s.proceeds_bump,
    }
}

/// Which error `start_sale` refuses these inputs with, if any: only the
/// administrator may start the sale, and an already active sale is refused,
/// not silently ignored.
pub open spec fn start_sale_check(a: UpdateSale) -> Option<SaiCitizenshipError> {
    if a.owner@ != a.state.owner@ {
        Some(SaiCitizenshipError::Unauthorized)
    } else if a.state.active {
        Some(SaiCitizenshipError::AlreadyActive)
    } else {
        None
    }
}

/// Which error `stop_sale` refuses these inputs with, if any.
pub open spec fn stop_sale_check(a: UpdateSale) -> Option<SaiCitizenshipError> {
    if a.owner@ != a.state.owner@ {
        Some(SaiCitizenshipError::Unauthorized)
    } else if !a.state.active {
        Some(SaiCitizenshipError::AlreadyInactive)
    } else {
        None
    }
}

/// Flips the sale flag to active. Fails with `AlreadyActive` if it is
/// already set.
pub fn start_sale(accounts: &mut UpdateSale) -> (r: Result<(), SaiCitizenshipError>)
    ensures
        start_sale_check(*old(accounts)) matches Some(e) ==> r == Err::<(), SaiCitizenshipError>(e)
            && *final(accounts) == *old(accounts),
        start_sale_check(*old(accounts)) is None ==> r is Ok && final(accounts).state
            == with_sale_active(old(accounts).state, true) && final(accounts).owner == old(accounts).owner,
{
    if !accounts.owner.equals(&accounts.state.owner) {
        return Err(SaiCitizenshipError::Unauthorized);
    }
    if accounts.state.active {
        return Err(SaiCitizenshipError::AlreadyActive);
    }
    accounts.state.active = true;
    Ok(())
}

/// Flips the sale flag to inactive. Fails with `AlreadyInactive` if it is
/// already clear.
pub fn stop_sale(accounts: &mut UpdateSale) -> (r: Result<(), SaiCitizenshipError>)
    ensures
        stop_sale_check(*old(accounts)) matches Some(e) ==> r == Err::<(), SaiCitizenshipError>(e)
            && *final(accounts) == *old(accounts),
        stop_sale_check(*old(accounts)) is None ==> r is Ok && final(accounts).state
            == with_sale_active(old(accounts).state, false) && final(accounts).owner == old(accounts).owner,
{
    if !accounts.owner.equals(&accounts.state.owner) {
        return Err(SaiCitizenshipError::Unauthorized);
    }
    if !accounts.state.active {
        return Err(SaiCitizenshipError::AlreadyInactive);
    }
    accounts.state.active = false;
    Ok(())
}

/// The accounts of `swap`: the configuration store (read-only here), the two
/// protocol vaults as presented by the caller, the buyer's payment and
/// destination accounts, the buyer's verified identity, and the asset class
/// the buyer expects to receive.
pub struct Swap {
    pub state: State,
    pub proceeds_vault: TokenAccount,
    pub vault: TokenAccount,
    pub buyer_out_token_account: TokenAccount,
    pub buyer_in_token_account: TokenAccount,
    pub buyer: Address,
    pub mint: Address,
}

/// The relationship pass of `swap`: every presented account must match the
/// stored reference or carry the authority the transfer legs demand. The
/// payment account must hold the proceeds asset class, since the external
/// ledger refuses transfers between asset classes.
pub open spec fn swap_relationships_hold(a: Swap) -> bool {
    &&& a.vault.address@ == a.state.vault@
    &&& a.vault.authority@ == a.vault.address@
    &&& a.proceeds_vault.address@ == a.state.proceeds_vault@
    &&& a.buyer_out_token_account.authority@ == a.buyer@
    &&& a.buyer_out_token_account.mint@ == a.proceeds_vault.mint@
    &&& a.mint@ == a.vault.mint@
}

/// Which error `swap` refuses these inputs with, if any, in the order the
/// preconditions are checked: sale active, relationships, destination asset
/// class, buyer funds, vault solvency.
pub open spec fn swap_check(a: Swap) -> Option<SaiCitizenshipError> {
    if !a.state.active {
        Some(SaiCitizenshipError::SaleNotStarted)
    } else if !swap_relationships_hold(a) {
        Some(SaiCitizenshipError::RelationshipViolation)
    } else if a.buyer_in_token_account.mint@ != a.vault.mint@ {
        Some(SaiCitizenshipError::DestinationMismatch)
    } else if a.buyer_out_token_account.amount < a.state.price_proceeds_mint {
        Some(SaiCitizenshipError::InsufficientFunds)
    } else if a.vault.amount < a.state.price_vault_mint {
        Some(SaiCitizenshipError::InsolventVault)
    } else {
        None
    }
}

/// The accounts after a successful swap: the buyer pays the proceeds price
/// into the proceeds vault, and the vault pays the configured amount out to
/// the buyer's destination account.
pub open spec fn swap_effect(a: Swap) -> Swap {
    Swap {
        state: a.state,
        proceeds_vault: credited(a.proceeds_vault, a.state.price_proceeds_mint),
        vault: debited(a.vault, a.state.price_vault_mint),
        buyer_out_token_account: debited(a.buyer_out_token_account, a.state.price_proceeds_mint),
        buyer_in_token_account: credited(a.buyer_in_token_account, a.state.price_vault_mint),
        buyer: a.buyer,
        mint: a.mint,
    }
}

/// The swap engine. Either every precondition holds and both transfer legs
/// commit, or the specific failure is returned and no balance moves. On
/// success the buyer's payment account decreases by exactly
/// `price_proceeds_mint`, the proceeds vault increases by the same amount,
/// the custody vault decreases by exactly `price_vault_mint`, the buyer's
/// destination account increases by the same amount, and the total supply of
/// each asset class across the four accounts is conserved.
pub fn swap(accounts: &mut Swap) -> (r: Result<(), SaiCitizenshipError>)
    requires
        swap_check(*old(accounts)) is None ==> old(accounts).proceeds_vault.amount + old(accounts).state.price_proceeds_mint <= u64::MAX,
        swap_check(*old(accounts)) is None ==> old(accounts).buyer_in_token_account.amount + old(accounts).state.price_vault_mint <= u64::MAX,
    ensures
        swap_check(*old(accounts)) matches Some(e) ==> r == Err::<(), SaiCitizenshipError>(e)
            && *final(accounts) == *old(accounts),
        swap_check(*old(accounts)) is None ==> r is Ok && *final(accounts) == swap_effect(
            *old(accounts),
        ),
        r is Ok ==> final(accounts).buyer_out_token_account.amount + final(accounts).proceeds_vault.amount == old(accounts).buyer_out_token_account.amount + old(accounts).proceeds_vault.amount,
        r is Ok ==> final(accounts).vault.amount + final(accounts).buyer_in_token_account.amount
            == old(accounts).vault.amount + old(accounts).buyer_in_token_account.amount,
{
    if !accounts.state.active {
        return Err(SaiCitizenshipError::SaleNotStarted);
    }
    let relationships = accounts.vault.address.equals(&accounts.state.vault)
        && accounts.vault.authority.equals(&accounts.vault.address)
        && accounts.proceeds_vault.address.equals(&accounts.state.proceeds_vault)
        && accounts.buyer_out_token_account.authority.equals(&accounts.buyer)
        && accounts.buyer_out_token_account.mint.equals(&accounts.proceeds_vault.mint)
        && accounts.mint.equals(&accounts.vault.mint);
    if !relationships {
        return Err(SaiCitizenshipError::RelationshipViolation);
    }
    if !accounts.buyer_in_token_account.mint.equals(&accounts.vault.mint) {
        return Err(SaiCitizenshipError::DestinationMismatch);
    }
    if accounts.buyer_out_token_account.amount < accounts.state.price_proceeds_mint {
        return Err(SaiCitizenshipError::InsufficientFunds);
    }
    if accounts.vault.amount < accounts.state.price_vault_mint {
        return Err(SaiCitizenshipError::InsolventVault);
    }
    transfer(
        &mut accounts.buyer_out_token_account,
        &mut accounts.proceeds_vault,
        accounts.state.price_proceeds_mint,
        &accounts.buyer,
    );
    transfer_from_custody(
        &mut accounts.vault,
        &mut accounts.buyer_in_token_account,
        accounts.state.price_vault_mint,
    );
    Ok(())
}

/// The accounts of `withdraw_proceeds`: the configuration store, the
/// proceeds vault, the administrator's receiving account, the verified
/// caller, and the asset class being swept.
pub struct WithdrawProceeds {
    pub state: State,
    pub proceeds_vault: TokenAccount,
    pub owner_in_token_account: TokenAccount,
    pub owner: Address,
    pub mint: Address,
}

/// Which error `withdraw_proceeds` refuses these inputs with, if any: caller
/// authority, the stored proceeds reference, the receiving asset class, and
/// an empty vault, in that order.
pub open spec fn withdraw_check(a: WithdrawProceeds) -> Option<SaiCitizenshipError> {
    if a.owner@ != a.state.owner@ {
        Some(SaiCitizenshipError::Unauthorized)
    } else if !(a.proceeds_vault.address@ == a.state.proceeds_vault@
        && a.proceeds_vault.authority@ == a.proceeds_vault.address@ && a.mint@
        == a.proceeds_vault.mint@) {
        Some(SaiCitizenshipError::RelationshipViolation)
    } else if a.owner_in_token_account.mint@ != a.proceeds_vault.mint@ {
        Some(SaiCitizenshipError::DestinationMismatch)
    } else if a.proceeds_vault.amount == 0 {
        Some(SaiCitizenshipError::NothingToWithdraw)
    } else {
        None
    }
}

/// The accounts after a successful sweep: the proceeds vault's entire
/// balance moves to the administrator's receiving account.
pub open spec fn withdraw_effect(a: WithdrawProceeds) -> WithdrawProceeds {
    WithdrawProceeds {
        state: a.state,
        proceeds_vault: debited(a.proceeds_vault, a.proceeds_vault.amount),
        owner_in_token_account: credited(a.owner_in_token_account, a.proceeds_vault.amount),
        owner: a.owner,
        mint: a.mint,
    }
}

/// Sweeps the proceeds vault's entire balance to the administrator,
/// authorized by the derivation proof for the proceeds vault. On success the
/// proceeds vault's balance is exactly 0 and the payment asset is conserved.
pub fn withdraw_proceeds(accounts: &mut WithdrawProceeds) -> (r: Result<(), SaiCitizenshipError>)
    requires
        withdraw_check(*old(accounts)) is None ==> old(accounts).owner_in_token_account.amount
            + old(accounts).proceeds_vault.amount <= u64::MAX,
    ensures
        withdraw_check(*old(accounts)) matches Some(e) ==> r == Err::<(), SaiCitizenshipError>(e)
            && *final(accounts) == *old(accounts),
        withdraw_check(*old(accounts)) is None ==> r is Ok && *final(accounts) == withdraw_effect(
            *old(accounts),
        ),
        r is Ok ==> final(accounts).proceeds_vault.amount == 0,
        r is Ok ==> final(accounts).owner_in_token_account.amount + final(accounts).proceeds_vault.amount == old(accounts).owner_in_token_account.amount + old(accounts).proceeds_vault.amount,
{
    if !accounts.owner.equals(&accounts.state.owner) {
        return Err(SaiCitizenshipError::Unauthorized);
    }
    let relationships = accounts.proceeds_vault.address.equals(&accounts.state.proceeds_vault)
        && accounts.proceeds_vault.authority.equals(&accounts.proceeds_vault.address)
        && accounts.mint.equals(&accounts.proceeds_vault.mint);
    if !relationships {
        return Err(SaiCitizenshipError::RelationshipViolation);
    }
    if !accounts.owner_in_token_account.mint.equals(&accounts.proceeds_vault.mint) {
        return Err(SaiCitizenshipError::DestinationMismatch);
    }
    if accounts.proceeds_vault.amount == 0 {
        return Err(SaiCitizenshipError::NothingToWithdraw);
    }
    let amount = accounts.proceeds_vault.amount;
    transfer_from_custody(
        &mut accounts.proceeds_vault,
        &mut accounts.owner_in_token_account,
        amount,
    );
    Ok(())
}

/// While the sale is inactive, every swap fails with `SaleNotStarted`; by
/// `swap`'s contract it then leaves every account unchanged.
pub proof fn swap_inactive_rejected(a: Swap)
    requires
        !a.state.active,
    ensures
        swap_check(a) == Some(SaiCitizenshipError::SaleNotStarted),
{
}

/// A fully funded buyer cannot drain an insolvent vault: when every earlier
/// precondition holds but the vault's balance is below the configured
/// payout, the swap fails with `InsolventVault`; by `swap`'s contract no
/// partial debit of the buyer's account is observable.
pub proof fn swap_insolvent_vault_rejected(a: Swap)
    requires
        a.state.active,
        swap_relationships_hold(a),
        a.buyer_in_token_account.mint@ == a.vault.mint@,
        a.buyer_out_token_account.amount >= a.state.price_proceeds_mint,
        a.vault.amount < a.state.price_vault_mint,
    ensures
        swap_check(a) == Some(SaiCitizenshipError::InsolventVault),
{
}

/// Starting the sale twice in a row: after a successful `start_sale`, a
/// second call on the resulting state fails with `AlreadyActive`, and by
/// `start_sale`'s contract the state is left unchanged.
pub proof fn start_sale_twice_rejected(a: UpdateSale)
    requires
        start_sale_check(a) is None,
    ensures
        start_sale_check(
            (UpdateSale { state: with_sale_active(a.state, true), owner: a.owner }),
        ) == Some(SaiCitizenshipError::AlreadyActive),
{
}

/// Sweeping twice in a row: a successful sweep leaves the proceeds vault
/// empty, so an immediate second sweep of the resulting accounts fails with
/// `NothingToWithdraw`.
pub proof fn withdraw_twice_rejected(a: WithdrawProceeds)
    requires
        withdraw_check(a) is None,
    ensures
        withdraw_check(withdraw_effect(a)) == Some(SaiCitizenshipError::NothingToWithdraw),
{
}

/// `update_prices` called by anyone but the administrator fails with
/// `Unauthorized`; by `update_prices`'s contract the stored prices are left
/// unchanged.
pub proof fn update_prices_unauthorized(
    a: UpdatePrice,
    price_proceeds_mint: u64,
    price_vault_mint: u64,
)
    requires
        a.owner@ != a.state.owner@,
    ensures
        update_prices_check(a, price_proceeds_mint, price_vault_mint) == Some(
            SaiCitizenshipError::Unauthorized,
        ),
{
}

} // verus!
