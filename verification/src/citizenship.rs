//! The category-keyed variant of the protocol: three custody vaults, one per
//! faction, each paying out exactly one unit per swap, with a single
//! configured price in the payment asset.

use vstd::prelude::*;

use crate::derivation::{
    derived_ref, find_derived_ref, mud_vault_label, mud_vault_seed, oni_vault_label,
    oni_vault_seed, proceeds_vault_label, proceeds_vault_seed, ustur_vault_label,
    ustur_vault_seed,
};
use crate::errors::SaiCitizenshipError;
use crate::ledger::{credited, debited, transfer, transfer_from_custody, Address, TokenAccount};
use crate::token_swap::vault_created;

verus! {

/// The category key: which of the three custody vaults a swap draws from.
/// The enumeration is closed, so every operation matches it exhaustively.
#[derive(Clone, Copy, Debug, PartialEq, Eq, Structural)]
pub enum Faction {
    Oni,
    Mud,
    Ustur,
}

/// The configuration store: administrative identity, the price of one unit,
/// the sale flag, and the address and derivation nonce of each vault. The
/// vault references are set once at initialization and never change.
pub struct State {
    pub active: bool,
    pub price: u64,
    pub owner: Address,
    pub oni_vault: Address,
    pub oni_bump: u8,
    pub mud_vault: Address,
    pub mud_bump: u8,
    pub ustur_vault: Address,
    pub ustur_bump: u8,
    pub proceeds_vault: Address,
    pub proceeds_bump: u8,
}

/// The inputs of `initialize_swap`: the identities the configuration store
/// records and the parents of the custody derivation.
pub struct InitializeSwap {
    pub program_id: Address,
    pub state_address: Address,
    pub owner: Address,
    pub oni_mint: Address,
    pub mud_mint: Address,
    pub ustur_mint: Address,
    pub proceeds_mint: Address,
}

/// What `initialize_swap` creates, in one atomic step: the configuration
/// store and the four protocol-held vaults, all empty and self-authorized.
pub struct CreatedAccounts {
    pub state: State,
    pub oni_vault: TokenAccount,
    pub mud_vault: TokenAccount,
    pub ustur_vault: TokenAccount,
    pub proceeds_vault: TokenAccount,
}

/// The custody derivation of the reference of each faction vault.
pub open spec fn faction_ref_of(a: InitializeSwap, faction: Faction) -> Option<(Seq<u8>, u8)> {
    match faction {
        Faction::Oni => derived_ref(oni_vault_label(), a.state_address@, a.program_id@),
        Faction::Mud => derived_ref(mud_vault_label(), a.state_address@, a.program_id@),
        Faction::Ustur => derived_ref(ustur_vault_label(), a.state_address@, a.program_id@),
    }
}

/// The custody derivation of the proceeds vault reference.
pub open spec fn proceeds_ref_of(a: InitializeSwap) -> Option<(Seq<u8>, u8)> {
    derived_ref(proceeds_vault_label(), a.state_address@, a.program_id@)
}

/// Every derivation the initialization needs yields a viable nonce.
pub open spec fn all_refs_derivable(a: InitializeSwap) -> bool {
    &&& faction_ref_of(a, Faction::Oni) is Some
    &&& faction_ref_of(a, Faction::Mud) is Some
    &&& faction_ref_of(a, Faction::Ustur) is Some
    &&& proceeds_ref_of(a) is Some
}

/// Creates the configuration store and all four vaults. Fails with
/// `InvalidConfiguration` if the price is not positive, and with
/// `DerivationFailed` if a custody derivation yields no viable nonce. The
/// sale starts inactive.
pub fn initialize_swap(accounts: InitializeSwap, price: u64) -> (r: Result<
    CreatedAccounts,
    SaiCitizenshipError,
>)
    requires
        accounts.state_address@.len() == 32,
        accounts.program_id@.len() == 32,
    ensures
        price == 0 ==> r == Err::<CreatedAccounts, SaiCitizenshipError>(
            SaiCitizenshipError::InvalidConfiguration,
        ),
        price > 0 && !all_refs_derivable(accounts) ==> r == Err::<
            CreatedAccounts,
            SaiCitizenshipError,
        >(SaiCitizenshipError::DerivationFailed),
        price > 0 && all_refs_derivable(accounts) ==> (r matches Ok(c) && {
            &&& c.state.active == false
            &&& c.state.price == price
            &&& c.state.owner@ == accounts.owner@
            &&& Some((c.state.oni_vault@, c.state.oni_bump)) == faction_ref_of(
                accounts,
                Faction::Oni,
            )
            &&& Some((c.state.mud_vault@, c.state.mud_bump)) == faction_ref_of(
                accounts,
                Faction::Mud,
            )
            &&& Some((c.state.ustur_vault@, c.state.ustur_bump)) == faction_ref_of(
                accounts,
                Faction::Ustur,
            )
            &&& Some((c.state.proceeds_vault@, c.state.proceeds_bump)) == proceeds_ref_of(accounts)
            &&& vault_created(c.oni_vault, c.state.oni_vault@, accounts.oni_mint@)
            &&& vault_created(c.mud_vault, c.state.mud_vault@, accounts.mud_mint@)
            &&& vault_created(c.ustur_vault, c.state.ustur_vault@, accounts.ustur_mint@)
            &&& vault_created(c.proceeds_vault, c.state.proceeds_vault@, accounts.proceeds_mint@)
        }),
{
    if price == 0 {
        return Err(SaiCitizenshipError::InvalidConfiguration);
    }
    let oni_seed_bytes = oni_vault_seed();
    let (oni_address, oni_bump) = match find_derived_ref(
        &oni_seed_bytes,
        &accounts.state_address,
        &accounts.program_id,
    ) {
        Some(p) => p,
        None => {
            return Err(SaiCitizenshipError::DerivationFailed);
        },
    };
    let mud_seed_bytes = mud_vault_seed();
    let (mud_address, mud_bump) = match find_derived_ref(
        &mud_seed_bytes,
        &accounts.state_address,
        &accounts.program_id,
    ) {
        Some(p) => p,
        None => {
            return Err(SaiCitizenshipError::DerivationFailed);
        },
    };
    let ustur_seed_bytes = ustur_vault_seed();
    let (ustur_address, ustur_bump) = match find_derived_ref(
        &ustur_seed_bytes,
        &accounts.state_address,
        &accounts.program_id,
    ) {
        Some(p) => p,
        None => {
            return Err(SaiCitizenshipError::DerivationFailed);
        },
    };
    let proceeds_seed_bytes = proceeds_vault_seed();
    let (proceeds_address, proceeds_bump) = match find_derived_ref(
        &proceeds_seed_bytes,
        &accounts.state_address,
        &accounts.program_id,
    ) {
        Some(p) => p,
        None => {
            return Err(SaiCitizenshipError::DerivationFailed);
        },
    };
    let oni_vault = TokenAccount {
        address: oni_address.duplicate(),
        authority: oni_address.duplicate(),
        mint: accounts.oni_mint,
        amount: 0,
    };
    let mud_vault = TokenAccount {
        address: mud_address.duplicate(),
        authority: mud_address.duplicate(),
        mint: accounts.mud_mint,
        amount: 0,
    };
    let ustur_vault = TokenAccount {
        address: ustur_address.duplicate(),
        authority: ustur_address.duplicate(),
        mint: accounts.ustur_mint,
        amount: 0,
    };
    let proceeds_vault = TokenAccount {
        address: proceeds_address.duplicate(),
        authority: proceeds_address.duplicate(),
        mint: accounts.proceeds_mint,
        amount: 0,
    };
    let state = State {
        active: false,
        price: price,
        owner: accounts.owner,
        oni_vault: oni_address,
        oni_bump: oni_bump,
        mud_vault: mud_address,
        mud_bump: mud_bump,
        ustur_vault: ustur_address,
        ustur_bump: ustur_bump,
        proceeds_vault: proceeds_address,
        proceeds_bump: proceeds_bump,
    };
    Ok(
        CreatedAccounts {
            state: state,
            oni_vault: oni_vault,
            mud_vault: mud_vault,
            ustur_vault: ustur_vault,
            proceeds_vault: proceeds_vault,
        },
    )
}

/// The accounts of `update_price`: the configuration store and the caller,
/// whose identity the execution environment has verified.
pub struct UpdatePrice {
    pub state: State,
    pub owner: Address,
}

/// Which error `update_price` refuses these inputs with, if any: the caller
/// must be the administrator and the new price must be positive.
pub open spec fn update_price_check(a: UpdatePrice, price: u64) -> Option<SaiCitizenshipError> {
    if a.owner@ != a.state.owner@ {
        Some(SaiCitizenshipError::Unauthorized)
    } else if price == 0 {
        Some(SaiCitizenshipError::InvalidConfiguration)
    } else {
        None
    }
}

/// The configuration store with the price overwritten and everything else as
/// it was.
pub open spec fn repriced(s: State, price: u64) -> State {
    State {
        active: s.active,
        price: price,
        owner: s.owner,
        oni_vault: s.oni_vault,
        oni_bump: s.oni_bump,
        mud_vault: s.mud_vault,
        mud_bump: s.mud_bump,
        ustur_vault: s.ustur_vault,
        ustur_bump: s.ustur_bump,
        proceeds_vault: s.proceeds_vault,
        proceeds_bump: s.proceeds_bump,
    }
}

/// Overwrites the price of one unit. Only the administrator may call this;
/// neither the sale flag nor the vault references change.
pub fn update_price(accounts: &mut UpdatePrice, price: u64) -> (r: Result<
    (),
    SaiCitizenshipError,
>)
    ensures
        update_price_check(*old(accounts), price) matches Some(e) ==> r == Err::<
            (),
            SaiCitizenshipError,
        >(e) && *final(accounts) == *old(accounts),
        update_price_check(*old(accounts), price) is None ==> r is Ok && final(accounts).state
            == repriced(old(accounts).state, price) && final(accounts).owner == old(accounts).owner,
{
    if !accounts.owner.equals(&accounts.state.owner) {
        return Err(SaiCitizenshipError::Unauthorized);
    }
    if price == 0 {
        return Err(SaiCitizenshipError::InvalidConfiguration);
    }
    accounts.state.price = price;
    Ok(())
}

/// The accounts of `active_sell` and `deactive_sell`: the configuration
/// store and the verified caller.
pub struct ActiveOrDeactiveSell {
    pub state: State,
    pub owner: Address,
}

/// The configuration store with the sale flag set to `active` and everything
/// else as it was.
pub open spec fn with_sale_active(s: State, active: bool) -> State {
    State {
        active: active,
        price: s.price,
        owner: s.owner,
        oni_vault: s.oni_vault,
        oni_bump: s.oni_bump,
        mud_vault: s.mud_vault,
        mud_bump: s.mud_bump,
        ustur_vault: s.ustur_vault,
        ustur_bump: s.ustur_bump,
        proceeds_vault: s.proceeds_vault,
        proceeds_bump: s.proceeds_bump,
    }
}

/// Which error `active_sell` refuses these inputs with, if any: only the
/// administrator may start the sale, and an already active sale is refused,
/// not silently ignored.
pub open spec fn active_sell_check(a: ActiveOrDeactiveSell) -> Option<SaiCitizenshipError> {
    if a.owner@ != a.state.owner@ {
        Some(SaiCitizenshipError::Unauthorized)
    } else if a.state.active {
        Some(SaiCitizenshipError::AlreadyActive)
    } else {
        None
    }
}

/// Which error `deactive_sell` refuses these inputs with, if any.
pub open spec fn deactive_sell_check(a: ActiveOrDeactiveSell) -> Option<SaiCitizenshipError> {
    if a.owner@ != a.state.owner@ {
        Some(SaiCitizenshipError::Unauthorized)
    } else if !a.state.active {
        Some(SaiCitizenshipError::AlreadyInactive)
    } else {
        None
    }
}

/// Flips the sale flag to active. Fails with `AlreadyActive` if it is
/// already set.
pub fn active_sell(accounts: &mut ActiveOrDeactiveSell) -> (r: Result<(), SaiCitizenshipError>)
    ensures
        active_sell_check(*old(accounts)) matches Some(e) ==> r == Err::<(), SaiCitizenshipError>(
            e,
        ) && *final(accounts) == *old(accounts),
        active_sell_check(*old(accounts)) is None ==> r is Ok && final(accounts).state
            == with_sale_active(old(accounts).state, true) && final(accounts).owner == old(accounts).owner,
{
    if !accounts.owner.equals(&accounts.state.owner) {
        return Err(SaiCitizenshipError::Unauthorized);
    }
    if accounts.state.active {
        return Err(SaiCitizenshipError::AlreadyActive);
    }
    accounts.state.active = true;
    Ok(())
}

/// Flips the sale flag to inactive. Fails with `AlreadyInactive` if it is
/// already clear.
pub fn deactive_sell(accounts: &mut ActiveOrDeactiveSell) -> (r: Result<(), SaiCitizenshipError>)
    ensures
        deactive_sell_check(*old(accounts)) matches Some(e) ==> r == Err::<
            (),
            SaiCitizenshipError,
        >(e) && *final(accounts) == *old(accounts),
        deactive_sell_check(*old(accounts)) is None ==> r is Ok && final(accounts).state
            == with_sale_active(old(accounts).state, false) && final(accounts).owner == old(accounts).owner,
{
    if !accounts.owner.equals(&accounts.state.owner) {
        return Err(SaiCitizenshipError::Unauthorized);
    }
    if !accounts.state.active {
        return Err(SaiCitizenshipError::AlreadyInactive);
    }
    accounts.state.active = false;
    Ok(())
}

/// The accounts of `swap`: the configuration store (read-only here), the
/// four protocol vaults as presented by the caller, the buyer's payment and
/// destination accounts, and the buyer's verified identity.
pub struct Swap {
    pub state: State,
    pub proceeds_vault: TokenAccount,
    pub oni_vault: TokenAccount,
    pub mud_vault: TokenAccount,
    pub ustur_vault: TokenAccount,
    pub buyer_out_token_account: TokenAccount,
    pub buyer_in_token_account: TokenAccount,
    pub buyer: Address,
}

/// The vault the faction key selects among the presented accounts.
pub open spec fn selected_vault(a: Swap, faction: Faction) -> TokenAccount {
    match faction {
        Faction::Oni => a.oni_vault,
        Faction::Mud => a.mud_vault,
        Faction::Ustur => a.ustur_vault,
    }
}

/// The relationship pass of `swap`: every presented vault must stand at its
/// stored reference, the selected vault must be self-authorized, and the
/// buyer must own a payment account of the proceeds asset class.
pub open spec fn swap_relationships_hold(a: Swap, faction: Faction) -> bool {
    &&& a.oni_vault.address@ == a.state.oni_vault@
    &&& a.mud_vault.address@ == a.state.mud_vault@
    &&& a.ustur_vault.address@ == a.state.ustur_vault@
    &&& a.proceeds_vault.address@ == a.state.proceeds_vault@
    &&& selected_vault(a, faction).authority@ == selected_vault(a, faction).address@
    &&& a.buyer_out_token_account.authority@ == a.buyer@
    &&& a.buyer_out_token_account.mint@ == a.proceeds_vault.mint@
}

/// Which error `swap` refuses these inputs with, if any, in the order the
/// preconditions are checked: sale active, relationships, destination asset
/// class, buyer funds, vault solvency. Each swap pays out exactly one unit.
pub open spec fn swap_check(a: Swap, faction: Faction) -> Option<SaiCitizenshipError> {
    if !a.state.active {
        Some(SaiCitizenshipError::SaleNotStarted)
    } else if !swap_relationships_hold(a, faction) {
        Some(SaiCitizenshipError::RelationshipViolation)
    } else if a.buyer_in_token_account.mint@ != selected_vault(a, faction).mint@ {
        Some(SaiCitizenshipError::DestinationMismatch)
    } else if a.buyer_out_token_account.amount < a.state.price {
        Some(SaiCitizenshipError::InsufficientFunds)
    } else if selected_vault(a, faction).amount < 1 {
        Some(SaiCitizenshipError::InsolventVault)
    } else {
        None
    }
}

/// The accounts after a successful swap: the buyer pays the price into the
/// proceeds vault and the selected vault pays one unit out to the buyer's
/// destination account; the two unselected vaults do not move.
pub open spec fn swap_effect(a: Swap, faction: Faction) -> Swap {
    Swap {
        state: a.state,
        proceeds_vault: credited(a.proceeds_vault, a.state.price),
        oni_vault: if faction == Faction::Oni {
            debited(a.oni_vault, 1)
        } else {
            a.oni_vault
        },
        mud_vault: if faction == Faction::Mud {
            debited(a.mud_vault, 1)
        } else {
            a.mud_vault
        },
        ustur_vault: if faction == Faction::Ustur {
            debited(a.ustur_vault, 1)
        } else {
            a.ustur_vault
        },
        buyer_out_token_account: debited(a.buyer_out_token_account, a.state.price),
        buyer_in_token_account: credited(a.buyer_in_token_account, 1),
        buyer: a.buyer,
    }
}

/// The swap engine. Either every precondition holds and both transfer legs
/// commit, or the specific failure is returned and no balance moves. On
/// success the buyer's payment account decreases by exactly the price, the
/// proceeds vault increases by the same amount, the selected vault decreases
/// by exactly one unit, the buyer's destination account increases by one
/// unit, and the total supply of each asset class across the accounts is
/// conserved.
pub fn swap(accounts: &mut Swap, faction: Faction) -> (r: Result<(), SaiCitizenshipError>)
    requires
        swap_check(*old(accounts), faction) is None ==> old(accounts).proceeds_vault.amount + old(accounts).state.price <= u64::MAX,
        swap_check(*old(accounts), faction) is None ==> old(accounts).buyer_in_token_account.amount + 1 <= u64::MAX,
    ensures
        swap_check(*old(accounts), faction) matches Some(e) ==> r == Err::<
            (),
            SaiCitizenshipError,
        >(e) && *final(accounts) == *old(accounts),
        swap_check(*old(accounts), faction) is None ==> r is Ok && *final(accounts) == swap_effect(
            *old(accounts),
            faction,
        ),
        r is Ok ==> final(accounts).buyer_out_token_account.amount + final(accounts).proceeds_vault.amount == old(accounts).buyer_out_token_account.amount + old(accounts).proceeds_vault.amount,
        r is Ok ==> selected_vault(*final(accounts), faction).amount + final(accounts).buyer_in_token_account.amount == selected_vault(*old(accounts), faction).amount + old(accounts).buyer_in_token_account.amount,
{
    if !accounts.state.active {
        return Err(SaiCitizenshipError::SaleNotStarted);
    }
    let selected_authorized = match faction {
        Faction::Oni => accounts.oni_vault.authority.equals(&accounts.oni_vault.address),
        Faction::Mud => accounts.mud_vault.authority.equals(&accounts.mud_vault.address),
        Faction::Ustur => accounts.ustur_vault.authority.equals(&accounts.ustur_vault.address),
    };
    let relationships = accounts.oni_vault.address.equals(&accounts.state.oni_vault)
        && accounts.mud_vault.address.equals(&accounts.state.mud_vault)
        && accounts.ustur_vault.address.equals(&accounts.state.ustur_vault)
        && accounts.proceeds_vault.address.equals(&accounts.state.proceeds_vault)
        && selected_authorized
        && accounts.buyer_out_token_account.authority.equals(&accounts.buyer)
        && accounts.buyer_out_token_account.mint.equals(&accounts.proceeds_vault.mint);
    if !relationships {
        return Err(SaiCitizenshipError::RelationshipViolation);
    }
    let destination_matches = match faction {
        Faction::Oni => accounts.buyer_in_token_account.mint.equals(&accounts.oni_vault.mint),
        Faction::Mud => accounts.buyer_in_token_account.mint.equals(&accounts.mud_vault.mint),
        Faction::Ustur => accounts.buyer_in_token_account.mint.equals(&accounts.ustur_vault.mint),
    };
    if !destination_matches {
        return Err(SaiCitizenshipError::DestinationMismatch);
    }
    if accounts.buyer_out_token_account.amount < accounts.state.price {
        return Err(SaiCitizenshipError::InsufficientFunds);
    }
    let selected_amount = match faction {
        Faction::Oni => accounts.oni_vault.amount,
        Faction::Mud => accounts.mud_vault.amount,
        Faction::Ustur => accounts.ustur_vault.amount,
    };
    if selected_amount < 1 {
        return Err(SaiCitizenshipError::InsolventVault);
    }
    transfer(
        &mut accounts.buyer_out_token_account,
        &mut accounts.proceeds_vault,
        accounts.state.price,
        &accounts.buyer,
    );
    match faction {
        Faction::Oni => transfer_from_custody(
            &mut accounts.oni_vault,
            &mut accounts.buyer_in_token_account,
            1,
        ),
        Faction::Mud => transfer_from_custody(
            &mut accounts.mud_vault,
            &mut accounts.buyer_in_token_account,
            1,
        ),
        Faction::Ustur => transfer_from_custody(
            &mut accounts.ustur_vault,
            &mut accounts.buyer_in_token_account,
            1,
        ),
    }
    Ok(())
}

/// The accounts of `withdraw_proceeds`: the configuration store, the
/// proceeds vault, the administrator's receiving account and the verified
/// caller.
pub struct WithdrawProceeds {
    pub state: State,
    pub proceeds_vault: TokenAccount,
    pub owner_in_token_account: TokenAccount,
    pub owner: Address,
}

/// Which error `withdraw_proceeds` refuses these inputs with, if any: caller
/// authority, the stored proceeds reference, the receiving asset class, and
/// an empty vault, in that order.
pub open spec fn withdraw_check(a: WithdrawProceeds) -> Option<SaiCitizenshipError> {
    if a.owner@ != a.state.owner@ {
        Some(SaiCitizenshipError::Unauthorized)
    } else if !(a.proceeds_vault.address@ == a.state.proceeds_vault@
        && a.proceeds_vault.authority@ == a.proceeds_vault.address@) {
        Some(SaiCitizenshipError::RelationshipViolation)
    } else if a.owner_in_token_account.mint@ != a.proceeds_vault.mint@ {
        Some(SaiCitizenshipError::DestinationMismatch)
    } else if a.proceeds_vault.amount == 0 {
        Some(SaiCitizenshipError::NothingToWithdraw)
    } else {
        None
    }
}

/// The accounts after a successful sweep: the proceeds vault's entire
/// balance moves to the administrator's receiving account.
pub open spec fn withdraw_effect(a: WithdrawProceeds) -> WithdrawProceeds {
    WithdrawProceeds {
        state: a.state,
        proceeds_vault: debited(a.proceeds_vault, a.proceeds_vault.amount),
        owner_in_token_account: credited(a.owner_in_token_account, a.proceeds_vault.amount),
        owner: a.owner,
    }
}

/// Sweeps the proceeds vault's entire balance to the administrator,
/// authorized by the derivation proof for the proceeds vault. On success the
/// proceeds vault's balance is exactly 0 and the payment asset is conserved.
pub fn withdraw_proceeds(accounts: &mut WithdrawProceeds) -> (r: Result<(), SaiCitizenshipError>)
    requires
        withdraw_check(*old(accounts)) is None ==> old(accounts).owner_in_token_account.amount
            + old(accounts).proceeds_vault.amount <= u64::MAX,
    ensures
        withdraw_check(*old(accounts)) matches Some(e) ==> r == Err::<(), SaiCitizenshipError>(e)
            && *final(accounts) == *old(accounts),
        withdraw_check(*old(accounts)) is None ==> r is Ok && *final(accounts) == withdraw_effect(
            *old(accounts),
        ),
        r is Ok ==> final(accounts).proceeds_vault.amount == 0,
        r is Ok ==> final(accounts).owner_in_token_account.amount + final(accounts).proceeds_vault.amount == old(accounts).owner_in_token_account.amount + old(accounts).proceeds_vault.amount,
{
    if !accounts.owner.equals(&accounts.state.owner) {
        return Err(SaiCitizenshipError::Unauthorized);
    }
    let relationships = accounts.proceeds_vault.address.equals(&accounts.state.proceeds_vault)
        && accounts.proceeds_vault.authority.equals(&accounts.proceeds_vault.address);
    if !relationships {
        return Err(SaiCitizenshipError::RelationshipViolation);
    }
    if !accounts.owner_in_token_account.mint.equals(&accounts.proceeds_vault.mint) {
        return Err(SaiCitizenshipError::DestinationMismatch);
    }
    if accounts.proceeds_vault.amount == 0 {
        return Err(SaiCitizenshipError::NothingToWithdraw);
    }
    let amount = accounts.proceeds_vault.amount;
    transfer_from_custody(
        &mut accounts.proceeds_vault,
        &mut accounts.owner_in_token_account,
        amount,
    );
    Ok(())
}

/// While the sale is inactive, every swap fails with `SaleNotStarted`,
/// whatever faction is selected; by `swap`'s contract it then leaves every
/// account unchanged.
pub proof fn swap_inactive_rejected(a: Swap, faction: Faction)
    requires
        !a.state.active,
    ensures
        swap_check(a, faction) == Some(SaiCitizenshipError::SaleNotStarted),
{
}

/// A fully funded buyer cannot drain an insolvent vault: when every earlier
/// precondition holds but the selected vault is empty, the swap fails with
/// `InsolventVault`; by `swap`'s contract no partial debit of the buyer's
/// account is observable.
pub proof fn swap_insolvent_vault_rejected(a: Swap, faction: Faction)
    requires
        a.state.active,
        swap_relationships_hold(a, faction),
        a.buyer_in_token_account.mint@ == selected_vault(a, faction).mint@,
        a.buyer_out_token_account.amount >= a.state.price,
        selected_vault(a, faction).amount < 1,
    ensures
        swap_check(a, faction) == Some(SaiCitizenshipError::InsolventVault),
{
}

/// Starting the sale twice in a row: after a successful `active_sell`, a
/// second call on the resulting state fails with `AlreadyActive`, and by
/// `active_sell`'s contract the state is left unchanged.
pub proof fn active_sell_twice_rejected(a: ActiveOrDeactiveSell)
    requires
        active_sell_check(a) is None,
    ensures
        active_sell_check(
            (ActiveOrDeactiveSell { state: with_sale_active(a.state, true), owner: a.owner }),
        ) == Some(SaiCitizenshipError::AlreadyActive),
{
}

/// Sweeping twice in a row: a successful sweep leaves the proceeds vault
/// empty, so an immediate second sweep of the resulting accounts fails with
/// `NothingToWithdraw`.
pub proof fn withdraw_twice_rejected(a: WithdrawProceeds)
    requires
        withdraw_check(a) is None,
    ensures
        withdraw_check(withdraw_effect(a)) == Some(SaiCitizenshipError::NothingToWithdraw),
{
}

/// `update_price` called by anyone but the administrator fails with
/// `Unauthorized`; by `update_price`'s contract the stored price is left
/// unchanged.
pub proof fn update_price_unauthorized(a: UpdatePrice, price: u64)
    requires
        a.owner@ != a.state.owner@,
    ensures
        update_price_check(a, price) == Some(SaiCitizenshipError::Unauthorized),
{
}

} // verus!
