//! The fungible assets that the pallet moves: asset classes, the balance that each account
//! holds of each asset, and the native balance of each account.
//!
//! The runtime supplies these through the `fungibles` and `fungible` traits of
//! `frame_support`. This ledger keeps only what the pallet relies on: unknown assets,
//! missing funds and overflowing balances or supplies are refused, an id can be created once
//! with a positive minimum balance, and minting raises an asset's total supply. It leaves out
//! what an assets pallet adds beyond that: the refusal of balances below an asset's minimum
//! balance, the reaping of accounts that a transfer with `Preservation::Expendable` leaves
//! below it (their dust goes with them), deposits, freezing, and the native balance's holds
//! and freezes.
use crate::types::{ArithmeticError, AssetsError, DispatchError, TokenError};
use crate::vec_map::VecMap;
use vstd::prelude::*;

verus! {

/// What is known of an asset class: who administers it, whether it is sufficient, the
/// smallest balance an account may hold of it, and how much of it has been minted.
#[derive(Clone, Copy, PartialEq, Eq, Debug)]
pub struct AssetDetails {
    pub owner: u64,
    pub is_sufficient: bool,
    pub min_balance: u128,
    pub supply: u128,
}

/// The state of the assets as maps: the classes by id, the balances by asset and account,
/// and the native balances by account. An absent balance is zero.
#[verifier::ext_equal]
pub struct AssetsView {
    pub classes: Map<u32, AssetDetails>,
    pub balances: Map<(u32, u64), u128>,
    pub native: Map<u64, u128>,
}

/// The balance that `who` holds of `asset`.
pub open spec fn balance_of(v: AssetsView, asset: u32, who: u64) -> u128 {
    if v.balances.contains_key((asset, who)) {
        v.balances[(asset, who)]
    } else {
        0
    }
}

/// The total issuance of `asset`: the amount minted of it, or zero for an unknown asset.
pub open spec fn total_issuance_of(v: AssetsView, asset: u32) -> u128 {
    if v.classes.contains_key(asset) {
        v.classes[asset].supply
    } else {
        0
    }
}

/// The native balance of `who`.
pub open spec fn native_balance_of(v: AssetsView, who: u64) -> u128 {
    if v.native.contains_key(who) {
        v.native[who]
    } else {
        0
    }
}

/// `v` with the balance of `who` in `asset` set to `amount`.
pub open spec fn with_balance(v: AssetsView, asset: u32, who: u64, amount: u128) -> AssetsView {
    AssetsView { balances: v.balances.insert((asset, who), amount), ..v }
}

/// Creating the asset `id` administered by `admin`: refused if the id is taken or the
/// minimum balance is zero.
pub open spec fn spec_create(
    v: AssetsView,
    id: u32,
    admin: u64,
    is_sufficient: bool,
    min_balance: u128,
) -> Result<AssetsView, DispatchError> {
    if v.classes.contains_key(id) {
        Err(DispatchError::Assets(AssetsError::InUse))
    } else if min_balance == 0 {
        Err(DispatchError::Assets(AssetsError::MinBalanceZero))
    } else {
        Ok(
            AssetsView {
                classes: v.classes.insert(
                    id,
                    AssetDetails { owner: admin, is_sufficient, min_balance, supply: 0 },
                ),
                ..v
            },
        )
    }
}

/// Minting `amount` of `id` into `who`: refused for an unknown asset or where the supply or
/// the balance would overflow; the supply and the balance rise by `amount`.
pub open spec fn spec_mint_into(v: AssetsView, id: u32, who: u64, amount: u128) -> Result<
    AssetsView,
    DispatchError,
> {
    if !v.classes.contains_key(id) {
        Err(DispatchError::Token(TokenError::UnknownAsset))
    } else if v.classes[id].supply + amount > u128::MAX || balance_of(v, id, who) + amount
        > u128::MAX {
        Err(DispatchError::Arithmetic(ArithmeticError::Overflow))
    } else {
        Ok(
            AssetsView {
                classes: v.classes.insert(
                    id,
                    AssetDetails { supply: (v.classes[id].supply + amount) as u128, ..v.classes[id] },
                ),
                balances: v.balances.insert((id, who), (balance_of(v, id, who) + amount) as u128),
                native: v.native,
            },
        )
    }
}

/// Moving `amount` of `id` from `from` to `to`: refused for an unknown asset, where `from`
/// holds less than `amount`, or where the balance of `to` would overflow. A transfer to
/// oneself changes nothing.
pub open spec fn spec_transfer(v: AssetsView, id: u32, from: u64, to: u64, amount: u128) -> Result<
    AssetsView,
    DispatchError,
> {
    if !v.classes.contains_key(id) {
        Err(DispatchError::Token(TokenError::UnknownAsset))
    } else if balance_of(v, id, from) < amount {
        Err(DispatchError::Token(TokenError::FundsUnavailable))
    } else if from == to {
        Ok(v)
    } else if balance_of(v, id, to) + amount > u128::MAX {
        Err(DispatchError::Arithmetic(ArithmeticError::Overflow))
    } else {
        Ok(
            with_balance(
                with_balance(v, id, from, (balance_of(v, id, from) - amount) as u128),
                id,
                to,
                (balance_of(v, id, to) + amount) as u128,
            ),
        )
    }
}

/// Minting `amount` of the native currency into `who`: refused where the balance would
/// overflow.
pub open spec fn spec_mint_native(v: AssetsView, who: u64, amount: u128) -> Result<
    AssetsView,
    DispatchError,
> {
    if native_balance_of(v, who) + amount > u128::MAX {
        Err(DispatchError::Arithmetic(ArithmeticError::Overflow))
    } else {
        Ok(
            AssetsView {
                native: v.native.insert(who, (native_balance_of(v, who) + amount) as u128),
                ..v
            },
        )
    }
}

/// The effect of an operation on the assets: the new state where it succeeds, and an
/// unchanged state where it fails.
pub open spec fn applied(
    before: AssetsView,
    after: AssetsView,
    r: Result<(), DispatchError>,
    outcome: Result<AssetsView, DispatchError>,
) -> bool {
    match outcome {
        Ok(v) => r is Ok && after == v,
        Err(e) => r == Err::<(), DispatchError>(e) && after == before,
    }
}

/// The fungible assets: classes, balances and native balances.
pub struct Assets {
    classes: VecMap<u32, AssetDetails>,
    balances: VecMap<(u32, u64), u128>,
    native: VecMap<u64, u128>,
}

impl View for Assets {
    type V = AssetsView;

    closed spec fn view(&self) -> AssetsView {
        AssetsView { classes: self.classes@, balances: self.balances@, native: self.native@ }
    }
}

impl Assets {
    pub closed spec fn wf(&self) -> bool {
        &&& self.classes.wf()
        &&& self.balances.wf()
        &&& self.native.wf()
    }

    /// No assets and no balances.
    pub fn new() -> (r: Self)
        ensures
            r.wf(),
            r@.classes == Map::<u32, AssetDetails>::empty(),
            r@.balances == Map::<(u32, u64), u128>::empty(),
            r@.native == Map::<u64, u128>::empty(),
    {
        Assets { classes: VecMap::new(), balances: VecMap::new(), native: VecMap::new() }
    }

    /// A copy of the assets.
    pub fn copy(&self) -> (r: Self)
        requires
            self.wf(),
        ensures
            r.wf(),
            r@ == self@,
    {
        Assets {
            classes: self.classes.copy(),
            balances: self.balances.copy(),
            native: self.native.copy(),
        }
    }

    pub fn asset_exists(&self, id: u32) -> (r: bool)
        requires
            self.wf(),
        ensures
            r == self@.classes.contains_key(id),
    {
        self.classes.contains_key(&id)
    }

    pub fn balance(&self, id: u32, who: &u64) -> (r: u128)
        requires
            self.wf(),
        ensures
            r == balance_of(self@, id, *who),
    {
        match self.balances.get(&(id, *who)) {
            Some(b) => b,
            None => 0,
        }
    }

    pub fn total_issuance(&self, id: u32) -> (r: u128)
        requires
            self.wf(),
        ensures
            r == total_issuance_of(self@, id),
    {
        match self.classes.get(&id) {
            Some(details) => details.supply,
            None => 0,
        }
    }

    pub fn native_balance(&self, who: &u64) -> (r: u128)
        requires
            self.wf(),
        ensures
            r == native_balance_of(self@, *who),
    {
        match self.native.get(who) {
            Some(b) => b,
            None => 0,
        }
    }

    pub fn create(&mut self, id: u32, admin: u64, is_sufficient: bool, min_balance: u128) -> (r:
        Result<(), DispatchError>)
        requires
            old(self).wf(),
        ensures
            final(self).wf(),
            applied(old(self)@, final(self)@, r, spec_create(old(self)@, id, admin, is_sufficient, min_balance)),
    {
        if self.classes.contains_key(&id) {
            return Err(DispatchError::Assets(AssetsError::InUse));
        }
        if min_balance == 0 {
            return Err(DispatchError::Assets(AssetsError::MinBalanceZero));
        }
        self.classes.insert(id, AssetDetails { owner: admin, is_sufficient, min_balance, supply: 0 });
        Ok(())
    }

    pub fn mint_into(&mut self, id: u32, who: &u64, amount: u128) -> (r: Result<(), DispatchError>)
        requires
            old(self).wf(),
        ensures
            final(self).wf(),
            applied(old(self)@, final(self)@, r, spec_mint_into(old(self)@, id, *who, amount)),
    {
        let details = match self.classes.get(&id) {
            Some(details) => details,
            None => return Err(DispatchError::Token(TokenError::UnknownAsset)),
        };
        let new_supply = match details.supply.checked_add(amount) {
            Some(supply) => supply,
            None => return Err(DispatchError::Arithmetic(ArithmeticError::Overflow)),
        };
        let current = self.balance(id, who);
        match current.checked_add(amount) {
            Some(new_balance) => {
                self.classes.insert(id, AssetDetails { supply: new_supply, ..details });
                self.balances.insert((id, *who), new_balance);
                Ok(())
            },
            None => Err(DispatchError::Arithmetic(ArithmeticError::Overflow)),
        }
    }

    pub fn transfer(&mut self, id: u32, from: &u64, to: &u64, amount: u128) -> (r: Result<
        (),
        DispatchError,
    >)
        requires
            old(self).wf(),
        ensures
            final(self).wf(),
            applied(old(self)@, final(self)@, r, spec_transfer(old(self)@, id, *from, *to, amount)),
    {
        if !self.classes.contains_key(&id) {
            return Err(DispatchError::Token(TokenError::UnknownAsset));
        }
        let from_balance = self.balance(id, from);
        if from_balance < amount {
            return Err(DispatchError::Token(TokenError::FundsUnavailable));
        }
        if *from == *to {
            return Ok(());
        }
        let to_balance = self.balance(id, to);
        match to_balance.checked_add(amount) {
            Some(new_to_balance) => {
                self.balances.insert((id, *from), from_balance - amount);
                self.balances.insert((id, *to), new_to_balance);
                Ok(())
            },
            None => Err(DispatchError::Arithmetic(ArithmeticError::Overflow)),
        }
    }

    pub fn mint_native(&mut self, who: &u64, amount: u128) -> (r: Result<(), DispatchError>)
        requires
            old(self).wf(),
        ensures
            final(self).wf(),
            applied(old(self)@, final(self)@, r, spec_mint_native(old(self)@, *who, amount)),
    {
        let current = self.native_balance(who);
        match current.checked_add(amount) {
            Some(new_balance) => {
                self.native.insert(*who, new_balance);
                Ok(())
            },
            None => Err(DispatchError::Arithmetic(ArithmeticError::Overflow)),
        }
    }
}

} // verus!
