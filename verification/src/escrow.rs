//! Escrow accounting: the movements of funds that the transitions ask for.
//!
//! Collateral is a fungible token; fees and placement payments are native
//! currency. The token ledger itself is not part of this crate. A transition
//! reads the balances it needs from the accounts it is given and returns what
//! has to move; whoever calls it performs the movements, all or none.

use vstd::prelude::*;

verus! {

/// What a transition reads of a token account on the ledger.
#[derive(Clone, Copy, Debug, PartialEq, Eq, Structural)]
pub struct TokenAccount {
    /// Tokens that the account holds.
    pub amount: u64,
}

/// What the owner pays when a quest is created.
#[derive(Clone, Copy, Debug, PartialEq, Eq, Structural)]
pub struct Funding {
    /// Native currency from the owner to the treasury.
    pub base_fee: u64,
    /// Native currency from the owner into the custody of the record.
    pub placement: u64,
    /// Collateral from the owner's token account into the escrow.
    pub collateral: u64,
}

/// What the offeree pays when a quest is accepted.
#[derive(Clone, Copy, Debug, PartialEq, Eq, Structural)]
pub struct Deposit {
    /// Collateral from the offeree's token account into the escrow.
    pub collateral: u64,
}

/// What leaves the custody of a record when it ends. The movements are
/// authorized by the record's own custody, and after them the escrow account
/// and the record are closed and their storage goes back to the owner.
#[derive(Clone, Copy, Debug, PartialEq, Eq, Structural)]
pub struct Release {
    /// Collateral from the escrow to the owner's token account.
    pub owner_collateral: u64,
    /// Collateral from the escrow to the offeree's token account.
    pub offeree_collateral: u64,
    /// Native currency from the record to the treasury.
    pub decay_fee: u64,
    /// Native currency from the record back to the owner.
    pub placement_refund: u64,
}

/// The balances that the transitions of one quest move funds between, as
/// the ledger keeps them. A model: the crate holds no balance itself.
pub struct Balances {
    /// Collateral tokens of the owner.
    pub owner_tokens: int,
    /// Collateral tokens of the offeree.
    pub offeree_tokens: int,
    /// Collateral tokens in the escrow of the record.
    pub escrow_tokens: int,
    /// Native currency of the owner.
    pub owner_native: int,
    /// Native currency in the custody of the record.
    pub record_native: int,
    /// Native currency of the treasury.
    pub treasury_native: int,
}

impl Balances {
    /// All collateral tokens, whoever holds them.
    pub open spec fn tokens(self) -> int {
        self.owner_tokens + self.offeree_tokens + self.escrow_tokens
    }

    /// All native currency, whoever holds it.
    pub open spec fn native(self) -> int {
        self.owner_native + self.record_native + self.treasury_native
    }

    /// The record has nothing in custody.
    pub open spec fn custody_is_empty(self) -> bool {
        self.escrow_tokens == 0 && self.record_native == 0
    }

    /// The balances after the owner has paid for a creation.
    pub open spec fn fund(self, funding: Funding) -> Balances {
        Balances {
            owner_tokens: self.owner_tokens - funding.collateral,
            escrow_tokens: self.escrow_tokens + funding.collateral,
            owner_native: self.owner_native - funding.base_fee - funding.placement,
            record_native: self.record_native + funding.placement,
            treasury_native: self.treasury_native + funding.base_fee,
            ..self
        }
    }

    /// The balances after the offeree has paid in its stake.
    pub open spec fn deposit(self, deposit: Deposit) -> Balances {
        Balances {
            offeree_tokens: self.offeree_tokens - deposit.collateral,
            escrow_tokens: self.escrow_tokens + deposit.collateral,
            ..self
        }
    }

    /// The balances after a record has released what it held.
    pub open spec fn release(self, release: Release) -> Balances {
        Balances {
            owner_tokens: self.owner_tokens + release.owner_collateral,
            offeree_tokens: self.offeree_tokens + release.offeree_collateral,
            escrow_tokens: self.escrow_tokens - release.owner_collateral
                - release.offeree_collateral,
            owner_native: self.owner_native + release.placement_refund,
            record_native: self.record_native - release.decay_fee - release.placement_refund,
            treasury_native: self.treasury_native + release.decay_fee,
        }
    }
}

/// No movement creates or destroys funds: the sum of all collateral and the
/// sum of all native currency stay what they were. The treasury never loses.
pub proof fn lemma_movements_conserve_funds(
    balances: Balances,
    funding: Funding,
    deposit: Deposit,
    release: Release,
)
    ensures
        balances.fund(funding).tokens() == balances.tokens(),
        balances.fund(funding).native() == balances.native(),
        balances.fund(funding).treasury_native >= balances.treasury_native,
        balances.deposit(deposit).tokens() == balances.tokens(),
        balances.deposit(deposit).native() == balances.native(),
        balances.deposit(deposit).treasury_native == balances.treasury_native,
        balances.release(release).tokens() == balances.tokens(),
        balances.release(release).native() == balances.native(),
        balances.release(release).treasury_native >= balances.treasury_native,
{
}

} // verus!
