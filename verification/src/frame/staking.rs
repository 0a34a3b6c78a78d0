//! The storage of the staking pallet.

use crate::frame::Store;
use std::marker::PhantomData;
use vstd::prelude::*;

verus! {

/// Data type used to index nominators in the compact type.
pub type NominatorIndex = u32;

/// Data type used to index validators in the compact type.
pub type ValidatorIndex = u16;

/// Maximum number of validators that can be stored in a snapshot.
pub const MAX_VALIDATORS: usize = 0xffff;

/// Maximum number of nominators that can be stored in a snapshot.
pub const MAX_NOMINATORS: usize = 0xffff_ffff;

/// Counter for the number of eras that have passed.
pub type EraIndex = u32;

/// Counter for the number of "reward" points earned by a given validator.
pub type RewardPoint = u32;

/// The name of the pallet.
pub const MODULE: &'static str = "Staking";

/// What a client must know of the chain to use the staking pallet.
pub trait Staking {
    /// The user account identifier type of the chain.
    type AccountId;
}

/// A record of the nominations made by a specific account.
#[derive(Clone, Debug, PartialEq, Eq)]
pub struct Nominations<AccountId> {
    /// The targets of nomination.
    pub targets: Vec<AccountId>,
    /// The era the nominations were submitted.
    ///
    /// Except for initial nominations which are considered submitted at era 0.
    pub submitted_in: EraIndex,
    /// Whether the nominations have been suppressed.
    pub suppressed: bool,
}

/// Information regarding the active era (era in used in session).
#[derive(Clone, Copy, Debug, PartialEq, Eq, Structural)]
pub struct ActiveEraInfo {
    /// Index of era.
    pub index: EraIndex,
    /// Moment of start expressed as millisecond from the Unix epoch.
    ///
    /// Start can be none if start hasn't been set for the era yet.
    pub start: Option<u64>,
}

/// A destination account for payment.
#[derive(Clone, Copy, Debug, PartialEq, Eq, Structural)]
pub enum RewardDestination {
    /// Pay into the stash account, increasing the amount at stake accordingly.
    Staked,
    /// Pay into the stash account, not increasing the amount at stake.
    Stash,
    /// Pay into the controller account.
    Controller,
}

impl Default for RewardDestination {
    fn default() -> (r: Self)
        ensures
            r == RewardDestination::Staked,
    {
        RewardDestination::Staked
    }
}

/// Number of eras to keep in history.
///
/// Information is kept for eras in `[current_era - history_depth; current_era]`.
#[derive(Debug, PartialEq, Eq, PartialOrd, Ord, Hash)]
pub struct HistoryDepth<T: Staking>(pub PhantomData<T>);

impl<T: Staking> Clone for HistoryDepth<T> {
    fn clone(&self) -> (r: Self)
        ensures
            r == *self,
    {
        HistoryDepth(PhantomData)
    }
}

impl<T: Staking> Copy for HistoryDepth<T> {

}

impl<T: Staking> Store for HistoryDepth<T> {
    const MODULE: &'static str = MODULE;

    const FIELD: &'static str = "HistoryDepth";
}

/// The ideal number of staking participants.
#[derive(Debug, PartialEq, Eq, PartialOrd, Ord, Hash)]
pub struct ValidatorCount<T: Staking>(pub PhantomData<T>);

impl<T: Staking> Clone for ValidatorCount<T> {
    fn clone(&self) -> (r: Self)
        ensures
            r == *self,
    {
        ValidatorCount(PhantomData)
    }
}

impl<T: Staking> Copy for ValidatorCount<T> {

}

impl<T: Staking> Store for ValidatorCount<T> {
    const MODULE: &'static str = MODULE;

    const FIELD: &'static str = "ValidatorCount";
}

/// Minimum number of staking participants before emergency conditions are imposed.
#[derive(Debug, PartialEq, Eq, PartialOrd, Ord, Hash)]
pub struct MinimumValidatorCount<T: Staking>(pub PhantomData<T>);

impl<T: Staking> Clone for MinimumValidatorCount<T> {
    fn clone(&self) -> (r: Self)
        ensures
            r == *self,
    {
        MinimumValidatorCount(PhantomData)
    }
}

impl<T: Staking> Copy for MinimumValidatorCount<T> {

}

impl<T: Staking> Store for MinimumValidatorCount<T> {
    const MODULE: &'static str = MODULE;

    const FIELD: &'static str = "MinimumValidatorCount";
}

/// Any validators that may never be slashed or forcibly kicked.
#[derive(Debug, PartialEq, Eq, PartialOrd, Ord, Hash)]
pub struct Invulnerables<T: Staking>(pub PhantomData<T>);

impl<T: Staking> Clone for Invulnerables<T> {
    fn clone(&self) -> (r: Self)
        ensures
            r == *self,
    {
        Invulnerables(PhantomData)
    }
}

impl<T: Staking> Copy for Invulnerables<T> {

}

impl<T: Staking> Store for Invulnerables<T> {
    const MODULE: &'static str = MODULE;

    const FIELD: &'static str = "Invulnerables";
}

/// Map from all locked "stash" accounts to the controller account.
#[derive(Debug, PartialEq, Eq, PartialOrd, Ord, Hash)]
pub struct Bonded<T: Staking>(pub PhantomData<T>);

impl<T: Staking> Clone for Bonded<T> {
    fn clone(&self) -> (r: Self)
        ensures
            r == *self,
    {
        Bonded(PhantomData)
    }
}

impl<T: Staking> Copy for Bonded<T> {

}

impl<T: Staking> Store for Bonded<T> {
    const MODULE: &'static str = MODULE;

    const FIELD: &'static str = "Bonded";
}

/// Map from all (unlocked) "controller" accounts to the info regarding the staking.
#[derive(Clone, Debug, PartialEq, Eq)]
pub struct Ledger<T: Staking>(pub T::AccountId);

impl<T: Staking> Store for Ledger<T> {
    const MODULE: &'static str = MODULE;

    const FIELD: &'static str = "Ledger";
}

/// Where the reward payment should be made. Keyed by stash.
#[derive(Clone, Debug, PartialEq, Eq)]
pub struct Payee<T: Staking>(pub T::AccountId);

impl<T: Staking> Store for Payee<T> {
    const MODULE: &'static str = MODULE;

    const FIELD: &'static str = "Payee";
}

/// The map from (wannabe) validator stash key to the preferences of that validator.
#[derive(Clone, Debug, PartialEq, Eq)]
pub struct Validators<T: Staking>(pub T::AccountId);

impl<T: Staking> Store for Validators<T> {
    const MODULE: &'static str = MODULE;

    const FIELD: &'static str = "Validators";
}

/// The map from nominator stash key to the set of stash keys of all validators to nominate.
#[derive(Clone, Debug, PartialEq, Eq)]
pub struct Nominators<T: Staking>(pub T::AccountId);

impl<T: Staking> Store for Nominators<T> {
    const MODULE: &'static str = MODULE;

    const FIELD: &'static str = "Nominators";
}

/// The current era index.
///
/// This is the latest planned era, depending on how the Session pallet queues the validator
/// set, it might be active or not.
#[derive(Debug, PartialEq, Eq, PartialOrd, Ord, Hash)]
pub struct CurrentEra<T: Staking>(pub PhantomData<T>);

impl<T: Staking> Clone for CurrentEra<T> {
    fn clone(&self) -> (r: Self)
        ensures
            r == *self,
    {
        CurrentEra(PhantomData)
    }
}

impl<T: Staking> Copy for CurrentEra<T> {

}

impl<T: Staking> Store for CurrentEra<T> {
    const MODULE: &'static str = MODULE;

    const FIELD: &'static str = "CurrentEra";
}

/// The active era information, it holds index and start.
///
/// The active era is the era currently rewarded.
#[derive(Debug, PartialEq, Eq, PartialOrd, Ord, Hash)]
pub struct ActiveEra<T: Staking>(pub PhantomData<T>);

impl<T: Staking> Clone for ActiveEra<T> {
    fn clone(&self) -> (r: Self)
        ensures
            r == *self,
    {
        ActiveEra(PhantomData)
    }
}

impl<T: Staking> Copy for ActiveEra<T> {

}

impl<T: Staking> Store for ActiveEra<T> {
    const MODULE: &'static str = MODULE;

    const FIELD: &'static str = "ActiveEra";
}

} // verus!
