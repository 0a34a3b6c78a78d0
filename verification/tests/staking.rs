use std::marker::PhantomData;
use subxt::frame::staking::{
    ActiveEra, ActiveEraInfo, Bonded, CurrentEra, HistoryDepth, Invulnerables, Ledger,
    MinimumValidatorCount, Nominations, Nominators, Payee, RewardDestination, Staking,
    ValidatorCount, Validators, MAX_NOMINATORS, MAX_VALIDATORS, MODULE,
};
use subxt::frame::Store;

#[derive(Debug, PartialEq, Eq, PartialOrd, Ord, Hash)]
struct Chain;

impl Staking for Chain {
    type AccountId = [u8; 4];
}

fn names<S: Store>(_entry: &S) -> (&'static str, &'static str) {
    (S::MODULE, S::FIELD)
}

#[test]
fn snapshot_limits_are_those_of_the_index_types() {
    assert_eq!(MAX_VALIDATORS, u16::MAX as usize);
    assert_eq!(MAX_NOMINATORS, u32::MAX as usize);
}

#[test]
fn reward_destination_defaults_to_staked() {
    assert_eq!(RewardDestination::default(), RewardDestination::Staked);
    assert_ne!(RewardDestination::Stash, RewardDestination::Controller);
}

#[test]
fn plain_entries_name_their_field() {
    assert_eq!(MODULE, "Staking");
    assert_eq!(names(&HistoryDepth::<Chain>(PhantomData)), ("Staking", "HistoryDepth"));
    assert_eq!(names(&ValidatorCount::<Chain>(PhantomData)), ("Staking", "ValidatorCount"));
    assert_eq!(
        names(&MinimumValidatorCount::<Chain>(PhantomData)),
        ("Staking", "MinimumValidatorCount")
    );
    assert_eq!(names(&Invulnerables::<Chain>(PhantomData)), ("Staking", "Invulnerables"));
    assert_eq!(names(&Bonded::<Chain>(PhantomData)), ("Staking", "Bonded"));
    assert_eq!(names(&CurrentEra::<Chain>(PhantomData)), ("Staking", "CurrentEra"));
    assert_eq!(names(&ActiveEra::<Chain>(PhantomData)), ("Staking", "ActiveEra"));
}

#[test]
fn keyed_entries_name_their_field() {
    assert_eq!(names(&Ledger::<Chain>([1; 4])), ("Staking", "Ledger"));
    assert_eq!(names(&Payee::<Chain>([1; 4])), ("Staking", "Payee"));
    assert_eq!(names(&Validators::<Chain>([1; 4])), ("Staking", "Validators"));
    assert_eq!(names(&Nominators::<Chain>([1; 4])), ("Staking", "Nominators"));
}

#[test]
fn markers_are_copied() {
    let depth = HistoryDepth::<Chain>(PhantomData);
    let copy = depth;
    assert_eq!(depth.clone(), copy);
}

#[test]
fn nominations_and_era_hold_their_fields() {
    let nominations =
        Nominations { targets: vec![[1u8; 4], [2; 4]], submitted_in: 9, suppressed: false };
    assert_eq!(nominations.clone(), nominations);
    assert_eq!(nominations.targets.len(), 2);
    let era = ActiveEraInfo { index: 3, start: Some(1_600_000_000_000) };
    assert_eq!(era, ActiveEraInfo { index: 3, start: Some(1_600_000_000_000) });
    assert_ne!(era, ActiveEraInfo { index: 3, start: None });
}
