use vstd::prelude::*;
use crate::ledger::{CustodyRecord, StakingAccount, StakingError, UserAccount};
use crate::ledger::reward_of;

verus! {

/// The token movement interface: moves `amount` from `from` to `to` when
/// `authority` owns the source and its balance suffices; otherwise it fails
/// and leaves both records exactly as they were.
pub fn transfer(
    from: &mut CustodyRecord,
    to: &mut CustodyRecord,
    authority: u64,
    amount: u64,
) -> (r: Result<(), StakingError>)
    requires
        old(to).balance + amount <= u64::MAX,
    ensures
        r is Ok <==> (authority == old(from).owner && old(from).balance >= amount),
        authority != old(from).owner ==> r == Err::<(), StakingError>(StakingError::Unauthorized),
        authority == old(from).owner && old(from).balance < amount ==> r == Err::<
            (),
            StakingError,
        >(StakingError::InsufficientFunds),
        r is Ok ==> final(from).balance == old(from).balance - amount && final(to).balance == old(
            to,
        ).balance + amount,
        r is Err ==> *final(from) == *old(from) && *final(to) == *old(to),
        final(from).owner == old(from).owner,
        final(to).owner == old(to).owner,
{
    if authority != from.owner {
        return Err(StakingError::Unauthorized);
    }
    if from.balance < amount {
        return Err(StakingError::InsufficientFunds);
    }
    from.balance = from.balance - amount;
    to.balance = to.balance + amount;
    Ok(())
}

/// Creates the pool ledger with the given fee and an empty staked total.
/// Fails when a ledger already exists or the fee is not a percentage, and
/// then leaves the pool slot untouched.
pub fn initialize(pool: &mut Option<StakingAccount>, fee: u64) -> (r: Result<(), StakingError>)
    ensures
        r is Ok <==> (fee <= 100 && (*old(pool)) is None),
        fee > 100 ==> r == Err::<(), StakingError>(StakingError::InvalidFee),
        fee <= 100 && (*old(pool)) is Some ==> r == Err::<(), StakingError>(
            StakingError::AlreadyInitialized,
        ),
        r is Ok ==> *final(pool) == Some(StakingAccount { fee, total_staked: 0u64 }),
        r is Err ==> *final(pool) == *old(pool),
{
    if fee > 100 {
        return Err(StakingError::InvalidFee);
    }
    match pool {
        Some(_) => Err(StakingError::AlreadyInitialized),
        None => {
            *pool = Some(StakingAccount { fee, total_staked: 0 });
            Ok(())
        },
    }
}

/// All increments a successful stake commits stay within the representable
/// range: the pool total, the participant's amount, and the pool custody
/// balance.
pub open spec fn stake_fits(
    staking_account: StakingAccount,
    user_account: UserAccount,
    staking_token_account: CustodyRecord,
    amount: u64,
) -> bool {
    &&& staking_account.total_staked + amount <= u64::MAX
    &&& user_account.staked_amount + amount <= u64::MAX
    &&& staking_token_account.balance + amount <= u64::MAX
}

/// Stakes `amount` for one participant: moves the tokens from the
/// participant's custody record into the pool's, then commits both ledger
/// increments. The transfer and the two increments form one unit: any
/// failure leaves every record exactly as it was.
pub fn stake(
    staking_account: &mut StakingAccount,
    user_account: &mut UserAccount,
    user_token_account: &mut CustodyRecord,
    staking_token_account: &mut CustodyRecord,
    user: u64,
    amount: u64,
) -> (r: Result<(), StakingError>)
    ensures
        r is Ok <==> (amount > 0 && stake_fits(
            *old(staking_account),
            *old(user_account),
            *old(staking_token_account),
            amount,
        ) && user == old(user_token_account).owner && old(user_token_account).balance >= amount),
        amount == 0 ==> r == Err::<(), StakingError>(StakingError::InvalidAmount),
        amount > 0 && !stake_fits(
            *old(staking_account),
            *old(user_account),
            *old(staking_token_account),
            amount,
        ) ==> r == Err::<(), StakingError>(StakingError::Overflow),
        amount > 0 && stake_fits(
            *old(staking_account),
            *old(user_account),
            *old(staking_token_account),
            amount,
        ) && user != old(user_token_account).owner ==> r == Err::<(), StakingError>(
            StakingError::Unauthorized,
        ),
        amount > 0 && stake_fits(
            *old(staking_account),
            *old(user_account),
            *old(staking_token_account),
            amount,
        ) && user == old(user_token_account).owner && old(user_token_account).balance < amount
            ==> r == Err::<(), StakingError>(StakingError::InsufficientFunds),
        r is Ok ==> final(staking_account).total_staked == old(staking_account).total_staked
            + amount && final(user_account).staked_amount == old(user_account).staked_amount
            + amount && final(user_token_account).balance == old(user_token_account).balance
            - amount && final(staking_token_account).balance == old(staking_token_account).balance
            + amount,
        final(staking_account).fee == old(staking_account).fee,
        final(user_token_account).owner == old(user_token_account).owner,
        final(staking_token_account).owner == old(staking_token_account).owner,
        r is Err ==> *final(staking_account) == *old(staking_account) && *final(user_account)
            == *old(user_account) && *final(user_token_account) == *old(user_token_account)
            && *final(staking_token_account) == *old(staking_token_account),
{
    if amount == 0 {
        return Err(StakingError::InvalidAmount);
    }
    if staking_account.total_staked > u64::MAX - amount || user_account.staked_amount > u64::MAX
        - amount || staking_token_account.balance > u64::MAX - amount {
        return Err(StakingError::Overflow);
    }
    let moved = transfer(user_token_account, staking_token_account, user, amount);
    match moved {
        Err(e) => Err(e),
        Ok(()) => {
            staking_account.total_staked = staking_account.total_staked + amount;
            user_account.staked_amount = user_account.staked_amount + amount;
            Ok(())
        },
    }
}

/// The reward a distribution pays out of a pool holding `total_staked` under
/// fee percentage `fee`: the total minus the retained share
/// `floor(total_staked * fee / 100)`.
pub fn reward_amount(total_staked: u64, fee: u64) -> (r: u64)
    requires
        fee <= 100,
    ensures
        r == reward_of(total_staked as int, fee as int),
        r <= total_staked,
{
    proof {
        crate::laws::lemma_reward_in_range(total_staked as int, fee as int);
        vstd::arithmetic::mul::lemma_mul_upper_bound(
            total_staked as int,
            u64::MAX as int,
            fee as int,
            100,
        );
    }
    let retained_wide: u128 = (total_staked as u128) * (fee as u128) / 100;
    let retained: u64 = retained_wide as u64;
    total_staked - retained
}

/// Pays the fee-adjusted reward from the pool custody record to the selected
/// recipient, then resets the pool total and the recipient's staked amount.
/// The retained fee share simply stays in the pool custody record. Ledgers of
/// other participants are not touched. Any failure leaves every record
/// exactly as it was.
pub fn distribute_rewards(
    staking_account: &mut StakingAccount,
    winner_account: &mut UserAccount,
    staking_token_account: &mut CustodyRecord,
    winner_token_account: &mut CustodyRecord,
    authority: u64,
) -> (r: Result<u64, StakingError>)
    requires
        old(staking_account).wf(),
        old(winner_token_account).balance + reward_of(
            old(staking_account).total_staked as int,
            old(staking_account).fee as int,
        ) <= u64::MAX,
    ensures
        r is Ok <==> (authority == old(staking_token_account).owner && old(
            staking_token_account,
        ).balance >= reward_of(
            old(staking_account).total_staked as int,
            old(staking_account).fee as int,
        )),
        authority != old(staking_token_account).owner ==> r == Err::<u64, StakingError>(
            StakingError::Unauthorized,
        ),
        authority == old(staking_token_account).owner && old(staking_token_account).balance
            < reward_of(old(staking_account).total_staked as int, old(staking_account).fee as int)
            ==> r == Err::<u64, StakingError>(StakingError::InsufficientPoolFunds),
        r is Ok ==> r->Ok_0 == reward_of(
            old(staking_account).total_staked as int,
            old(staking_account).fee as int,
        ) && final(staking_account).total_staked == 0 && final(winner_account).staked_amount == 0
            && final(staking_token_account).balance == old(staking_token_account).balance
            - r->Ok_0 && final(winner_token_account).balance == old(winner_token_account).balance
            + r->Ok_0,
        final(staking_account).fee == old(staking_account).fee,
        final(staking_token_account).owner == old(staking_token_account).owner,
        final(winner_token_account).owner == old(winner_token_account).owner,
        r is Err ==> *final(staking_account) == *old(staking_account) && *final(winner_account)
            == *old(winner_account) && *final(staking_token_account) == *old(staking_token_account)
            && *final(winner_token_account) == *old(winner_token_account),
{
    let payout: u64 = reward_amount(staking_account.total_staked, staking_account.fee);
    let moved = transfer(staking_token_account, winner_token_account, authority, payout);
    match moved {
        Err(StakingError::InsufficientFunds) => Err(StakingError::InsufficientPoolFunds),
        Err(e) => Err(e),
        Ok(()) => {
            staking_account.total_staked = 0;
            winner_account.staked_amount = 0;
            Ok(payout)
        },
    }
}

} // verus!
