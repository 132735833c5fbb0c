use vstd::prelude::*;

use crate::errors::CoinFlipError;
use crate::flip::{get_vaule, spec_outcome};
use crate::oracle::{fulfillment_of, query_fulfillment, randomness_account_key, randomness_key_of};
use crate::state::{id_eq, AccountId, GlobalState, UserInfo};
use vstd::arithmetic::div_mod::{lemma_fundamental_div_mod, lemma_mod_bound};

verus! {

/// Fund balances of the three accounts an instruction may move value
/// between. The ledger owns the real balances; a handler receives them as
/// plain values and returns them updated, all-or-nothing.
#[derive(Clone, Copy, Debug)]
pub struct Balances {
    /// Balance of the betting user.
    pub user: u64,
    /// Balance of the program vault.
    pub vault: u64,
    /// Balance of the configuration owner.
    pub owner: u64,
}

/// What a claim settled to. A pending claim is a valid poll, not an error:
/// the caller retries once the oracle has fulfilled the request.
#[derive(Clone, Copy, Debug, PartialEq, Eq, Structural)]
pub enum ClaimStatus {
    /// The guess matched the outcome and the payout was transferred now.
    Paid,
    /// The guess did not match the outcome; the stake stays in the vault.
    Lost,
    /// The oracle has not fulfilled the request yet; nothing changed.
    Pending,
}

/// Share of a wager that moves to the vault at bet time (floor division).
pub open spec fn vault_share(amount: int, fee: int) -> int {
    amount * (100 - fee) / 100
}

/// Share of a wager that moves to the owner as the fee (floor division).
pub open spec fn owner_share(amount: int, fee: int) -> int {
    amount * fee / 100
}

/// Payout of a winning claim: stake plus a matching win, minus the fee
/// already charged at bet time (floor division).
pub open spec fn win_payout(amount: int, fee: int) -> int {
    (200 - fee) * amount / 100
}

/// Creates the global configuration, owned by the caller.
pub fn initialize(owner: AccountId, vault: AccountId, fee: u64, max_bet: u64) -> (r: Result<
    GlobalState,
    CoinFlipError,
>)
    ensures
        fee > 100 ==> (r matches Err(e) && e == CoinFlipError::FeeInvalid),
        fee <= 100 ==> (r matches Ok(g) && g.owner@ == owner@ && g.fee == fee && g.max_bet
            == max_bet && g.vault@ == vault@ && g.wf()),
{
    if fee > 100 {
        return Err(CoinFlipError::FeeInvalid);
    }
    Ok(GlobalState { owner, fee, max_bet, vault })
}

/// Owner-gated fee update.
pub fn update_fee(gs: &mut GlobalState, caller: &AccountId, fee: u64) -> (r: Result<
    (),
    CoinFlipError,
>)
    ensures
        caller@ != old(gs).owner@ ==> {
            &&& (r matches Err(e) && e == CoinFlipError::NotAllowedOwner)
            &&& *final(gs) == *old(gs)
        },
        caller@ == old(gs).owner@ && fee > 100 ==> {
            &&& (r matches Err(e) && e == CoinFlipError::FeeInvalid)
            &&& *final(gs) == *old(gs)
        },
        caller@ == old(gs).owner@ && fee <= 100 ==> {
            &&& r is Ok
            &&& final(gs).fee == fee
            &&& final(gs).owner == old(gs).owner
            &&& final(gs).max_bet == old(gs).max_bet
            &&& final(gs).vault == old(gs).vault
            &&& final(gs).wf()
        },
{
    if !id_eq(caller, &gs.owner) {
        return Err(CoinFlipError::NotAllowedOwner);
    }
    if fee > 100 {
        return Err(CoinFlipError::FeeInvalid);
    }
    gs.fee = fee;
    Ok(())
}

/// Owner-gated owner replacement.
pub fn update_owner(gs: &mut GlobalState, caller: &AccountId, new_owner: AccountId) -> (r: Result<
    (),
    CoinFlipError,
>)
    ensures
        caller@ != old(gs).owner@ ==> {
            &&& (r matches Err(e) && e == CoinFlipError::NotAllowedOwner)
            &&& *final(gs) == *old(gs)
        },
        caller@ == old(gs).owner@ ==> {
            &&& r is Ok
            &&& final(gs).owner == new_owner
            &&& final(gs).fee == old(gs).fee
            &&& final(gs).max_bet == old(gs).max_bet
            &&& final(gs).vault == old(gs).vault
        },
{
    if !id_eq(caller, &gs.owner) {
        return Err(CoinFlipError::NotAllowedOwner);
    }
    gs.owner = new_owner;
    Ok(())
}

/// Places a bet: validates the wager, splits it between vault and owner by
/// the fee rate, and overwrites the caller's bet record with the new nonce
/// so a later claim can be settled from the stored `force`.
///
/// The caller (the ledger adapter) then invokes the oracle's request entry
/// point with the same `force`; the record already points at the request
/// identity derived from it. Overwriting an unclaimed record silently
/// abandons its claim opportunity: that is the single-slot design.
pub fn coin_flip_bet(
    gs: &GlobalState,
    ui: &mut UserInfo,
    bal: &mut Balances,
    force: [u8; 32],
    guess: u8,
    amount: u64,
) -> (r: Result<(), CoinFlipError>)
    requires
        gs.wf(),
        0 < amount <= gs.max_bet ==> {
            &&& amount * (100 - gs.fee) <= u64::MAX
            &&& amount * gs.fee <= u64::MAX
            &&& vault_share(amount as int, gs.fee as int) + owner_share(
                amount as int,
                gs.fee as int,
            ) <= old(bal).user
            &&& old(bal).vault + vault_share(amount as int, gs.fee as int) <= u64::MAX
            &&& old(bal).owner + owner_share(amount as int, gs.fee as int) <= u64::MAX
        },
    ensures
        amount > gs.max_bet ==> {
            &&& (r matches Err(e) && e == CoinFlipError::MaxBetAmount)
            &&& *final(ui) == *old(ui)
            &&& *final(bal) == *old(bal)
        },
        amount == 0 && amount <= gs.max_bet ==> {
            &&& (r matches Err(e) && e == CoinFlipError::InvalidAmount)
            &&& *final(ui) == *old(ui)
            &&& *final(bal) == *old(bal)
        },
        0 < amount <= gs.max_bet ==> {
            &&& r is Ok
            &&& final(ui).guess == guess
            &&& final(ui).amount == amount
            &&& final(ui).random@ == randomness_key_of(force@)
            &&& final(ui).randomness == old(ui).randomness
            &&& final(ui).claimed == false
            &&& final(ui).force == force
            &&& final(bal).user == old(bal).user - vault_share(amount as int, gs.fee as int)
                - owner_share(amount as int, gs.fee as int)
            &&& final(bal).vault == old(bal).vault + vault_share(amount as int, gs.fee as int)
            &&& final(bal).owner == old(bal).owner + owner_share(amount as int, gs.fee as int)
            &&& old(bal).user - final(bal).user <= amount
        },
{
    if amount > gs.max_bet {
        return Err(CoinFlipError::MaxBetAmount);
    }
    if amount == 0 {
        return Err(CoinFlipError::InvalidAmount);
    }
    proof {
        lemma_fee_split_within_wager(amount as int, gs.fee as int);
    }
    let to_vault: u64 = amount * (100 - gs.fee) / 100;
    let to_owner: u64 = amount * gs.fee / 100;
    bal.user = bal.user - to_vault - to_owner;
    bal.vault = bal.vault + to_vault;
    bal.owner = bal.owner + to_owner;
    let request_key = randomness_account_key(&force);
    ui.guess = guess;
    ui.amount = amount;
    ui.random = AccountId { bytes: request_key };
    ui.claimed = false;
    ui.force = force;
    Ok(())
}

/// The fulfillment payload a settlement judges, as the oracle's record
/// abstracts it: present once fulfilled, absent while pending.
pub open spec fn fulfillment_view(f: Option<[u8; 64]>) -> Option<Seq<u8>> {
    match f {
        Some(x) => Some(x@),
        None => None,
    }
}

/// The claim transition: what a settlement returns and how it changes the
/// bet record and the balances, for a given fulfillment state.
pub open spec fn spec_settle(
    gs: GlobalState,
    ui: UserInfo,
    bal: Balances,
    fulfillment: Option<Seq<u8>>,
) -> (Result<ClaimStatus, CoinFlipError>, UserInfo, Balances) {
    match fulfillment {
        None => (Ok(ClaimStatus::Pending), ui, bal),
        Some(rand) => if spec_outcome(rand) == ui.guess {
            if ui.claimed {
                (Err(CoinFlipError::AlreadyClaimed), ui, bal)
            } else {
                let payout = win_payout(ui.amount as int, gs.fee as int);
                (
                    Ok(ClaimStatus::Paid),
                    UserInfo { claimed: true, ..ui },
                    Balances {
                        vault: (bal.vault - payout) as u64,
                        user: (bal.user + payout) as u64,
                        owner: bal.owner,
                    },
                )
            }
        } else {
            (Ok(ClaimStatus::Lost), ui, bal)
        },
    }
}

/// Settles a claim against an already-decoded fulfillment state.
///
/// This is the whole judgement: pending polls succeed as no-ops, a lost
/// bet stays forfeited, and a winning bet pays `(200 - fee) * amount / 100`
/// exactly once — the record is marked claimed only with the transfer.
pub fn settle_claim(
    gs: &GlobalState,
    ui: &mut UserInfo,
    bal: &mut Balances,
    fulfillment: Option<[u8; 64]>,
) -> (r: Result<ClaimStatus, CoinFlipError>)
    requires
        gs.wf(),
        (fulfillment matches Some(x) && spec_outcome(x@) == old(ui).guess && !old(ui).claimed)
            ==> {
            &&& (200 - gs.fee) * old(ui).amount <= u64::MAX
            &&& win_payout(old(ui).amount as int, gs.fee as int) <= old(bal).vault
            &&& old(bal).user + win_payout(old(ui).amount as int, gs.fee as int) <= u64::MAX
        },
    ensures
        ({
            let (result, record, funds) = spec_settle(
                *gs,
                *old(ui),
                *old(bal),
                fulfillment_view(fulfillment),
            );
            r == result && *final(ui) == record && *final(bal) == funds
        }),
{
    match fulfillment {
        None => Ok(ClaimStatus::Pending),
        Some(rand) => {
            let bit = get_vaule(&rand);
            if bit == ui.guess {
                if ui.claimed {
                    return Err(CoinFlipError::AlreadyClaimed);
                }
                let payout: u64 = (200 - gs.fee) * ui.amount / 100;
                bal.vault = bal.vault - payout;
                bal.user = bal.user + payout;
                ui.claimed = true;
                Ok(ClaimStatus::Paid)
            } else {
                Ok(ClaimStatus::Lost)
            }
        },
    }
}

/// Claims the caller's pending bet against the supplied randomness record.
///
/// The record identity must match the derivation from the stored `force`
/// and the record must exist; the settlement itself is `settle_claim` on
/// whatever the record's bytes decode to.
///
/// The balance preconditions stand in for the ledger's own arithmetic: on
/// chain, a payout transfer the vault cannot fund aborts the transaction
/// wholesale, so a settlement is only ever reached when the vault can
/// cover the potential payout.
pub fn claim_bet(
    gs: &GlobalState,
    ui: &mut UserInfo,
    bal: &mut Balances,
    random: &AccountId,
    random_data: &Vec<u8>,
) -> (r: Result<ClaimStatus, CoinFlipError>)
    requires
        gs.wf(),
        !old(ui).claimed ==> {
            &&& (200 - gs.fee) * old(ui).amount <= u64::MAX
            &&& win_payout(old(ui).amount as int, gs.fee as int) <= old(bal).vault
            &&& old(bal).user + win_payout(old(ui).amount as int, gs.fee as int) <= u64::MAX
        },
    ensures
        random@ != randomness_key_of(old(ui).force@) ==> {
            &&& (r matches Err(e) && e == CoinFlipError::InvalidAccount)
            &&& *final(ui) == *old(ui)
            &&& *final(bal) == *old(bal)
        },
        random@ == randomness_key_of(old(ui).force@) && random_data@.len() == 0 ==> {
            &&& (r matches Err(e) && e == CoinFlipError::UninitializedAccount)
            &&& *final(ui) == *old(ui)
            &&& *final(bal) == *old(bal)
        },
        random@ == randomness_key_of(old(ui).force@) && random_data@.len() > 0 ==> {
            let (result, record, funds) = spec_settle(
                *gs,
                *old(ui),
                *old(bal),
                fulfillment_of(random_data@),
            );
            r == result && *final(ui) == record && *final(bal) == funds
        },
{
    let expected = AccountId { bytes: randomness_account_key(&ui.force) };
    if !id_eq(random, &expected) {
        return Err(CoinFlipError::InvalidAccount);
    }
    if random_data.len() == 0 {
        return Err(CoinFlipError::UninitializedAccount);
    }
    let fulfillment = query_fulfillment(random_data);
    settle_claim(gs, ui, bal, fulfillment)
}

/// Owner-gated deposit into the reward vault.
pub fn deposit_sol(gs: &GlobalState, bal: &mut Balances, caller: &AccountId, amount: u64) -> (r:
    Result<(), CoinFlipError>)
    requires
        caller@ == gs.owner@ ==> old(bal).owner >= amount && old(bal).vault + amount <= u64::MAX,
    ensures
        caller@ != gs.owner@ ==> {
            &&& (r matches Err(e) && e == CoinFlipError::NotAllowedOwner)
            &&& *final(bal) == *old(bal)
        },
        caller@ == gs.owner@ ==> {
            &&& r is Ok
            &&& final(bal).owner == old(bal).owner - amount
            &&& final(bal).vault == old(bal).vault + amount
            &&& final(bal).user == old(bal).user
        },
{
    if !id_eq(caller, &gs.owner) {
        return Err(CoinFlipError::NotAllowedOwner);
    }
    bal.owner = bal.owner - amount;
    bal.vault = bal.vault + amount;
    Ok(())
}

/// Owner-gated withdrawal from the reward vault, authorized by the vault's
/// derived address rather than any stored key. The owner may drain the
/// vault, including funds owed to unclaimed winning bets: the owner is
/// trusted by design.
pub fn withdraw_sol(gs: &GlobalState, bal: &mut Balances, caller: &AccountId, amount: u64) -> (r:
    Result<(), CoinFlipError>)
    requires
        caller@ == gs.owner@ ==> old(bal).vault >= amount && old(bal).owner + amount <= u64::MAX,
    ensures
        caller@ != gs.owner@ ==> {
            &&& (r matches Err(e) && e == CoinFlipError::NotAllowedOwner)
            &&& *final(bal) == *old(bal)
        },
        caller@ == gs.owner@ ==> {
            &&& r is Ok
            &&& final(bal).vault == old(bal).vault - amount
            &&& final(bal).owner == old(bal).owner + amount
            &&& final(bal).user == old(bal).user
        },
{
    if !id_eq(caller, &gs.owner) {
        return Err(CoinFlipError::NotAllowedOwner);
    }
    bal.vault = bal.vault - amount;
    bal.owner = bal.owner + amount;
    Ok(())
}

/// The bet-time fee split never moves more than the wager: the two floor
/// divisions may lose up to one unit to rounding, never gain one.
pub proof fn lemma_fee_split_within_wager(amount: int, fee: int)
    requires
        0 <= fee <= 100,
        0 <= amount,
    ensures
        0 <= vault_share(amount, fee),
        0 <= owner_share(amount, fee),
        vault_share(amount, fee) + owner_share(amount, fee) <= amount,
{
    let x = amount * (100 - fee);
    let y = amount * fee;
    assert(x >= 0 && y >= 0 && x + y == amount * 100) by (nonlinear_arith)
        requires
            0 <= fee <= 100,
            0 <= amount,
            x == amount * (100 - fee),
            y == amount * fee,
    ;
    lemma_fundamental_div_mod(x, 100);
    lemma_fundamental_div_mod(y, 100);
    lemma_mod_bound(x, 100);
    lemma_mod_bound(y, 100);
}

/// A claim before the oracle has fulfilled the request is a successful
/// no-op poll: nothing changes, nothing fails.
pub proof fn lemma_claim_pending_no_op(gs: GlobalState, ui: UserInfo, bal: Balances)
    ensures
        spec_settle(gs, ui, bal, None) == (
            Ok::<ClaimStatus, CoinFlipError>(ClaimStatus::Pending),
            ui,
            bal,
        ),
{
}

/// A claim on a lost bet is a no-op, and stays one on every repetition:
/// the transition leaves the state fixed, so any number of further claims
/// against the same fulfillment return the same result.
pub proof fn lemma_claim_lost_idempotent(
    gs: GlobalState,
    ui: UserInfo,
    bal: Balances,
    rand: Seq<u8>,
)
    requires
        spec_outcome(rand) != ui.guess,
    ensures
        spec_settle(gs, ui, bal, Some(rand)) == (
            Ok::<ClaimStatus, CoinFlipError>(ClaimStatus::Lost),
            ui,
            bal,
        ),
        spec_settle(gs, ui, bal, Some(rand)) == spec_settle(
            gs,
            spec_settle(gs, ui, bal, Some(rand)).1,
            spec_settle(gs, ui, bal, Some(rand)).2,
            Some(rand),
        ),
{
}

/// A winning claim pays exactly once: the first settlement transfers the
/// payout and marks the record claimed, and a second settlement against
/// the same fulfillment fails with `AlreadyClaimed`, changing nothing.
pub proof fn lemma_claim_win_exactly_once(
    gs: GlobalState,
    ui: UserInfo,
    bal: Balances,
    rand: Seq<u8>,
)
    requires
        spec_outcome(rand) == ui.guess,
        !ui.claimed,
        0 <= win_payout(ui.amount as int, gs.fee as int) <= bal.vault,
        bal.user + win_payout(ui.amount as int, gs.fee as int) <= u64::MAX,
    ensures
        ({
            let (r1, ui1, bal1) = spec_settle(gs, ui, bal, Some(rand));
            &&& r1 == Ok::<ClaimStatus, CoinFlipError>(ClaimStatus::Paid)
            &&& ui1.claimed
            &&& ui1.force == ui.force
            &&& bal1.vault == bal.vault - win_payout(ui.amount as int, gs.fee as int)
            &&& bal1.user == bal.user + win_payout(ui.amount as int, gs.fee as int)
            &&& bal1.owner == bal.owner
            &&& spec_settle(gs, ui1, bal1, Some(rand)) == (
                Err::<ClaimStatus, CoinFlipError>(CoinFlipError::AlreadyClaimed),
                ui1,
                bal1,
            )
        }),
{
}

} // verus!
