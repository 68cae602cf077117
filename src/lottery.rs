use vstd::prelude::*;

use crate::errors::ErrorCode;
use crate::identity::Identity;
use crate::lottery_info::{ids_of, LotteryInfo, STATUS_COMPLETED, STATUS_STARTED};
use crate::randomness::{init_state, initialized, InitState, InitStateParams, VrfClient, MAX_RESULT};

verus! {

/// The parameters of a new round.
#[derive(Debug, Clone, Copy)]
pub struct InitializeLotteryParams {
    pub entry_fee: u64,
    pub max_participants: u64,
}

/// What opening a round reads: the address its randomness client will live
/// at, that client's authority and oracle account, the authority that the
/// oracle account records, and the client record's derivation bump.
#[derive(Debug, Clone, Copy)]
pub struct InitializeLottery {
    pub state: Identity,
    pub authority: Identity,
    pub vrf: Identity,
    pub vrf_authority: Identity,
    pub state_bump: u8,
}

impl InitializeLottery {
    /// The client initialization that opening a round performs.
    pub open spec fn client_accounts(&self) -> InitState {
        InitState {
            state: self.state,
            authority: self.authority,
            vrf: self.vrf,
            vrf_authority: self.vrf_authority,
            bump: self.state_bump,
        }
    }

    /// The capacity must fit the randomness client's range; every `u64`
    /// does.
    pub fn validate(&self, params: &InitializeLotteryParams) -> (r: Result<(), ErrorCode>)
        ensures
            r is Ok,
    {
        if params.max_participants > MAX_RESULT {
            return Err(ErrorCode::MaxResultExceedsMaximum);
        }
        Ok(())
    }

    /// Builds the round's randomness client, whose bound is the round's
    /// capacity, so that every draw indexes a seat of the round.
    pub fn actuate(&self, params: &InitializeLotteryParams) -> (r: Result<VrfClient, ErrorCode>)
        ensures
            self.vrf_authority@ != self.state@ ==> r == Err::<VrfClient, ErrorCode>(
                ErrorCode::InvalidAuthorityError,
            ),
            self.vrf_authority@ == self.state@ ==> (r matches Ok(c) && initialized(
                c,
                self.client_accounts(),
                params.max_participants,
            )),
    {
        let accounts = InitState {
            state: self.state,
            authority: self.authority,
            vrf: self.vrf,
            vrf_authority: self.vrf_authority,
            bump: self.state_bump,
        };
        init_state(&accounts, &InitStateParams { max_result: params.max_participants })
    }
}

/// Opens a round with its fee and capacity, together with the randomness
/// client bound to it.
pub fn initialize_lottery(accounts: &InitializeLottery, params: &InitializeLotteryParams) -> (r:
    Result<(LotteryInfo, VrfClient), ErrorCode>)
    ensures
        accounts.vrf_authority@ != accounts.state@ ==> r == Err::<
            (LotteryInfo, VrfClient),
            ErrorCode,
        >(ErrorCode::InvalidAuthorityError),
        accounts.vrf_authority@ == accounts.state@ ==> (r matches Ok((lottery, client)) && {
            &&& lottery.wf()
            &&& lottery.is_open()
            &&& lottery.winner.is_none()
            &&& lottery.participants@.len() == 0
            &&& lottery.entry_fee == params.entry_fee
            &&& lottery.max_participants == params.max_participants
            &&& initialized(client, accounts.client_accounts(), params.max_participants)
        }),
{
    accounts.validate(params)?;
    let client = accounts.actuate(params)?;
    let lottery = LotteryInfo::new(params.entry_fee, params.max_participants);
    Ok((lottery, client))
}

/// Enrolls `user` in the round and returns the entry fee the caller moves
/// from the user's account into the pooled vault. Refused as
/// `LotteryInfo::add_participant` refuses; a refusal changes nothing.
pub fn enter_lottery(lottery: &mut LotteryInfo, user: Identity) -> (r: Result<u64, ErrorCode>)
    ensures
        old(lottery).is_enrolled(user@) ==> r == Err::<u64, ErrorCode>(
            ErrorCode::ParticipantAlreadyAdded,
        ),
        !old(lottery).is_enrolled(user@) && old(lottery).participants@.len()
            >= old(lottery).max_participants ==> r == Err::<u64, ErrorCode>(ErrorCode::ListFull),
        r is Err ==> *final(lottery) == *old(lottery),
        r is Ok <==> (!old(lottery).is_enrolled(user@) && old(lottery).participants@.len()
            < old(lottery).max_participants),
        r is Ok ==> enrolled(*old(lottery), *final(lottery), user),
        r is Ok ==> r == Ok::<u64, ErrorCode>(old(lottery).entry_fee),
        old(lottery).wf() ==> final(lottery).wf(),
{
    lottery.add_participant(user)?;
    Ok(lottery.entry_fee)
}

/// `after` is `before` with `user` newly enrolled at the end.
pub open spec fn enrolled(before: LotteryInfo, after: LotteryInfo, user: Identity) -> bool {
    &&& !before.is_enrolled(user@)
    &&& before.participants@.len() < before.max_participants
    &&& after.participants@ == before.participants@.push(user)
    &&& after.same_settings(&before)
}

/// Once enrolled, an identity is refused a second enrolment until it is
/// removed: it is enrolled in the round that the first enrolment left.
pub proof fn lemma_enrolled_once(before: LotteryInfo, after: LotteryInfo, user: Identity)
    requires
        enrolled(before, after, user),
    ensures
        after.is_enrolled(user@),
{
    assert(after.ids()[before.participants@.len() as int] == user@);
}

/// Enrolments never take a round past its capacity.
pub proof fn lemma_enrol_within_capacity(before: LotteryInfo, after: LotteryInfo, user: Identity)
    requires
        enrolled(before, after, user),
    ensures
        after.participants@.len() <= after.max_participants,
{
}

/// What drawing the winner reads: the oracle account the randomness client
/// must be bound to.
#[derive(Debug, Clone, Copy)]
pub struct ChooseWinner {
    pub vrf: Identity,
}

/// `after` is the open round `before` with the participant at position
/// `index` chosen as winner and the round completed.
pub open spec fn winner_drawn(before: LotteryInfo, after: LotteryInfo, index: u128) -> bool {
    &&& before.is_open()
    &&& index < before.participants@.len()
    &&& after.winner == Some(before.participants@[index as int])
    &&& after.status == STATUS_COMPLETED
    &&& after.participants@ == before.participants@
    &&& after.entry_fee == before.entry_fee
    &&& after.max_participants == before.max_participants
}

/// Chooses the winner of an open round: the participant whose position is
/// the randomness client's current result. Refused with `InvalidVrfAccount`
/// if the client is bound to another oracle account, with
/// `WinnerAlreadySelected` if the round is not open, and with
/// `WinnerIndexOutOfRange` if the result is past the last participant. A
/// refusal changes nothing.
pub fn choose_winner(lottery: &mut LotteryInfo, state: &VrfClient, accounts: &ChooseWinner) -> (r:
    Result<(), ErrorCode>)
    ensures
        state.vrf@ != accounts.vrf@ ==> r == Err::<(), ErrorCode>(ErrorCode::InvalidVrfAccount),
        state.vrf@ == accounts.vrf@ && !old(lottery).is_open() ==> r == Err::<(), ErrorCode>(
            ErrorCode::WinnerAlreadySelected,
        ),
        state.vrf@ == accounts.vrf@ && old(lottery).is_open() && state.result
            >= old(lottery).participants@.len() ==> r == Err::<(), ErrorCode>(
            ErrorCode::WinnerIndexOutOfRange,
        ),
        r is Err ==> *final(lottery) == *old(lottery),
        r is Ok <==> (state.vrf@ == accounts.vrf@ && old(lottery).is_open() && state.result
            < old(lottery).participants@.len()),
        r is Ok ==> winner_drawn(*old(lottery), *final(lottery), state.result),
        old(lottery).wf() ==> final(lottery).wf(),
{
    if !state.vrf.same_as(&accounts.vrf) {
        return Err(ErrorCode::InvalidVrfAccount);
    }
    if lottery.status != STATUS_STARTED {
        return Err(ErrorCode::WinnerAlreadySelected);
    }
    if state.result >= lottery.participants.len() as u128 {
        return Err(ErrorCode::WinnerIndexOutOfRange);
    }
    let index = state.result as usize;
    let lottery_winner = lottery.participants[index];
    lottery.winner = Some(lottery_winner);
    lottery.status = STATUS_COMPLETED;
    Ok(())
}

/// A winner is chosen once: the round it leaves is completed with a winner,
/// so a second draw is refused with `WinnerAlreadySelected` and leaves the
/// winner as it is.
pub proof fn lemma_winner_chosen_once(before: LotteryInfo, after: LotteryInfo, index: u128)
    requires
        winner_drawn(before, after, index),
    ensures
        !after.is_open(),
        after.is_completed(),
        after.winner == Some(before.participants@[index as int]),
{
}

/// The principal owed to everyone but the winner of a full round.
pub open spec fn owed_to_others(lottery: LotteryInfo) -> int {
    lottery.entry_fee as int * (lottery.max_participants as int - 1)
}

/// Whether `user` is the round's winner.
pub open spec fn is_winner(lottery: LotteryInfo, user: Seq<u8>) -> bool {
    lottery.winner matches Some(w) && w@ == user
}

/// What `user` is paid on settling a completed round while the vault holds
/// `vault_balance`: the winner takes the balance less the principal owed to
/// the others, that is their own principal plus all the yield; everyone else
/// takes back exactly the entry fee.
pub open spec fn payout(lottery: LotteryInfo, user: Seq<u8>, vault_balance: int) -> int {
    if is_winner(lottery, user) {
        vault_balance - owed_to_others(lottery)
    } else {
        lottery.entry_fee as int
    }
}

/// Whether the vault covers what `user` is owed: always for a non-winner;
/// for the winner, the balance must cover the others' principal.
pub open spec fn payout_covered(lottery: LotteryInfo, user: Seq<u8>, vault_balance: int) -> bool {
    is_winner(lottery, user) ==> (lottery.max_participants >= 1 && owed_to_others(lottery)
        <= vault_balance)
}

/// What settling reads: the settling identity and the pooled vault's
/// current balance.
#[derive(Debug, Clone, Copy)]
pub struct WithdrawUserTokens {
    pub user: Identity,
    pub vault_balance: u64,
}

/// Settles `user`'s claim on a completed round: removes them from the round
/// and returns the amount the caller moves from the vault to them. Refused
/// with `LotteryStillOn` until a winner is chosen, then with
/// `ParticipantNotFound` if `user` is not enrolled (never was, or has settled
/// already), then with `AccountingError` if the vault cannot cover the
/// others' principal when the winner settles. A refusal changes nothing.
pub fn withdraw_user_tokens(lottery: &mut LotteryInfo, accounts: &WithdrawUserTokens) -> (r:
    Result<u64, ErrorCode>)
    ensures
        !old(lottery).is_completed() || old(lottery).winner is None ==> r == Err::<
            u64,
            ErrorCode,
        >(ErrorCode::LotteryStillOn),
        old(lottery).is_completed() && old(lottery).winner is Some && !old(lottery).is_enrolled(
            accounts.user@,
        ) ==> r == Err::<u64, ErrorCode>(ErrorCode::ParticipantNotFound),
        old(lottery).is_completed() && old(lottery).winner is Some && old(lottery).is_enrolled(
            accounts.user@,
        ) && !payout_covered(*old(lottery), accounts.user@, accounts.vault_balance as int)
            ==> r == Err::<u64, ErrorCode>(ErrorCode::AccountingError),
        r is Err ==> *final(lottery) == *old(lottery),
        r is Ok <==> (old(lottery).is_completed() && old(lottery).winner is Some && payout_covered(
            *old(lottery),
            accounts.user@,
            accounts.vault_balance as int,
        ) && old(lottery).is_enrolled(accounts.user@)),
        r matches Ok(amount) ==> {
            &&& amount == payout(*old(lottery), accounts.user@, accounts.vault_balance as int)
            &&& old(lottery).removed(&*final(lottery), accounts.user@)
        },
        r is Ok ==> forall|x: Seq<u8>|
            old(lottery).is_enrolled(x) && x != accounts.user@
                ==> #[trigger] final(lottery).is_enrolled(x),
        old(lottery).wf() ==> final(lottery).wf(),
{
    if lottery.status != STATUS_COMPLETED {
        return Err(ErrorCode::LotteryStillOn);
    }
    let winner = match lottery.winner {
        Some(w) => w,
        None => {
            return Err(ErrorCode::LotteryStillOn);
        },
    };
    if lottery.position(&accounts.user).is_none() {
        return Err(ErrorCode::ParticipantNotFound);
    }
    let mut amount_to_pay = lottery.entry_fee;
    if accounts.user.same_as(&winner) {
        if lottery.max_participants == 0 {
            return Err(ErrorCode::AccountingError);
        }
        let others = lottery.max_participants - 1;
        let fee = lottery.entry_fee;
        proof {
            assert(fee as int * others as int <= 0xffff_ffff_ffff_ffff * 0xffff_ffff_ffff_ffff)
                by (nonlinear_arith)
                requires
                    fee <= 0xffff_ffff_ffff_ffff,
                    others <= 0xffff_ffff_ffff_ffff,
            ;
        }
        let owed: u128 = fee as u128 * others as u128;
        if owed > accounts.vault_balance as u128 {
            return Err(ErrorCode::AccountingError);
        }
        amount_to_pay = accounts.vault_balance - owed as u64;
    }
    lottery.remove_participant(accounts.user)?;
    Ok(amount_to_pay)
}

/// The sum of the payouts that `users` receive from `lottery` with the vault
/// at `vault_balance`.
pub open spec fn total_payout(lottery: LotteryInfo, users: Seq<Identity>, vault_balance: int) -> int
    decreases users.len(),
{
    if users.len() == 0 {
        0
    } else {
        total_payout(lottery, users.drop_last(), vault_balance) + payout(
            lottery,
            users.last()@,
            vault_balance,
        )
    }
}

/// Without the winner among them, users are paid one entry fee each.
proof fn lemma_total_without_winner(lottery: LotteryInfo, users: Seq<Identity>, vault_balance: int)
    requires
        lottery.winner matches Some(w) && !ids_of(users).contains(w@),
    ensures
        total_payout(lottery, users, vault_balance) == users.len() * lottery.entry_fee,
    decreases users.len(),
{
    if users.len() > 0 {
        let rest = users.drop_last();
        assert(ids_of(users)[users.len() - 1] == users.last()@);
        if ids_of(rest).contains(lottery.winner.unwrap()@) {
            let k = choose|k: int| 0 <= k < ids_of(rest).len() && ids_of(rest)[k] == lottery.winner.unwrap()@;
            assert(ids_of(users)[k] == ids_of(rest)[k]);
        }
        lemma_total_without_winner(lottery, rest, vault_balance);
        let n = rest.len() as int;
        let f = lottery.entry_fee as int;
        assert(n * f + f == (n + 1) * f) by (nonlinear_arith);
    }
}

/// With the winner among them once, users are paid the winner's payout and
/// one entry fee for each of the others.
proof fn lemma_total_with_winner(lottery: LotteryInfo, users: Seq<Identity>, vault_balance: int)
    requires
        lottery.winner is Some,
        ids_of(users).contains(lottery.winner.unwrap()@),
        ids_of(users).no_duplicates(),
    ensures
        total_payout(lottery, users, vault_balance) == payout(
            lottery,
            lottery.winner.unwrap()@,
            vault_balance,
        ) + (users.len() - 1) * lottery.entry_fee,
    decreases users.len(),
{
    let w = lottery.winner.unwrap()@;
    let rest = users.drop_last();
    let last = users.len() - 1;
    assert(ids_of(users)[last] == users.last()@);
    assert(ids_of(rest) =~= ids_of(users).drop_last());
    if users.last()@ == w {
        if ids_of(rest).contains(w) {
            let k = choose|k: int| 0 <= k < ids_of(rest).len() && ids_of(rest)[k] == w;
            assert(ids_of(users)[k] == w);
        }
        lemma_total_without_winner(lottery, rest, vault_balance);
    } else {
        let k = choose|k: int| 0 <= k < ids_of(users).len() && ids_of(users)[k] == w;
        assert(k != last);
        assert(ids_of(rest)[k] == w);
        lemma_total_with_winner(lottery, rest, vault_balance);
        let n = rest.len() as int;
        let f = lottery.entry_fee as int;
        assert((n - 1) * f + f == n * f) by (nonlinear_arith);
    }
}

/// Funds are conserved: settling every participant of a completed round
/// pays out the entry fee to each non-winner and the vault's balance less
/// their principal to the winner, so that for a full round the payouts sum
/// to exactly the vault's balance when the winner settles, which is the
/// others' principal plus the winner's payout; and no payout is negative
/// when the vault covers the others' principal. Non-winners' payouts do not
/// depend on the balance, and settling keeps the fee, capacity and winner.
pub proof fn lemma_fund_conservation(lottery: LotteryInfo, vault_balance: u64)
    requires
        lottery.wf(),
        lottery.is_completed(),
        lottery.is_enrolled(lottery.winner.unwrap()@),
        lottery.participants@.len() == lottery.max_participants,
        payout_covered(lottery, lottery.winner.unwrap()@, vault_balance as int),
    ensures
        total_payout(lottery, lottery.participants@, vault_balance as int) == owed_to_others(
            lottery,
        ) + payout(lottery, lottery.winner.unwrap()@, vault_balance as int),
        total_payout(lottery, lottery.participants@, vault_balance as int) == vault_balance,
        forall|i: int|
            0 <= i < lottery.participants@.len() ==> payout(
                lottery,
                #[trigger] lottery.participants@[i]@,
                vault_balance as int,
            ) >= 0,
{
    lemma_total_with_winner(lottery, lottery.participants@, vault_balance as int);
    let n = lottery.max_participants as int;
    let f = lottery.entry_fee as int;
    assert((n - 1) * f == f * (n - 1)) by (nonlinear_arith);
}

/// The sum paid out when `order` settles one after another, starting with
/// the vault at `vault_balance`, each payout leaving the vault before the
/// next settles.
pub open spec fn settled_total(lottery: LotteryInfo, order: Seq<Identity>, vault_balance: int) -> int
    decreases order.len(),
{
    if order.len() == 0 {
        0
    } else {
        let paid = payout(lottery, order[0]@, vault_balance);
        paid + settled_total(lottery, order.drop_first(), vault_balance - paid)
    }
}

/// Non-winners settling one after another take one entry fee each, whatever
/// the vault holds.
proof fn lemma_settled_without_winner(lottery: LotteryInfo, order: Seq<Identity>, vault_balance: int)
    requires
        lottery.winner matches Some(w) && !ids_of(order).contains(w@),
    ensures
        settled_total(lottery, order, vault_balance) == order.len() * lottery.entry_fee,
    decreases order.len(),
{
    if order.len() > 0 {
        let w = lottery.winner.unwrap()@;
        let rest = order.drop_first();
        assert(ids_of(order)[0] == order[0]@);
        if ids_of(rest).contains(w) {
            let k = choose|k: int| 0 <= k < ids_of(rest).len() && ids_of(rest)[k] == w;
            assert(ids_of(order)[k + 1] == w);
        }
        lemma_settled_without_winner(lottery, rest, vault_balance - lottery.entry_fee);
        let n = rest.len() as int;
        let f = lottery.entry_fee as int;
        assert(f + n * f == (n + 1) * f) by (nonlinear_arith);
    }
}

/// Funds are conserved across a whole settlement: when every participant of
/// a full, completed round settles once, the winner first, with the vault
/// falling by each payout, the payouts sum to the vault's starting balance,
/// which is the others' principal plus the winner's payout, and the vault
/// ends empty.
pub proof fn lemma_settlement_conserves_funds(
    lottery: LotteryInfo,
    order: Seq<Identity>,
    vault_balance: u64,
)
    requires
        lottery.wf(),
        lottery.is_completed(),
        lottery.participants@.len() == lottery.max_participants,
        order.len() == lottery.participants@.len(),
        ids_of(order).no_duplicates(),
        forall|i: int| 0 <= i < order.len() ==> lottery.is_enrolled(#[trigger] order[i]@),
        order.len() > 0,
        order[0]@ == lottery.winner.unwrap()@,
        payout_covered(lottery, lottery.winner.unwrap()@, vault_balance as int),
    ensures
        settled_total(lottery, order, vault_balance as int) == owed_to_others(lottery) + payout(
            lottery,
            lottery.winner.unwrap()@,
            vault_balance as int,
        ),
        settled_total(lottery, order, vault_balance as int) == vault_balance,
        vault_balance - settled_total(lottery, order, vault_balance as int) == 0,
{
    let w = lottery.winner.unwrap()@;
    let rest = order.drop_first();
    let paid = payout(lottery, order[0]@, vault_balance as int);
    assert(ids_of(order)[0] == w);
    if ids_of(rest).contains(w) {
        let k = choose|k: int| 0 <= k < ids_of(rest).len() && ids_of(rest)[k] == w;
        assert(ids_of(order)[k + 1] == w);
    }
    lemma_settled_without_winner(lottery, rest, vault_balance - paid);
    let n = lottery.max_participants as int;
    let f = lottery.entry_fee as int;
    assert((n - 1) * f == f * (n - 1)) by (nonlinear_arith);
}

/// A completed round stays completed with its winner: every operation on a
/// round either refuses and leaves it as it was, or keeps its status and
/// winner (enrolment and settlement keep all settings), and a draw on a
/// completed round is refused.
pub proof fn lemma_completed_round_keeps_winner(before: LotteryInfo, after: LotteryInfo)
    requires
        before.is_completed(),
        after == before || after.same_settings(&before),
    ensures
        after.is_completed(),
        !after.is_open(),
        after.winner == before.winner,
{
}

} // verus!
