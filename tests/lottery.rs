use no_loss_lottery::{
    choose_winner, enter_lottery, initialize_lottery, update_result, withdraw_user_tokens,
    ChooseWinner, ErrorCode, Identity, InitializeLottery, InitializeLotteryParams, LotteryInfo,
    UpdateResult, VrfClient, WithdrawUserTokens, MAX_RESULT,
};

fn id(k: u8) -> Identity {
    Identity::new([k; 32])
}

const STATE: u8 = 200;
const AUTHORITY: u8 = 201;
const VRF: u8 = 202;

fn open_round(entry_fee: u64, max_participants: u64) -> (LotteryInfo, VrfClient) {
    let accounts = InitializeLottery {
        state: id(STATE),
        authority: id(AUTHORITY),
        vrf: id(VRF),
        vrf_authority: id(STATE),
        state_bump: 255,
    };
    initialize_lottery(&accounts, &InitializeLotteryParams { entry_fee, max_participants }).unwrap()
}

fn fulfil(client: &mut VrfClient, first_byte: u8) {
    let mut raw = [0u8; 32];
    raw[0] = first_byte;
    let accounts = UpdateResult { state: id(STATE), vrf: id(VRF) };
    update_result(client, &accounts, raw, 1000).unwrap();
}

fn settle(round: &mut LotteryInfo, user: u8, vault_balance: u64) -> Result<u64, ErrorCode> {
    withdraw_user_tokens(round, &WithdrawUserTokens { user: id(user), vault_balance })
}

fn draw(round: &mut LotteryInfo, client: &VrfClient) -> Result<(), ErrorCode> {
    choose_winner(round, client, &ChooseWinner { vrf: id(VRF) })
}

#[test]
fn initialize_opens_round_and_client() {
    let (round, client) = open_round(100, 5);
    assert_eq!(round.entry_fee, 100);
    assert_eq!(round.max_participants, 5);
    assert_eq!(round.status, 0);
    assert!(round.winner.is_none());
    assert!(round.participants.is_empty());
    assert_eq!(client.max_result, 5);
    assert_eq!(client.vrf, id(VRF));
    assert_eq!(client.authority, id(AUTHORITY));
    assert_eq!(client.bump, 255);
}

#[test]
fn initialize_zero_capacity_gets_largest_bound() {
    let (_, client) = open_round(100, 0);
    assert_eq!(client.max_result, MAX_RESULT);
}

#[test]
fn initialize_refuses_foreign_oracle_authority() {
    let accounts = InitializeLottery {
        state: id(STATE),
        authority: id(AUTHORITY),
        vrf: id(VRF),
        vrf_authority: id(AUTHORITY),
        state_bump: 255,
    };
    let r = initialize_lottery(&accounts, &InitializeLotteryParams { entry_fee: 1, max_participants: 2 });
    assert_eq!(r.err(), Some(ErrorCode::InvalidAuthorityError));
}

#[test]
fn entering_returns_fee() {
    let (mut round, _) = open_round(100, 2);
    assert_eq!(enter_lottery(&mut round, id(1)), Ok(100));
    assert_eq!(enter_lottery(&mut round, id(1)), Err(ErrorCode::ParticipantAlreadyAdded));
    assert_eq!(enter_lottery(&mut round, id(2)), Ok(100));
    assert_eq!(enter_lottery(&mut round, id(3)), Err(ErrorCode::ListFull));
}

#[test]
fn full_round_scenario() {
    let (mut round, mut client) = open_round(100, 5);
    for k in 1..=5u8 {
        assert_eq!(enter_lottery(&mut round, id(k)), Ok(100));
    }
    assert_eq!(enter_lottery(&mut round, id(6)), Err(ErrorCode::ListFull));
    fulfil(&mut client, 7);
    assert_eq!(client.result, 2);
    assert_eq!(draw(&mut round, &client), Ok(()));
    assert_eq!(round.winner, Some(id(3)));
    assert_eq!(round.status, 1);
    assert_eq!(settle(&mut round, 3, 540), Ok(140));
    let mut balance = 540 - 140;
    for k in [1u8, 2, 4, 5] {
        assert_eq!(settle(&mut round, k, balance), Ok(100));
        balance -= 100;
    }
    assert_eq!(balance, 0);
    assert!(round.participants.is_empty());
}

#[test]
fn payouts_sum_to_vault_balance() {
    let (mut round, mut client) = open_round(30, 4);
    for k in 1..=4u8 {
        enter_lottery(&mut round, id(k)).unwrap();
    }
    fulfil(&mut client, 5);
    draw(&mut round, &client).unwrap();
    assert_eq!(round.winner, Some(id(2)));
    let vault = 131u64;
    let mut total = 0u64;
    let mut balance = vault;
    for k in [2u8, 1, 3, 4] {
        let paid = settle(&mut round, k, balance).unwrap();
        total += paid;
        balance -= paid;
    }
    assert_eq!(total, vault);
}

#[test]
fn second_draw_refused() {
    let (mut round, mut client) = open_round(100, 5);
    for k in 1..=5u8 {
        enter_lottery(&mut round, id(k)).unwrap();
    }
    fulfil(&mut client, 7);
    draw(&mut round, &client).unwrap();
    fulfil(&mut client, 9);
    assert_eq!(client.result, 4);
    assert_eq!(draw(&mut round, &client), Err(ErrorCode::WinnerAlreadySelected));
    assert_eq!(round.winner, Some(id(3)));
    assert_eq!(round.status, 1);
}

#[test]
fn draw_past_last_participant_refused() {
    let (mut round, mut client) = open_round(100, 5);
    enter_lottery(&mut round, id(1)).unwrap();
    enter_lottery(&mut round, id(2)).unwrap();
    fulfil(&mut client, 4);
    assert_eq!(draw(&mut round, &client), Err(ErrorCode::WinnerIndexOutOfRange));
    assert!(round.winner.is_none());
    assert_eq!(round.status, 0);
}

#[test]
fn draw_checks_oracle_account() {
    let (mut round, client) = open_round(100, 5);
    enter_lottery(&mut round, id(1)).unwrap();
    let r = choose_winner(&mut round, &client, &ChooseWinner { vrf: id(1) });
    assert_eq!(r, Err(ErrorCode::InvalidVrfAccount));
    assert_eq!(round.status, 0);
}

#[test]
fn settling_before_draw_refused() {
    let (mut round, _) = open_round(100, 5);
    enter_lottery(&mut round, id(1)).unwrap();
    assert_eq!(settle(&mut round, 1, 100), Err(ErrorCode::LotteryStillOn));
    assert_eq!(round.participants.len(), 1);
}

#[test]
fn settling_twice_refused() {
    let (mut round, mut client) = open_round(100, 2);
    enter_lottery(&mut round, id(1)).unwrap();
    enter_lottery(&mut round, id(2)).unwrap();
    fulfil(&mut client, 1);
    draw(&mut round, &client).unwrap();
    assert_eq!(round.winner, Some(id(2)));
    assert_eq!(settle(&mut round, 1, 210), Ok(100));
    assert_eq!(settle(&mut round, 1, 110), Err(ErrorCode::ParticipantNotFound));
    assert_eq!(settle(&mut round, 9, 110), Err(ErrorCode::ParticipantNotFound));
}

#[test]
fn winner_payout_short_vault_refused() {
    let (mut round, mut client) = open_round(100, 5);
    for k in 1..=5u8 {
        enter_lottery(&mut round, id(k)).unwrap();
    }
    fulfil(&mut client, 7);
    draw(&mut round, &client).unwrap();
    assert_eq!(settle(&mut round, 3, 399), Err(ErrorCode::AccountingError));
    assert_eq!(round.participants.len(), 5);
    assert_eq!(settle(&mut round, 3, 400), Ok(0));
}

#[test]
fn winner_payout_with_huge_fee_refused() {
    let (mut round, mut client) = open_round(u64::MAX, 3);
    for k in 1..=3u8 {
        enter_lottery(&mut round, id(k)).unwrap();
    }
    fulfil(&mut client, 3);
    draw(&mut round, &client).unwrap();
    assert_eq!(round.winner, Some(id(1)));
    assert_eq!(settle(&mut round, 1, u64::MAX), Err(ErrorCode::AccountingError));
    assert_eq!(settle(&mut round, 2, 0), Ok(u64::MAX));
}

#[test]
fn winner_settling_again_is_not_found() {
    let (mut round, mut client) = open_round(100, 5);
    for k in 1..=5u8 {
        enter_lottery(&mut round, id(k)).unwrap();
    }
    fulfil(&mut client, 7);
    draw(&mut round, &client).unwrap();
    assert_eq!(settle(&mut round, 3, 540), Ok(140));
    for k in [1u8, 2, 4, 5] {
        settle(&mut round, k, 100).unwrap();
    }
    assert_eq!(settle(&mut round, 3, 0), Err(ErrorCode::ParticipantNotFound));
}

#[test]
fn fifth_enrolment_fills_round() {
    let mut round = LotteryInfo::new(100, 5);
    for k in 1..=4u8 {
        round.add_participant(id(k)).unwrap();
    }
    assert_eq!(round.add_participant(id(5)), Ok(()));
    let order: Vec<Identity> = (1..=5u8).map(id).collect();
    assert_eq!(round.participants, order);
}
