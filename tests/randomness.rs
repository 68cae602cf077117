use no_loss_lottery::{
    init_state, read_draw, request_result, update_result, ErrorCode, Identity, InitState,
    InitStateParams, RequestResult, UpdateResult, VrfClient, MAX_RESULT,
};

fn id(k: u8) -> Identity {
    Identity::new([k; 32])
}

fn raw_with(first: u8) -> [u8; 32] {
    let mut raw = [0u8; 32];
    raw[0] = first;
    raw
}

fn client(max_result: u64) -> VrfClient {
    let accounts = InitState { state: id(9), authority: id(8), vrf: id(7), vrf_authority: id(9), bump: 254 };
    init_state(&accounts, &InitStateParams { max_result }).unwrap()
}

#[test]
fn reads_little_endian() {
    assert_eq!(read_draw(&raw_with(1)), 1);
    let mut raw = [0u8; 32];
    raw[1] = 1;
    assert_eq!(read_draw(&raw), 256);
    raw[15] = 0x80;
    assert_eq!(read_draw(&raw), (1u128 << 127) + 256);
}

#[test]
fn reads_only_first_sixteen_bytes() {
    let mut raw = [0u8; 32];
    raw[16] = 0xff;
    raw[31] = 0xff;
    assert_eq!(read_draw(&raw), 0);
    let all = [0xffu8; 32];
    assert_eq!(read_draw(&all), u128::MAX);
}

#[test]
fn init_binds_client() {
    let c = client(5);
    assert_eq!(c.max_result, 5);
    assert_eq!(c.result, 0);
    assert_eq!(c.bump, 254);
    assert_eq!(c.authority, id(8));
    assert_eq!(c.vrf, id(7));
    assert_eq!(c.result_buffer, [0u8; 32]);
    assert_eq!(c.last_timestamp, 0);
}

#[test]
fn init_zero_bound_means_largest() {
    assert_eq!(client(0).max_result, MAX_RESULT);
    assert_eq!(MAX_RESULT, u64::MAX);
}

#[test]
fn init_refuses_foreign_oracle_authority() {
    let accounts = InitState { state: id(9), authority: id(8), vrf: id(7), vrf_authority: id(1), bump: 0 };
    let r = init_state(&accounts, &InitStateParams { max_result: 5 });
    assert_eq!(r.err(), Some(ErrorCode::InvalidAuthorityError));
}

#[test]
fn zero_output_is_ignored() {
    let mut c = client(5);
    c.result = 3;
    let before = c;
    assert!(c.consume_update(id(9), [0u8; 32], 100).is_none());
    assert_eq!(c.result, 3);
    assert_eq!(c.result_buffer, before.result_buffer);
    assert_eq!(c.last_timestamp, before.last_timestamp);
}

#[test]
fn new_output_is_reduced_and_stored() {
    let mut c = client(5);
    let raw = raw_with(12);
    let e = c.consume_update(id(9), raw, 100).unwrap();
    assert_eq!(c.result, 2);
    assert_eq!(c.result_buffer, raw);
    assert_eq!(c.last_timestamp, 100);
    assert_eq!(e.result, 2);
    assert_eq!(e.result_buffer, raw);
    assert_eq!(e.timestamp, 100);
    assert_eq!(e.vrf_client, id(9));
}

#[test]
fn large_output_reduced_below_bound() {
    let mut c = client(7);
    let raw = [0xffu8; 32];
    c.consume_update(id(9), raw, 1).unwrap();
    assert_eq!(c.result, u128::MAX % 7);
    assert!(c.result < 7);
}

#[test]
fn same_output_twice_changes_nothing() {
    let mut c = client(5);
    let raw = raw_with(12);
    assert!(c.consume_update(id(9), raw, 100).is_some());
    assert!(c.consume_update(id(9), raw, 200).is_none());
    assert_eq!(c.result, 2);
    assert_eq!(c.last_timestamp, 100);
    assert_eq!(c.result_buffer, raw);
}

#[test]
fn output_with_same_result_still_recorded() {
    let mut c = client(5);
    c.consume_update(id(9), raw_with(12), 100).unwrap();
    let e = c.consume_update(id(9), raw_with(7), 200);
    assert!(e.is_some());
    assert_eq!(c.result, 2);
    assert_eq!(c.result_buffer, raw_with(7));
    assert_eq!(c.last_timestamp, 200);
}

#[test]
fn request_clears_result() {
    let mut c = client(5);
    c.consume_update(id(9), raw_with(13), 100).unwrap();
    assert_eq!(c.result, 3);
    let accounts = RequestResult { state: id(9), authority: id(8), vrf: id(7) };
    let e = request_result(&mut c, &accounts, 300).unwrap();
    assert_eq!(c.result, 0);
    assert_eq!(c.result_buffer, raw_with(13));
    assert_eq!(e.max_result, 5);
    assert_eq!(e.timestamp, 300);
    assert_eq!(e.vrf_client, id(9));
}

#[test]
fn request_refuses_wrong_accounts() {
    let mut c = client(5);
    c.result = 4;
    let wrong_vrf = RequestResult { state: id(9), authority: id(8), vrf: id(1) };
    assert_eq!(request_result(&mut c, &wrong_vrf, 1).err(), Some(ErrorCode::InvalidVrfAccount));
    let wrong_auth = RequestResult { state: id(9), authority: id(1), vrf: id(7) };
    assert_eq!(
        request_result(&mut c, &wrong_auth, 1).err(),
        Some(ErrorCode::InvalidAuthorityError)
    );
    assert_eq!(c.result, 4);
}

#[test]
fn update_result_checks_oracle_account() {
    let mut c = client(5);
    let wrong = UpdateResult { state: id(9), vrf: id(1) };
    assert_eq!(
        update_result(&mut c, &wrong, raw_with(12), 5).err(),
        Some(ErrorCode::InvalidVrfAccount)
    );
    assert_eq!(c.result_buffer, [0u8; 32]);
    let right = UpdateResult { state: id(9), vrf: id(7) };
    let (invoked, updated) = update_result(&mut c, &right, raw_with(12), 5).unwrap();
    let invoked = invoked.unwrap();
    assert_eq!(invoked.vrf_client, id(9));
    assert_eq!(invoked.timestamp, 5);
    assert_eq!(updated.unwrap().result, 2);
    let (invoked_again, again) = update_result(&mut c, &right, raw_with(12), 6).unwrap();
    assert!(invoked_again.is_some());
    assert!(again.is_none());
    assert_eq!(c.result, 2);
    assert_eq!(c.last_timestamp, 5);
}

#[test]
fn default_client_is_zeroed() {
    let c = VrfClient::default();
    assert_eq!(c.max_result, 0);
    assert_eq!(c.result, 0);
    assert_eq!(c.result_buffer, [0u8; 32]);
    assert_eq!(c.vrf, Identity::new([0u8; 32]));
}

#[test]
fn zero_output_gives_no_notice() {
    let mut c = client(5);
    c.consume_update(id(9), raw_with(13), 100).unwrap();
    let accounts = UpdateResult { state: id(9), vrf: id(7) };
    let (invoked, updated) = accounts.actuate(&mut c, [0u8; 32], 200).unwrap();
    assert!(invoked.is_none());
    assert!(updated.is_none());
    assert_eq!(c.result, 3);
    assert_eq!(c.result_buffer, raw_with(13));
    assert_eq!(c.last_timestamp, 100);
}

#[test]
fn request_actuate_records_request() {
    let mut c = client(5);
    c.result = 4;
    let accounts = RequestResult { state: id(9), authority: id(8), vrf: id(7) };
    let e = accounts.actuate(&mut c, 42).unwrap();
    assert_eq!(c.result, 0);
    assert_eq!(e.timestamp, 42);
}
