//! A no-loss lottery: participants deposit a fixed entry fee into a pooled
//! vault, a verifiable-randomness result picks one winner, and at settlement
//! every participant gets their principal back while the winner also takes
//! all the yield the pool earned.
//!
//! The library holds the verified core: the participant registry, the
//! randomness client's request/fulfilment state machine, the round's
//! lifecycle and the settlement arithmetic. Moving tokens, loading accounts
//! and talking to the oracle and the lending reserve are left to the caller,
//! which hands the library plain values.

pub mod errors;
pub mod identity;
pub mod lottery;
pub mod lottery_info;
pub mod randomness;

pub use errors::ErrorCode;
pub use identity::Identity;
pub use lottery::{
    choose_winner, enter_lottery, initialize_lottery, withdraw_user_tokens, ChooseWinner,
    InitializeLottery, InitializeLotteryParams, WithdrawUserTokens,
};
pub use lottery_info::{LotteryInfo, LotteryStatus};
pub use randomness::{
    init_state, read_draw, request_result, update_result, InitState, InitStateParams,
    RequestResult, RequestResultParams, RequestingRandomness, UpdateResult, VrfClient,
    VrfClientInvoked, VrfClientResultUpdated, MAX_RESULT,
};
