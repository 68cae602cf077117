use vstd::prelude::*;

use crate::errors::ErrorCode;
use crate::identity::{all_zero, is_all_zero, same_bytes, Identity};

verus! {

/// The largest bound a randomness client can be given.
pub const MAX_RESULT: u64 = 0xffff_ffff_ffff_ffff;

/// The number of raw output bytes read as the drawn integer.
pub const DRAW_BYTES: usize = 16;

/// The unsigned integer that a byte sequence encodes, least significant
/// byte first.
pub open spec fn le_value(b: Seq<u8>) -> nat
    decreases b.len(),
{
    if b.len() == 0 {
        0
    } else {
        b[0] as nat + 256 * le_value(b.drop_first())
    }
}

/// 256 to the power `n`: one more than the largest value of `n` bytes.
pub open spec fn byte_span(n: nat) -> nat
    decreases n,
{
    if n == 0 {
        1
    } else {
        256 * byte_span((n - 1) as nat)
    }
}

/// The integer drawn from a raw oracle output: its first sixteen bytes,
/// little-endian.
pub open spec fn raw_draw(raw: Seq<u8>) -> nat {
    le_value(raw.subrange(0, DRAW_BYTES as int))
}

/// The drawn integer reduced into `[0, max_result)`.
pub open spec fn reduced_draw(raw: Seq<u8>, max_result: u64) -> int
    recommends
        max_result > 0,
{
    raw_draw(raw) as int % max_result as int
}

/// `n` bytes encode less than `256^n`.
pub proof fn lemma_le_value_bound(b: Seq<u8>)
    ensures
        le_value(b) < byte_span(b.len()),
    decreases b.len(),
{
    if b.len() > 0 {
        lemma_le_value_bound(b.drop_first());
        assert(byte_span(b.len()) == 256 * byte_span((b.len() - 1) as nat));
    }
}

/// Reads the first sixteen bytes of a raw output as a little-endian
/// unsigned 128-bit integer.
pub fn read_draw(raw: &[u8; 32]) -> (r: u128)
    ensures
        r == raw_draw(raw@),
{
    proof {
        reveal_with_fuel(byte_span, 17);
        assert(byte_span(16) == 0x1_0000_0000_0000_0000_0000_0000_0000_0000);
    }
    let mut acc: u128 = 0;
    let mut i: usize = DRAW_BYTES;
    while i > 0
        invariant
            0 <= i <= DRAW_BYTES,
            raw@.len() == 32,
            acc == le_value(raw@.subrange(i as int, DRAW_BYTES as int)),
            byte_span(16) == 0x1_0000_0000_0000_0000_0000_0000_0000_0000,
        decreases i,
    {
        let ghost tail = raw@.subrange(i as int, DRAW_BYTES as int);
        let ghost next = raw@.subrange(i - 1, DRAW_BYTES as int);
        proof {
            assert(next.drop_first() =~= tail);
            lemma_le_value_bound(next);
            assert(le_value(next) == next[0] as nat + 256 * le_value(tail));
            lemma_span_monotonic(next.len(), 16);
        }
        acc = acc * 256 + raw[i - 1] as u128;
        i = i - 1;
    }
    acc
}

/// A wider byte count gives a larger span.
proof fn lemma_span_monotonic(a: nat, b: nat)
    requires
        a <= b,
    ensures
        byte_span(a) <= byte_span(b),
    decreases b,
{
    if a < b {
        lemma_span_monotonic(a, (b - 1) as nat);
    }
}

/// The randomness client's record: the bound for its draws, the last raw
/// output it accepted and the result reduced from it, and the authority and
/// oracle account it is bound to.
#[derive(Debug, Clone, Copy)]
pub struct VrfClient {
    pub bump: u8,
    pub max_result: u64,
    pub result_buffer: [u8; 32],
    pub result: u128,
    pub last_timestamp: i64,
    pub authority: Identity,
    pub vrf: Identity,
}

/// Notice that a new draw was requested from the oracle.
#[derive(Debug, Clone, Copy)]
pub struct RequestingRandomness {
    pub vrf_client: Identity,
    pub max_result: u64,
    pub timestamp: i64,
}

/// Notice that the oracle's callback reached the client.
#[derive(Debug, Clone, Copy)]
pub struct VrfClientInvoked {
    pub vrf_client: Identity,
    pub timestamp: i64,
}

/// Notice that the client accepted a new raw output and reduced it.
#[derive(Debug, Clone, Copy)]
pub struct VrfClientResultUpdated {
    pub vrf_client: Identity,
    pub result: u128,
    pub result_buffer: [u8; 32],
    pub timestamp: i64,
}

impl Default for VrfClient {
    /// An all-zero record, as a freshly allocated one reads.
    fn default() -> (r: VrfClient)
        ensures
            r.bump == 0,
            r.max_result == 0,
            all_zero(r.result_buffer@),
            r.result == 0,
            r.last_timestamp == 0,
            all_zero(r.authority@),
            all_zero(r.vrf@),
    {
        VrfClient {
            bump: 0,
            max_result: 0,
            result_buffer: [0u8; 32],
            result: 0,
            last_timestamp: 0,
            authority: Identity { bytes: [0u8; 32] },
            vrf: Identity { bytes: [0u8; 32] },
        }
    }
}

/// The bound a client gets for a requested one: zero stands for the largest.
pub open spec fn normalized_max(requested: u64) -> u64 {
    if requested == 0 {
        MAX_RESULT
    } else {
        requested
    }
}

/// How one offered raw output changes a client: an all-zero output (nothing
/// produced yet) or a repeat of the last accepted one leaves it as it was;
/// any other is reduced, stored with its time, and the rest kept.
pub open spec fn update_applied(
    before: VrfClient,
    after: VrfClient,
    raw: Seq<u8>,
    now: i64,
) -> bool {
    if all_zero(raw) || raw == before.result_buffer@ {
        after == before
    } else {
        &&& after.result == reduced_draw(raw, before.max_result)
        &&& after.result_buffer@ == raw
        &&& after.last_timestamp == now
        &&& after.max_result == before.max_result
        &&& after.bump == before.bump
        &&& after.authority == before.authority
        &&& after.vrf == before.vrf
    }
}

impl VrfClient {
    /// The client's invariant: a positive bound, and a result below it.
    pub open spec fn wf(&self) -> bool {
        &&& self.max_result > 0
        &&& self.result < self.max_result
    }

    /// A client bound to an oracle account and an authority, with the given
    /// bound (zero for the largest) and nothing drawn yet.
    pub fn bound_to(bump: u8, authority: Identity, vrf: Identity, max_result: u64) -> (r:
        VrfClient)
        ensures
            r.wf(),
            r.bump == bump,
            r.authority == authority,
            r.vrf == vrf,
            r.max_result == normalized_max(max_result),
            r.result == 0,
            all_zero(r.result_buffer@),
            r.last_timestamp == 0,
    {
        let mut state = VrfClient::default();
        state.bump = bump;
        state.authority = authority;
        state.vrf = vrf;
        if max_result == 0 {
            state.max_result = MAX_RESULT;
        } else {
            state.max_result = max_result;
        }
        state
    }

    /// Records that a new draw was requested from the oracle: the result is
    /// cleared until the oracle answers.
    pub fn begin_request(&mut self, client_key: Identity, now: i64) -> (r: RequestingRandomness)
        ensures
            final(self).result == 0,
            *final(self) == (VrfClient { result: 0, ..*old(self) }),
            r.vrf_client == client_key,
            r.max_result == old(self).max_result,
            r.timestamp == now,
            old(self).max_result > 0 ==> final(self).wf(),
    {
        self.result = 0;
        RequestingRandomness { vrf_client: client_key, max_result: self.max_result, timestamp: now }
    }

    /// Offers the oracle's latest raw output to the client. An all-zero
    /// output or a repeat of the last accepted one is ignored; any other
    /// becomes the new result, reduced into `[0, max_result)`, and a notice of
    /// the update is returned.
    pub fn consume_update(&mut self, client_key: Identity, raw_output: [u8; 32], now: i64) -> (r:
        Option<VrfClientResultUpdated>)
        requires
            old(self).max_result > 0,
        ensures
            update_applied(*old(self), *final(self), raw_output@, now),
            r is None <==> (all_zero(raw_output@) || raw_output@ == old(self).result_buffer@),
            r matches Some(e) ==> {
                &&& e.vrf_client == client_key
                &&& e.result == final(self).result
                &&& e.result_buffer@ == raw_output@
                &&& e.timestamp == now
            },
            old(self).wf() ==> final(self).wf(),
    {
        if is_all_zero(&raw_output) {
            return None;
        }
        if same_bytes(&raw_output, &self.result_buffer) {
            return None;
        }
        let value = read_draw(&raw_output);
        let result = value % (self.max_result as u128);
        self.result_buffer = raw_output;
        self.result = result;
        self.last_timestamp = now;
        Some(
            VrfClientResultUpdated {
                vrf_client: client_key,
                result,
                result_buffer: raw_output,
                timestamp: now,
            },
        )
    }
}

/// Offering the same raw output twice changes nothing after the first time,
/// whatever the clock says on the second offer.
pub proof fn lemma_update_idempotent(
    first: VrfClient,
    second: VrfClient,
    third: VrfClient,
    raw: Seq<u8>,
    t1: i64,
    t2: i64,
)
    requires
        update_applied(first, second, raw, t1),
        update_applied(second, third, raw, t2),
    ensures
        third == second,
{
}

/// The parameters of a client's initialization.
#[derive(Debug, Clone, Copy)]
pub struct InitStateParams {
    pub max_result: u64,
}

/// What initializing a client reads: the address the client record will
/// live at, the authority and oracle account it is bound to, the authority
/// that the oracle account itself records, and the record's derivation bump.
#[derive(Debug, Clone, Copy)]
pub struct InitState {
    pub state: Identity,
    pub authority: Identity,
    pub vrf: Identity,
    pub vrf_authority: Identity,
    pub bump: u8,
}

impl InitState {
    /// The requested bound must fit the client's range; every `u64` does.
    pub fn validate(&self, params: &InitStateParams) -> (r: Result<(), ErrorCode>)
        ensures
            r is Ok,
    {
        if params.max_result > MAX_RESULT {
            return Err(ErrorCode::MaxResultExceedsMaximum);
        }
        Ok(())
    }

    /// Builds the client record. The oracle account must name the client's
    /// own address as its authority, so that only this client receives the
    /// oracle's callback; else `InvalidAuthorityError`.
    pub fn actuate(&self, params: &InitStateParams) -> (r: Result<VrfClient, ErrorCode>)
        ensures
            self.vrf_authority@ != self.state@ ==> r == Err::<VrfClient, ErrorCode>(
                ErrorCode::InvalidAuthorityError,
            ),
            self.vrf_authority@ == self.state@ ==> (r matches Ok(c) && initialized(
                c,
                *self,
                params.max_result,
            )),
    {
        if !self.vrf_authority.same_as(&self.state) {
            return Err(ErrorCode::InvalidAuthorityError);
        }
        Ok(VrfClient::bound_to(self.bump, self.authority, self.vrf, params.max_result))
    }
}

/// A client freshly bound per `accounts`, with the bound `max_result`
/// normalized and nothing drawn yet.
pub open spec fn initialized(c: VrfClient, accounts: InitState, max_result: u64) -> bool {
    &&& c.wf()
    &&& c.bump == accounts.bump
    &&& c.authority == accounts.authority
    &&& c.vrf == accounts.vrf
    &&& c.max_result == normalized_max(max_result)
    &&& c.result == 0
    &&& all_zero(c.result_buffer@)
    &&& c.last_timestamp == 0
}

/// Initializes a randomness client: validation, then the authority check.
pub fn init_state(accounts: &InitState, params: &InitStateParams) -> (r: Result<
    VrfClient,
    ErrorCode,
>)
    ensures
        accounts.vrf_authority@ != accounts.state@ ==> r == Err::<VrfClient, ErrorCode>(
            ErrorCode::InvalidAuthorityError,
        ),
        accounts.vrf_authority@ == accounts.state@ ==> (r matches Ok(c) && initialized(
            c,
            *accounts,
            params.max_result,
        )),
{
    accounts.validate(params)?;
    accounts.actuate(params)
}

/// What requesting a draw reads: the client record's address, the signing
/// authority and the oracle account.
#[derive(Debug, Clone, Copy)]
pub struct RequestResult {
    pub state: Identity,
    pub authority: Identity,
    pub vrf: Identity,
}

/// The parameters the oracle needs to accept a request.
#[derive(Debug, Clone, Copy)]
pub struct RequestResultParams {
    pub permission_bump: u8,
    pub switchboard_state_bump: u8,
}

impl RequestResult {
    /// The client must be bound to this oracle account (else
    /// `InvalidVrfAccount`) and to this authority (else
    /// `InvalidAuthorityError`).
    pub fn validate(&self, state: &VrfClient) -> (r: Result<(), ErrorCode>)
        ensures
            state.vrf@ != self.vrf@ ==> r == Err::<(), ErrorCode>(ErrorCode::InvalidVrfAccount),
            state.vrf@ == self.vrf@ && state.authority@ != self.authority@ ==> r == Err::<
                (),
                ErrorCode,
            >(ErrorCode::InvalidAuthorityError),
            r is Ok <==> (state.vrf@ == self.vrf@ && state.authority@ == self.authority@),
    {
        if !state.vrf.same_as(&self.vrf) {
            return Err(ErrorCode::InvalidVrfAccount);
        }
        if !state.authority.same_as(&self.authority) {
            return Err(ErrorCode::InvalidAuthorityError);
        }
        Ok(())
    }

    /// Records a draw that the oracle accepted: once the client is validated,
    /// its result is cleared until the oracle answers. A refused request
    /// changes nothing.
    pub fn actuate(&self, state: &mut VrfClient, now: i64) -> (r: Result<
        RequestingRandomness,
        ErrorCode,
    >)
        ensures
            requested(*old(state), *final(state), *self, now, r),
            old(state).wf() ==> final(state).wf(),
    {
        self.validate(state)?;
        Ok(state.begin_request(self.state, now))
    }
}

/// Records a draw requested from the oracle on behalf of a validated
/// client; see `RequestResult::actuate`.
pub fn request_result(state: &mut VrfClient, accounts: &RequestResult, now: i64) -> (r: Result<
    RequestingRandomness,
    ErrorCode,
>)
    ensures
        requested(*old(state), *final(state), *accounts, now, r),
        old(state).wf() ==> final(state).wf(),
{
    accounts.actuate(state, now)
}

/// How a request for a draw leaves the client and what it returns: refused
/// with `InvalidVrfAccount` if the client is bound to another oracle
/// account, then with `InvalidAuthorityError` if it answers to another
/// authority, changing nothing; else the result is cleared and the notice of
/// the request returned.
pub open spec fn requested(
    before: VrfClient,
    after: VrfClient,
    accounts: RequestResult,
    now: i64,
    r: Result<RequestingRandomness, ErrorCode>,
) -> bool {
    &&& before.vrf@ != accounts.vrf@ ==> r == Err::<RequestingRandomness, ErrorCode>(
        ErrorCode::InvalidVrfAccount,
    )
    &&& before.vrf@ == accounts.vrf@ && before.authority@ != accounts.authority@ ==> r == Err::<
        RequestingRandomness,
        ErrorCode,
    >(ErrorCode::InvalidAuthorityError)
    &&& r is Err ==> after == before
    &&& r is Ok <==> (before.vrf@ == accounts.vrf@ && before.authority@ == accounts.authority@)
    &&& r matches Ok(e) ==> {
        &&& after == (VrfClient { result: 0, ..before })
        &&& e.vrf_client == accounts.state
        &&& e.max_result == before.max_result
        &&& e.timestamp == now
    }
}

/// What consuming the oracle's output reads: the client record's address
/// and the oracle account.
#[derive(Debug, Clone, Copy)]
pub struct UpdateResult {
    pub state: Identity,
    pub vrf: Identity,
}

impl UpdateResult {
    /// The client must be bound to this oracle account; else
    /// `InvalidVrfAccount`.
    pub fn validate(&self, state: &VrfClient) -> (r: Result<(), ErrorCode>)
        ensures
            r is Ok <==> state.vrf@ == self.vrf@,
            r is Err ==> r == Err::<(), ErrorCode>(ErrorCode::InvalidVrfAccount),
    {
        if !state.vrf.same_as(&self.vrf) {
            return Err(ErrorCode::InvalidVrfAccount);
        }
        Ok(())
    }
}

/// How offering a raw output through `accounts` leaves the client and what
/// it returns: refused with `InvalidVrfAccount` if the client is bound to
/// another oracle account, changing nothing. Else the output is consumed as
/// `update_applied` says. An all-zero output (nothing produced yet) gives no
/// notice at all; any other gives the notice of the callback, and a new
/// output also the notice of the update.
pub open spec fn updated(
    before: VrfClient,
    after: VrfClient,
    accounts: UpdateResult,
    raw: Seq<u8>,
    now: i64,
    r: Result<(Option<VrfClientInvoked>, Option<VrfClientResultUpdated>), ErrorCode>,
) -> bool {
    &&& r is Ok <==> before.vrf@ == accounts.vrf@
    &&& r is Err ==> r == Err::<(Option<VrfClientInvoked>, Option<VrfClientResultUpdated>), ErrorCode>(
        ErrorCode::InvalidVrfAccount,
    )
    &&& r is Err ==> after == before
    &&& r is Ok ==> update_applied(before, after, raw, now)
    &&& r matches Ok((invoked, update)) ==> {
        &&& (invoked is None <==> all_zero(raw))
        &&& invoked matches Some(i) ==> i.vrf_client == accounts.state && i.timestamp == now
        &&& (update is None <==> (all_zero(raw) || raw == before.result_buffer@))
        &&& update matches Some(e) ==> {
            &&& e.vrf_client == accounts.state
            &&& e.result == after.result
            &&& e.result_buffer@ == raw
            &&& e.timestamp == now
        }
    }
}

impl UpdateResult {
    /// Hands the oracle's raw output to the client once it is validated.
    pub fn actuate(&self, state: &mut VrfClient, raw_output: [u8; 32], now: i64) -> (r: Result<
        (Option<VrfClientInvoked>, Option<VrfClientResultUpdated>),
        ErrorCode,
    >)
        requires
            old(state).max_result > 0,
        ensures
            updated(*old(state), *final(state), *self, raw_output@, now, r),
            old(state).wf() ==> final(state).wf(),
    {
        self.validate(state)?;
        if is_all_zero(&raw_output) {
            return Ok((None, None));
        }
        let invoked = VrfClientInvoked { vrf_client: self.state, timestamp: now };
        let update = state.consume_update(self.state, raw_output, now);
        Ok((Some(invoked), update))
    }
}

/// Hands the oracle's raw output to a validated client; see
/// `UpdateResult::actuate`.
pub fn update_result(
    state: &mut VrfClient,
    accounts: &UpdateResult,
    raw_output: [u8; 32],
    now: i64,
) -> (r: Result<(Option<VrfClientInvoked>, Option<VrfClientResultUpdated>), ErrorCode>)
    requires
        old(state).max_result > 0,
    ensures
        updated(*old(state), *final(state), *accounts, raw_output@, now, r),
        old(state).wf() ==> final(state).wf(),
{
    accounts.actuate(state, raw_output, now)
}

/// Handing the same raw output to a client twice through the same accounts
/// changes nothing the second time and gives no notice of an update.
pub proof fn lemma_actuate_idempotent(
    first: VrfClient,
    second: VrfClient,
    third: VrfClient,
    accounts: UpdateResult,
    raw: Seq<u8>,
    t1: i64,
    t2: i64,
    r1: Result<(Option<VrfClientInvoked>, Option<VrfClientResultUpdated>), ErrorCode>,
    r2: Result<(Option<VrfClientInvoked>, Option<VrfClientResultUpdated>), ErrorCode>,
)
    requires
        updated(first, second, accounts, raw, t1, r1),
        updated(second, third, accounts, raw, t2, r2),
    ensures
        third == second,
        r2 is Ok <==> r1 is Ok,
        r2 matches Ok((_, update)) ==> update is None,
{
}

/// An all-zero output changes nothing and gives no notice.
pub proof fn lemma_zero_output_ignored(
    before: VrfClient,
    after: VrfClient,
    accounts: UpdateResult,
    raw: Seq<u8>,
    now: i64,
    r: Result<(Option<VrfClientInvoked>, Option<VrfClientResultUpdated>), ErrorCode>,
)
    requires
        updated(before, after, accounts, raw, now, r),
        all_zero(raw),
    ensures
        after == before,
        r matches Ok((invoked, update)) ==> invoked is None && update is None,
{
}

} // verus!
