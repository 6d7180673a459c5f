//! What holds of every verdict and of every resolved caller, stated over
//! the models of the decision engine and of the resolver, and proved once
//! and for all.

use vstd::prelude::*;
use crate::error::ErrorCode;
use crate::identity::Identity;
use crate::policy::{spec_decide, PolicyState, Verdict};
use crate::utils::{
    account_holds_log, instruction_program_at, spec_current_index, spec_prev_program_id,
    spec_resolve,
};

verus! {

/// Exemption overrides pause: while transfers are paused, a transfer whose
/// source is exempt is allowed, whatever the other records, the endpoints,
/// the caller and the time are.
pub proof fn lemma_exempt_source_overrides_pause(
    state: PolicyState,
    caller: Option<Identity>,
    source: Identity,
    destination: Identity,
    now: i64,
)
    requires
        state.policy.paused,
        state.exempt_from.any(),
    ensures
        spec_decide(state, caller, source, destination, now) == Verdict::Allow,
{
}

/// Exemption overrides the lock: before the unlock time a transfer with an
/// exempt endpoint is allowed on every route and for every caller, unless
/// transfers are paused and only the destination is exempt; then the pause
/// decides.
pub proof fn lemma_exemption_overrides_lock(
    state: PolicyState,
    caller: Option<Identity>,
    source: Identity,
    destination: Identity,
    now: i64,
)
    requires
        now < state.unlock.unlock_ts,
        state.exempt_from.any() || state.exempt_to.any(),
        !(state.policy.paused && !state.exempt_from.any()),
    ensures
        spec_decide(state, caller, source, destination, now) == Verdict::Allow,
{
}

/// Pause comes first: while transfers are paused and the source is not
/// exempt, every transfer is rejected as paused, also one into the pool
/// vault and also after the unlock time.
pub proof fn lemma_pause_precedes(
    state: PolicyState,
    caller: Option<Identity>,
    source: Identity,
    destination: Identity,
    now: i64,
)
    requires
        state.policy.paused,
        !state.exempt_from.any(),
    ensures
        spec_decide(state, caller, source, destination, now) == Verdict::Reject(
            ErrorCode::Paused,
        ),
{
}

/// Full unlock: from the unlock time on, with no pause and no exemption in
/// play, every transfer is allowed, between any endpoints and for any caller.
pub proof fn lemma_open_after_unlock(
    state: PolicyState,
    caller: Option<Identity>,
    source: Identity,
    destination: Identity,
    now: i64,
)
    requires
        !state.policy.paused,
        !state.exempt_from.any(),
        !state.exempt_to.any(),
        now >= state.unlock.unlock_ts,
    ensures
        spec_decide(state, caller, source, destination, now) == Verdict::Allow,
{
}

/// Sales are blocked while locked: with no pause and no exemption in play,
/// a transfer into the pool vault before the unlock time is rejected as a
/// sale, whoever the caller is.
pub proof fn lemma_sell_blocked_while_locked(
    state: PolicyState,
    caller: Option<Identity>,
    source: Identity,
    destination: Identity,
    now: i64,
)
    requires
        !state.policy.paused,
        now < state.unlock.unlock_ts,
        destination == state.pool_vault.token_account,
        !state.exempt_from.any(),
        !state.exempt_to.any(),
    ensures
        spec_decide(state, caller, source, destination, now) == Verdict::Reject(
            ErrorCode::SellsDisabled,
        ),
{
}

/// A purchase through the allowed program passes the lock: with no pause, a
/// transfer out of the pool vault before the unlock time is allowed when its
/// caller is the allowed program. A transfer from the vault into the vault
/// itself is a sale and is left out, unless an exemption allows it anyway.
pub proof fn lemma_buy_through_allowed_program(
    state: PolicyState,
    caller: Option<Identity>,
    source: Identity,
    destination: Identity,
    now: i64,
)
    requires
        !state.policy.paused,
        now < state.unlock.unlock_ts,
        source == state.pool_vault.token_account,
        caller == Some(state.allowed_program.program_id),
        destination != state.pool_vault.token_account || state.exempt_from.any()
            || state.exempt_to.any(),
    ensures
        spec_decide(state, caller, source, destination, now) == Verdict::Allow,
{
}

/// A purchase by any other way is rejected: with no pause and no exemption
/// in play, a transfer out of the pool vault, to another account, before the
/// unlock time is rejected when its caller is another program or cannot be
/// told.
pub proof fn lemma_buy_needs_allowed_program(
    state: PolicyState,
    caller: Option<Identity>,
    source: Identity,
    destination: Identity,
    now: i64,
)
    requires
        !state.policy.paused,
        now < state.unlock.unlock_ts,
        source == state.pool_vault.token_account,
        caller != Some(state.allowed_program.program_id),
        !state.exempt_from.any(),
        !state.exempt_to.any(),
        destination != state.pool_vault.token_account,
    ensures
        spec_decide(state, caller, source, destination, now) == Verdict::Reject(
            ErrorCode::ProgramNotAllowed,
        ),
{
}

/// A direct transfer between peers passes the lock: with no pause, a
/// transfer before the unlock time that touches the pool vault at neither
/// end and has no caller is allowed.
pub proof fn lemma_direct_peer_transfer_allowed(
    state: PolicyState,
    source: Identity,
    destination: Identity,
    now: i64,
)
    requires
        !state.policy.paused,
        now < state.unlock.unlock_ts,
        source != state.pool_vault.token_account,
        destination != state.pool_vault.token_account,
    ensures
        spec_decide(state, None, source, destination, now) == Verdict::Allow,
{
}

/// A transfer between peers that a program drives is rejected: with no pause
/// and no exemption in play, a transfer before the unlock time that touches
/// the pool vault at neither end is rejected for every resolved caller, the
/// allowed program included.
pub proof fn lemma_driven_peer_transfer_rejected(
    state: PolicyState,
    program: Identity,
    source: Identity,
    destination: Identity,
    now: i64,
)
    requires
        !state.policy.paused,
        now < state.unlock.unlock_ts,
        source != state.pool_vault.token_account,
        destination != state.pool_vault.token_account,
        !state.exempt_from.any(),
        !state.exempt_to.any(),
    ensures
        spec_decide(state, Some(program), source, destination, now) == Verdict::Reject(
            ErrorCode::ProgramNotAllowed,
        ),
{
}

/// Every outcome with the inputs on which it comes. A transfer is allowed
/// exactly when its source is exempt, or when nothing is paused and its
/// destination is exempt, the unlock time has come, or its route passes the
/// lock; each reason for rejection has its own disjoint condition.
pub proof fn lemma_verdict_by_cases(
    state: PolicyState,
    caller: Option<Identity>,
    source: Identity,
    destination: Identity,
    now: i64,
)
    ensures
        ({
            let verdict = spec_decide(state, caller, source, destination, now);
            let vault = state.pool_vault.token_account;
            let open = state.exempt_from.any() || state.exempt_to.any()
                || now >= state.unlock.unlock_ts;
            let route_passes = destination != vault && if source == vault {
                caller == Some(state.allowed_program.program_id)
            } else {
                caller is None
            };
            &&& verdict == Verdict::Allow <==> state.exempt_from.any() || (!state.policy.paused
                && (open || route_passes))
            &&& verdict == Verdict::Reject(ErrorCode::Paused) <==> state.policy.paused
                && !state.exempt_from.any()
            &&& verdict == Verdict::Reject(ErrorCode::SellsDisabled) <==> !state.policy.paused
                && !open && destination == vault
            &&& verdict == Verdict::Reject(ErrorCode::ProgramNotAllowed) <==> !state.policy.paused
                && !open && destination != vault && !route_passes
        }),
{
}

/// The boundary of the resolver. Where the instructions account records the
/// index `current` for the executing instruction: the first instruction of a
/// transaction has no caller; any later one has the program of the
/// instruction just before it when that instruction can be decoded, and no
/// caller when it cannot.
pub proof fn lemma_caller_is_predecessor(key: Seq<u8>, data: Seq<u8>, current: u16)
    requires
        spec_current_index(key, data) == Some(current),
    ensures
        current == 0 ==> spec_prev_program_id(key, data) is None,
        current > 0 ==> (instruction_program_at(current - 1, key, data) matches Some(bytes)
            ==> spec_prev_program_id(key, data) == Some(Identity { bytes })),
        current > 0 ==> (instruction_program_at(current - 1, key, data) is None
            ==> spec_prev_program_id(key, data) is None),
{
}

/// An account that records no index gives no caller: one at another address
/// than that of the instructions account, or one whose data is too short to
/// hold an index.
pub proof fn lemma_no_index_no_caller(key: Seq<u8>, data: Seq<u8>)
    requires
        spec_current_index(key, data) is None,
    ensures
        spec_prev_program_id(key, data) is None,
{
}

/// Reading the caller from the instructions account agrees with resolving
/// it from the log: where the account holds the instructions that the
/// programs in `log` issued and records the index `current`, the caller it
/// gives is the one resolved from `log` at `current`.
pub proof fn lemma_account_agrees_with_log(
    key: Seq<u8>,
    data: Seq<u8>,
    log: Seq<Identity>,
    current: u16,
)
    requires
        spec_current_index(key, data) == Some(current),
        account_holds_log(key, data, log),
    ensures
        spec_prev_program_id(key, data) == spec_resolve(log, current),
{
    if current > 0 {
        let previous = current - 1;
        assert(instruction_program_at(previous, key, data) == if previous < log.len() {
            Some(log[previous].bytes)
        } else {
            None::<[u8; 32]>
        });
    }
}

} // verus!
