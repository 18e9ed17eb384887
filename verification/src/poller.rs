//! The playback poller: the per-subscription state machine that keeps the
//! credential fresh, polls the upstream "now playing" endpoint, and pushes
//! normalized events, surviving every upstream failure and stopping only
//! when the subscriber disconnects.
//!
//! The machine owns no I/O. Each [`Poller::step`] consumes the outcome of
//! the previous action and answers with the next one — load, refresh,
//! persist, fetch, emit, sleep, or halt — and an unverified driver performs
//! it. The whole transition relation is written out in [`step_rel`], which
//! `step` is proved to implement, and the laws at the bottom of this module
//! are proved of that relation.
//!
//! One cycle of the machine, from one decision point to the next: if fewer
//! than sixty seconds remain before the credential expires, refresh it and
//! persist the new record (a failed refresh or persist is reported and the
//! stale credential is used — a stale token surfaces as an upstream fetch
//! error, which normal error handling covers); then fetch the current
//! playback; then emit what was observed; then sleep for the computed delay.
//! A fetch with no content — nothing is playing — is a valid observation
//! with no event of its own: the poller emits nothing and re-checks after
//! the ceiling delay.

use vstd::prelude::*;

use crate::error::ServiceError;
use crate::error::error_text;
use crate::playback::FAILURE_DELAY_MS;
use crate::playback::MAX_DELAY_MS;
use crate::playback::PlaybackEvent;
use crate::playback::PlaybackSnapshot;
use crate::playback::build_song_response;
use crate::playback::compute_delay;
use crate::playback::song_matches;
use crate::playback::spec_delay;
use crate::token::REFRESH_MARGIN_SECONDS;
use crate::token::TokenRecord;

verus! {

/// Capacity of the event channel between one poller and its transport:
/// large enough to absorb one burst of refresh and playback work, small
/// enough to apply backpressure when the transport stalls.
pub const CHANNEL_CAPACITY: usize = 32;

/// What the upstream token endpoint answers a refresh with: a new access
/// token and its lifetime in seconds. The session's refresh token is
/// deliberately reused unchanged across refreshes, so no refresh token is
/// carried here.
pub struct AccessTokenResponse {
    /// The freshly minted access token.
    pub access_token: String,
    /// How many seconds the new token is valid for.
    pub expires_in: i64,
}

/// Where the machine stands: which action it is waiting on.
#[derive(Clone, Copy)]
pub enum Phase {
    /// Waiting for the subscriber's credential to be loaded from the store.
    Bootstrapping,
    /// Waiting for the upstream token refresh to come back.
    Refreshing,
    /// Waiting for the refreshed credential to be persisted.
    Upserting,
    /// Waiting for the upstream playback fetch to come back.
    Fetching,
    /// Waiting for a failure report to be emitted before fetching anyway.
    EmittingThenFetch,
    /// Waiting for an event to be emitted before sleeping this many
    /// milliseconds.
    EmittingThenSleep(u64),
    /// Waiting for the startup failure report to be emitted before halting.
    EmittingThenHalt,
    /// Waiting for the inter-poll delay to elapse.
    Sleeping,
    /// Terminal: the subscription is over.
    Stopped,
}

/// The outcome of the action the driver just performed.
pub enum PollerInput {
    /// The store yielded the subscriber's credential.
    LoadOk(TokenRecord),
    /// The store had no credential, or failed.
    LoadErr(ServiceError),
    /// The upstream refresh yielded a new access token.
    RefreshOk(AccessTokenResponse),
    /// The upstream refresh failed in transport or decode.
    RefreshErr,
    /// The refreshed credential was persisted.
    UpsertOk,
    /// Persisting the refreshed credential failed.
    UpsertErr,
    /// The upstream answered with a playback snapshot.
    FetchOk(PlaybackSnapshot),
    /// The upstream answered with no content: nothing is playing.
    FetchNoContent,
    /// The upstream fetch failed in transport or decode.
    FetchErr,
    /// The event went out on the subscription's channel.
    EmitOk,
    /// The channel is closed: the subscriber disconnected.
    EmitErr,
    /// The inter-poll delay elapsed.
    SleepDone,
}

/// The next piece of outside work the driver must perform.
pub enum PollerAction {
    /// Load the subscriber's credential from the token store.
    LoadToken,
    /// Refresh against the upstream token endpoint with this refresh token.
    Refresh(String),
    /// Persist this record to the token store.
    Upsert(TokenRecord),
    /// Fetch the current playback with this access token.
    Fetch(String),
    /// Send this event on the subscription's channel.
    Emit(PlaybackEvent),
    /// Sleep this many milliseconds.
    Sleep(u64),
    /// The subscription is over; perform nothing further.
    Halt,
}

/// One subscription's poller: its phase and its in-memory credential. Owned
/// exclusively by one running task; never shared, never persisted.
pub struct Poller {
    /// Which action the machine is waiting on.
    pub phase: Phase,
    /// The credential the session currently holds.
    pub token: Option<TokenRecord>,
}

/// What a decision point does, given the session credential and the time in
/// seconds: refresh when fewer than sixty seconds remain before expiry,
/// otherwise go straight to the playback fetch.
pub open spec fn decide_rel(t: TokenRecord, now: int, post: Poller, act: PollerAction) -> bool {
    if t@.expiry - now < REFRESH_MARGIN_SECONDS {
        &&& post.phase is Refreshing
        &&& post.token == Some(t)
        &&& act matches PollerAction::Refresh(rt) && rt == t.refresh_token
    } else {
        &&& post.phase is Fetching
        &&& post.token == Some(t)
        &&& act matches PollerAction::Fetch(at) && at == t.access_token
    }
}

/// The poller's full transition relation: from a machine state and the
/// outcome of the pending action, at wall-clock second `now`, to the next
/// machine state and the next action.
pub open spec fn step_rel(
    pre: Poller,
    input: PollerInput,
    now: int,
    post: Poller,
    act: PollerAction,
) -> bool {
    match (pre.phase, input) {
        (Phase::Bootstrapping, PollerInput::LoadOk(t)) => decide_rel(t, now, post, act),
        (Phase::Bootstrapping, PollerInput::LoadErr(e)) => {
            &&& post.phase is EmittingThenHalt
            &&& post.token == pre.token
            &&& act matches PollerAction::Emit(PlaybackEvent::Failure(m)) && m@ == error_text(e)
        },
        (Phase::Refreshing, PollerInput::RefreshOk(resp)) => {
            &&& pre.token matches Some(t0)
            &&& post.phase is Upserting
            &&& post.token matches Some(t1)
            &&& t1.access_token == resp.access_token
            &&& t1@.expiry == now + resp.expires_in
            &&& t1.refresh_token == t0.refresh_token
            &&& act matches PollerAction::Upsert(rec) && rec == t1
        },
        (Phase::Refreshing, PollerInput::RefreshErr) => {
            &&& post.phase is EmittingThenFetch
            &&& post.token == pre.token
            &&& act matches PollerAction::Emit(PlaybackEvent::Failure(m)) && m@ == error_text(
                ServiceError::UpstreamError,
            )
        },
        (Phase::Upserting, PollerInput::UpsertOk) => {
            &&& post.phase is Fetching
            &&& post.token == pre.token
            &&& pre.token matches Some(t)
            &&& act matches PollerAction::Fetch(at) && at == t.access_token
        },
        (Phase::Upserting, PollerInput::UpsertErr) => {
            &&& post.phase is EmittingThenFetch
            &&& post.token == pre.token
            &&& act matches PollerAction::Emit(PlaybackEvent::Failure(m)) && m@ == error_text(
                ServiceError::StorageError,
            )
        },
        (Phase::EmittingThenFetch, PollerInput::EmitOk) => {
            &&& post.phase is Fetching
            &&& post.token == pre.token
            &&& pre.token matches Some(t)
            &&& act matches PollerAction::Fetch(at) && at == t.access_token
        },
        (Phase::EmittingThenFetch, PollerInput::EmitErr) => {
            &&& post.phase is Stopped
            &&& post.token == pre.token
            &&& act is Halt
        },
        (Phase::Fetching, PollerInput::FetchOk(snap)) => {
            if snap.album_images@.len() == 0 {
                &&& post.phase matches Phase::EmittingThenSleep(d) && d == FAILURE_DELAY_MS
                &&& post.token == pre.token
                &&& act matches PollerAction::Emit(PlaybackEvent::Failure(m)) && m@ == error_text(
                    ServiceError::MalformedSnapshot,
                )
            } else {
                &&& post.phase matches Phase::EmittingThenSleep(d) && d == spec_delay(
                    snap.duration_ms,
                    snap.progress_ms,
                )
                &&& post.token == pre.token
                &&& act matches PollerAction::Emit(PlaybackEvent::Success(song)) && song_matches(
                    song,
                    snap,
                )
            }
        },
        (Phase::Fetching, PollerInput::FetchNoContent) => {
            &&& post.phase is Sleeping
            &&& post.token == pre.token
            &&& act matches PollerAction::Sleep(d) && d == MAX_DELAY_MS
        },
        (Phase::Fetching, PollerInput::FetchErr) => {
            &&& post.phase matches Phase::EmittingThenSleep(d) && d == FAILURE_DELAY_MS
            &&& post.token == pre.token
            &&& act matches PollerAction::Emit(PlaybackEvent::Failure(m)) && m@ == error_text(
                ServiceError::UpstreamError,
            )
        },
        (Phase::EmittingThenSleep(d), PollerInput::EmitOk) => {
            &&& post.phase is Sleeping
            &&& post.token == pre.token
            &&& act matches PollerAction::Sleep(d2) && d2 == d
        },
        (Phase::EmittingThenSleep(_), PollerInput::EmitErr) => {
            &&& post.phase is Stopped
            &&& post.token == pre.token
            &&& act is Halt
        },
        (Phase::EmittingThenHalt, PollerInput::EmitOk) => {
            &&& post.phase is Stopped
            &&& post.token == pre.token
            &&& act is Halt
        },
        (Phase::EmittingThenHalt, PollerInput::EmitErr) => {
            &&& post.phase is Stopped
            &&& post.token == pre.token
            &&& act is Halt
        },
        (Phase::Sleeping, PollerInput::SleepDone) => {
            &&& pre.token matches Some(t)
            &&& decide_rel(t, now, post, act)
        },
        (Phase::Stopped, _) => {
            &&& post == pre
            &&& act is Halt
        },
        _ => false,
    }
}

impl Poller {
    /// The machine holds a credential in every phase that reads one.
    pub open spec fn wf(self) -> bool {
        match self.phase {
            Phase::Bootstrapping => true,
            Phase::EmittingThenHalt => true,
            Phase::Stopped => true,
            _ => self.token is Some,
        }
    }

    /// Whether `input` is the outcome of the action this phase is waiting
    /// on. The driver feeds back exactly what it was asked to do, so this
    /// holds by construction there.
    pub open spec fn accepts(self, input: PollerInput) -> bool {
        match (self.phase, input) {
            (Phase::Bootstrapping, PollerInput::LoadOk(_)) => true,
            (Phase::Bootstrapping, PollerInput::LoadErr(_)) => true,
            (Phase::Refreshing, PollerInput::RefreshOk(_)) => true,
            (Phase::Refreshing, PollerInput::RefreshErr) => true,
            (Phase::Upserting, PollerInput::UpsertOk) => true,
            (Phase::Upserting, PollerInput::UpsertErr) => true,
            (Phase::Fetching, PollerInput::FetchOk(_)) => true,
            (Phase::Fetching, PollerInput::FetchNoContent) => true,
            (Phase::Fetching, PollerInput::FetchErr) => true,
            (Phase::EmittingThenFetch, PollerInput::EmitOk) => true,
            (Phase::EmittingThenFetch, PollerInput::EmitErr) => true,
            (Phase::EmittingThenSleep(_), PollerInput::EmitOk) => true,
            (Phase::EmittingThenSleep(_), PollerInput::EmitErr) => true,
            (Phase::EmittingThenHalt, PollerInput::EmitOk) => true,
            (Phase::EmittingThenHalt, PollerInput::EmitErr) => true,
            (Phase::Sleeping, PollerInput::SleepDone) => true,
            (Phase::Stopped, _) => true,
            _ => false,
        }
    }

    /// A fresh poller for one subscription, about to load its credential.
    pub fn new() -> (r: Poller)
        ensures
            r.phase is Bootstrapping,
            r.token is None,
            r.wf(),
    {
        Poller { phase: Phase::Bootstrapping, token: None }
    }

    /// The first action of a fresh poller: load the subscriber's credential
    /// from the token store.
    pub fn start(&self) -> (act: PollerAction)
        requires
            self.phase is Bootstrapping,
        ensures
            act is LoadToken,
    {
        PollerAction::LoadToken
    }

    /// A decision point: entered with the session credential at the start of
    /// each cycle.
    fn decide(&mut self, t: TokenRecord, now: i64) -> (act: PollerAction)
        ensures
            decide_rel(t, now as int, *final(self), act),
            final(self).wf(),
    {
        if t.needs_refresh(now) {
            let refresh_token = t.refresh_token.clone();
            self.token = Some(t);
            self.phase = Phase::Refreshing;
            PollerAction::Refresh(refresh_token)
        } else {
            let access_token = t.access_token.clone();
            self.token = Some(t);
            self.phase = Phase::Fetching;
            PollerAction::Fetch(access_token)
        }
    }

    /// Consumes the outcome of the pending action at wall-clock second
    /// `now`, moves to the next phase, and answers with the next action.
    /// The machine is total over every outcome the outside world can
    /// produce; only a refresh lifetime that would push the stored expiry
    /// out of range is excluded, since the stored expiry could not hold it.
    pub fn step(&mut self, input: PollerInput, now: i64) -> (act: PollerAction)
        requires
            old(self).wf(),
            old(self).accepts(input),
            input matches PollerInput::RefreshOk(resp) ==> i64::MIN <= now + resp.expires_in
                <= i64::MAX,
        ensures
            step_rel(*old(self), input, now as int, *final(self), act),
            final(self).wf(),
    {
        let phase = self.phase;
        match (phase, input) {
            (Phase::Bootstrapping, PollerInput::LoadOk(t)) => self.decide(t, now),
            (Phase::Bootstrapping, PollerInput::LoadErr(e)) => {
                self.phase = Phase::EmittingThenHalt;
                PollerAction::Emit(PlaybackEvent::Failure(e.message()))
            },
            (Phase::Refreshing, PollerInput::RefreshOk(resp)) => {
                let refresh_token = self.token.as_ref().unwrap().refresh_token.clone();
                let expiry = ((now as i128) + (resp.expires_in as i128)) as i64;
                let record = TokenRecord {
                    access_token: resp.access_token,
                    expiry,
                    refresh_token,
                };
                let to_persist = record.clone();
                self.token = Some(record);
                self.phase = Phase::Upserting;
                PollerAction::Upsert(to_persist)
            },
            (Phase::Refreshing, PollerInput::RefreshErr) => {
                self.phase = Phase::EmittingThenFetch;
                PollerAction::Emit(PlaybackEvent::Failure(ServiceError::UpstreamError.message()))
            },
            (Phase::Upserting, PollerInput::UpsertOk) => {
                let access_token = self.token.as_ref().unwrap().access_token.clone();
                self.phase = Phase::Fetching;
                PollerAction::Fetch(access_token)
            },
            (Phase::Upserting, PollerInput::UpsertErr) => {
                self.phase = Phase::EmittingThenFetch;
                PollerAction::Emit(PlaybackEvent::Failure(ServiceError::StorageError.message()))
            },
            (Phase::EmittingThenFetch, PollerInput::EmitOk) => {
                let access_token = self.token.as_ref().unwrap().access_token.clone();
                self.phase = Phase::Fetching;
                PollerAction::Fetch(access_token)
            },
            (Phase::EmittingThenFetch, PollerInput::EmitErr) => {
                self.phase = Phase::Stopped;
                PollerAction::Halt
            },
            (Phase::Fetching, PollerInput::FetchOk(snap)) => {
                let success_delay = compute_delay(snap.duration_ms, snap.progress_ms);
                match build_song_response(snap) {
                    Ok(song) => {
                        self.phase = Phase::EmittingThenSleep(success_delay);
                        PollerAction::Emit(PlaybackEvent::Success(song))
                    },
                    Err(e) => {
                        self.phase = Phase::EmittingThenSleep(FAILURE_DELAY_MS);
                        PollerAction::Emit(PlaybackEvent::Failure(e.message()))
                    },
                }
            },
            (Phase::Fetching, PollerInput::FetchNoContent) => {
                self.phase = Phase::Sleeping;
                PollerAction::Sleep(MAX_DELAY_MS)
            },
            (Phase::Fetching, PollerInput::FetchErr) => {
                self.phase = Phase::EmittingThenSleep(FAILURE_DELAY_MS);
                PollerAction::Emit(PlaybackEvent::Failure(ServiceError::UpstreamError.message()))
            },
            (Phase::EmittingThenSleep(delay), PollerInput::EmitOk) => {
                self.phase = Phase::Sleeping;
                PollerAction::Sleep(delay)
            },
            (Phase::EmittingThenSleep(_), PollerInput::EmitErr) => {
                self.phase = Phase::Stopped;
                PollerAction::Halt
            },
            (Phase::EmittingThenHalt, PollerInput::EmitOk) => {
                self.phase = Phase::Stopped;
                PollerAction::Halt
            },
            (Phase::EmittingThenHalt, PollerInput::EmitErr) => {
                self.phase = Phase::Stopped;
                PollerAction::Halt
            },
            (Phase::Sleeping, PollerInput::SleepDone) => {
                let t = self.token.as_ref().unwrap().clone();
                self.decide(t, now)
            },
            (Phase::Stopped, _) => PollerAction::Halt,
            _ => unreached(),
        }
    }

    /// Advances the machine at the wall clock's current reading. Only a
    /// refresh lifetime that cannot be added to the current time without
    /// leaving the range of a stored expiry is refused — the machine is then
    /// left unchanged and no action is returned; every other input is
    /// stepped, whatever the clock reads.
    pub fn step_at_current_time(&mut self, input: PollerInput) -> (r: Option<PollerAction>)
        requires
            old(self).wf(),
            old(self).accepts(input),
        ensures
            (r matches Some(act) ==> exists|now: int|
                step_rel(*old(self), input, now, *final(self), act)),
            r is None ==> *final(self) == *old(self),
            r is None ==> input matches PollerInput::RefreshOk(_),
            final(self).wf(),
    {
        let now = crate::clock::now_timestamp();
        if let PollerInput::RefreshOk(resp) = &input {
            let sum = (now as i128) + (resp.expires_in as i128);
            if sum < i64::MIN as i128 || sum > i64::MAX as i128 {
                return None;
            }
        }
        let act = self.step(input, now);
        proof {
            assert(step_rel(*old(self), input, now as int, *self, act));
        }
        Some(act)
    }
}

/// A credential with at least sixty seconds before expiry is never
/// refreshed in the cycle it begins: the decision step goes straight to the
/// playback fetch.
pub proof fn lemma_fresh_credential_not_refreshed(
    pre: Poller,
    t: TokenRecord,
    now: int,
    post: Poller,
    act: PollerAction,
)
    requires
        pre.phase is Sleeping,
        pre.token == Some(t),
        t@.expiry - now >= REFRESH_MARGIN_SECONDS,
        step_rel(pre, PollerInput::SleepDone, now, post, act),
    ensures
        post.phase is Fetching,
        act matches PollerAction::Fetch(a) && a == t.access_token,
        !(act is Refresh),
{
}

/// The same at startup: a freshly loaded credential with at least sixty
/// seconds before expiry goes straight to the playback fetch.
pub proof fn lemma_fresh_credential_not_refreshed_at_bootstrap(
    pre: Poller,
    t: TokenRecord,
    now: int,
    post: Poller,
    act: PollerAction,
)
    requires
        pre.phase is Bootstrapping,
        t@.expiry - now >= REFRESH_MARGIN_SECONDS,
        step_rel(pre, PollerInput::LoadOk(t), now, post, act),
    ensures
        post.phase is Fetching,
        act matches PollerAction::Fetch(a) && a == t.access_token,
        !(act is Refresh),
{
}

/// A freshly loaded credential within sixty seconds of expiry is sent for
/// refresh before anything else is done with it.
pub proof fn lemma_stale_credential_refreshed_at_bootstrap(
    pre: Poller,
    t: TokenRecord,
    now: int,
    post: Poller,
    act: PollerAction,
)
    requires
        pre.phase is Bootstrapping,
        t@.expiry - now < REFRESH_MARGIN_SECONDS,
        step_rel(pre, PollerInput::LoadOk(t), now, post, act),
    ensures
        post.phase is Refreshing,
        act matches PollerAction::Refresh(rt) && rt == t.refresh_token,
{
}

/// A credential within sixty seconds of expiry is sent for refresh at the
/// decision step, with the session's refresh token.
pub proof fn lemma_stale_credential_refreshed(
    pre: Poller,
    t: TokenRecord,
    now: int,
    post: Poller,
    act: PollerAction,
)
    requires
        pre.phase is Sleeping,
        pre.token == Some(t),
        t@.expiry - now < REFRESH_MARGIN_SECONDS,
        step_rel(pre, PollerInput::SleepDone, now, post, act),
    ensures
        post.phase is Refreshing,
        act matches PollerAction::Refresh(rt) && rt == t.refresh_token,
{
}

/// A refresh is only ever issued at a decision point, and only for a
/// credential within sixty seconds of expiry — so each cycle refreshes at
/// most once, and a fresh credential is never refreshed.
pub proof fn lemma_refresh_only_at_decision(
    pre: Poller,
    input: PollerInput,
    now: int,
    post: Poller,
    act: PollerAction,
)
    requires
        step_rel(pre, input, now, post, act),
        act is Refresh,
    ensures
        pre.phase is Sleeping || pre.phase is Bootstrapping,
        pre.phase is Sleeping ==> (pre.token matches Some(t) && t@.expiry - now
            < REFRESH_MARGIN_SECONDS),
        pre.phase is Bootstrapping ==> (input matches PollerInput::LoadOk(t) && t@.expiry - now
            < REFRESH_MARGIN_SECONDS),
{
}

/// Once a refresh has been issued, the poller reaches the playback fetch
/// without issuing another: no step out of the refreshing, persisting or
/// reporting phases asks for a refresh, and none returns to a decision
/// point.
pub proof fn lemma_refresh_once_per_cycle(
    pre: Poller,
    input: PollerInput,
    now: int,
    post: Poller,
    act: PollerAction,
)
    requires
        pre.phase is Refreshing || pre.phase is Upserting || pre.phase is EmittingThenFetch,
        step_rel(pre, input, now, post, act),
    ensures
        !(act is Refresh),
        post.phase is Upserting || post.phase is EmittingThenFetch || post.phase is Fetching
            || post.phase is Stopped,
{
}

/// One upstream fetch failure is reported as exactly one failure event, and
/// the next poll is scheduled after the fixed failure delay, whatever the
/// track position was before.
pub proof fn lemma_fetch_failure_reported_once(
    pre: Poller,
    now: int,
    post: Poller,
    act: PollerAction,
)
    requires
        pre.phase is Fetching,
        step_rel(pre, PollerInput::FetchErr, now, post, act),
    ensures
        act matches PollerAction::Emit(PlaybackEvent::Failure(m)) && m@ == error_text(
            ServiceError::UpstreamError,
        ),
        post.phase matches Phase::EmittingThenSleep(d) && d == FAILURE_DELAY_MS,
        post.token == pre.token,
{
}

/// A failed emit — the subscriber has disconnected — stops the poller at
/// once, with no sleep and no further action.
pub proof fn lemma_disconnect_stops_poller(
    pre: Poller,
    now: int,
    post: Poller,
    act: PollerAction,
)
    requires
        pre.phase is EmittingThenFetch || pre.phase is EmittingThenSleep
            || pre.phase is EmittingThenHalt,
        step_rel(pre, PollerInput::EmitErr, now, post, act),
    ensures
        post.phase is Stopped,
        act is Halt,
{
}

/// A stopped poller performs no further upstream or storage work: every
/// subsequent step leaves it stopped and asks for nothing.
pub proof fn lemma_stopped_is_terminal(
    pre: Poller,
    input: PollerInput,
    now: int,
    post: Poller,
    act: PollerAction,
)
    requires
        pre.phase is Stopped,
        step_rel(pre, input, now, post, act),
    ensures
        post == pre,
        act is Halt,
{
}

} // verus!
