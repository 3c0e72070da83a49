//! The relay session manager.
//!
//! A manager owns a fixed pool of relay endpoints. It hands them out in
//! round-robin order, skipping an endpoint until its back-off has run out,
//! and keeps a health score and a failure count for each. Time is a count
//! of milliseconds that the caller reads from a monotonic clock.

use crate::endpoint::{to_ws_endpoint, ws_endpoint};
use vstd::arithmetic::power2::{lemma2_to64, lemma_pow2_unfold, pow2};
use vstd::prelude::*;

verus! {

/// How a manager scores endpoints and spaces out retries.
#[derive(Clone, Copy, Debug, PartialEq, Eq)]
pub struct RelaySessionConfig {
    /// Back-off after the first failure, in milliseconds.
    pub base_backoff: u64,
    /// Longest back-off, in milliseconds.
    pub max_backoff: u64,
    /// Lowest health score a failure can lead to.
    pub min_health_score: i32,
    /// Highest health score a success can lead to.
    pub max_health_score: i32,
}

impl Default for RelaySessionConfig {
    fn default() -> (config: Self)
        ensures
            config.base_backoff == 1_000,
            config.max_backoff == 60_000,
            config.min_health_score == -10,
            config.max_health_score == 10,
    {
        RelaySessionConfig {
            base_backoff: 1_000,
            max_backoff: 60_000,
            min_health_score: -10,
            max_health_score: 10,
        }
    }
}

/// One relay of the pool and what the manager knows of it.
#[derive(Debug, Clone, PartialEq, Eq)]
pub struct ManagedRelayEndpoint {
    pub relay_http: String,
    pub relay_ws: String,
    pub auth_token: Option<String>,
    pub health_score: i32,
    pub consecutive_failures: u32,
    /// Earliest time of the next attempt, in milliseconds.
    pub next_attempt_at: u64,
}

/// The endpoint a caller is to try next.
#[derive(Debug, Clone, PartialEq, Eq)]
pub struct RelaySelection {
    pub relay_slot: usize,
    pub relay_http: String,
    pub relay_ws: String,
    pub auth_token: Option<String>,
}

/// A pool of relay endpoints with a rotating cursor.
#[derive(Debug)]
pub struct RelaySessionManager {
    config: RelaySessionConfig,
    relays: Vec<ManagedRelayEndpoint>,
    rr_cursor: usize,
}

/// Model of a [`ManagedRelayEndpoint`].
pub struct EndpointView {
    pub relay_http: Seq<char>,
    pub relay_ws: Seq<char>,
    pub auth_token: Option<Seq<char>>,
    pub health_score: int,
    pub consecutive_failures: nat,
    pub next_attempt_at: nat,
}

/// Model of a [`RelaySessionManager`].
pub struct ManagerView {
    pub config: RelaySessionConfig,
    pub relays: Seq<EndpointView>,
    pub cursor: nat,
}

/// The model of an optional token.
pub open spec fn token_view(token: Option<String>) -> Option<Seq<char>> {
    match token {
        Some(token) => Some(token@),
        None => None,
    }
}

impl View for ManagedRelayEndpoint {
    type V = EndpointView;

    open spec fn view(&self) -> EndpointView {
        EndpointView {
            relay_http: self.relay_http@,
            relay_ws: self.relay_ws@,
            auth_token: token_view(self.auth_token),
            health_score: self.health_score as int,
            consecutive_failures: self.consecutive_failures as nat,
            next_attempt_at: self.next_attempt_at as nat,
        }
    }
}

/// The models of a run of endpoints.
pub open spec fn endpoint_views(relays: Seq<ManagedRelayEndpoint>) -> Seq<EndpointView> {
    Seq::new(relays.len(), |i: int| relays[i]@)
}

/// `base` doubled `doublings` times.
pub open spec fn doubled(base: nat, doublings: nat) -> nat
    decreases doublings,
{
    if doublings == 0 {
        base
    } else {
        2 * doubled(base, (doublings - 1) as nat)
    }
}

/// The back-off after `failures` consecutive failures: the base back-off
/// doubled once for every failure after the first, capped at the maximum.
pub open spec fn backoff_ms(config: RelaySessionConfig, failures: nat) -> nat {
    let doublings = if failures > 0 {
        (failures - 1) as nat
    } else {
        0
    };
    let grown = doubled(config.base_backoff as nat, doublings);
    if grown < config.max_backoff {
        grown
    } else {
        config.max_backoff as nat
    }
}

/// A relay as it enters the pool at time `now`: eligible at once, with a
/// neutral score and no token.
pub open spec fn fresh_endpoint(relay_http: Seq<char>, now: nat) -> EndpointView {
    EndpointView {
        relay_http,
        relay_ws: ws_endpoint(relay_http),
        auth_token: None,
        health_score: 0,
        consecutive_failures: 0,
        next_attempt_at: now,
    }
}

/// A relay after a success at time `now`.
pub open spec fn after_success(
    relay: EndpointView,
    config: RelaySessionConfig,
    now: nat,
) -> EndpointView {
    EndpointView {
        consecutive_failures: 0,
        health_score: if relay.health_score < config.max_health_score {
            relay.health_score + 1
        } else {
            config.max_health_score as int
        },
        next_attempt_at: now,
        ..relay
    }
}

/// The failure count after one more failure. It stops at `u32::MAX`.
pub open spec fn failures_after(failures: nat) -> nat {
    if failures < u32::MAX {
        failures + 1
    } else {
        failures
    }
}

/// The time `delay` milliseconds after `now`, or the last time there is.
pub open spec fn deadline(now: nat, delay: nat) -> nat {
    if now + delay <= u64::MAX {
        now + delay
    } else {
        u64::MAX as nat
    }
}

/// A relay after a failure at time `now`.
pub open spec fn after_failure(
    relay: EndpointView,
    config: RelaySessionConfig,
    now: nat,
) -> EndpointView {
    let failures = failures_after(relay.consecutive_failures);
    EndpointView {
        consecutive_failures: failures,
        health_score: if relay.health_score > config.min_health_score {
            relay.health_score - 1
        } else {
            config.min_health_score as int
        },
        next_attempt_at: deadline(now, backoff_ms(config, failures)),
        ..relay
    }
}

/// A relay may be tried at time `now`.
pub open spec fn eligible(relay: EndpointView, now: nat) -> bool {
    relay.next_attempt_at <= now
}

/// No relay of the pool may be tried at time `now`.
pub open spec fn all_backed_off(pool: ManagerView, now: nat) -> bool {
    forall|i: int| 0 <= i < pool.relays.len() ==> !eligible(#[trigger] pool.relays[i], now)
}

/// The slot `offset` places after `cursor` in a ring of `len` slots.
pub open spec fn rotated(cursor: nat, offset: nat, len: nat) -> nat {
    if cursor + offset < len {
        cursor + offset
    } else {
        (cursor + offset - len) as nat
    }
}

/// `slot` is the first slot, going round from the cursor, whose relay may
/// be tried at time `now`.
pub open spec fn is_next_eligible(pool: ManagerView, now: nat, slot: nat) -> bool {
    exists|offset: nat|
        {
            &&& offset < pool.relays.len()
            &&& slot == #[trigger] rotated(pool.cursor, offset, pool.relays.len())
            &&& eligible(pool.relays[slot as int], now)
            &&& forall|earlier: nat|
                earlier < offset ==> !eligible(
                    pool.relays[#[trigger] rotated(pool.cursor, earlier, pool.relays.len()) as int],
                    now,
                )
        }
}

/// The pool with `relay` in the place of the relay in `slot`.
pub open spec fn with_relay(pool: ManagerView, slot: int, relay: EndpointView) -> ManagerView {
    ManagerView { relays: pool.relays.update(slot, relay), ..pool }
}

/// The cursor points into the pool, or the pool is empty.
pub open spec fn well_formed(pool: ManagerView) -> bool {
    pool.cursor < pool.relays.len() || (pool.cursor == 0 && pool.relays.len() == 0)
}

/// Every health score lies between the configured bounds.
pub open spec fn scores_in_bounds(pool: ManagerView) -> bool {
    forall|i: int|
        0 <= i < pool.relays.len() ==> pool.config.min_health_score <= (
        #[trigger] pool.relays[i]).health_score <= pool.config.max_health_score
}

/// `selection` names `slot` and carries what the pool holds for it.
pub open spec fn selects(selection: RelaySelection, relay: EndpointView, slot: nat) -> bool {
    &&& selection.relay_slot == slot
    &&& selection.relay_http@ == relay.relay_http
    &&& selection.relay_ws@ == relay.relay_ws
    &&& token_view(selection.auth_token) == relay.auth_token
}

fn clone_token(token: &Option<String>) -> (copy: Option<String>)
    ensures
        copy == *token,
{
    match token {
        Some(token) => Some(token.clone()),
        None => None,
    }
}

/// Computes the back-off after `failures` consecutive failures.
pub fn backoff_after(config: &RelaySessionConfig, failures: u32) -> (delay: u64)
    ensures
        delay == backoff_ms(*config, failures as nat),
{
    let max = config.max_backoff;
    let mut grown: u64 = config.base_backoff;
    if grown == 0 || failures <= 1 {
        proof {
            lemma_doubled_zero(if failures > 0 {
                (failures - 1) as nat
            } else {
                0
            });
        }
        return if grown < max {
            grown
        } else {
            max
        };
    }
    let doublings: u32 = failures - 1;
    let mut done: u32 = 0;
    while done < doublings && grown < max
        invariant
            done <= doublings == failures - 1,
            grown == doubled(config.base_backoff as nat, done as nat),
            grown > 0,
            max == config.max_backoff,
        decreases doublings - done,
    {
        if grown > max / 2 {
            proof {
                assert(doubled(config.base_backoff as nat, (done + 1) as nat) == 2 * grown);
                lemma_doubled_increases(
                    config.base_backoff as nat,
                    (done + 1) as nat,
                    doublings as nat,
                );
            }
            return max;
        }
        grown = grown * 2;
        done = done + 1;
    }
    proof {
        lemma_doubled_increases(config.base_backoff as nat, done as nat, doublings as nat);
    }
    if grown < max {
        grown
    } else {
        max
    }
}

impl View for RelaySessionManager {
    type V = ManagerView;

    closed spec fn view(&self) -> ManagerView {
        ManagerView {
            config: self.config,
            relays: endpoint_views(self.relays@),
            cursor: self.rr_cursor as nat,
        }
    }
}

impl RelaySessionManager {
    #[verifier::type_invariant]
    spec fn cursor_in_pool(self) -> bool {
        self.rr_cursor < self.relays.len() || (self.rr_cursor == 0 && self.relays.len() == 0)
    }

    /// A manager for the relays at `relay_http_endpoints`, in that order,
    /// all eligible from `now_ms` on.
    pub fn new(
        relay_http_endpoints: Vec<String>,
        config: RelaySessionConfig,
        now_ms: u64,
    ) -> (manager: Self)
        ensures
            well_formed(manager@),
            manager@.config == config,
            manager@.cursor == 0,
            manager@.relays.len() == relay_http_endpoints.len(),
            forall|i: int|
                0 <= i < relay_http_endpoints.len() ==> #[trigger] manager@.relays[i]
                    == fresh_endpoint(relay_http_endpoints[i]@, now_ms as nat),
            config.min_health_score <= 0 <= config.max_health_score ==> scores_in_bounds(manager@),
    {
        let mut relays: Vec<ManagedRelayEndpoint> = Vec::new();
        let mut i: usize = 0;
        while i < relay_http_endpoints.len()
            invariant
                i <= relay_http_endpoints.len(),
                relays.len() == i,
                forall|k: int|
                    0 <= k < i ==> (#[trigger] relays[k])@ == fresh_endpoint(
                        relay_http_endpoints[k]@,
                        now_ms as nat,
                    ),
            decreases relay_http_endpoints.len() - i,
        {
            let relay_http = relay_http_endpoints[i].clone();
            let relay_ws = to_ws_endpoint(relay_http.as_str());
            relays.push(
                ManagedRelayEndpoint {
                    relay_http,
                    relay_ws,
                    auth_token: None,
                    health_score: 0,
                    consecutive_failures: 0,
                    next_attempt_at: now_ms,
                },
            );
            i = i + 1;
        }
        RelaySessionManager { config, relays, rr_cursor: 0 }
    }

    /// Sets or clears the bearer token of the relay in `relay_slot`. A slot
    /// outside the pool is ignored.
    pub fn set_auth_token(&mut self, relay_slot: usize, auth_token: Option<String>)
        ensures
            well_formed(final(self)@),
            relay_slot < old(self)@.relays.len() ==> final(self)@ == with_relay(
                old(self)@,
                relay_slot as int,
                (EndpointView {
                    auth_token: token_view(auth_token),
                    ..old(self)@.relays[relay_slot as int]
                }),
            ),
            relay_slot >= old(self)@.relays.len() ==> final(self)@ == old(self)@,
    {
        proof {
            use_type_invariant(&*self);
        }
        if relay_slot < self.relays.len() {
            self.relays[relay_slot].auth_token = auth_token;
            assert(self@.relays =~= old(self)@.relays.update(
                relay_slot as int,
                (EndpointView {
                    auth_token: token_view(auth_token),
                    ..old(self)@.relays[relay_slot as int]
                }),
            ));
        }
    }

    /// Hands out the next relay that may be tried at `now_ms`, going round
    /// from the cursor, and moves the cursor past it. Returns `None`, and
    /// changes nothing, when every relay is backed off.
    pub fn select_relay(&mut self, now_ms: u64) -> (r: Option<RelaySelection>)
        ensures
            well_formed(final(self)@),
            final(self)@.config == old(self)@.config,
            final(self)@.relays == old(self)@.relays,
            r is None <==> all_backed_off(old(self)@, now_ms as nat),
            match r {
                Some(selection) => {
                    &&& selection.relay_slot < old(self)@.relays.len()
                    &&& is_next_eligible(old(self)@, now_ms as nat, selection.relay_slot as nat)
                    &&& selects(
                        selection,
                        old(self)@.relays[selection.relay_slot as int],
                        selection.relay_slot as nat,
                    )
                    &&& final(self)@.cursor == rotated(
                        selection.relay_slot as nat,
                        1,
                        old(self)@.relays.len(),
                    )
                },
                None => final(self)@ == old(self)@,
            },
    {
        proof {
            use_type_invariant(&*self);
        }
        let len = self.relays.len();
        if len == 0 {
            return None;
        }
        let ghost pool = self@;
        let mut offset: usize = 0;
        let mut idx: usize = self.rr_cursor;
        while offset < len
            invariant
                offset <= len == self.relays.len(),
                len > 0,
                self@ == pool,
                pool == old(self)@,
                pool.relays.len() == len,
                pool.cursor < len,
                offset < len ==> idx == rotated(pool.cursor, offset as nat, len as nat),
                forall|earlier: nat|
                    earlier < offset ==> !eligible(
                        pool.relays[#[trigger] rotated(pool.cursor, earlier, len as nat) as int],
                        now_ms as nat,
                    ),
            decreases len - offset,
        {
            let relay = &self.relays[idx];
            if relay.next_attempt_at <= now_ms {
                let selection = RelaySelection {
                    relay_slot: idx,
                    relay_http: relay.relay_http.clone(),
                    relay_ws: relay.relay_ws.clone(),
                    auth_token: clone_token(&relay.auth_token),
                };
                proof {
                    assert(pool.relays[idx as int] == self.relays[idx as int]@);
                    assert(idx == rotated(pool.cursor, offset as nat, len as nat));
                }
                self.rr_cursor = if idx + 1 == len {
                    0
                } else {
                    idx + 1
                };
                assert(self@.relays == pool.relays);
                return Some(selection);
            }
            proof {
                assert(pool.relays[idx as int] == self.relays[idx as int]@);
            }
            offset = offset + 1;
            idx = if idx + 1 == len {
                0
            } else {
                idx + 1
            };
        }
        proof {
            assert forall|i: int| 0 <= i < len implies !eligible(
                #[trigger] pool.relays[i],
                now_ms as nat,
            ) by {
                let back: nat = if i >= pool.cursor {
                    (i - pool.cursor) as nat
                } else {
                    (i + len - pool.cursor) as nat
                };
                assert(rotated(pool.cursor, back, len as nat) == i);
            }
        }
        None
    }

    /// Records that the attempt on `relay_slot` succeeded at `now_ms`: the
    /// failure count goes back to zero, the health score goes up by one
    /// unless it is at the ceiling, and the relay may be tried again at
    /// once. A slot outside the pool is ignored.
    pub fn mark_success(&mut self, relay_slot: usize, now_ms: u64)
        ensures
            well_formed(final(self)@),
            relay_slot < old(self)@.relays.len() ==> final(self)@ == with_relay(
                old(self)@,
                relay_slot as int,
                after_success(
                    old(self)@.relays[relay_slot as int],
                    old(self)@.config,
                    now_ms as nat,
                ),
            ),
            relay_slot >= old(self)@.relays.len() ==> final(self)@ == old(self)@,
            scores_in_bounds(old(self)@) ==> scores_in_bounds(final(self)@),
    {
        proof {
            use_type_invariant(&*self);
        }
        if relay_slot < self.relays.len() {
            let ceiling = self.config.max_health_score;
            let score = self.relays[relay_slot].health_score;
            let raised = if score < ceiling {
                score + 1
            } else {
                ceiling
            };
            self.relays[relay_slot].consecutive_failures = 0;
            self.relays[relay_slot].health_score = raised;
            self.relays[relay_slot].next_attempt_at = now_ms;
            assert(self@.relays =~= old(self)@.relays.update(
                relay_slot as int,
                after_success(
                    old(self)@.relays[relay_slot as int],
                    old(self)@.config,
                    now_ms as nat,
                ),
            ));
            proof {
                if scores_in_bounds(old(self)@) {
                    assert(old(self)@.config.min_health_score <= old(
                        self,
                    )@.relays[relay_slot as int].health_score);
                }
            }
        }
    }

    /// Records that the attempt on `relay_slot` failed at `now_ms`: the
    /// failure count goes up by one, the health score goes down by one
    /// unless it is at the floor, and the relay is backed off for
    /// `backoff_ms` milliseconds. A slot outside the pool is ignored.
    pub fn mark_failure(&mut self, relay_slot: usize, now_ms: u64)
        ensures
            well_formed(final(self)@),
            relay_slot < old(self)@.relays.len() ==> final(self)@ == with_relay(
                old(self)@,
                relay_slot as int,
                after_failure(
                    old(self)@.relays[relay_slot as int],
                    old(self)@.config,
                    now_ms as nat,
                ),
            ),
            relay_slot >= old(self)@.relays.len() ==> final(self)@ == old(self)@,
            scores_in_bounds(old(self)@) ==> scores_in_bounds(final(self)@),
    {
        proof {
            use_type_invariant(&*self);
        }
        if relay_slot < self.relays.len() {
            let floor = self.config.min_health_score;
            let score = self.relays[relay_slot].health_score;
            let lowered = if score > floor {
                score - 1
            } else {
                floor
            };
            let failures = self.relays[relay_slot].consecutive_failures.saturating_add(1);
            let backoff = backoff_after(&self.config, failures);
            self.relays[relay_slot].consecutive_failures = failures;
            self.relays[relay_slot].health_score = lowered;
            self.relays[relay_slot].next_attempt_at = now_ms.saturating_add(backoff);
            assert(self@.relays =~= old(self)@.relays.update(
                relay_slot as int,
                after_failure(
                    old(self)@.relays[relay_slot as int],
                    old(self)@.config,
                    now_ms as nat,
                ),
            ));
            proof {
                if scores_in_bounds(old(self)@) {
                    assert(old(self)@.relays[relay_slot as int].health_score <= old(
                        self,
                    )@.config.max_health_score);
                }
            }
        }
    }

    /// The relays of the pool, in slot order.
    pub fn relays(&self) -> (relays: &[ManagedRelayEndpoint])
        ensures
            endpoint_views(relays@) == self@.relays,
    {
        self.relays.as_slice()
    }
}

/// Doubling zero gives zero.
pub proof fn lemma_doubled_zero(doublings: nat)
    ensures
        doubled(0, doublings) == 0,
    decreases doublings,
{
    if doublings > 0 {
        lemma_doubled_zero((doublings - 1) as nat);
    }
}

/// Doubling more often never gives less.
pub proof fn lemma_doubled_increases(base: nat, fewer: nat, more: nat)
    requires
        fewer <= more,
    ensures
        doubled(base, fewer) <= doubled(base, more),
    decreases more,
{
    if fewer < more {
        lemma_doubled_increases(base, fewer, (more - 1) as nat);
    }
}

/// Doubling `doublings` times multiplies by two to the power `doublings`.
pub proof fn lemma_doubled_is_power(base: nat, doublings: nat)
    ensures
        doubled(base, doublings) == base * pow2(doublings),
    decreases doublings,
{
    if doublings == 0 {
        lemma2_to64();
    } else {
        lemma_doubled_is_power(base, (doublings - 1) as nat);
        lemma_pow2_unfold(doublings);
        assert(base * (2 * pow2((doublings - 1) as nat)) == 2 * (base * pow2(
            (doublings - 1) as nat,
        ))) by (nonlinear_arith);
    }
}

/// The back-off is the base back-off times two to the power of the
/// failures after the first, unless that exceeds the cap.
pub proof fn lemma_backoff_formula(config: RelaySessionConfig, failures: nat)
    requires
        failures >= 1,
    ensures
        backoff_ms(config, failures) == if config.base_backoff * pow2((failures - 1) as nat)
            < config.max_backoff {
            config.base_backoff * pow2((failures - 1) as nat)
        } else {
            config.max_backoff as int
        },
{
    lemma_doubled_is_power(config.base_backoff as nat, (failures - 1) as nat);
}

/// The back-off never exceeds the configured cap.
pub proof fn lemma_backoff_within_cap(config: RelaySessionConfig, failures: nat)
    ensures
        backoff_ms(config, failures) <= config.max_backoff,
{
}

/// One more failure never shortens the back-off, and lengthens it as long
/// as the cap is not reached.
pub proof fn lemma_backoff_grows(config: RelaySessionConfig, failures: nat)
    requires
        failures >= 1,
    ensures
        backoff_ms(config, failures) <= backoff_ms(config, failures + 1),
        config.base_backoff > 0 && backoff_ms(config, failures) < config.max_backoff
            ==> backoff_ms(config, failures) < backoff_ms(config, failures + 1),
{
    let base = config.base_backoff as nat;
    assert(doubled(base, failures) == 2 * doubled(base, (failures - 1) as nat));
    if base > 0 {
        lemma_doubled_increases(base, 0, (failures - 1) as nat);
    }
}

/// With a base back-off above zero, enough failures in a row bring the
/// back-off to the cap, where it stays.
pub proof fn lemma_backoff_reaches_cap(config: RelaySessionConfig, failures: nat)
    requires
        config.base_backoff > 0,
        failures >= 65,
    ensures
        backoff_ms(config, failures) == config.max_backoff,
{
    let base = config.base_backoff as nat;
    lemma_doubled_is_power(base, 64);
    lemma2_to64();
    assert(base * pow2(64) >= pow2(64)) by (nonlinear_arith)
        requires
            base >= 1,
    ;
    lemma_doubled_increases(base, 64, (failures - 1) as nat);
}

/// A relay that just failed is not eligible at the time of the failure,
/// as long as the back-off is above zero.
pub proof fn lemma_failure_backs_off(relay: EndpointView, config: RelaySessionConfig, now: nat)
    requires
        config.base_backoff > 0,
        config.max_backoff > 0,
        now < u64::MAX,
    ensures
        !eligible(after_failure(relay, config, now), now),
        after_failure(relay, config, now).next_attempt_at - now <= config.max_backoff,
{
    let failures = failures_after(relay.consecutive_failures);
    lemma_doubled_increases(config.base_backoff as nat, 0, (failures - 1) as nat);
}

/// A relay that just succeeded is eligible at once.
pub proof fn lemma_success_restores(relay: EndpointView, config: RelaySessionConfig, now: nat)
    ensures
        eligible(after_success(relay, config, now), now),
        after_success(relay, config, now).consecutive_failures == 0,
{
}

/// At most one slot is the next eligible one: the contract of
/// `select_relay` leaves no choice.
pub proof fn lemma_next_eligible_is_unique(pool: ManagerView, now: nat, first: nat, second: nat)
    requires
        is_next_eligible(pool, now, first),
        is_next_eligible(pool, now, second),
    ensures
        first == second,
{
    let len = pool.relays.len();
    let a = choose|offset: nat|
        {
            &&& offset < len
            &&& first == #[trigger] rotated(pool.cursor, offset, len)
            &&& eligible(pool.relays[first as int], now)
            &&& forall|earlier: nat|
                earlier < offset ==> !eligible(
                    pool.relays[#[trigger] rotated(pool.cursor, earlier, len) as int],
                    now,
                )
        };
    let b = choose|offset: nat|
        {
            &&& offset < len
            &&& second == #[trigger] rotated(pool.cursor, offset, len)
            &&& eligible(pool.relays[second as int], now)
            &&& forall|earlier: nat|
                earlier < offset ==> !eligible(
                    pool.relays[#[trigger] rotated(pool.cursor, earlier, len) as int],
                    now,
                )
        };
    if a < b {
        assert(!eligible(pool.relays[rotated(pool.cursor, a, len) as int], now));
    } else if b < a {
        assert(!eligible(pool.relays[rotated(pool.cursor, b, len) as int], now));
    }
}

/// Fail-over: while the relay in `failed` is backed off, selection passes
/// it by. In a pool where another relay is eligible, that one is chosen.
pub proof fn lemma_selection_skips_backed_off(pool: ManagerView, now: nat, failed: nat, chosen: nat)
    requires
        failed < pool.relays.len(),
        !eligible(pool.relays[failed as int], now),
        is_next_eligible(pool, now, chosen),
    ensures
        chosen != failed,
        eligible(pool.relays[chosen as int], now),
{
}

/// Starting at the cursor itself: when the relay under the cursor is
/// eligible, it is the one selected.
pub proof fn lemma_cursor_first(pool: ManagerView, now: nat)
    requires
        well_formed(pool),
        pool.relays.len() > 0,
        eligible(pool.relays[pool.cursor as int], now),
    ensures
        is_next_eligible(pool, now, pool.cursor),
{
    assert(pool.cursor == rotated(pool.cursor, 0, pool.relays.len()));
}

} // verus!
