//! The outbound call client's decisions: pull the service's load balancer
//! from the cache, select an instance, and — once the surrounding task has
//! sent the request and classified what came back — update instance health
//! and decide between returning, backing off for a retry, and giving up.
//!
//! The HTTP exchange itself is outside work; the surrounding task hands its
//! outcome in as a plain value, so every decision here is under contract.

use vstd::prelude::*;
use vstd::arithmetic::power2::{lemma2_to64, lemma_pow2_strictly_increases, pow2};
use crate::cache::{BalancerLookup, TtlCache};

verus! {

/// How many attempts one outbound call may use.
pub const MAX_RETRIES: usize = 3;

/// The base of the exponential backoff, in milliseconds.
pub const BASE_DELAY_MS: u64 = 100;

/// How the surrounding task classified one attempt's exchange.
pub enum CallOutcome {
    /// A response arrived (any status but 503) and its body was read.
    Succeeded(String),
    /// The response status was 503: the instance asked not to be called.
    ServiceUnavailable,
    /// A response arrived but reading its body failed.
    BodyReadFailed(String),
    /// The request never completed: connection error or timeout.
    TransportFailed(String),
}

impl CallOutcome {
    pub open spec fn is_failure(self) -> bool {
        !(self is Succeeded)
    }
}

/// What to do at the start of an attempt.
pub enum CallStep {
    /// Send the request to this instance.
    Send { ip: String, port: u16 },
    /// Stop: no live load balancer is cached for the service.
    FailMissing,
    /// Stop: the balancer has no available instance.
    FailNoInstance,
    /// Stop: the attempt budget is spent.
    FailExhausted,
}

impl CallStep {
    /// The error text a terminal step surfaces to the caller.
    pub fn message(&self) -> (r: String)
        ensures
            self is FailMissing ==> r@ == "Failed to get SERVICE_URL"@,
            self is FailNoInstance ==> r@ == "Failed to get SERVICE_URL"@,
            self is FailExhausted ==> r@ == "请求重试已达上限"@,
    {
        match self {
            CallStep::Send { .. } => String::new(),
            CallStep::FailMissing => "Failed to get SERVICE_URL".to_owned(),
            CallStep::FailNoInstance => "Failed to get SERVICE_URL".to_owned(),
            CallStep::FailExhausted => "请求重试已达上限".to_owned(),
        }
    }
}

/// What to do after an attempt's outcome is in.
pub enum SettleStep {
    /// The call succeeded: return this body.
    Done(String),
    /// The attempt failed and budget remains: sleep this many milliseconds,
    /// then select afresh.
    RetryAfter(u64),
    /// The attempt failed and the budget is spent.
    FailExhausted,
}

/// The deterministic exponential backoff: the base delay doubled once per
/// attempt already made.
pub fn backoff_delay_ms(attempt: usize) -> (r: u64)
    requires
        attempt <= 56,
    ensures
        r == BASE_DELAY_MS * pow2(attempt as nat),
{
    proof {
        lemma2_to64();
    }
    let mut d: u64 = BASE_DELAY_MS;
    let mut t: usize = 0;
    while t < attempt
        invariant
            t <= attempt,
            attempt <= 56,
            d == BASE_DELAY_MS * pow2(t as nat),
        decreases attempt - t,
    {
        proof {
            vstd::arithmetic::power2::lemma2_to64_rest();
            if (t as nat) + 1 < 56 {
                lemma_pow2_strictly_increases((t + 1) as nat, 56nat);
            }
            assert(pow2((t + 1) as nat) == 2 * pow2(t as nat)) by {
                vstd::arithmetic::power2::lemma_pow2_unfold((t + 1) as nat);
            }
            assert(pow2((t + 1) as nat) <= pow2(56));
        }
        d = d * 2;
        t += 1;
    }
    d
}

/// One outbound call's progress through its attempt budget.
pub struct OutboundCall {
    /// Attempts begun so far.
    pub attempt: usize,
    /// The budget.
    pub max_retries: usize,
}

impl OutboundCall {
    /// A fresh call with the standard budget and no attempt made.
    pub fn new() -> (r: Self)
        ensures
            r.attempt == 0,
            r.max_retries == MAX_RETRIES,
    {
        OutboundCall { attempt: 0, max_retries: MAX_RETRIES }
    }

    /// Begin an attempt: charge the budget, then ask the cached balancer
    /// under `key` for an instance. A missing balancer and an empty
    /// available set are terminal; both still count the attempt.
    pub fn begin(&mut self, cache: &mut TtlCache, key: &String, now_ms: u64) -> (r: CallStep)
        requires
            old(cache).wf(),
        ensures
            final(cache).wf(),
            final(self).max_retries == old(self).max_retries,
            old(self).attempt >= old(self).max_retries ==> r is FailExhausted && *final(self)
                == *old(self) && *final(cache) == *old(cache),
            old(self).attempt < old(self).max_retries ==> final(self).attempt == old(self).attempt
                + 1 && ({
                let s = old(cache).model();
                let i = crate::cache::cache_index_of(s, key@);
                if i >= 0 && !crate::cache::entry_expired(s[i], now_ms)
                    && s[i].value is LoadBalance {
                    s[i].value matches crate::cache::CacheType::LoadBalance(lb) && ({
                        let avail = crate::load_balance::available_of(lb@.instances);
                        let t = final(cache).model();
                        t.len() == s.len() && (forall|j: int|
                            0 <= j < s.len() && j != i ==> t[j] == s[j]) && t[i].key == s[i].key
                            && t[i].policy == s[i].policy && t[i].inserted_at_ms
                            == s[i].inserted_at_ms && (t[i].value
                            matches crate::cache::CacheType::LoadBalance(lb2) && lb2@.service_name
                            == lb@.service_name && lb2@.instances == lb@.instances
                            && lb2.failed_counter == lb.failed_counter && (if avail.len() == 0 {
                            r is FailNoInstance && lb2.counter == lb.counter
                        } else {
                            lb2.counter == crate::load_balance::inc64(lb.counter) && (r
                                matches CallStep::Send { ip, port } && ip@ == avail[lb.counter
                                as int % avail.len() as int].ip && port == avail[lb.counter as int
                                % avail.len() as int].port)
                        }))
                    })
                } else {
                    r is FailMissing && final(cache).model() == s
                }
            }),
    {
        if self.attempt >= self.max_retries {
            return CallStep::FailExhausted;
        }
        self.attempt = self.attempt + 1;
        match cache.next_instance(key, now_ms) {
            BalancerLookup::Missing => CallStep::FailMissing,
            BalancerLookup::NoInstance => CallStep::FailNoInstance,
            BalancerLookup::Selected(inst) => CallStep::Send { ip: inst.ip, port: inst.port },
        }
    }

    /// Settle an attempt against its outcome: a success returns the body
    /// unchanged; any failure is charged to the contacted instance in the
    /// cached balancer, then either backed off and retried — the delay
    /// doubling with each attempt made — or, with the budget spent,
    /// surfaced as exhausted.
    pub fn settle(
        &mut self,
        cache: &mut TtlCache,
        key: &String,
        ip: &String,
        port: u16,
        outcome: CallOutcome,
        now_ms: u64,
    ) -> (r: SettleStep)
        requires
            old(cache).wf(),
            old(self).attempt <= 56,
        ensures
            final(cache).wf(),
            *final(self) == *old(self),
            (outcome matches CallOutcome::Succeeded(body) ==> r == SettleStep::Done(body)
                && *final(cache) == *old(cache)),
            outcome.is_failure() ==> ({
                let s = old(cache).model();
                let t = final(cache).model();
                let i = crate::cache::cache_index_of(s, key@);
                (!(i >= 0 && !crate::cache::entry_expired(s[i], now_ms)
                    && s[i].value is LoadBalance) ==> t == s) && ((i >= 0
                    && !crate::cache::entry_expired(s[i], now_ms) && s[i].value is LoadBalance)
                    ==> (s[i].value matches crate::cache::CacheType::LoadBalance(lb) && t.len()
                    == s.len() && (forall|j: int| 0 <= j < s.len() && j != i ==> t[j] == s[j])
                    && t[i].key == s[i].key && t[i].policy == s[i].policy && t[i].inserted_at_ms
                    == s[i].inserted_at_ms && (t[i].value
                    matches crate::cache::CacheType::LoadBalance(lb2) && lb2@.service_name
                    == lb@.service_name && lb2.counter == lb.counter && lb2.failed_counter
                    == lb.failed_counter && lb2@.instances.len() == lb@.instances.len() && (forall|
                    j: int|
                    0 <= j < lb@.instances.len() ==> lb2@.instances[j] == (if (
                    #[trigger] lb@.instances[j]).ip == ip@ && lb@.instances[j].port == port {
                        crate::load_balance::failed_step(lb@.instances[j], now_ms)
                    } else {
                        lb@.instances[j]
                    }))))) && (if old(self).attempt < old(self).max_retries {
                    r matches SettleStep::RetryAfter(d) && d == BASE_DELAY_MS * pow2(
                        old(self).attempt as nat,
                    )
                } else {
                    r is FailExhausted
                })
            }),
    {
        match outcome {
            CallOutcome::Succeeded(body) => SettleStep::Done(body),
            CallOutcome::ServiceUnavailable
            | CallOutcome::BodyReadFailed(_)
            | CallOutcome::TransportFailed(_) => {
                let _found = cache.report_instance_failure(key, ip, port, now_ms);
                if self.attempt < self.max_retries {
                    SettleStep::RetryAfter(backoff_delay_ms(self.attempt))
                } else {
                    SettleStep::FailExhausted
                }
            },
        }
    }
}

} // verus!
