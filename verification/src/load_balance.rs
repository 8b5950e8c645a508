//! Per-service load balancing with a consecutive-failure circuit breaker.
//!
//! A `LoadBalance` holds the known instances of one service, selects the next
//! available instance by round robin, counts consecutive failures per
//! instance, trips an instance after too many failures, and re-enables it
//! once a cooldown has elapsed. All time-dependent transitions take the
//! current clock value (milliseconds) as an argument, so their behaviour is
//! fully captured by the contracts.

use vstd::prelude::*;

verus! {

/// Cooldown: an unavailable instance is reset once this much time (ms) has
/// passed since its last recorded failure.
pub const REENABLE_DELAY_MS: u64 = 5000;

/// An instance whose consecutive-failure count exceeds this threshold is
/// made unavailable.
pub const MAX_FAILED_TIMES: u64 = 15;

/// How often (ms) the discovery poller refreshes the instance lists.
pub const REFRESH_INSTANCES_INTERVAL: u64 = 3000;

/// One network-reachable endpoint of a service, with its health state.
/// Identity is the pair (ip, port).
#[derive(Debug)]
pub struct Instance {
    pub ip: String,
    pub port: u16,
    /// Consecutive failures observed against this instance.
    pub failed_counter: u64,
    /// Whether the instance takes part in selection.
    pub pod_is_available: bool,
    /// Clock value (ms) of the failure that tripped the breaker; 0 when not tripped.
    pub last_failed_time: u64,
}

/// Mathematical image of an `Instance`.
pub ghost struct InstanceView {
    pub ip: Seq<char>,
    pub port: u16,
    pub failed_counter: u64,
    pub pod_is_available: bool,
    pub last_failed_time: u64,
}

impl View for Instance {
    type V = InstanceView;

    open spec fn view(&self) -> InstanceView {
        InstanceView {
            ip: self.ip@,
            port: self.port,
            failed_counter: self.failed_counter,
            pod_is_available: self.pod_is_available,
            last_failed_time: self.last_failed_time,
        }
    }
}

/// A counter increment that wraps at the machine limit, as the atomic
/// increment of the running system does.
pub open spec fn inc64(x: u64) -> u64 {
    if x == u64::MAX {
        0u64
    } else {
        (x + 1) as u64
    }
}

/// The failure transition: one more consecutive failure at clock `now_ms`,
/// tripping the breaker when the count passes `MAX_FAILED_TIMES`.
pub open spec fn failed_step(iv: InstanceView, now_ms: u64) -> InstanceView {
    let bumped = InstanceView { failed_counter: inc64(iv.failed_counter), ..iv };
    if iv.pod_is_available && inc64(iv.failed_counter) > MAX_FAILED_TIMES {
        InstanceView { pod_is_available: false, last_failed_time: now_ms, ..bumped }
    } else {
        bumped
    }
}

/// The reset transition: failure count cleared and the instance re-enabled,
/// a no-op when no failure was recorded.
pub open spec fn reset_step(iv: InstanceView) -> InstanceView {
    if iv.failed_counter > 0 {
        InstanceView { failed_counter: 0u64, pod_is_available: true, last_failed_time: 0u64, ..iv }
    } else {
        iv
    }
}

/// Whether the cooldown for an unavailable instance has elapsed at clock `now_ms`.
pub open spec fn cooldown_elapsed(iv: InstanceView, now_ms: u64) -> bool {
    now_ms >= iv.last_failed_time && now_ms - iv.last_failed_time > REENABLE_DELAY_MS
}

/// The re-enable sweep's per-instance transition at clock `now_ms`.
pub open spec fn reenable_step(iv: InstanceView, now_ms: u64) -> InstanceView {
    if !iv.pod_is_available && cooldown_elapsed(iv, now_ms) {
        reset_step(iv)
    } else {
        iv
    }
}

impl Instance {
    /// A fresh, healthy instance at the given endpoint.
    pub fn new(ip: String, port: u16) -> (r: Self)
        ensures
            r@ == (InstanceView {
                ip: ip@,
                port: port,
                failed_counter: 0u64,
                pod_is_available: true,
                last_failed_time: 0u64,
            }),
    {
        Instance { ip, port, failed_counter: 0, pod_is_available: true, last_failed_time: 0 }
    }

    /// Record one more consecutive failure, observed at clock `now_ms`;
    /// trips the breaker once the count passes the threshold.
    pub fn add_failed_counter(&mut self, now_ms: u64)
        ensures
            final(self)@ == failed_step(old(self)@, now_ms),
    {
        self.failed_counter = self.failed_counter.wrapping_add(1);
        if self.pod_is_available {
            if self.failed_counter > MAX_FAILED_TIMES {
                self.pod_is_available = false;
                self.last_failed_time = now_ms;
            }
        }
    }

    /// Clear the failure count and make the instance available again;
    /// does nothing when no failure was recorded.
    pub fn reset_failed_counter(&mut self)
        ensures
            final(self)@ == reset_step(old(self)@),
    {
        if self.failed_counter > 0 {
            self.failed_counter = 0;
            self.pod_is_available = true;
            self.last_failed_time = 0;
        }
    }
}

impl Clone for Instance {
    fn clone(&self) -> (r: Self)
        ensures
            r@ == self@,
    {
        Instance {
            ip: self.ip.clone(),
            port: self.port,
            failed_counter: self.failed_counter,
            pod_is_available: self.pod_is_available,
            last_failed_time: self.last_failed_time,
        }
    }
}

/// The views of a sequence of instances.
pub open spec fn views_of(s: Seq<Instance>) -> Seq<InstanceView> {
    s.map_values(|x: Instance| x@)
}

/// The subsequence of views whose instance is available, in order.
pub open spec fn available_of(s: Seq<InstanceView>) -> Seq<InstanceView> {
    s.filter(|iv: InstanceView| iv.pod_is_available)
}

/// Appending one view extends the available subsequence exactly when that
/// view is available.
pub proof fn lemma_available_push(s: Seq<InstanceView>, x: InstanceView)
    ensures
        available_of(s.push(x)) == if x.pod_is_available {
            available_of(s).push(x)
        } else {
            available_of(s)
        },
{
    reveal(Seq::filter);
    assert(s.push(x).drop_last() =~= s);
    assert(s.push(x).last() == x);
}

/// Every view in the available subsequence is available, and every available
/// element of the underlying sequence appears in it.
pub proof fn lemma_available_members(s: Seq<InstanceView>)
    ensures
        forall|j: int|
            0 <= j < available_of(s).len() ==> (#[trigger] available_of(s)[j]).pod_is_available,
        forall|i: int|
            0 <= i < s.len() && (#[trigger] s[i]).pod_is_available ==> available_of(s).contains(
                s[i],
            ),
{
    s.filter_lemma(|iv: InstanceView| iv.pod_is_available);
}

/// The known instance set of one service, a round-robin cursor, and a count
/// of attempts that failed to find any instance.
#[derive(Debug)]
pub struct LoadBalance {
    pub service_name: String,
    pub instances: Vec<Instance>,
    pub counter: u64,
    pub failed_counter: u64,
}

/// Mathematical image of a `LoadBalance`.
pub ghost struct LoadBalanceView {
    pub service_name: Seq<char>,
    pub instances: Seq<InstanceView>,
    pub counter: u64,
    pub failed_counter: u64,
}

impl View for LoadBalance {
    type V = LoadBalanceView;

    open spec fn view(&self) -> LoadBalanceView {
        LoadBalanceView {
            service_name: self.service_name@,
            instances: views_of(self.instances@),
            counter: self.counter,
            failed_counter: self.failed_counter,
        }
    }
}

impl LoadBalance {
    /// A balancer for `service_name` over the given instances, with the
    /// round-robin cursor at the start.
    pub fn new(service_name: String, instances: Vec<Instance>) -> (r: Self)
        ensures
            r@ == (LoadBalanceView {
                service_name: service_name@,
                instances: views_of(instances@),
                counter: 0u64,
                failed_counter: 0u64,
            }),
    {
        LoadBalance { service_name, instances, counter: 0, failed_counter: 0 }
    }

    /// Select the next instance by round robin over the instances that are
    /// currently available: `None` exactly when none is available, otherwise
    /// the available instance the cursor points at, and the cursor advances.
    pub fn next(&mut self) -> (r: Option<Instance>)
        ensures
            final(self)@.service_name == old(self)@.service_name,
            final(self)@.instances == old(self)@.instances,
            final(self).failed_counter == old(self).failed_counter,
            ({
                let avail = available_of(old(self)@.instances);
                if avail.len() == 0 {
                    r is None && final(self).counter == old(self).counter
                } else {
                    final(self).counter == inc64(old(self).counter) && (r matches Some(inst)
                        && inst@ == avail[old(self).counter as int % avail.len() as int])
                }
            }),
    {
        let ghost svs = views_of(self.instances@);
        let mut filtered: Vec<Instance> = Vec::new();
        let mut i: usize = 0;
        while i < self.instances.len()
            invariant
                i <= self.instances.len(),
                svs == views_of(self.instances@),
                *self == *old(self),
                views_of(filtered@) == available_of(svs.subrange(0, i as int)),
            decreases self.instances.len() - i,
        {
            let inst = &self.instances[i];
            proof {
                assert(svs.subrange(0, i + 1) =~= svs.subrange(0, i as int).push(svs[i as int]));
                lemma_available_push(svs.subrange(0, i as int), svs[i as int]);
            }
            if inst.pod_is_available {
                let c = inst.clone();
                let ghost before = views_of(filtered@);
                filtered.push(c);
                proof {
                    assert(views_of(filtered@) =~= before.push(c@));
                }
            }
            i += 1;
        }
        proof {
            assert(svs.subrange(0, svs.len() as int) =~= svs);
        }
        let len = filtered.len();
        if len == 0 {
            None
        } else {
            let index = (self.counter % (len as u64)) as usize;
            self.counter = self.counter.wrapping_add(1);
            let chosen = &filtered[index];
            Some(chosen.clone())
        }
    }

    /// Replace the whole instance set, as a discovery refresh does; the
    /// cursor and failure count are kept.
    pub fn update_instances(&mut self, new_instances: Vec<Instance>)
        ensures
            final(self)@ == (LoadBalanceView {
                instances: views_of(new_instances@),
                ..old(self)@
            }),
    {
        self.instances = new_instances;
    }

    /// Remove every instance with the same endpoint identity (ip, port) as
    /// the given one; health fields play no part in the match.
    pub fn remove_instance(&mut self, instance_to_remove: &Instance)
        ensures
            final(self)@ == (LoadBalanceView {
                instances: old(self)@.instances.filter(
                    |iv: InstanceView|
                        !(iv.ip == instance_to_remove@.ip && iv.port == instance_to_remove@.port),
                ),
                ..old(self)@
            }),
    {
        let ghost keep = |iv: InstanceView|
            !(iv.ip == instance_to_remove@.ip && iv.port == instance_to_remove@.port);
        let ghost svs = views_of(self.instances@);
        let mut kept: Vec<Instance> = Vec::new();
        let mut i: usize = 0;
        while i < self.instances.len()
            invariant
                i <= self.instances.len(),
                svs == views_of(self.instances@),
                *self == *old(self),
                views_of(kept@) == svs.subrange(0, i as int).filter(keep),
                keep == (|iv: InstanceView|
                    !(iv.ip == instance_to_remove@.ip && iv.port == instance_to_remove@.port)),
            decreases self.instances.len() - i,
        {
            let inst = &self.instances[i];
            proof {
                assert(svs.subrange(0, i + 1) =~= svs.subrange(0, i as int).push(svs[i as int]));
                reveal(Seq::filter);
                assert(svs.subrange(0, i + 1).drop_last() =~= svs.subrange(0, i as int));
            }
            let same = instance_matches(inst, instance_to_remove);
            if !same {
                let c = inst.clone();
                let ghost before = views_of(kept@);
                kept.push(c);
                proof {
                    assert(views_of(kept@) =~= before.push(c@));
                }
            }
            i += 1;
        }
        proof {
            assert(svs.subrange(0, svs.len() as int) =~= svs);
        }
        self.instances = kept;
    }

    /// Record one failure, observed at clock `now_ms`, against every held
    /// instance with the given endpoint identity; other instances are
    /// untouched.
    pub fn fail_matching(&mut self, ip: &String, port: u16, now_ms: u64)
        ensures
            final(self)@.service_name == old(self)@.service_name,
            final(self).counter == old(self).counter,
            final(self).failed_counter == old(self).failed_counter,
            final(self)@.instances.len() == old(self)@.instances.len(),
            forall|i: int|
                0 <= i < old(self)@.instances.len() ==> final(self)@.instances[i] == (if old(
                    self,
                )@.instances[i].ip == ip@ && old(self)@.instances[i].port == port {
                    failed_step(#[trigger] old(self)@.instances[i], now_ms)
                } else {
                    old(self)@.instances[i]
                }),
    {
        let n = self.instances.len();
        let mut i: usize = 0;
        while i < n
            invariant
                i <= n,
                n == self.instances.len(),
                self.service_name@ == old(self).service_name@,
                self.counter == old(self).counter,
                self.failed_counter == old(self).failed_counter,
                forall|j: int|
                    i <= j < n ==> (#[trigger] self.instances@[j])@ == old(self).instances@[j]@,
                forall|j: int|
                    0 <= j < i ==> (#[trigger] self.instances@[j])@ == (if old(
                        self,
                    ).instances@[j]@.ip == ip@ && old(self).instances@[j]@.port == port {
                        failed_step(old(self).instances@[j]@, now_ms)
                    } else {
                        old(self).instances@[j]@
                    }),
            decreases n - i,
        {
            let same = self.instances[i].ip == *ip && self.instances[i].port == port;
            if same {
                self.instances[i].add_failed_counter(now_ms);
            }
            i += 1;
        }
        proof {
            assert forall|j: int| 0 <= j < old(self)@.instances.len() implies views_of(
                self.instances@,
            )[j] == (if views_of(old(self).instances@)[j].ip == ip@ && views_of(
                old(self).instances@,
            )[j].port == port {
                failed_step(views_of(old(self).instances@)[j], now_ms)
            } else {
                views_of(old(self).instances@)[j]
            }) by {
                assert(views_of(self.instances@)[j] == self.instances@[j]@);
                assert(views_of(old(self).instances@)[j] == old(self).instances@[j]@);
            }
        }
    }

    /// One pass of the re-enable sweep at clock `now_ms`: every unavailable
    /// instance whose cooldown has elapsed is reset and so becomes available
    /// again; every other instance is untouched.
    pub fn reenable_instances(&mut self, now_ms: u64)
        ensures
            final(self)@.service_name == old(self)@.service_name,
            final(self).counter == old(self).counter,
            final(self).failed_counter == old(self).failed_counter,
            final(self)@.instances.len() == old(self)@.instances.len(),
            forall|i: int|
                0 <= i < old(self)@.instances.len() ==> final(self)@.instances[i] == reenable_step(
                    #[trigger] old(self)@.instances[i],
                    now_ms,
                ),
    {
        let n = self.instances.len();
        let mut i: usize = 0;
        while i < n
            invariant
                i <= n,
                n == self.instances.len(),
                self.service_name@ == old(self).service_name@,
                self.counter == old(self).counter,
                self.failed_counter == old(self).failed_counter,
                forall|j: int|
                    i <= j < n ==> (#[trigger] self.instances@[j])@ == old(self).instances@[j]@,
                forall|j: int|
                    0 <= j < i ==> (#[trigger] self.instances@[j])@ == reenable_step(
                        old(self).instances@[j]@,
                        now_ms,
                    ),
            decreases n - i,
        {
            let available = self.instances[i].pod_is_available;
            if !available {
                let last = self.instances[i].last_failed_time;
                if now_ms >= last && now_ms - last > REENABLE_DELAY_MS {
                    self.instances[i].reset_failed_counter();
                }
            }
            i += 1;
        }
        proof {
            assert forall|j: int| 0 <= j < old(self)@.instances.len() implies views_of(
                self.instances@,
            )[j] == reenable_step(views_of(old(self).instances@)[j], now_ms) by {
                assert(views_of(self.instances@)[j] == self.instances@[j]@);
                assert(views_of(old(self).instances@)[j] == old(self).instances@[j]@);
            }
        }
    }
}

impl Clone for LoadBalance {
    fn clone(&self) -> (r: Self)
        ensures
            r@ == self@,
    {
        let r = LoadBalance {
            service_name: self.service_name.clone(),
            instances: self.instances.clone(),
            counter: self.counter,
            failed_counter: self.failed_counter,
        };
        proof {
            assert forall|i: int| 0 <= i < self.instances@.len() implies r.instances@[i]@
                == self.instances@[i]@ by {
                assert(cloned::<Instance>(self.instances@[i], r.instances@[i]));
            }
            assert(views_of(r.instances@) =~= views_of(self.instances@));
        }
        r
    }
}

/// One host entry of a discovery answer, with the fields the balancer
/// reads; a field the answer did not carry is `None`.
#[derive(Debug)]
pub struct HostRecord {
    pub ip: Option<String>,
    pub port: Option<u16>,
}

/// Mathematical image of a `HostRecord`.
pub ghost struct HostRecordView {
    pub ip: Option<Seq<char>>,
    pub port: Option<u16>,
}

impl View for HostRecord {
    type V = HostRecordView;

    open spec fn view(&self) -> HostRecordView {
        HostRecordView {
            ip: match self.ip {
                Option::Some(ref s) => Option::Some(s@),
                Option::None => Option::None,
            },
            port: self.port,
        }
    }
}

/// The fresh instance a host entry stands for: absent fields default to an
/// empty ip and port 0, and health starts clean.
pub open spec fn host_instance(h: HostRecordView) -> InstanceView {
    InstanceView {
        ip: match h.ip {
            Option::Some(s) => s,
            Option::None => Seq::empty(),
        },
        port: match h.port {
            Option::Some(p) => p,
            Option::None => 0u16,
        },
        failed_counter: 0u64,
        pod_is_available: true,
        last_failed_time: 0u64,
    }
}

/// Build the instance list of a discovery answer: one fresh instance per
/// host entry, in order; an answer without a host list yields an empty
/// instance list, not an error.
pub fn hosts_to_instances(hosts: Option<Vec<HostRecord>>) -> (r: Vec<Instance>)
    ensures
        hosts is None ==> r@.len() == 0,
        hosts matches Some(hs) ==> r@.len() == hs@.len() && forall|i: int|
            0 <= i < hs@.len() ==> (#[trigger] r@[i])@ == host_instance(hs@[i]@),
{
    let mut r: Vec<Instance> = Vec::new();
    match hosts {
        Option::None => r,
        Option::Some(hs) => {
            let ghost hsg = hs@;
            let mut i: usize = 0;
            let n = hs.len();
            while i < n
                invariant
                    i <= n,
                    n == hs.len(),
                    hsg == hs@,
                    r@.len() == i,
                    forall|j: int|
                        0 <= j < i ==> (#[trigger] r@[j])@ == host_instance(hsg[j]@),
                decreases n - i,
            {
                let host = &hs[i];
                let ip = match &host.ip {
                    Option::Some(s) => s.clone(),
                    Option::None => String::new(),
                };
                let port = match host.port {
                    Option::Some(p) => p,
                    Option::None => 0,
                };
                r.push(Instance::new(ip, port));
                i += 1;
            }
            r
        },
    }
}

impl LoadBalance {
    /// The balancer a fresh discovery answer for `service_name` stands for.
    pub fn from_hosts(service_name: String, hosts: Option<Vec<HostRecord>>) -> (r: Self)
        ensures
            r@.service_name == service_name@,
            r.counter == 0u64,
            r.failed_counter == 0u64,
            hosts is None ==> r@.instances.len() == 0,
            hosts matches Some(hs) ==> r@.instances.len() == hs@.len() && forall|i: int|
                0 <= i < hs@.len() ==> r@.instances[i] == host_instance(#[trigger] hs@[i]@),
    {
        let instances = hosts_to_instances(hosts);
        let r = LoadBalance::new(service_name, instances);
        proof {
            assert forall|i: int| 0 <= i < r.instances@.len() implies r@.instances[i]
                == r.instances@[i]@ by {}
        }
        r
    }
}

/// Whether two instances name the same endpoint (ip, port).
pub fn instance_matches(a: &Instance, b: &Instance) -> (r: bool)
    ensures
        r == (a@.ip == b@.ip && a@.port == b@.port),
{
    a.ip == b.ip && a.port == b.port
}

/// With no instance available — none known, or every breaker tripped — the
/// available list is empty, so selection returns nothing.
pub proof fn lemma_available_none(s: Seq<InstanceView>)
    requires
        forall|i: int| 0 <= i < s.len() ==> !(#[trigger] s[i]).pod_is_available,
    ensures
        available_of(s).len() == 0,
    decreases s.len(),
{
    reveal(Seq::filter);
    if s.len() > 0 {
        lemma_available_none(s.drop_last());
    }
}

/// The index into the available list that the `t`-th of a run of
/// consecutive selections uses, when the cursor starts at `counter` and `k`
/// instances are available throughout.
pub open spec fn selection_index(counter: u64, t: nat, k: nat) -> int
    recommends
        k > 0,
{
    ((counter + t) % (k as int))
}

/// With every instance available, the available list is the instance list
/// itself: selection follows insertion order.
pub proof fn lemma_available_all(s: Seq<InstanceView>)
    requires
        forall|i: int| 0 <= i < s.len() ==> (#[trigger] s[i]).pod_is_available,
    ensures
        available_of(s) == s,
    decreases s.len(),
{
    reveal(Seq::filter);
    if s.len() > 0 {
        lemma_available_all(s.drop_last());
        assert(s.drop_last().push(s.last()) =~= s);
    }
}

/// Round robin wraps: over `k` available instances, two selections in one
/// window of `k` consecutive calls never use the same index, so each
/// available instance is visited exactly once per window.
pub proof fn lemma_round_robin_distinct(counter: u64, k: nat, t1: nat, t2: nat)
    requires
        k > 0,
        t1 < t2,
        t2 - t1 < k,
    ensures
        selection_index(counter, t1, k) != selection_index(counter, t2, k),
{
    let c = counter as int;
    let ki = k as int;
    if (c + t1) % ki == (c + t2) % ki {
        vstd::arithmetic::div_mod::lemma_mod_equivalence(c + t1, c + t2, ki);
        vstd::arithmetic::div_mod::lemma_mod_equivalence(c + t2, c + t1, ki);
        let d = (t2 - t1) as int;
        assert((d % ki) == 0);
        vstd::arithmetic::div_mod::lemma_small_mod((t2 - t1) as nat, k);
    }
}

/// Round robin covers: over `k` available instances, every index is used by
/// exactly one of any `k` consecutive selections.
pub proof fn lemma_round_robin_covers(counter: u64, k: nat, j: int)
    requires
        k > 0,
        0 <= j < k,
    ensures
        exists|t: nat| t < k && selection_index(counter, t, k) == j,
{
    let c = counter as int;
    let ki = k as int;
    let r = c % ki;
    let q = c / ki;
    vstd::arithmetic::div_mod::lemma_mod_pos_bound(c, ki);
    vstd::arithmetic::div_mod::lemma_fundamental_div_mod(c, ki);
    let t = if j >= r {
        (j - r) as nat
    } else {
        (j + ki - r) as nat
    };
    assert(selection_index(counter, t, k) == j) by {
        if j >= r {
            assert(c + t == ki * q + j);
            vstd::arithmetic::div_mod::lemma_mod_multiples_vanish(q, j, ki);
        } else {
            assert(c + t == ki * (q + 1) + j) by (nonlinear_arith)
                requires
                    c == ki * q + r,
                    t == j + ki - r,
            ;
            vstd::arithmetic::div_mod::lemma_mod_multiples_vanish(q + 1, j, ki);
        }
        vstd::arithmetic::div_mod::lemma_small_mod(j as nat, k);
    }
    assert(t < k);
}

/// Round robin over `k` available instances with no failures: selection
/// runs over the instances themselves in insertion order, no index is used
/// twice within a window of `k` consecutive selections (with
/// `lemma_round_robin_covers`: each index exactly once per window), and the
/// cursor wraps around after each window.
pub proof fn lemma_round_robin_cycle(lb: LoadBalanceView, k: nat)
    requires
        k == lb.instances.len(),
        k > 0,
        forall|i: int| 0 <= i < k ==> (#[trigger] lb.instances[i]).pod_is_available,
    ensures
        available_of(lb.instances) == lb.instances,
        forall|t1: nat, t2: nat|
            t1 < t2 < t1 + k ==> #[trigger] selection_index(lb.counter, t1, k)
                != #[trigger] selection_index(lb.counter, t2, k),
        forall|t: nat| #[trigger]
            selection_index(lb.counter, t + k, k) == selection_index(lb.counter, t, k),
{
    lemma_available_all(lb.instances);
    assert forall|t1: nat, t2: nat| t1 < t2 < t1 + k implies #[trigger] selection_index(
        lb.counter,
        t1,
        k,
    ) != #[trigger] selection_index(lb.counter, t2, k) by {
        lemma_round_robin_distinct(lb.counter, k, t1, t2);
    }
    assert forall|t: nat| #[trigger] selection_index(lb.counter, t + k, k) == selection_index(
        lb.counter,
        t,
        k,
    ) by {
        vstd::arithmetic::div_mod::lemma_mod_add_multiples_vanish(
            lb.counter + t,
            k as int,
        );
    }
}

/// The `n`-th consecutive failure state of an instance, all observed at
/// clock `now_ms`.
pub open spec fn after_failures(iv: InstanceView, now_ms: u64, n: nat) -> InstanceView
    decreases n,
{
    if n == 0 {
        iv
    } else {
        failed_step(after_failures(iv, now_ms, (n - 1) as nat), now_ms)
    }
}

/// A tripped instance stays tripped under further failures: `failed_step`
/// never re-enables.
pub proof fn lemma_failed_step_keeps_tripped(iv: InstanceView, now_ms: u64)
    requires
        !iv.pod_is_available,
    ensures
        !failed_step(iv, now_ms).pod_is_available,
{
}

/// While the threshold is not yet passed, consecutive failures only count
/// up: after `n <= MAX_FAILED_TIMES` failures from a clean state the
/// instance is still available and its count is exactly `n`.
pub proof fn lemma_failures_count_up(iv: InstanceView, now_ms: u64, n: nat)
    requires
        iv.failed_counter == 0,
        iv.pod_is_available,
        n <= MAX_FAILED_TIMES,
    ensures
        after_failures(iv, now_ms, n).pod_is_available,
        after_failures(iv, now_ms, n).failed_counter == n,
    decreases n,
{
    if n > 0 {
        lemma_failures_count_up(iv, now_ms, (n - 1) as nat);
    }
}

/// Driving an instance past the failure threshold trips its breaker: after
/// more than `MAX_FAILED_TIMES` consecutive failures from a clean state it
/// is unavailable, and its last-failure clock is the failure time.
pub proof fn lemma_breaker_trips(iv: InstanceView, now_ms: u64, n: nat)
    requires
        iv.failed_counter == 0,
        iv.pod_is_available,
        n > MAX_FAILED_TIMES,
    ensures
        !after_failures(iv, now_ms, n).pod_is_available,
        after_failures(iv, now_ms, n).last_failed_time == now_ms,
    decreases n,
{
    if n == MAX_FAILED_TIMES + 1 {
        lemma_failures_count_up(iv, now_ms, MAX_FAILED_TIMES as nat);
    } else {
        lemma_breaker_trips(iv, now_ms, (n - 1) as nat);
    }
}

/// An unavailable instance is excluded from selection: everything the
/// available list holds is available, so `next` never returns a view with
/// `pod_is_available` false.
pub proof fn lemma_unavailable_excluded(s: Seq<InstanceView>, j: int)
    requires
        0 <= j < available_of(s).len(),
    ensures
        available_of(s)[j].pod_is_available,
{
    lemma_available_members(s);
}

/// A tripped instance is re-enabled by the sweep exactly when the cooldown
/// has elapsed since its last failure; it is then available again, hence
/// eligible for selection.
pub proof fn lemma_reenable_only_after_cooldown(iv: InstanceView, now_ms: u64)
    requires
        !iv.pod_is_available,
        iv.failed_counter > 0,
    ensures
        reenable_step(iv, now_ms).pod_is_available <==> cooldown_elapsed(iv, now_ms),
        cooldown_elapsed(iv, now_ms) ==> reenable_step(iv, now_ms) == (InstanceView {
            failed_counter: 0u64,
            pod_is_available: true,
            last_failed_time: 0u64,
            ..iv
        }),
{
}

} // verus!
