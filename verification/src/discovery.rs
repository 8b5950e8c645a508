//! The dependency discovery poller's decision: what one discovery answer
//! does to the cache. The polling loop and the registry call around it are
//! outside work; each pass hands the answer in as a plain value.

use vstd::prelude::*;
use crate::cache::{cache_index_of, CacheType, Expiration, TtlCache};
use crate::cache::get_service_instance_key;
use crate::load_balance::{host_instance, HostRecord, LoadBalance};

verus! {

/// Apply one service's discovery answer at clock `now_ms`: a successful
/// answer — even one naming no hosts — installs a fresh balancer under the
/// service's key with a seconds-scale lifetime, so that a registry outage
/// soon reads as "no instances" rather than as stale data; a failed answer
/// changes nothing, and the next pass retries naturally.
pub fn install_discovery(
    cache: &mut TtlCache,
    service_name: String,
    discovery: Result<Option<Vec<HostRecord>>, String>,
    now_ms: u64,
) -> (installed: bool)
    requires
        old(cache).wf(),
    ensures
        final(cache).wf(),
        discovery is Err ==> !installed && *final(cache) == *old(cache),
        discovery matches Ok(hosts) ==> installed && ({
            let key = "load_balance_"@ + service_name@;
            let t = final(cache).model();
            let ni = cache_index_of(t, key);
            ni >= 0 && t[ni].policy == Expiration::Second5 && t[ni].inserted_at_ms == now_ms && (
            t[ni].value matches CacheType::LoadBalance(lb) && lb@.service_name == service_name@
                && lb.counter == 0u64 && (hosts is None ==> lb@.instances.len() == 0) && (hosts
                matches Some(hs) ==> lb@.instances.len() == hs@.len() && forall|i: int|
                0 <= i < hs@.len() ==> lb@.instances[i] == host_instance(#[trigger] hs@[i]@)))
        }),
{
    match discovery {
        Err(_) => false,
        Ok(hosts) => {
            let key = get_service_instance_key(service_name.clone());
            let lb = LoadBalance::from_hosts(service_name, hosts);
            cache.insert(key, Expiration::Second5, CacheType::LoadBalance(lb), now_ms);
            true
        },
    }
}

} // verus!
