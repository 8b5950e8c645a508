//! The registry side: the descriptors a process registers under, the local
//! validation the registry client performs before each call, and the
//! self-registration lifecycle as an explicit state machine.
//!
//! The HTTP calls themselves are outside work; everything that decides —
//! what is valid, what happens on which event, what each heartbeat names —
//! is here, under contract.

use vstd::prelude::*;
use crate::ids::new_uuid;

verus! {

/// The descriptor of one instance as registered.
pub struct NacosInstance {
    pub ip: String,
    pub port: u16,
    pub service_name: String,
    /// Routing weight in whole units (the wire format writes it as a number).
    pub weight: u64,
    pub enable: bool,
    pub healthy: bool,
    pub ephemeral: bool,
    pub metadata: Option<Vec<(String, String)>>,
}

/// The service descriptor a registration carries.
pub struct NacosService {
    pub name: String,
    pub group_name: String,
    pub clusters: String,
    pub namespace_id: String,
    pub instances: Option<Vec<NacosInstance>>,
}

/// The form-encoded body of a deregistration.
pub struct DeregisterParams {
    pub ip: String,
    pub port: u16,
    pub service_name: String,
    pub cluster: String,
    pub namespace_id: String,
}

/// The fields one heartbeat names.
pub struct HeartbeatPayload {
    pub service_name: String,
    pub ip: String,
    pub port: u16,
}

/// What local validation can hold against a registry call.
#[derive(Clone, Copy, Debug, PartialEq, Eq, Structural)]
pub enum RegistryError {
    /// The service descriptor carries no instance list.
    InstancesEmpty,
    /// The instance list is there but holds no element.
    InstancesMissingElement,
    /// An instance has an empty ip.
    InstanceIpEmpty,
    /// An instance has port 0.
    InstancePortZero,
    /// A deregistration names no service.
    ServiceNameEmpty,
    /// A deregistration names no ip.
    IpEmpty,
    /// A deregistration names port 0.
    PortZero,
}

impl RegistryError {
    /// The diagnostic line of this error.
    pub fn message(&self) -> (r: String)
        ensures
            r@ == self.spec_message(),
    {
        match self {
            RegistryError::InstancesEmpty => "Service instances is empty".to_owned(),
            RegistryError::InstancesMissingElement => "Service instances must have at least one element".to_owned(),
            RegistryError::InstanceIpEmpty => "Instance IP is empty".to_owned(),
            RegistryError::InstancePortZero => "Instance port is 0".to_owned(),
            RegistryError::ServiceNameEmpty => "Service name is empty".to_owned(),
            RegistryError::IpEmpty => "IP is empty".to_owned(),
            RegistryError::PortZero => "Port is 0".to_owned(),
        }
    }

    pub open spec fn spec_message(self) -> Seq<char> {
        match self {
            RegistryError::InstancesEmpty => "Service instances is empty"@,
            RegistryError::InstancesMissingElement => "Service instances must have at least one element"@,
            RegistryError::InstanceIpEmpty => "Instance IP is empty"@,
            RegistryError::InstancePortZero => "Instance port is 0"@,
            RegistryError::ServiceNameEmpty => "Service name is empty"@,
            RegistryError::IpEmpty => "IP is empty"@,
            RegistryError::PortZero => "Port is 0"@,
        }
    }
}

/// The first fault in the instance list from position `i` on: an empty ip
/// is reported before a zero port of the same instance, earlier instances
/// before later ones.
pub open spec fn scan_instances(s: Seq<NacosInstance>, i: nat) -> Option<RegistryError>
    decreases s.len() - i,
{
    if i >= s.len() {
        Option::None
    } else if s[i as int].ip@.len() == 0 {
        Option::Some(RegistryError::InstanceIpEmpty)
    } else if s[i as int].port == 0 {
        Option::Some(RegistryError::InstancePortZero)
    } else {
        scan_instances(s, i + 1)
    }
}

/// What registration validation decides for a service descriptor.
pub open spec fn register_verdict(s: &NacosService) -> Result<(), RegistryError> {
    match s.instances {
        Option::None => Result::Err(RegistryError::InstancesEmpty),
        Option::Some(ref v) => {
            if v@.len() < 1 {
                Result::Err(RegistryError::InstancesMissingElement)
            } else {
                match scan_instances(v@, 0) {
                    Option::Some(e) => Result::Err(e),
                    Option::None => Result::Ok(()),
                }
            }
        },
    }
}

/// Validate a service descriptor before registering it: there must be an
/// instance list with at least one element, and every instance must carry
/// a non-empty ip and a non-zero port.
pub fn validate_register(service: &NacosService) -> (r: Result<(), RegistryError>)
    ensures
        r == register_verdict(service),
{
    match &service.instances {
        None => Err(RegistryError::InstancesEmpty),
        Some(instances) => {
            if instances.len() < 1 {
                return Err(RegistryError::InstancesMissingElement);
            }
            let ghost s = instances@;
            let n = instances.len();
            let mut i: usize = 0;
            while i < n
                invariant
                    i <= n,
                    n == instances@.len(),
                    s == instances@,
                    service.instances matches Some(v) && v@ == s,
                    scan_instances(s, 0) == scan_instances(s, i as nat),
                decreases n - i,
            {
                if instances[i].ip.as_str().is_empty() {
                    proof {
                        assert(scan_instances(s, i as nat) == Some(RegistryError::InstanceIpEmpty));
                    }
                    return Err(RegistryError::InstanceIpEmpty);
                }
                if instances[i].port == 0 {
                    proof {
                        assert(scan_instances(s, i as nat) == Some(
                            RegistryError::InstancePortZero,
                        ));
                    }
                    return Err(RegistryError::InstancePortZero);
                }
                proof {
                    assert(scan_instances(s, i as nat) == scan_instances(s, (i + 1) as nat));
                }
                i += 1;
            }
            Ok(())
        },
    }
}

/// What deregistration validation decides: the service name, ip and port
/// must all be set, checked in that order.
pub open spec fn deregister_verdict(p: &DeregisterParams) -> Result<(), RegistryError> {
    if p.service_name@.len() == 0 {
        Result::Err(RegistryError::ServiceNameEmpty)
    } else if p.ip@.len() == 0 {
        Result::Err(RegistryError::IpEmpty)
    } else if p.port == 0 {
        Result::Err(RegistryError::PortZero)
    } else {
        Result::Ok(())
    }
}

/// Validate deregistration parameters before issuing the call.
pub fn validate_deregister(params: &DeregisterParams) -> (r: Result<(), RegistryError>)
    ensures
        r == deregister_verdict(params),
{
    if params.service_name.as_str().is_empty() {
        Err(RegistryError::ServiceNameEmpty)
    } else if params.ip.as_str().is_empty() {
        Err(RegistryError::IpEmpty)
    } else if params.port == 0 {
        Err(RegistryError::PortZero)
    } else {
        Ok(())
    }
}

/// Where the self-registration lifecycle stands.
#[derive(Clone, Copy, Debug, PartialEq, Eq, Structural)]
pub enum RegState {
    /// Nothing sent yet; the first registration attempt is pending.
    Unregistered,
    /// Registered; heartbeats go out on every tick.
    Heartbeating,
    /// Cancelled; the one deregistration call is in flight.
    Deregistering,
    /// Finished, after deregistration or a failed registration.
    Stopped,
}

/// What the surrounding task reports to the lifecycle.
#[derive(Clone, Copy, Debug, PartialEq, Eq, Structural)]
pub enum RegEvent {
    /// The registration call succeeded.
    RegisterOk,
    /// The registration call failed: fatal to this subsystem.
    RegisterFailed,
    /// A heartbeat interval elapsed.
    Tick,
    /// The shutdown signal arrived.
    Cancel,
    /// The deregistration call finished, well or badly.
    DeregisterDone,
}

/// What the surrounding task must do next.
pub enum RegAction {
    /// Wait for the next event.
    Wait,
    /// Fire one heartbeat per listed payload, each independently.
    SendHeartbeats(Vec<HeartbeatPayload>),
    /// Issue the one deregistration call.
    Deregister(DeregisterParams),
    /// The task is done.
    Stop,
}

/// The lifecycle's transition table: a failed registration stops the
/// subsystem, a cancellation is followed by exactly one deregistration,
/// and only then does the task stop.
pub open spec fn next_reg_state(s: RegState, e: RegEvent) -> RegState {
    match (s, e) {
        (RegState::Unregistered, RegEvent::RegisterOk) => RegState::Heartbeating,
        (RegState::Unregistered, RegEvent::RegisterFailed) => RegState::Stopped,
        (RegState::Heartbeating, RegEvent::Tick) => RegState::Heartbeating,
        (RegState::Heartbeating, RegEvent::Cancel) => RegState::Deregistering,
        (RegState::Deregistering, RegEvent::DeregisterDone) => RegState::Stopped,
        _ => s,
    }
}

/// The self-registration manager: the state machine that `start_nacos`
/// runs, with the descriptors it registers and deregisters under.
pub struct RegistrationManager {
    pub state: RegState,
    pub service: NacosService,
    pub deregister_params: DeregisterParams,
}

impl RegistrationManager {
    /// A manager for one instance of `service_name` at `ip:port`: a fresh
    /// instance id, weight 1, enabled, healthy and ephemeral, in cluster
    /// DEFAULT, not yet registered.
    pub fn new(
        service_name: String,
        group_name: String,
        namespace_id: String,
        ip: String,
        port: u16,
    ) -> (r: Self)
        ensures
            r.state == RegState::Unregistered,
            r.service.name == service_name,
            r.service.group_name == group_name,
            r.service.clusters@ == "DEFAULT"@,
            r.service.namespace_id == namespace_id,
            r.service.instances matches Some(v) && v@.len() == 1 && ({
                let inst = v@[0];
                inst.ip == ip && inst.port == port && inst.service_name == service_name
                    && inst.weight == 1u64 && inst.enable && inst.healthy && inst.ephemeral && (
                inst.metadata matches Some(md) && md@.len() == 1 && md@[0].0@ == "instance_id"@
                    && md@[0].1@.len() == 36)
            }),
            r.deregister_params.ip == ip,
            r.deregister_params.port == port,
            r.deregister_params.service_name == service_name,
            r.deregister_params.cluster@ == "DEFAULT"@,
            r.deregister_params.namespace_id == namespace_id,
    {
        let instance_id = new_uuid();
        let mut metadata: Vec<(String, String)> = Vec::new();
        metadata.push(("instance_id".to_owned(), instance_id));
        let instance = NacosInstance {
            ip: ip.clone(),
            port,
            service_name: service_name.clone(),
            weight: 1,
            enable: true,
            healthy: true,
            ephemeral: true,
            metadata: Some(metadata),
        };
        let mut instances: Vec<NacosInstance> = Vec::new();
        instances.push(instance);
        let service = NacosService {
            name: service_name.clone(),
            group_name,
            clusters: "DEFAULT".to_owned(),
            namespace_id: namespace_id.clone(),
            instances: Some(instances),
        };
        let deregister_params = DeregisterParams {
            ip,
            port,
            service_name,
            cluster: "DEFAULT".to_owned(),
            namespace_id,
        };
        RegistrationManager { state: RegState::Unregistered, service, deregister_params }
    }

    /// Take one lifecycle step: the state follows the transition table, the
    /// descriptors never change, and the action is what that step owes —
    /// heartbeats on a tick, the single deregistration on cancellation, a
    /// stop once the lifecycle is over, and a wait on anything else.
    pub fn on_event(&mut self, event: RegEvent) -> (a: RegAction)
        ensures
            final(self).state == next_reg_state(old(self).state, event),
            final(self).service == old(self).service,
            final(self).deregister_params == old(self).deregister_params,
            ({
                let s = old(self).state;
                if s == RegState::Heartbeating && event == RegEvent::Tick {
                    a matches RegAction::SendHeartbeats(hb) && ({
                        match old(self).service.instances {
                            Option::Some(v) => hb@.len() == v@.len() && forall|i: int|
                                0 <= i < v@.len() ==> (#[trigger] hb@[i]).service_name == old(
                                    self,
                                ).service.name && hb@[i].ip == v@[i].ip && hb@[i].port
                                    == v@[i].port,
                            Option::None => hb@.len() == 0,
                        }
                    })
                } else if s == RegState::Heartbeating && event == RegEvent::Cancel {
                    a matches RegAction::Deregister(p) && p == old(self).deregister_params
                } else if (s == RegState::Unregistered && event == RegEvent::RegisterFailed) || (
                s == RegState::Deregistering && event == RegEvent::DeregisterDone) {
                    a is Stop
                } else {
                    a is Wait
                }
            }),
    {
        match (self.state, event) {
            (RegState::Unregistered, RegEvent::RegisterOk) => {
                self.state = RegState::Heartbeating;
                RegAction::Wait
            },
            (RegState::Unregistered, RegEvent::RegisterFailed) => {
                self.state = RegState::Stopped;
                RegAction::Stop
            },
            (RegState::Heartbeating, RegEvent::Tick) => {
                let mut hb: Vec<HeartbeatPayload> = Vec::new();
                match &self.service.instances {
                    None => RegAction::SendHeartbeats(hb),
                    Some(v) => {
                        let n = v.len();
                        let mut i: usize = 0;
                        while i < n
                            invariant
                                i <= n,
                                n == v@.len(),
                                hb@.len() == i,
                                forall|j: int|
                                    0 <= j < i ==> (#[trigger] hb@[j]).service_name
                                        == self.service.name && hb@[j].ip == v@[j].ip && hb@[j].port
                                        == v@[j].port,
                            decreases n - i,
                        {
                            hb.push(
                                HeartbeatPayload {
                                    service_name: self.service.name.clone(),
                                    ip: v[i].ip.clone(),
                                    port: v[i].port,
                                },
                            );
                            i += 1;
                        }
                        RegAction::SendHeartbeats(hb)
                    },
                }
            },
            (RegState::Heartbeating, RegEvent::Cancel) => {
                self.state = RegState::Deregistering;
                let p = DeregisterParams {
                    ip: self.deregister_params.ip.clone(),
                    port: self.deregister_params.port,
                    service_name: self.deregister_params.service_name.clone(),
                    cluster: self.deregister_params.cluster.clone(),
                    namespace_id: self.deregister_params.namespace_id.clone(),
                };
                RegAction::Deregister(p)
            },
            (RegState::Deregistering, RegEvent::DeregisterDone) => {
                self.state = RegState::Stopped;
                RegAction::Stop
            },
            _ => RegAction::Wait,
        }
    }
}

/// Once the lifecycle has stopped, no event restarts it, and no further
/// deregistration is ever requested: the cancellation path deregisters
/// exactly once.
pub proof fn lemma_stopped_is_final(e: RegEvent)
    ensures
        next_reg_state(RegState::Stopped, e) == RegState::Stopped,
{
}

} // verus!
