use chrono::Local;
use service_discovery::cache::{CacheType, Expiration, TtlCache};
use service_discovery::dao::{BindValue, QuestionDao};
use service_discovery::model::request::FindQuestionListForTrad;
use service_discovery::nacos::{
    validate_deregister, validate_register, DeregisterParams, NacosInstance, NacosService,
    RegAction, RegEvent, RegState, RegistrationManager, RegistryError,
};

fn instance(ip: &str, port: u16) -> NacosInstance {
    NacosInstance {
        ip: ip.to_string(),
        port,
        service_name: "svc".to_string(),
        weight: 1,
        enable: true,
        healthy: true,
        ephemeral: true,
        metadata: None,
    }
}

fn service(instances: Option<Vec<NacosInstance>>) -> NacosService {
    NacosService {
        name: "svc".to_string(),
        group_name: "DEFAULT_GROUP".to_string(),
        clusters: "DEFAULT".to_string(),
        namespace_id: "public".to_string(),
        instances,
    }
}

#[test]
fn registration_validation_names_each_fault() {
    assert_eq!(validate_register(&service(None)), Err(RegistryError::InstancesEmpty));
    assert_eq!(
        validate_register(&service(Some(vec![]))),
        Err(RegistryError::InstancesMissingElement)
    );
    assert_eq!(
        validate_register(&service(Some(vec![instance("", 80)]))),
        Err(RegistryError::InstanceIpEmpty)
    );
    assert_eq!(
        validate_register(&service(Some(vec![instance("10.0.0.1", 0)]))),
        Err(RegistryError::InstancePortZero)
    );
    assert_eq!(validate_register(&service(Some(vec![instance("10.0.0.1", 80)]))), Ok(()));
    assert_eq!(RegistryError::InstancesEmpty.message(), "Service instances is empty");
    assert_eq!(RegistryError::InstanceIpEmpty.message(), "Instance IP is empty");
    assert_eq!(RegistryError::InstancePortZero.message(), "Instance port is 0");
}

#[test]
fn deregistration_validation_names_each_fault() {
    let good = DeregisterParams {
        ip: "10.0.0.1".to_string(),
        port: 80,
        service_name: "svc".to_string(),
        cluster: "DEFAULT".to_string(),
        namespace_id: "public".to_string(),
    };
    assert_eq!(validate_deregister(&good), Ok(()));
    let unnamed = DeregisterParams { service_name: "".to_string(), ..good_clone(&good) };
    assert_eq!(validate_deregister(&unnamed), Err(RegistryError::ServiceNameEmpty));
    let no_ip = DeregisterParams { ip: "".to_string(), ..good_clone(&good) };
    assert_eq!(validate_deregister(&no_ip), Err(RegistryError::IpEmpty));
    let no_port = DeregisterParams { port: 0, ..good_clone(&good) };
    assert_eq!(validate_deregister(&no_port), Err(RegistryError::PortZero));
    assert_eq!(RegistryError::ServiceNameEmpty.message(), "Service name is empty");
    assert_eq!(RegistryError::IpEmpty.message(), "IP is empty");
    assert_eq!(RegistryError::PortZero.message(), "Port is 0");
}

fn good_clone(p: &DeregisterParams) -> DeregisterParams {
    DeregisterParams {
        ip: p.ip.clone(),
        port: p.port,
        service_name: p.service_name.clone(),
        cluster: p.cluster.clone(),
        namespace_id: p.namespace_id.clone(),
    }
}

#[test]
fn a_fresh_manager_describes_one_healthy_ephemeral_instance() {
    let manager = RegistrationManager::new(
        "svc".to_string(),
        "DEFAULT_GROUP".to_string(),
        "public".to_string(),
        "10.0.0.9".to_string(),
        3000,
    );
    assert_eq!(manager.state, RegState::Unregistered);
    assert_eq!(manager.service.name, "svc");
    assert_eq!(manager.service.clusters, "DEFAULT");
    let instances = manager.service.instances.as_ref().unwrap();
    assert_eq!(instances.len(), 1);
    assert_eq!(instances[0].ip, "10.0.0.9");
    assert_eq!(instances[0].port, 3000);
    assert_eq!(instances[0].weight, 1);
    assert!(instances[0].enable && instances[0].healthy && instances[0].ephemeral);
    let metadata = instances[0].metadata.as_ref().unwrap();
    assert_eq!(metadata[0].0, "instance_id");
    assert_eq!(metadata[0].1.len(), 36);
    assert_eq!(manager.deregister_params.cluster, "DEFAULT");
    assert!(validate_register(&manager.service).is_ok());
    assert!(validate_deregister(&manager.deregister_params).is_ok());
}

#[test]
fn a_failed_registration_stops_the_subsystem() {
    let mut manager = RegistrationManager::new(
        "svc".to_string(),
        "g".to_string(),
        "ns".to_string(),
        "10.0.0.9".to_string(),
        3000,
    );
    let action = manager.on_event(RegEvent::RegisterFailed);
    assert!(matches!(action, RegAction::Stop));
    assert_eq!(manager.state, RegState::Stopped);
    // once stopped, nothing restarts it
    assert!(matches!(manager.on_event(RegEvent::Tick), RegAction::Wait));
    assert_eq!(manager.state, RegState::Stopped);
}

#[test]
fn the_lifecycle_heartbeats_then_deregisters_exactly_once() {
    let mut manager = RegistrationManager::new(
        "svc".to_string(),
        "g".to_string(),
        "ns".to_string(),
        "10.0.0.9".to_string(),
        3000,
    );
    assert!(matches!(manager.on_event(RegEvent::RegisterOk), RegAction::Wait));
    assert_eq!(manager.state, RegState::Heartbeating);
    match manager.on_event(RegEvent::Tick) {
        RegAction::SendHeartbeats(hb) => {
            assert_eq!(hb.len(), 1);
            assert_eq!(hb[0].service_name, "svc");
            assert_eq!(hb[0].ip, "10.0.0.9");
            assert_eq!(hb[0].port, 3000);
        }
        _ => panic!("a tick while heartbeating must send heartbeats"),
    }
    match manager.on_event(RegEvent::Cancel) {
        RegAction::Deregister(p) => {
            assert_eq!(p.service_name, "svc");
            assert_eq!(p.ip, "10.0.0.9");
            assert_eq!(p.port, 3000);
        }
        _ => panic!("a cancellation must deregister"),
    }
    assert_eq!(manager.state, RegState::Deregistering);
    // further cancellations while deregistering do not deregister again
    assert!(matches!(manager.on_event(RegEvent::Cancel), RegAction::Wait));
    assert!(matches!(manager.on_event(RegEvent::DeregisterDone), RegAction::Stop));
    assert_eq!(manager.state, RegState::Stopped);
    assert!(matches!(manager.on_event(RegEvent::Cancel), RegAction::Wait));
}

#[test]
fn list_conditions_follow_the_set_filters_in_order() {
    let mut request = FindQuestionListForTrad::new();
    assert_eq!(QuestionDao::query_question_list_condition(&request).len(), 0);
    request.product_code = Some("%erp%".to_string());
    request.answer_content = Some("%why%".to_string());
    request.start_time = Some(1_700_000_000_000);
    let conditions = QuestionDao::query_question_list_condition(&request);
    assert_eq!(conditions.len(), 3);
    assert_eq!(conditions[0].prefix, " and product_code like ");
    assert!(matches!(&conditions[0].bind, BindValue::Text(v) if v == "%erp%"));
    assert_eq!(conditions[0].suffix, "");
    assert_eq!(conditions[1].prefix, " and create_time >= ");
    assert!(matches!(&conditions[1].bind, BindValue::Time(1_700_000_000_000)));
    assert!(conditions[2].prefix.starts_with(" and question_code  in (select question_code"));
    assert_eq!(conditions[2].suffix, ")");
    assert_eq!(QuestionDao::page_offset(3, 10), 20);
}

#[test]
fn about_cache_test1() {
    let now = Local::now();
    let format_time = now.format("%Y-%m-%d %H:%M:%S").to_string();
    let mut cache = TtlCache::new(1000);
    cache.insert(
        "now".to_string(),
        Expiration::AfterShortTime,
        CacheType::Str(format_time.to_string()),
        0,
    );
    match &cache.get(&"now".to_string(), 1).unwrap().value {
        CacheType::Str(v) => {
            println!("now::{:?}", v);
            assert_eq!(*v, format_time);
        }
        _ => panic!("the stored text did not come back"),
    }
}
