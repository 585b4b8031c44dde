//! Tests for the per-service list-parameter builders.

use triton::cnapi::ServerListParams;
use triton::fwapi::FirewallRuleListParams;
use triton::imgapi::ImageListParams;
use triton::napi::NetworkListParams;
use triton::papi::PackageListParams;
use triton::sapi::InstanceType;
use triton::uuid::OwnerUuid;
use triton::uuid::ServerUuid;
use triton::vmapi::JobListParams;
use triton::vmapi::VMListParams;

#[test]
fn vm_list_params_to_pairs() {
    let params = VMListParams {
        owner_uuid: Some(OwnerUuid::new_v4()),
        state: Some("running".into()),
        limit: Some(50),
        ..VMListParams::default()
    };

    let pairs = params.to_pairs();
    assert!(pairs.iter().any(|(k, _)| *k == "owner_uuid"));
    assert!(pairs.iter().any(|(k, v)| *k == "state" && v == "running"));
    assert!(pairs.iter().any(|(k, v)| *k == "limit" && v == "50"));
}

#[test]
fn server_list_params_to_pairs() {
    let params = ServerListParams {
        datacenter: Some("us-east-1".into()),
        uuid: Some(ServerUuid::new_v4()),
        setup: Some(true),
        limit: Some(10),
        ..ServerListParams::default()
    };

    let pairs = params.to_pairs();
    assert!(pairs.iter().any(|(k, _)| *k == "datacenter"));
    assert!(pairs.iter().any(|(k, _)| *k == "uuid"));
    assert!(pairs.iter().any(|(k, v)| *k == "setup" && v == "true"));
    assert!(pairs.iter().any(|(k, v)| *k == "limit" && v == "10"));
}

#[test]
fn network_list_params_pairs() {
    let params = NetworkListParams {
        name: Some("admin".into()),
        vlan_id: Some(100),
        limit: Some(20),
        ..NetworkListParams::default()
    };

    let pairs = params.to_pairs();
    assert!(pairs.iter().any(|(k, v)| *k == "name" && v == "admin"));
    assert!(pairs.iter().any(|(k, v)| *k == "vlan_id" && v == "100"));
    assert!(pairs.iter().any(|(k, v)| *k == "limit" && v == "20"));
}

#[test]
fn image_list_params_to_pairs_includes_values() {
    let params = ImageListParams {
        name: Some("ubuntu".into()),
        version: Some("22.04".into()),
        owner: Some(OwnerUuid::new_v4()),
        limit: Some(10),
        latest_only: Some(true),
        ..ImageListParams::default()
    };

    let pairs = params.to_pairs();
    assert!(pairs.contains(&("name", "ubuntu".into())));
    assert!(pairs.iter().any(|(k, _)| *k == "owner"));
    assert!(pairs.contains(&("limit", "10".into())));
    assert!(pairs.contains(&("latest_only", "true".into())));
}

#[test]
fn package_list_params_to_pairs() {
    let params = PackageListParams {
        name: Some("standard".into()),
        memory: Some(4096),
        active: Some(true),
        limit: Some(50),
        ..PackageListParams::default()
    };

    let pairs = params.to_pairs();
    assert!(pairs.contains(&("name", "standard".into())));
    assert!(pairs.contains(&("memory", "4096".into())));
    assert!(pairs.contains(&("active", "true".into())));
    assert!(pairs.contains(&("limit", "50".into())));
}

#[test]
fn firewall_rule_list_params_to_pairs() {
    let params = FirewallRuleListParams {
        owner_uuid: Some(OwnerUuid::new_v4()),
        global: Some(true),
        limit: Some(25),
        ..FirewallRuleListParams::default()
    };

    let pairs = params.to_pairs();
    assert!(pairs.iter().any(|(k, _)| *k == "owner_uuid"));
    assert!(pairs.contains(&("global", "true".into())));
    assert!(pairs.contains(&("limit", "25".into())));
}

#[test]
fn job_list_params_to_pairs_keeps_order() {
    let params = JobListParams {
        execution: Some("running".into()),
        limit: Some(5),
        ..JobListParams::default()
    };
    let pairs = params.to_pairs();
    assert_eq!(
        pairs,
        vec![("execution", "running".to_string()), ("limit", "5".to_string())]
    );
}

#[test]
fn server_list_params_join_uuid_list() {
    let a = ServerUuid::new_v4();
    let b = ServerUuid::new_v4();
    let params =
        ServerListParams { uuids: Some(vec![a, b]), ..ServerListParams::default() };
    let pairs = params.to_pairs();
    let joined = format!("{},{}", a.to_uuid_string(), b.to_uuid_string());
    assert!(pairs.contains(&("uuids", joined)));
}

#[test]
fn instance_type_as_str_values() {
    assert_eq!(InstanceType::Vm.as_str(), "vm");
    assert_eq!(InstanceType::Agent.as_str(), "agent");
    assert_eq!(InstanceType::Other.as_str(), "other");
    assert_eq!(InstanceType::default(), InstanceType::Vm);
}
