use solana_k8s_cluster::initialize_globals;
use solana_k8s_cluster::kubernetes::{
    check_replica_set_ready, validator_label_value, GpuMode, Kubernetes, RuntimeConfig,
};
use solana_k8s_cluster::ValidatorType;

fn default_runtime() -> RuntimeConfig {
    RuntimeConfig { enable_udp: false, disable_quic: false, gpu_mode: GpuMode::Auto }
}

#[test]
fn globals_and_roles() {
    initialize_globals();
    assert_ne!(ValidatorType::Bootstrap, ValidatorType::Standard);
}

#[test]
fn selector_fields() {
    let k8s = Kubernetes::new("default", default_runtime());
    assert_eq!(k8s.namespace, "default");
    let selector = k8s.create_selector("app.kubernetes.io/name", "bootstrap-validator");
    assert_eq!(selector.key, "app.kubernetes.io/name");
    assert_eq!(selector.value, "bootstrap-validator");
}

#[test]
fn validator_label_values() {
    assert_eq!(validator_label_value(0), "validator-0");
    assert_eq!(validator_label_value(1), "validator-1");
    assert_eq!(validator_label_value(17), "validator-17");
}

#[test]
fn bootstrap_secret_mapping() {
    let k8s = Kubernetes::new("default", default_runtime());
    let secret = k8s.create_bootstrap_secret(
        "bootstrap-accounts-secret",
        vec![1, 2],
        vec![3],
        vec![4, 5, 6],
    );
    assert_eq!(secret.name, "bootstrap-accounts-secret");
    assert_eq!(secret.data.len(), 3);
    assert_eq!(secret.data[0], ("identity.json".to_string(), vec![1, 2]));
    assert_eq!(secret.data[1], ("vote-account.json".to_string(), vec![3]));
    assert_eq!(secret.data[2], ("stake-account.json".to_string(), vec![4, 5, 6]));
}

#[test]
fn validator_secret_named_by_index() {
    let k8s = Kubernetes::new("default", default_runtime());
    let secret = k8s.create_validator_secret(4, vec![9], vec![8], vec![7]);
    assert_eq!(secret.name, "validator-accounts-secret-4");
    assert_eq!(secret.data.len(), 3);
    assert_eq!(secret.data[0], ("identity.json".to_string(), vec![9]));
}

#[test]
fn genesis_config_map_contents() {
    let k8s = Kubernetes::new("default", default_runtime());
    let config_map = k8s.create_genesis_config_map(vec![0xde, 0xad]);
    assert_eq!(config_map.name, "genesis-config");
    assert_eq!(config_map.data.len(), 1);
    assert_eq!(config_map.data[0], ("genesis.tar.bz2".to_string(), vec![0xde, 0xad]));
}

#[test]
fn bootstrap_replica_set_fields() {
    let runtime = RuntimeConfig { enable_udp: true, disable_quic: true, gpu_mode: GpuMode::Off };
    let k8s = Kubernetes::new("default", runtime);
    let selector = k8s.create_selector("app.kubernetes.io/name", "bootstrap-validator");
    let replica_set = k8s.create_bootstrap_validator_replicas_set(
        "bootstrap-container",
        "validator-image:latest",
        1,
        "genesis-config".to_string(),
        "bootstrap-accounts-secret".to_string(),
        &selector,
    );
    assert_eq!(replica_set.name, "bootstrap-validator");
    assert_eq!(replica_set.replicas, 1);
    assert_eq!(replica_set.container_name, "bootstrap-container");
    assert_eq!(replica_set.image_name, "validator-image:latest");
    assert_eq!(replica_set.config_map_name, "genesis-config");
    assert_eq!(replica_set.secret_name, "bootstrap-accounts-secret");
    assert_eq!(replica_set.selector.value, "bootstrap-validator");
    assert_eq!(
        replica_set.args,
        vec!["--tpu-enable-udp".to_string(), "--tpu-disable-quic".to_string()]
    );
}

#[test]
fn runtime_flags_follow_toggles() {
    let k8s = Kubernetes::new("default", default_runtime());
    let selector = k8s.create_selector("app.kubernetes.io/name", "validator-0");
    let replica_set = k8s.create_validator_replicas_set(
        "validator-container",
        0,
        "validator-image:latest",
        1,
        "genesis-config".to_string(),
        "validator-accounts-secret-0".to_string(),
        &selector,
    );
    assert_eq!(replica_set.name, "validator-0");
    assert!(replica_set.args.is_empty());

    let udp_only = RuntimeConfig { enable_udp: true, disable_quic: false, gpu_mode: GpuMode::Cuda };
    let k8s_udp = Kubernetes::new("default", udp_only);
    let replica_set_udp = k8s_udp.create_validator_replicas_set(
        "validator-container",
        1,
        "validator-image:latest",
        1,
        "genesis-config".to_string(),
        "validator-accounts-secret-1".to_string(),
        &selector,
    );
    assert_eq!(replica_set_udp.args, vec!["--tpu-enable-udp".to_string()]);
}

#[test]
fn service_binds_selector() {
    let k8s = Kubernetes::new("default", default_runtime());
    let selector = k8s.create_selector("app.kubernetes.io/name", "validator-3");
    let service = k8s.create_validator_service("validator-3", &selector);
    assert_eq!(service.name, "validator-3");
    assert_eq!(service.selector.key, "app.kubernetes.io/name");
    assert_eq!(service.selector.value, "validator-3");
}

#[test]
fn readiness_is_equality_of_counts() {
    assert!(check_replica_set_ready(1, 1));
    assert!(!check_replica_set_ready(1, 0));
    assert!(!check_replica_set_ready(3, 2));
    assert!(check_replica_set_ready(3, 3));
    assert!(check_replica_set_ready(0, 0));
}
