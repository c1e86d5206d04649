//! In-memory construction of the cluster resources a deployment needs:
//! secrets holding key material, the shared genesis config map, replica
//! groups, services, and the label selectors that bind a service and a
//! replica group to the same pod set. Everything here is a deterministic
//! function of its inputs; sending the descriptions to the cluster API is the
//! caller's business.
use vstd::prelude::*;

use crate::digits::{dec_digits, u64_to_string};

verus! {

/// GPU mode requested for the validator processes. Accepted but not yet wired
/// into any resource construction; reserved for scheduling decisions.
#[derive(Debug, Clone, Copy, PartialEq, Eq, Structural)]
pub enum GpuMode {
    On,
    Off,
    Auto,
    Cuda,
}

/// Runtime toggles handed to every validator container.
#[derive(Debug, Clone, Copy, PartialEq, Eq, Structural)]
pub struct RuntimeConfig {
    pub enable_udp: bool,
    pub disable_quic: bool,
    pub gpu_mode: GpuMode,
}

/// A key/value label pair binding a Service and a ReplicaSet to one pod set.
pub struct Selector {
    pub key: String,
    pub value: String,
}

/// A named mapping of file names to file contents, holding one node's key
/// material.
pub struct Secret {
    pub name: String,
    pub data: Vec<(String, Vec<u8>)>,
}

/// The shared configuration artifact carrying the genesis archive.
pub struct ConfigMap {
    pub name: String,
    pub data: Vec<(String, Vec<u8>)>,
}

/// A declarative description of a desired set of identical pod replicas: one
/// container per pod, wired to the shared config map and the node's secret,
/// and labelled by `selector`.
pub struct ReplicaSet {
    pub name: String,
    pub replicas: i32,
    pub container_name: String,
    pub image_name: String,
    pub config_map_name: String,
    pub secret_name: String,
    pub selector: Selector,
    pub args: Vec<String>,
}

/// A stable network identity for the pod set matching `selector`.
pub struct Service {
    pub name: String,
    pub selector: Selector,
}

/// Builder of cluster resource descriptions for one target namespace.
pub struct Kubernetes {
    pub namespace: String,
    pub runtime_config: RuntimeConfig,
}

/// The runtime flags every validator container is started with, derived from
/// the toggles alone (the GPU mode is reserved and contributes nothing yet).
pub open spec fn runtime_args(rc: RuntimeConfig) -> Seq<Seq<char>> {
    (if rc.enable_udp {
        seq!["--tpu-enable-udp"@]
    } else {
        Seq::<Seq<char>>::empty()
    }) + (if rc.disable_quic {
        seq!["--tpu-disable-quic"@]
    } else {
        Seq::<Seq<char>>::empty()
    })
}

/// The label value of standard node `i`.
pub open spec fn spec_validator_label(i: int) -> Seq<char> {
    "validator-"@ + dec_digits(i as nat)
}

/// Renders the label value of standard node `validator_index`, the value that
/// both its service and its replica set select on.
pub fn validator_label_value(validator_index: i32) -> (r: String)
    requires
        0 <= validator_index,
    ensures
        r@ == spec_validator_label(validator_index as int),
{
    "validator-".to_owned().concat(u64_to_string(validator_index as u64).as_str())
}

/// Readiness of a replica set: every desired replica is observed ready.
/// A shortfall (`ready < desired`) never counts as ready.
pub fn check_replica_set_ready(desired_replicas: i32, ready_replicas: i32) -> (r: bool)
    ensures
        r == (ready_replicas == desired_replicas),
{
    ready_replicas == desired_replicas
}

impl Kubernetes {
    /// A builder for `namespace` with the given runtime toggles.
    pub fn new(namespace: &str, runtime_config: RuntimeConfig) -> (k: Kubernetes)
        ensures
            k.namespace@ == namespace@,
            k.runtime_config == runtime_config,
    {
        Kubernetes { namespace: namespace.to_owned(), runtime_config }
    }

    /// A label selector with the given key and value.
    pub fn create_selector(&self, key: &str, value: &str) -> (r: Selector)
        ensures
            r.key@ == key@,
            r.value@ == value@,
    {
        Selector { key: key.to_owned(), value: value.to_owned() }
    }

    /// The bootstrap node's secret: the three keypair files under their fixed
    /// names, in the identity, vote, stake order.
    pub fn create_bootstrap_secret(
        &self,
        secret_name: &str,
        identity: Vec<u8>,
        vote_account: Vec<u8>,
        stake_account: Vec<u8>,
    ) -> (r: Secret)
        ensures
            r.name@ == secret_name@,
            r.data@.len() == 3,
            r.data@[0].0@ == "identity.json"@ && r.data@[0].1 == identity,
            r.data@[1].0@ == "vote-account.json"@ && r.data@[1].1 == vote_account,
            r.data@[2].0@ == "stake-account.json"@ && r.data@[2].1 == stake_account,
    {
        let mut data: Vec<(String, Vec<u8>)> = Vec::new();
        data.push(("identity.json".to_owned(), identity));
        data.push(("vote-account.json".to_owned(), vote_account));
        data.push(("stake-account.json".to_owned(), stake_account));
        Secret { name: secret_name.to_owned(), data }
    }

    /// Standard node `validator_index`'s secret, named uniquely per index,
    /// with the three keypair files in the identity, vote, stake order.
    pub fn create_validator_secret(
        &self,
        validator_index: i32,
        identity: Vec<u8>,
        vote_account: Vec<u8>,
        stake_account: Vec<u8>,
    ) -> (r: Secret)
        requires
            0 <= validator_index,
        ensures
            r.name@ == "validator-accounts-secret-"@ + dec_digits(validator_index as nat),
            r.data@.len() == 3,
            r.data@[0].0@ == "identity.json"@ && r.data@[0].1 == identity,
            r.data@[1].0@ == "vote-account.json"@ && r.data@[1].1 == vote_account,
            r.data@[2].0@ == "stake-account.json"@ && r.data@[2].1 == stake_account,
    {
        let mut data: Vec<(String, Vec<u8>)> = Vec::new();
        data.push(("identity.json".to_owned(), identity));
        data.push(("vote-account.json".to_owned(), vote_account));
        data.push(("stake-account.json".to_owned(), stake_account));
        let name = "validator-accounts-secret-".to_owned().concat(
            u64_to_string(validator_index as u64).as_str(),
        );
        Secret { name, data }
    }

    /// The single config map shared by every replica set, carrying the
    /// genesis archive.
    pub fn create_genesis_config_map(&self, genesis_archive: Vec<u8>) -> (r: ConfigMap)
        ensures
            r.name@ == "genesis-config"@,
            r.data@.len() == 1,
            r.data@[0].0@ == "genesis.tar.bz2"@ && r.data@[0].1 == genesis_archive,
    {
        let mut data: Vec<(String, Vec<u8>)> = Vec::new();
        data.push(("genesis.tar.bz2".to_owned(), genesis_archive));
        ConfigMap { name: "genesis-config".to_owned(), data }
    }

    fn build_replica_set(
        &self,
        name: String,
        container_name: &str,
        image_name: &str,
        num_replicas: i32,
        config_map_name: String,
        secret_name: String,
        selector: &Selector,
    ) -> (r: ReplicaSet)
        ensures
            r.name == name,
            r.replicas == num_replicas,
            r.container_name@ == container_name@,
            r.image_name@ == image_name@,
            r.config_map_name == config_map_name,
            r.secret_name == secret_name,
            r.selector.key@ == selector.key@,
            r.selector.value@ == selector.value@,
            crate::genesis::arg_views(r.args@) == runtime_args(self.runtime_config),
    {
        let mut args: Vec<String> = Vec::new();
        if self.runtime_config.enable_udp {
            args.push("--tpu-enable-udp".to_owned());
        }
        if self.runtime_config.disable_quic {
            args.push("--tpu-disable-quic".to_owned());
        }
        proof {
            assert(crate::genesis::arg_views(args@) =~= runtime_args(self.runtime_config));
        }
        ReplicaSet {
            name,
            replicas: num_replicas,
            container_name: container_name.to_owned(),
            image_name: image_name.to_owned(),
            config_map_name,
            secret_name,
            selector: Selector { key: selector.key.clone(), value: selector.value.clone() },
            args,
        }
    }

    /// The bootstrap node's replica set, wired to the shared config map and
    /// the bootstrap secret, started with the runtime flags.
    pub fn create_bootstrap_validator_replicas_set(
        &self,
        container_name: &str,
        image_name: &str,
        num_replicas: i32,
        config_map_name: String,
        secret_name: String,
        selector: &Selector,
    ) -> (r: ReplicaSet)
        ensures
            r.name@ == "bootstrap-validator"@,
            r.replicas == num_replicas,
            r.container_name@ == container_name@,
            r.image_name@ == image_name@,
            r.config_map_name == config_map_name,
            r.secret_name == secret_name,
            r.selector.key@ == selector.key@,
            r.selector.value@ == selector.value@,
            crate::genesis::arg_views(r.args@) == runtime_args(self.runtime_config),
    {
        self.build_replica_set(
            "bootstrap-validator".to_owned(),
            container_name,
            image_name,
            num_replicas,
            config_map_name,
            secret_name,
            selector,
        )
    }

    /// Standard node `validator_index`'s replica set, named uniquely per
    /// index, wired to the shared config map and that node's secret.
    pub fn create_validator_replicas_set(
        &self,
        container_name: &str,
        validator_index: i32,
        image_name: &str,
        num_replicas: i32,
        config_map_name: String,
        secret_name: String,
        selector: &Selector,
    ) -> (r: ReplicaSet)
        requires
            0 <= validator_index,
        ensures
            r.name@ == spec_validator_label(validator_index as int),
            r.replicas == num_replicas,
            r.container_name@ == container_name@,
            r.image_name@ == image_name@,
            r.config_map_name == config_map_name,
            r.secret_name == secret_name,
            r.selector.key@ == selector.key@,
            r.selector.value@ == selector.value@,
            crate::genesis::arg_views(r.args@) == runtime_args(self.runtime_config),
    {
        self.build_replica_set(
            validator_label_value(validator_index),
            container_name,
            image_name,
            num_replicas,
            config_map_name,
            secret_name,
            selector,
        )
    }

    /// A stable network identity for the pod set matching `selector`.
    pub fn create_validator_service(&self, service_name: &str, selector: &Selector) -> (r:
        Service)
        ensures
            r.name@ == service_name@,
            r.selector.key@ == selector.key@,
            r.selector.value@ == selector.value@,
    {
        Service {
            name: service_name.to_owned(),
            selector: Selector { key: selector.key.clone(), value: selector.value.clone() },
        }
    }
}

} // verus!
