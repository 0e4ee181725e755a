use kwpm_api::affinity::{pin_to_host, NodeSelector, NodeSelectorRequirement, NodeSelectorTerm};
use kwpm_api::error::KwpmError;
use kwpm_api::namespace::Namespace;
use k8s_openapi::api::apps::v1::Deployment;
use kwpm_api::resources::{
    PersistentVolume, PersistentVolumeSpec, ResourceCatalog, ResourceKind, ResourceSet, Secret,
};
use kwpm_api::KwpmClient;

fn pin(hostname: &str) -> NodeSelector {
    NodeSelector {
        node_selector_terms: vec![NodeSelectorTerm {
            match_expressions: vec![NodeSelectorRequirement {
                key: "kubernetes.io/hostname".to_string(),
                operator: "In".to_string(),
                values: vec![hostname.to_string()],
            }],
        }],
    }
}

fn local_template() -> PersistentVolume {
    PersistentVolume {
        spec: Some(PersistentVolumeSpec {
            local_path: Some("/mnt/unset".to_string()),
            node_affinity: None,
        }),
    }
}

fn claim(name: &str) -> k8s_openapi::api::core::v1::PersistentVolumeClaim {
    let mut claim = k8s_openapi::api::core::v1::PersistentVolumeClaim::default();
    claim.metadata.name = Some(name.to_string());
    claim
}

fn service(name: &str) -> k8s_openapi::api::core::v1::Service {
    let mut service = k8s_openapi::api::core::v1::Service::default();
    service.metadata.name = Some(name.to_string());
    service
}

fn deployment(name: &str) -> Deployment {
    let mut deployment = Deployment::default();
    deployment.metadata.name = Some(name.to_string());
    deployment
}

fn catalog(persistent_volume: PersistentVolume) -> ResourceCatalog {
    ResourceCatalog {
        persistent_volume,
        persistent_volume_claim: claim("mariadb-pvc"),
        service: service("mariadb-svc"),
        deployment: deployment("mariadb"),
    }
}

#[test]
fn pin_to_host_asks_for_the_hostname_label_in_a_set_of_one() {
    let selector = pin_to_host("node-a").unwrap();
    assert_eq!(selector.node_selector_terms.len(), 1);
    let term = &selector.node_selector_terms[0];
    assert_eq!(term.match_expressions.len(), 1);
    let requirement = &term.match_expressions[0];
    assert_eq!(requirement.key, "kubernetes.io/hostname");
    assert_eq!(requirement.operator, "In");
    assert_eq!(requirement.values, vec!["node-a".to_string()]);
}

#[test]
fn pin_to_host_keeps_the_hostname_as_given() {
    assert_eq!(pin_to_host("Node-A.example.org").unwrap(), pin("Node-A.example.org"));
    assert_eq!(pin_to_host(" ").unwrap(), pin(" "));
    assert_ne!(pin_to_host("node-a").unwrap(), pin("node-b"));
}

#[test]
fn pin_to_host_refuses_the_empty_hostname() {
    assert_eq!(pin_to_host(""), Err(KwpmError::EmptyHostname));
}

#[test]
fn the_credential_secret_has_the_fixed_name_and_key() {
    let secret = Secret::credential("s3cr3t");
    assert_eq!(secret.name, "mysql-pass");
    assert_eq!(secret.string_data, vec![("password".to_string(), "s3cr3t".to_string())]);
}

#[test]
fn the_credential_secret_takes_any_password() {
    assert_eq!(Secret::credential("").string_data, vec![("password".to_string(), String::new())]);
    assert_eq!(
        Secret::credential("p\u{e4}ss w\u{f6}rd").string_data,
        vec![("password".to_string(), "p\u{e4}ss w\u{f6}rd".to_string())]
    );
}

#[test]
fn a_volume_with_a_local_source_gets_path_and_affinity() {
    let volume = PersistentVolume::pinned(local_template(), "/data/volumes/kwpm", "node-a").unwrap();
    assert_eq!(
        volume,
        PersistentVolume {
            spec: Some(PersistentVolumeSpec {
                local_path: Some("/data/volumes/kwpm/mariadb".to_string()),
                node_affinity: Some(pin("node-a")),
            }),
        }
    );
}

#[test]
fn a_volume_pinned_elsewhere_is_pinned_anew() {
    let template = PersistentVolume {
        spec: Some(PersistentVolumeSpec {
            local_path: Some("/old".to_string()),
            node_affinity: Some(pin("node-z")),
        }),
    };
    let volume = PersistentVolume::pinned(template, "/srv", "node-a").unwrap();
    let spec = volume.spec.unwrap();
    assert_eq!(spec.local_path, Some("/srv/mariadb".to_string()));
    assert_eq!(spec.node_affinity, Some(pin("node-a")));
}

#[test]
fn a_volume_without_a_local_source_gets_the_affinity_only() {
    let template = PersistentVolume {
        spec: Some(PersistentVolumeSpec { local_path: None, node_affinity: None }),
    };
    let volume = PersistentVolume::pinned(template, "/data/volumes/kwpm", "node-a").unwrap();
    assert_eq!(
        volume,
        PersistentVolume {
            spec: Some(PersistentVolumeSpec { local_path: None, node_affinity: Some(pin("node-a")) }),
        }
    );
}

#[test]
fn a_volume_without_a_specification_stays_as_it_is() {
    let volume =
        PersistentVolume::pinned(PersistentVolume { spec: None }, "/data/volumes/kwpm", "node-a")
            .unwrap();
    assert_eq!(volume, PersistentVolume { spec: None });
}

#[test]
fn a_volume_is_not_pinned_to_the_empty_hostname() {
    assert_eq!(
        PersistentVolume::pinned(local_template(), "/data/volumes/kwpm", ""),
        Err(KwpmError::EmptyHostname)
    );
    assert_eq!(
        PersistentVolume::pinned(PersistentVolume { spec: None }, "/data/volumes/kwpm", ""),
        Err(KwpmError::EmptyHostname)
    );
}

#[test]
fn the_base_path_is_joined_as_it_is() {
    let spec = PersistentVolume::pinned(local_template(), "", "n").unwrap().spec.unwrap();
    assert_eq!(spec.local_path, Some("/mariadb".to_string()));
    let spec = PersistentVolume::pinned(local_template(), "/data/", "n").unwrap().spec.unwrap();
    assert_eq!(spec.local_path, Some("/data//mariadb".to_string()));
}

#[test]
fn the_resource_set_for_a_path_a_node_and_a_password() {
    let set =
        ResourceSet::compose(catalog(local_template()), "/data/volumes/kwpm", "node-a", "s3cr3t")
            .unwrap();
    assert_eq!(set.namespace, Namespace::named("kwpm-mariadb"));
    let spec = set.persistent_volume.spec.unwrap();
    assert_eq!(spec.local_path, Some("/data/volumes/kwpm/mariadb".to_string()));
    assert_eq!(spec.node_affinity, Some(pin("node-a")));
    assert_eq!(set.secret.name, "mysql-pass");
    assert_eq!(set.secret.string_data, vec![("password".to_string(), "s3cr3t".to_string())]);
}

#[test]
fn claim_service_and_deployment_are_those_of_the_catalog() {
    let given = ResourceCatalog {
        persistent_volume: local_template(),
        persistent_volume_claim: claim("a-claim"),
        service: service("a-service"),
        deployment: deployment("a-deployment"),
    };
    let set = ResourceSet::compose(given, "/data/volumes/kwpm", "node-a", "s3cr3t").unwrap();
    assert_eq!(set.persistent_volume_claim, claim("a-claim"));
    assert_eq!(set.service, service("a-service"));
    assert_eq!(set.deployment, deployment("a-deployment"));
    assert_ne!(set.service, service("a-claim"));
}

#[test]
fn no_resource_set_for_the_empty_hostname() {
    assert_eq!(
        ResourceSet::compose(catalog(local_template()), "/data/volumes/kwpm", "", "s3cr3t"),
        Err(KwpmError::EmptyHostname)
    );
}

#[test]
fn a_client_composes_below_its_own_base_path() {
    let client = KwpmClient::new("/data/volumes/kwpm");
    let run = client
        .create_mariadb_if_not_exists(Ok(Vec::new()), catalog(local_template()), "s3cr3t", "node-a")
        .unwrap();
    let expected =
        ResourceSet::compose(catalog(local_template()), "/data/volumes/kwpm", "node-a", "s3cr3t")
            .unwrap();
    assert_eq!(run.resources, expected);
    assert_eq!(run.progress.completed, 0);
    assert_eq!(run.progress.failure, None);
}

#[test]
fn only_namespace_and_volume_belong_to_the_cluster() {
    assert!(!ResourceKind::Namespace.is_namespaced());
    assert!(!ResourceKind::PersistentVolume.is_namespaced());
    assert!(ResourceKind::PersistentVolumeClaim.is_namespaced());
    assert!(ResourceKind::Service.is_namespaced());
    assert!(ResourceKind::Secret.is_namespaced());
    assert!(ResourceKind::Deployment.is_namespaced());
}
