//! The resources that make up one database instance, and how the caller's
//! parameters enter them.

use vstd::prelude::*;
use vstd::string::StringExecFns;
use crate::affinity::{host_pin, pin_to_host, NodeSelector, SelectorView};
use crate::error::KwpmError;
use crate::names::{MARIADB_NAMESPACE, MARIADB_SUBPATH, SECRET_KEY, SECRET_NAME};
use crate::namespace::Namespace;

verus! {

/// `k8s_openapi::api::core::v1::PersistentVolumeClaim`, the orchestrator's
/// volume claim. Nothing is known here of what one holds: a claim is taken
/// from the catalog and handed on as it is.
#[verifier::external_type_specification]
#[verifier::external_body]
pub struct ExPersistentVolumeClaim(k8s_openapi::api::core::v1::PersistentVolumeClaim);

/// `k8s_openapi::api::core::v1::Service`, the orchestrator's network
/// service. Nothing is known here of what one holds: a service is taken
/// from the catalog and handed on as it is.
#[verifier::external_type_specification]
#[verifier::external_body]
pub struct ExService(k8s_openapi::api::core::v1::Service);

/// `k8s_openapi::api::apps::v1::Deployment`, the orchestrator's workload
/// description. Nothing is known here of what one holds: a deployment is
/// taken from the catalog and handed on as it is.
#[verifier::external_type_specification]
#[verifier::external_body]
pub struct ExDeployment(k8s_openapi::api::apps::v1::Deployment);

/// The kinds of resource that an instance is made of.
#[derive(Clone, Copy, Debug, PartialEq, Eq, Structural)]
pub enum ResourceKind {
    Namespace,
    PersistentVolume,
    PersistentVolumeClaim,
    Service,
    Secret,
    Deployment,
}

impl ResourceKind {
    /// Whether resources of this kind live inside a namespace. The
    /// namespace itself and the persistent volume belong to the cluster.
    pub open spec fn namespaced(self) -> bool {
        !(self is Namespace || self is PersistentVolume)
    }

    /// Whether resources of this kind live inside a namespace.
    pub fn is_namespaced(&self) -> (b: bool)
        ensures
            b == self.namespaced(),
    {
        match self {
            ResourceKind::Namespace => false,
            ResourceKind::PersistentVolume => false,
            _ => true,
        }
    }
}

/// The part of a persistent volume's specification that provisioning
/// reads or writes.
#[derive(Debug, PartialEq, Eq)]
pub struct PersistentVolumeSpec {
    /// Directory of the volume's local source, where it has one.
    pub local_path: Option<String>,
    /// Selector that a node must meet to use the volume, where one is set.
    pub node_affinity: Option<NodeSelector>,
}

/// A persistent volume, as far as provisioning reads or writes it.
#[derive(Debug, PartialEq, Eq)]
pub struct PersistentVolume {
    pub spec: Option<PersistentVolumeSpec>,
}

/// What a [`PersistentVolumeSpec`] says.
pub struct PersistentVolumeSpecView {
    pub local_path: Option<Seq<char>>,
    pub node_affinity: Option<SelectorView>,
}

/// What a [`PersistentVolume`] says.
pub struct PersistentVolumeView {
    pub spec: Option<PersistentVolumeSpecView>,
}

impl View for PersistentVolumeSpec {
    type V = PersistentVolumeSpecView;

    open spec fn view(&self) -> PersistentVolumeSpecView {
        PersistentVolumeSpecView {
            local_path: match self.local_path {
                Some(p) => Some(p@),
                None => None,
            },
            node_affinity: match self.node_affinity {
                Some(a) => Some(a@),
                None => None,
            },
        }
    }
}

impl View for PersistentVolume {
    type V = PersistentVolumeView;

    open spec fn view(&self) -> PersistentVolumeView {
        PersistentVolumeView {
            spec: match self.spec {
                Some(s) => Some(s@),
                None => None,
            },
        }
    }
}

/// A secret: its name and its entries, each a key with its value.
#[derive(Debug, PartialEq, Eq)]
pub struct Secret {
    pub name: String,
    pub string_data: Vec<(String, String)>,
}

/// What a [`Secret`] says.
pub struct SecretView {
    pub name: Seq<char>,
    pub string_data: Seq<(Seq<char>, Seq<char>)>,
}

impl View for Secret {
    type V = SecretView;

    open spec fn view(&self) -> SecretView {
        SecretView {
            name: self.name@,
            string_data: self.string_data@.map_values(|e: (String, String)| (e.0@, e.1@)),
        }
    }
}

/// The templates from which an instance is made. Of the volume, what
/// provisioning reads or writes; the claim, the service and the deployment
/// as the orchestrator's own objects.
#[derive(Debug, PartialEq)]
pub struct ResourceCatalog {
    pub persistent_volume: PersistentVolume,
    pub persistent_volume_claim: k8s_openapi::api::core::v1::PersistentVolumeClaim,
    pub service: k8s_openapi::api::core::v1::Service,
    pub deployment: k8s_openapi::api::apps::v1::Deployment,
}

/// What a [`ResourceCatalog`] says.
pub struct ResourceCatalogView {
    pub persistent_volume: PersistentVolumeView,
    pub persistent_volume_claim: k8s_openapi::api::core::v1::PersistentVolumeClaim,
    pub service: k8s_openapi::api::core::v1::Service,
    pub deployment: k8s_openapi::api::apps::v1::Deployment,
}

impl View for ResourceCatalog {
    type V = ResourceCatalogView;

    open spec fn view(&self) -> ResourceCatalogView {
        ResourceCatalogView {
            persistent_volume: self.persistent_volume@,
            persistent_volume_claim: self.persistent_volume_claim,
            service: self.service,
            deployment: self.deployment,
        }
    }
}

/// The resources of one instance: one of each kind.
#[derive(Debug, PartialEq)]
pub struct ResourceSet {
    pub namespace: Namespace,
    pub persistent_volume: PersistentVolume,
    pub persistent_volume_claim: k8s_openapi::api::core::v1::PersistentVolumeClaim,
    pub service: k8s_openapi::api::core::v1::Service,
    pub secret: Secret,
    pub deployment: k8s_openapi::api::apps::v1::Deployment,
}

/// What a [`ResourceSet`] says.
pub struct ResourceSetView {
    pub namespace: Option<Seq<char>>,
    pub persistent_volume: PersistentVolumeView,
    pub persistent_volume_claim: k8s_openapi::api::core::v1::PersistentVolumeClaim,
    pub service: k8s_openapi::api::core::v1::Service,
    pub secret: SecretView,
    pub deployment: k8s_openapi::api::apps::v1::Deployment,
}

impl View for ResourceSet {
    type V = ResourceSetView;

    open spec fn view(&self) -> ResourceSetView {
        ResourceSetView {
            namespace: self.namespace@,
            persistent_volume: self.persistent_volume@,
            persistent_volume_claim: self.persistent_volume_claim,
            service: self.service,
            secret: self.secret@,
            deployment: self.deployment,
        }
    }
}

/// Directory of the instance's volume below the storage base path.
pub open spec fn volume_path(base_path: Seq<char>) -> Seq<char> {
    base_path + MARIADB_SUBPATH@
}

/// The volume template with the caller's parameters entered. A template
/// without a specification stays as it is. Otherwise the node affinity
/// becomes the pin to `hostname`, whatever it was, and the local source,
/// where the template has one, points below `base_path`.
pub open spec fn pinned_volume(
    template: PersistentVolumeView,
    base_path: Seq<char>,
    hostname: Seq<char>,
) -> PersistentVolumeView {
    match template.spec {
        None => template,
        Some(spec) => PersistentVolumeView {
            spec: Some(
                PersistentVolumeSpecView {
                    local_path: match spec.local_path {
                        Some(_) => Some(volume_path(base_path)),
                        None => None,
                    },
                    node_affinity: Some(host_pin(hostname)),
                },
            ),
        },
    }
}

/// The secret that holds `password` under the fixed key and name.
pub open spec fn credential_secret(password: Seq<char>) -> SecretView {
    SecretView { name: SECRET_NAME@, string_data: seq![(SECRET_KEY@, password)] }
}

/// The resources of the instance for the given catalog and parameters:
/// the namespace under its fixed name, the volume with the parameters
/// entered, the secret with the password, and the claim, the service and
/// the deployment as the catalog holds them.
pub open spec fn resource_set(
    catalog: ResourceCatalogView,
    base_path: Seq<char>,
    hostname: Seq<char>,
    password: Seq<char>,
) -> ResourceSetView {
    ResourceSetView {
        namespace: Some(MARIADB_NAMESPACE@),
        persistent_volume: pinned_volume(catalog.persistent_volume, base_path, hostname),
        persistent_volume_claim: catalog.persistent_volume_claim,
        service: catalog.service,
        secret: credential_secret(password),
        deployment: catalog.deployment,
    }
}

impl PersistentVolume {
    /// Enters the storage base path and the node's hostname into a volume
    /// template. The empty hostname is refused, whatever the template.
    pub fn pinned(template: PersistentVolume, base_path: &str, hostname: &str) -> (volume: Result<
        PersistentVolume,
        KwpmError,
    >)
        ensures
            hostname@.len() == 0 ==> volume == Err::<PersistentVolume, KwpmError>(
                KwpmError::EmptyHostname,
            ),
            hostname@.len() > 0 ==> volume is Ok && volume->Ok_0@ == pinned_volume(
                template@,
                base_path@,
                hostname@,
            ),
    {
        let selector = match pin_to_host(hostname) {
            Ok(s) => s,
            Err(e) => {
                return Err(e);
            },
        };
        match template.spec {
            None => Ok(PersistentVolume { spec: None }),
            Some(spec) => {
                let local_path = match spec.local_path {
                    Some(_) => {
                        let mut path = base_path.to_owned();
                        path.append(MARIADB_SUBPATH);
                        Some(path)
                    },
                    None => None,
                };
                Ok(
                    PersistentVolume {
                        spec: Some(PersistentVolumeSpec { local_path, node_affinity: Some(selector) }),
                    },
                )
            },
        }
    }
}

impl Secret {
    /// The secret that holds `password` under the fixed key and name.
    pub fn credential(password: &str) -> (secret: Secret)
        ensures
            secret@ == credential_secret(password@),
    {
        let mut string_data: Vec<(String, String)> = Vec::new();
        string_data.push((SECRET_KEY.to_owned(), password.to_owned()));
        let secret = Secret { name: SECRET_NAME.to_owned(), string_data };
        proof {
            assert(secret@.string_data =~= seq![(SECRET_KEY@, password@)]);
        }
        secret
    }
}

impl ResourceSet {
    /// Composes the resources of the instance from the catalog and the
    /// caller's parameters. The empty hostname is refused.
    pub fn compose(
        catalog: ResourceCatalog,
        base_path: &str,
        hostname: &str,
        password: &str,
    ) -> (set: Result<ResourceSet, KwpmError>)
        ensures
            hostname@.len() == 0 ==> set == Err::<ResourceSet, KwpmError>(KwpmError::EmptyHostname),
            hostname@.len() > 0 ==> set is Ok && set->Ok_0@ == resource_set(
                catalog@,
                base_path@,
                hostname@,
                password@,
            ),
    {
        let persistent_volume = match PersistentVolume::pinned(
            catalog.persistent_volume,
            base_path,
            hostname,
        ) {
            Ok(v) => v,
            Err(e) => {
                return Err(e);
            },
        };
        Ok(
            ResourceSet {
                namespace: Namespace::named(MARIADB_NAMESPACE),
                persistent_volume,
                persistent_volume_claim: catalog.persistent_volume_claim,
                service: catalog.service,
                secret: Secret::credential(password),
                deployment: catalog.deployment,
            },
        )
    }
}

} // verus!
