//! The entry points: what a client configured with a storage base path
//! makes of the orchestrator's answers.

use vstd::prelude::*;
use crate::decommission::Decommissioning;
use crate::error::{KwpmError, RemoteApiError};
use crate::names::MARIADB_SUFFIX;
use crate::namespace::{any_namespace_ends_with, managed, managed_namespaces, views, Namespace};
use crate::progress::Progress;
use crate::provision::{instance_exists, provision_decision, Provisioning};
use crate::resources::{ResourceCatalog, ResourceSet};

verus! {

/// A client of the orchestrator, as far as the decisions need it: the
/// base path below which the instance's storage lies.
#[derive(Debug, PartialEq, Eq)]
pub struct KwpmClient {
    pub pv_base_path: String,
}

impl KwpmClient {
    /// A client that places volumes below `pv_base_path`.
    pub fn new(pv_base_path: &str) -> (client: KwpmClient)
        ensures
            client.pv_base_path@ == pv_base_path@,
    {
        KwpmClient { pv_base_path: pv_base_path.to_owned() }
    }

    /// All namespaces, as the orchestrator listed them and in its order;
    /// the failure of the listing, where it failed.
    pub fn get_namespaces(&self, listing: Result<Vec<Namespace>, RemoteApiError>) -> (all: Result<
        Vec<Namespace>,
        KwpmError,
    >)
        ensures
            listing is Ok ==> all == Ok::<Vec<Namespace>, KwpmError>(listing->Ok_0),
            listing is Err ==> all == Err::<Vec<Namespace>, KwpmError>(
                KwpmError::RemoteApi(listing->Err_0),
            ),
    {
        match listing {
            Ok(all) => Ok(all),
            Err(e) => Err(KwpmError::RemoteApi(e)),
        }
    }

    /// The managed namespaces of a listing: those whose name begins with
    /// the managed prefix and no others, in listing order.
    pub fn get_kwpm_namespaces(&self, listing: Result<Vec<Namespace>, RemoteApiError>) -> (kept:
        Result<Vec<Namespace>, KwpmError>)
        ensures
            listing is Ok ==> kept is Ok && views(kept->Ok_0@) == managed(views(listing->Ok_0@)),
            listing is Err ==> kept == Err::<Vec<Namespace>, KwpmError>(
                KwpmError::RemoteApi(listing->Err_0),
            ),
    {
        match self.get_namespaces(listing) {
            Ok(all) => Ok(managed_namespaces(&all)),
            Err(e) => Err(e),
        }
    }

    /// Whether the database instance exists: whether a managed namespace
    /// of the listing has a name that ends in the database suffix.
    pub fn is_mariadb_created(&self, listing: Result<Vec<Namespace>, RemoteApiError>) -> (created:
        Result<bool, KwpmError>)
        ensures
            listing is Ok ==> created == Ok::<bool, KwpmError>(instance_exists(views(listing->Ok_0@))),
            listing is Err ==> created == Err::<bool, KwpmError>(
                KwpmError::RemoteApi(listing->Err_0),
            ),
    {
        match self.get_kwpm_namespaces(listing) {
            Ok(kept) => Ok(any_namespace_ends_with(&kept, MARIADB_SUFFIX)),
            Err(e) => Err(e),
        }
    }

    /// Decides on a request to create the instance and composes its
    /// resources. Where the listing failed, its failure is returned. Where
    /// an instance exists, the request is refused and nothing is to be
    /// created. Where the hostname is empty, the request is refused too.
    /// Otherwise the creation begins, with the volume placed below this
    /// client's base path and pinned to the node, the password in the
    /// secret, and the rest as the catalog holds it; no call has been made
    /// at that point.
    pub fn create_mariadb_if_not_exists(
        &self,
        listing: Result<Vec<Namespace>, RemoteApiError>,
        catalog: ResourceCatalog,
        mysql_root_password: &str,
        node_hostname: &str,
    ) -> (run: Result<Provisioning, KwpmError>)
        ensures
            listing is Err ==> run == Err::<Provisioning, KwpmError>(
                KwpmError::RemoteApi(listing->Err_0),
            ),
            listing is Ok ==> match provision_decision(
                views(listing->Ok_0@),
                catalog@,
                self.pv_base_path@,
                node_hostname@,
                mysql_root_password@,
            ) {
                Ok(resources) => run is Ok && run->Ok_0.resources@ == resources
                    && run->Ok_0.progress == (Progress { completed: 0, failure: None }),
                Err(e) => run == Err::<Provisioning, KwpmError>(e),
            },
    {
        match self.is_mariadb_created(listing) {
            Err(e) => Err(e),
            Ok(true) => Err(KwpmError::AlreadyExists),
            Ok(false) => {
                match ResourceSet::compose(
                    catalog,
                    self.pv_base_path.as_str(),
                    node_hostname,
                    mysql_root_password,
                ) {
                    Ok(resources) => Ok(Provisioning::begin(resources)),
                    Err(e) => Err(e),
                }
            },
        }
    }

    /// Begins the removal of the instance. Nothing is looked up first: the
    /// deletions are made whether or not the resources exist.
    pub fn remove_mariadb(&self) -> (run: Decommissioning)
        ensures
            run.progress == (Progress { completed: 0, failure: None }),
    {
        Decommissioning::begin()
    }
}

} // verus!
