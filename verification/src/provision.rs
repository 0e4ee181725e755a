//! Creating the instance: whether it may be created, and the order in which
//! its resources are created.

use vstd::prelude::*;
use crate::error::{KwpmError, RemoteApiError};
use crate::names::MARIADB_SUFFIX;
use crate::namespace::{any_ends_with, managed, name_of};
use crate::progress::Progress;
use crate::resources::{resource_set, ResourceCatalogView, ResourceKind, ResourceSet, ResourceSetView};

verus! {

/// Number of resources that make up an instance.
pub const CREATION_STEPS: usize = 6;

/// The order in which the resources of an instance are created. Whatever
/// lives in the namespace comes after the namespace, and the deployment,
/// which uses the claim, the service and the secret, comes last.
pub open spec fn creation_order() -> Seq<ResourceKind> {
    seq![
        ResourceKind::Namespace,
        ResourceKind::PersistentVolume,
        ResourceKind::PersistentVolumeClaim,
        ResourceKind::Service,
        ResourceKind::Secret,
        ResourceKind::Deployment,
    ]
}

/// An instance exists when a managed namespace of the listing has a name
/// that ends in the database suffix.
pub open spec fn instance_exists(listing: Seq<Option<Seq<char>>>) -> bool {
    any_ends_with(managed(listing), MARIADB_SUFFIX@)
}

/// What a request to create the instance comes to, given the namespaces
/// listed at the time: refused where an instance exists, refused where the
/// hostname is empty, and otherwise the resources to create.
pub open spec fn provision_decision(
    listing: Seq<Option<Seq<char>>>,
    catalog: ResourceCatalogView,
    base_path: Seq<char>,
    hostname: Seq<char>,
    password: Seq<char>,
) -> Result<ResourceSetView, KwpmError> {
    if instance_exists(listing) {
        Err(KwpmError::AlreadyExists)
    } else if hostname.len() == 0 {
        Err(KwpmError::EmptyHostname)
    } else {
        Ok(resource_set(catalog, base_path, hostname, password))
    }
}

/// The kind of resource created by the call at `index` of the creation
/// order, where there is such a call.
pub fn creation_step(index: usize) -> (kind: Option<ResourceKind>)
    ensures
        index < CREATION_STEPS ==> kind == Some(creation_order()[index as int]),
        index >= CREATION_STEPS ==> kind is None,
{
    if index == 0 {
        Some(ResourceKind::Namespace)
    } else if index == 1 {
        Some(ResourceKind::PersistentVolume)
    } else if index == 2 {
        Some(ResourceKind::PersistentVolumeClaim)
    } else if index == 3 {
        Some(ResourceKind::Service)
    } else if index == 4 {
        Some(ResourceKind::Secret)
    } else if index == 5 {
        Some(ResourceKind::Deployment)
    } else {
        None
    }
}

/// One creation: the kind of the resource, and the namespace inside which
/// it is created, where resources of that kind live inside one.
#[derive(Debug, PartialEq, Eq)]
pub struct Creation {
    pub kind: ResourceKind,
    pub namespace: Option<String>,
}

impl View for Creation {
    type V = (ResourceKind, Option<Seq<char>>);

    open spec fn view(&self) -> (ResourceKind, Option<Seq<char>>) {
        (
            self.kind,
            match self.namespace {
                Some(n) => Some(n@),
                None => None,
            },
        )
    }
}

/// The creation of a resource of the given kind for the given instance.
/// Whatever lives inside a namespace is created inside the instance's own.
pub open spec fn creation_of(kind: ResourceKind, resources: ResourceSetView) -> (
    ResourceKind,
    Option<Seq<char>>,
) {
    (
        kind,
        if kind.namespaced() {
            Some(name_of(resources.namespace))
        } else {
            None
        },
    )
}

/// The creation of one instance under way: the resources to create, and
/// how far their creation has come. The caller makes the call that
/// [`Provisioning::next_creation`] names and hands its outcome to
/// [`Provisioning::record`], until no call is due.
#[derive(Debug, PartialEq)]
pub struct Provisioning {
    pub resources: ResourceSet,
    pub progress: Progress,
}

impl Provisioning {
    /// The kinds of resource created so far, in the order of their creation.
    pub open spec fn created(self) -> Seq<ResourceKind> {
        if self.progress.completed >= CREATION_STEPS {
            creation_order()
        } else {
            creation_order().take(self.progress.completed as int)
        }
    }

    /// The creation that is due, if any is.
    pub open spec fn due(self) -> Option<(ResourceKind, Option<Seq<char>>)> {
        if self.progress.finished(CREATION_STEPS as nat) {
            None
        } else {
            Some(creation_of(creation_order()[self.progress.completed as int], self.resources@))
        }
    }

    /// The creation of `resources`, with no call made yet.
    pub fn begin(resources: ResourceSet) -> (run: Provisioning)
        ensures
            run.resources == resources,
            run.progress == (Progress { completed: 0, failure: None }),
    {
        Provisioning { resources, progress: Progress::start() }
    }

    /// The creation to make next: that of the first kind of the creation
    /// order that has not been created, unless a creation failed or all
    /// are done.
    pub fn next_creation(&self) -> (creation: Option<Creation>)
        ensures
            self.due() is None <==> creation is None,
            creation is Some ==> self.due() == Some(creation->Some_0@),
    {
        if self.progress.is_finished(CREATION_STEPS) {
            return None;
        }
        match creation_step(self.progress.completed) {
            Some(kind) => {
                let namespace = if kind.is_namespaced() {
                    Some(self.resources.namespace.name_or_empty().to_owned())
                } else {
                    None
                };
                Some(Creation { kind, namespace })
            },
            None => None,
        }
    }

    /// The kinds of resource created so far, in the order of their
    /// creation. After a failure these are the resources that stay behind.
    pub fn created_kinds(&self) -> (kinds: Vec<ResourceKind>)
        ensures
            kinds@ == self.created(),
    {
        let mut kinds: Vec<ResourceKind> = Vec::new();
        let mut i: usize = 0;
        while i < CREATION_STEPS && i < self.progress.completed
            invariant
                i <= CREATION_STEPS,
                i <= self.progress.completed,
                kinds@ == creation_order().take(i as int),
            decreases CREATION_STEPS - i,
        {
            match creation_step(i) {
                Some(kind) => {
                    kinds.push(kind);
                },
                None => {},
            }
            proof {
                assert(creation_order().take(i as int + 1) =~= creation_order().take(i as int).push(
                    creation_order()[i as int],
                ));
            }
            i += 1;
        }
        proof {
            assert(creation_order().take(6) =~= creation_order());
        }
        kinds
    }

    /// Takes the outcome of the creation that was due. After a failure no
    /// further creation is due, and what was created stays.
    pub fn record(&mut self, outcome: Result<(), RemoteApiError>)
        ensures
            final(self).resources == old(self).resources,
            final(self).progress == old(self).progress.after(CREATION_STEPS as nat, outcome),
    {
        self.progress.record(CREATION_STEPS, outcome);
    }

    /// What the operation returns: nothing while a creation is due, the
    /// failure of the creation that failed, or success once all six
    /// resources exist.
    pub fn result(&self) -> (result: Option<Result<(), KwpmError>>)
        ensures
            result == self.progress.result(CREATION_STEPS as nat),
    {
        self.progress.outcome(CREATION_STEPS)
    }
}

} // verus!
