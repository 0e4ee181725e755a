//! What the orchestrator lists after this library's calls succeeded, and
//! what follows for two operations made one after the other.
//!
//! The orchestrator is taken to list a namespace from the moment its
//! creation succeeded until its deletion succeeded, and to change its
//! listing on no other call made here.

use vstd::prelude::*;
use crate::decommission::removal_order;
use crate::error::KwpmError;
use crate::names::{lemma_instance_namespace_is_marked, MARIADB_NAMESPACE, MARIADB_SUFFIX};
use crate::namespace::{is_managed, lemma_managed_ends_with, name_of};
use crate::provision::{creation_order, instance_exists, provision_decision};
use crate::resources::{ResourceCatalogView, ResourceKind, ResourceSetView};

verus! {

/// The listing after one creation succeeded.
pub open spec fn listing_after_creation(
    listing: Seq<Option<Seq<char>>>,
    kind: ResourceKind,
    resources: ResourceSetView,
) -> Seq<Option<Seq<char>>> {
    if kind is Namespace {
        listing.push(resources.namespace)
    } else {
        listing
    }
}

/// The listing after the creations of `kinds` succeeded, in order.
pub open spec fn listing_after_creations(
    listing: Seq<Option<Seq<char>>>,
    kinds: Seq<ResourceKind>,
    resources: ResourceSetView,
) -> Seq<Option<Seq<char>>>
    decreases kinds.len(),
{
    if kinds.len() == 0 {
        listing
    } else {
        listing_after_creations(
            listing_after_creation(listing, kinds[0], resources),
            kinds.drop_first(),
            resources,
        )
    }
}

/// The listing after one deletion succeeded.
pub open spec fn listing_after_deletion(
    listing: Seq<Option<Seq<char>>>,
    deletion: (ResourceKind, Seq<char>),
) -> Seq<Option<Seq<char>>> {
    if deletion.0 is Namespace {
        listing.filter(|ns: Option<Seq<char>>| ns != Some(deletion.1))
    } else {
        listing
    }
}

/// The listing after the given deletions succeeded, in order.
pub open spec fn listing_after_deletions(
    listing: Seq<Option<Seq<char>>>,
    deletions: Seq<(ResourceKind, Seq<char>)>,
) -> Seq<Option<Seq<char>>>
    decreases deletions.len(),
{
    if deletions.len() == 0 {
        listing
    } else {
        listing_after_deletions(
            listing_after_deletion(listing, deletions[0]),
            deletions.drop_first(),
        )
    }
}

/// Creations of other kinds than the namespace leave the listing as it is.
pub proof fn lemma_other_creations_keep_listing(
    listing: Seq<Option<Seq<char>>>,
    kinds: Seq<ResourceKind>,
    resources: ResourceSetView,
)
    requires
        forall|i: int| 0 <= i < kinds.len() ==> !(kinds[i] is Namespace),
    ensures
        listing_after_creations(listing, kinds, resources) == listing,
    decreases kinds.len(),
{
    if kinds.len() > 0 {
        lemma_other_creations_keep_listing(listing, kinds.drop_first(), resources);
    }
}

/// Once the first creation of the creation order succeeded, the listing
/// holds the instance's namespace after all that was listed before,
/// however many of the later creations succeeded.
pub proof fn lemma_listing_after_provisioning(
    listing: Seq<Option<Seq<char>>>,
    created: int,
    resources: ResourceSetView,
)
    requires
        1 <= created <= creation_order().len(),
    ensures
        listing_after_creations(listing, creation_order().take(created), resources)
            == listing.push(resources.namespace),
{
    let kinds = creation_order().take(created);
    lemma_other_creations_keep_listing(
        listing.push(resources.namespace),
        kinds.drop_first(),
        resources,
    );
}

/// After both deletions of the removal order succeeded, the listing holds
/// what it held before, without the instance's namespace.
pub proof fn lemma_listing_after_removal(listing: Seq<Option<Seq<char>>>)
    ensures
        listing_after_deletions(listing, removal_order()) == listing.filter(
            |ns: Option<Seq<char>>| ns != Some(MARIADB_NAMESPACE@),
        ),
{
    let deletions = removal_order();
    let rest = deletions.drop_first();
    assert(rest.drop_first().len() == 0);
    reveal_with_fuel(listing_after_deletions, 3);
}

/// A second request to create the instance is refused. Where a request was
/// accepted and at least its first creation, that of the namespace,
/// succeeded, every request that sees the listing as it then is, whatever
/// its parameters, is refused as already existing, so that it names no
/// resources to create.
pub proof fn lemma_second_creation_is_refused(
    listing: Seq<Option<Seq<char>>>,
    catalog: ResourceCatalogView,
    base_path: Seq<char>,
    hostname: Seq<char>,
    password: Seq<char>,
    created: int,
    second_catalog: ResourceCatalogView,
    second_base_path: Seq<char>,
    second_hostname: Seq<char>,
    second_password: Seq<char>,
)
    requires
        provision_decision(listing, catalog, base_path, hostname, password) is Ok,
        1 <= created <= creation_order().len(),
    ensures
        provision_decision(
            listing_after_creations(
                listing,
                creation_order().take(created),
                provision_decision(listing, catalog, base_path, hostname, password)->Ok_0,
            ),
            second_catalog,
            second_base_path,
            second_hostname,
            second_password,
        ) == Err::<ResourceSetView, KwpmError>(KwpmError::AlreadyExists),
{
    let resources = provision_decision(listing, catalog, base_path, hostname, password)->Ok_0;
    lemma_listing_after_provisioning(listing, created, resources);
    lemma_created_instance_exists(listing);
}

/// A listing that ends with the instance's namespace shows an instance.
proof fn lemma_created_instance_exists(listing: Seq<Option<Seq<char>>>)
    ensures
        instance_exists(listing.push(Some(MARIADB_NAMESPACE@))),
{
    let after = listing.push(Some(MARIADB_NAMESPACE@));
    lemma_instance_namespace_is_marked();
    let last = after.len() - 1;
    assert(is_managed(after[last]) && MARIADB_SUFFIX@.is_suffix_of(name_of(after[last])));
    lemma_managed_ends_with(after, MARIADB_SUFFIX@);
}

/// Creating and then removing the instance. Where a request to create the
/// instance was accepted and all its creations succeeded, the listing
/// shows an instance; after a removal whose deletions both succeeded, the
/// listing shows none.
pub proof fn lemma_create_then_remove(
    listing: Seq<Option<Seq<char>>>,
    catalog: ResourceCatalogView,
    base_path: Seq<char>,
    hostname: Seq<char>,
    password: Seq<char>,
)
    requires
        provision_decision(listing, catalog, base_path, hostname, password) is Ok,
    ensures
        ({
            let resources = provision_decision(listing, catalog, base_path, hostname, password)->Ok_0;
            let created = listing_after_creations(listing, creation_order(), resources);
            let removed = listing_after_deletions(created, removal_order());
            instance_exists(created) && !instance_exists(removed)
        }),
{
    let resources = provision_decision(listing, catalog, base_path, hostname, password)->Ok_0;
    let created = listing_after_creations(listing, creation_order(), resources);
    let removed = listing_after_deletions(created, removal_order());
    assert(creation_order().take(6) =~= creation_order());
    lemma_listing_after_provisioning(listing, 6, resources);
    lemma_created_instance_exists(listing);
    lemma_listing_after_removal(created);
    let others = |ns: Option<Seq<char>>| ns != Some(MARIADB_NAMESPACE@);
    lemma_managed_ends_with(listing, MARIADB_SUFFIX@);
    lemma_managed_ends_with(removed, MARIADB_SUFFIX@);
    if instance_exists(removed) {
        let i = choose|i: int|
            0 <= i < removed.len() && is_managed(#[trigger] removed[i])
                && MARIADB_SUFFIX@.is_suffix_of(name_of(removed[i]));
        assert(removed.contains(removed[i]));
        created.lemma_filter_contains_rev(others, removed[i]);
        created.lemma_filter_pred(others, i);
        let j = choose|j: int| 0 <= j < created.len() && created[j] == removed[i];
        assert(listing[j] == removed[i]);
    }
}

} // verus!
