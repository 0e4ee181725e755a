//! Namespaces as the orchestrator lists them, and the naming convention
//! that tells which of them are managed and whether an instance exists.

use vstd::prelude::*;
use crate::names::{ends_with, starts_with, MANAGED_PREFIX};

verus! {

/// A namespace of the orchestrator. Only its name matters here; a
/// namespace listed without a name counts as having the empty name.
#[derive(Debug, PartialEq, Eq)]
pub struct Namespace {
    pub name: Option<String>,
}

impl View for Namespace {
    type V = Option<Seq<char>>;

    open spec fn view(&self) -> Option<Seq<char>> {
        match self.name {
            Some(n) => Some(n@),
            None => None,
        }
    }
}

impl Clone for Namespace {
    fn clone(&self) -> (copy: Self)
        ensures
            copy == *self,
    {
        match &self.name {
            Some(n) => Namespace { name: Some(n.clone()) },
            None => Namespace { name: None },
        }
    }
}

/// The name by which a namespace is judged: its own, or the empty name.
pub open spec fn name_of(ns: Option<Seq<char>>) -> Seq<char> {
    match ns {
        Some(n) => n,
        None => Seq::empty(),
    }
}

/// A namespace is managed when its name begins with the managed prefix.
pub open spec fn is_managed(ns: Option<Seq<char>>) -> bool {
    MANAGED_PREFIX@.is_prefix_of(name_of(ns))
}

/// The namespaces of a listing, each by its view, in listing order.
pub open spec fn views(listing: Seq<Namespace>) -> Seq<Option<Seq<char>>> {
    listing.map_values(|ns: Namespace| ns@)
}

/// The managed namespaces of a listing, in listing order.
pub open spec fn managed(listing: Seq<Option<Seq<char>>>) -> Seq<Option<Seq<char>>> {
    listing.filter(|ns: Option<Seq<char>>| is_managed(ns))
}

/// Whether some namespace of `namespaces` has a name that ends in `suffix`.
pub open spec fn any_ends_with(namespaces: Seq<Option<Seq<char>>>, suffix: Seq<char>) -> bool {
    exists|i: int| 0 <= i < namespaces.len() && suffix.is_suffix_of(#[trigger] name_of(namespaces[i]))
}

impl Namespace {
    /// A namespace with the given name.
    pub fn named(name: &str) -> (ns: Namespace)
        ensures
            ns@ == Some(name@),
    {
        Namespace { name: Some(name.to_owned()) }
    }

    /// The namespace's name, or the empty name where it has none.
    pub fn name_or_empty(&self) -> (name: &str)
        ensures
            name@ == name_of(self@),
    {
        match &self.name {
            Some(n) => n.as_str(),
            None => {
                proof {
                    reveal_strlit("");
                    assert(""@ =~= Seq::<char>::empty());
                }
                ""
            },
        }
    }

    /// Whether this namespace is managed.
    pub fn is_managed(&self) -> (b: bool)
        ensures
            b == is_managed(self@),
    {
        starts_with(self.name_or_empty(), MANAGED_PREFIX)
    }
}

/// Keeps the managed namespaces of `all`: those and no others, each as
/// often as it is listed, in listing order.
pub fn managed_namespaces(all: &Vec<Namespace>) -> (kept: Vec<Namespace>)
    ensures
        kept@ == all@.filter(|ns: Namespace| is_managed(ns@)),
        views(kept@) == managed(views(all@)),
{
    let ghost keep = |ns: Namespace| is_managed(ns@);
    let ghost keep_view = |ns: Option<Seq<char>>| is_managed(ns);
    let mut kept: Vec<Namespace> = Vec::new();
    let mut i: usize = 0;
    proof {
        reveal_with_fuel(Seq::filter, 1);
        assert(views(all@.take(0)) =~= views(kept@));
    }
    while i < all.len()
        invariant
            i <= all.len(),
            keep == |ns: Namespace| is_managed(ns@),
            keep_view == |ns: Option<Seq<char>>| is_managed(ns),
            kept@ == all@.take(i as int).filter(keep),
            views(kept@) == views(all@.take(i as int)).filter(keep_view),
        decreases all.len() - i,
    {
        let ns = &all[i];
        let ghost before = kept@;
        proof {
            let head = all@.take(i as int);
            let next = all@.take(i as int + 1);
            assert(next.drop_last() =~= head);
            assert(views(next).drop_last() =~= views(head));
            reveal_with_fuel(Seq::filter, 1);
        }
        if ns.is_managed() {
            kept.push(ns.clone());
            proof {
                assert(views(kept@) =~= views(before).push(all@[i as int]@));
            }
        }
        i += 1;
    }
    proof {
        assert(all@.take(i as int) =~= all@);
    }
    kept
}

/// Whether some namespace of `namespaces` has a name that ends in
/// `suffix`. On no namespaces at all the answer is `false`.
pub fn any_namespace_ends_with(namespaces: &Vec<Namespace>, suffix: &str) -> (found: bool)
    ensures
        found == any_ends_with(views(namespaces@), suffix@),
        namespaces@.len() == 0 ==> !found,
{
    let mut i: usize = 0;
    while i < namespaces.len()
        invariant
            i <= namespaces.len(),
            forall|j: int| 0 <= j < i ==> !suffix@.is_suffix_of(#[trigger] name_of(views(namespaces@)[j])),
        decreases namespaces.len() - i,
    {
        if ends_with(namespaces[i].name_or_empty(), suffix) {
            proof {
                assert(name_of(views(namespaces@)[i as int]) == name_of(namespaces@[i as int]@));
            }
            return true;
        }
        i += 1;
    }
    false
}

/// The managed namespaces of a listing are its namespaces with the managed
/// prefix: each of those is among them, and nothing else is.
pub proof fn lemma_managed_is_exact(listing: Seq<Option<Seq<char>>>, ns: Option<Seq<char>>)
    ensures
        managed(listing).contains(ns) <==> listing.contains(ns) && is_managed(ns),
{
    let keep = |ns: Option<Seq<char>>| is_managed(ns);
    let kept = listing.filter(keep);
    if kept.contains(ns) {
        let j = choose|j: int| 0 <= j < kept.len() && kept[j] == ns;
        listing.lemma_filter_pred(keep, j);
        listing.lemma_filter_contains_rev(keep, ns);
    }
    if listing.contains(ns) && is_managed(ns) {
        let i = choose|i: int| 0 <= i < listing.len() && listing[i] == ns;
        listing.lemma_filter_contains(keep, i);
    }
}

/// Some managed namespace of a listing has a name that ends in `suffix`
/// exactly when some namespace of the listing has the managed prefix and a
/// name that ends in `suffix`. A listing without managed namespaces has none.
pub proof fn lemma_managed_ends_with(listing: Seq<Option<Seq<char>>>, suffix: Seq<char>)
    ensures
        any_ends_with(managed(listing), suffix) <==> exists|i: int|
            0 <= i < listing.len() && is_managed(#[trigger] listing[i]) && suffix.is_suffix_of(
                name_of(listing[i]),
            ),
        managed(listing).len() == 0 ==> !any_ends_with(managed(listing), suffix),
{
    let kept = managed(listing);
    if any_ends_with(kept, suffix) {
        let j = choose|j: int|
            0 <= j < kept.len() && suffix.is_suffix_of(#[trigger] name_of(kept[j]));
        assert(kept.contains(kept[j]));
        lemma_managed_is_exact(listing, kept[j]);
        let i = choose|i: int| 0 <= i < listing.len() && listing[i] == kept[j];
        assert(is_managed(listing[i]) && suffix.is_suffix_of(name_of(listing[i])));
    }
    if exists|i: int|
        0 <= i < listing.len() && is_managed(#[trigger] listing[i]) && suffix.is_suffix_of(
            name_of(listing[i]),
        ) {
        let i = choose|i: int|
            0 <= i < listing.len() && is_managed(#[trigger] listing[i]) && suffix.is_suffix_of(
                name_of(listing[i]),
            );
        assert(listing.contains(listing[i]));
        lemma_managed_is_exact(listing, listing[i]);
        let j = choose|j: int| 0 <= j < kept.len() && kept[j] == listing[i];
        assert(suffix.is_suffix_of(name_of(kept[j])));
    }
}

} // verus!
