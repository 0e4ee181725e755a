//! The fixed names by which an instance is found, created and removed, and
//! the two tests on names that the naming convention rests on.

use vstd::prelude::*;

verus! {

/// Prefix carried by every namespace that this library manages.
pub const MANAGED_PREFIX: &'static str = "kwpm-";

/// Suffix that marks the namespace of the database instance.
pub const MARIADB_SUFFIX: &'static str = "-mariadb";

/// Name of the namespace that holds the database instance.
pub const MARIADB_NAMESPACE: &'static str = "kwpm-mariadb";

/// Name of the cluster-scoped persistent volume of the instance.
pub const MARIADB_VOLUME: &'static str = "kwpm-mariadb-pv";

/// Directory below the storage base path that the volume points at.
pub const MARIADB_SUBPATH: &'static str = "/mariadb";

/// Name of the secret that holds the credential.
pub const SECRET_NAME: &'static str = "mysql-pass";

/// Key under which the secret holds the credential.
pub const SECRET_KEY: &'static str = "password";

/// Node label that carries a node's hostname.
pub const HOSTNAME_LABEL: &'static str = "kubernetes.io/hostname";

/// Operator of a requirement that asks for the label's value to be one of a set.
pub const OPERATOR_IN: &'static str = "In";

/// Operator of a requirement that asks for the label's value to be none of a set.
pub const OPERATOR_NOT_IN: &'static str = "NotIn";

/// Operator of a requirement that asks for the label to be present.
pub const OPERATOR_EXISTS: &'static str = "Exists";

/// Operator of a requirement that asks for the label to be absent.
pub const OPERATOR_DOES_NOT_EXIST: &'static str = "DoesNotExist";

/// `true` exactly when `s` begins with `prefix`, character by character.
///
/// Runs in time linear in `s` for a prefix of bounded length.
pub fn starts_with(s: &str, prefix: &str) -> (b: bool)
    ensures
        b == prefix@.is_prefix_of(s@),
{
    let n: usize = prefix.unicode_len();
    let m: usize = s.unicode_len();
    if n > m {
        return false;
    }
    let mut i: usize = 0;
    while i < n
        invariant
            n == prefix@.len(),
            m == s@.len(),
            n <= m,
            i <= n,
            forall|j: int| 0 <= j < i ==> s@[j] == prefix@[j],
        decreases n - i,
    {
        if s.get_char(i) != prefix.get_char(i) {
            return false;
        }
        i += 1;
    }
    proof {
        assert(s@.subrange(0, n as int) =~= prefix@);
    }
    true
}

/// `true` exactly when `s` ends with `suffix`, character by character.
///
/// Runs in time linear in `s` for a suffix of bounded length.
pub fn ends_with(s: &str, suffix: &str) -> (b: bool)
    ensures
        b == suffix@.is_suffix_of(s@),
{
    let n: usize = suffix.unicode_len();
    let m: usize = s.unicode_len();
    if n > m {
        return false;
    }
    let start: usize = m - n;
    let mut i: usize = 0;
    while i < n
        invariant
            n == suffix@.len(),
            m == s@.len(),
            n <= m,
            start == m - n,
            i <= n,
            forall|j: int| 0 <= j < i ==> s@[start + j] == suffix@[j],
        decreases n - i,
    {
        if s.get_char(start + i) != suffix.get_char(i) {
            proof {
                let tail = s@.subrange(start as int, m as int);
                assert(tail[i as int] == s@[start + i]);
            }
            return false;
        }
        i += 1;
    }
    proof {
        assert(s@.subrange(start as int, m as int) =~= suffix@);
    }
    true
}

/// The instance's namespace name carries both marks of the naming
/// convention: the managed prefix and the database suffix.
pub proof fn lemma_instance_namespace_is_marked()
    ensures
        MANAGED_PREFIX@.is_prefix_of(MARIADB_NAMESPACE@),
        MARIADB_SUFFIX@.is_suffix_of(MARIADB_NAMESPACE@),
{
    reveal_strlit("kwpm-");
    reveal_strlit("-mariadb");
    reveal_strlit("kwpm-mariadb");
    assert(MARIADB_NAMESPACE@.subrange(0, 5) =~= MANAGED_PREFIX@);
    assert(MARIADB_NAMESPACE@.subrange(4, 12) =~= MARIADB_SUFFIX@);
}

} // verus!
