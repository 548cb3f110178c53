//! The namespaces a key can be registered under.

use vstd::prelude::*;

verus! {

/// Namespace of a key: the consensus subsystem that the key serves.
#[derive(Debug, Copy, Clone, PartialEq, Eq, Hash, Structural)]
pub enum KeyNamespace {
    Aura,
    AuthorityDiscovery,
    Babe,
    Grandpa,
    ImOnline,
}

impl KeyNamespace {
    /// Every namespace, each exactly once, in declaration order.
    pub open spec fn all_spec() -> Seq<KeyNamespace> {
        seq![
            KeyNamespace::Aura,
            KeyNamespace::AuthorityDiscovery,
            KeyNamespace::Babe,
            KeyNamespace::Grandpa,
            KeyNamespace::ImOnline,
        ]
    }

    /// Returns all existing variants of [`KeyNamespace`].
    pub fn all() -> (namespaces: [KeyNamespace; 5])
        ensures
            namespaces@ == Self::all_spec(),
    {
        let namespaces = [
            KeyNamespace::Aura,
            KeyNamespace::AuthorityDiscovery,
            KeyNamespace::Babe,
            KeyNamespace::Grandpa,
            KeyNamespace::ImOnline,
        ];
        assert(namespaces@ =~= Self::all_spec());
        namespaces
    }
}

/// Every namespace occurs in [`KeyNamespace::all`], and none occurs twice.
pub proof fn law_all_lists_every_namespace_once(namespace: KeyNamespace)
    ensures
        KeyNamespace::all_spec().contains(namespace),
        KeyNamespace::all_spec().no_duplicates(),
{
    let all = KeyNamespace::all_spec();
    match namespace {
        KeyNamespace::Aura => assert(all[0] == namespace),
        KeyNamespace::AuthorityDiscovery => assert(all[1] == namespace),
        KeyNamespace::Babe => assert(all[2] == namespace),
        KeyNamespace::Grandpa => assert(all[3] == namespace),
        KeyNamespace::ImOnline => assert(all[4] == namespace),
    }
}

} // verus!
