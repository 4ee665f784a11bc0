use vstd::prelude::*;
use crate::error::MissingDependency;

verus! {

/// The names that a vector of strings holds, in order.
pub open spec fn text_of(v: Seq<String>) -> Seq<Seq<char>> {
    Seq::new(v.len(), |i: int| v[i]@)
}

/// Whether some component carries the name.
pub open spec fn known(names: Seq<Seq<char>>, name: Seq<char>) -> bool {
    names.contains(name)
}

/// The identity that a name resolves to: the position of the first component
/// that carries it. Among components of one name the first registered wins.
pub open spec fn identity_of(names: Seq<Seq<char>>, name: Seq<char>) -> Option<int> {
    names.index_of_first(name)
}

/// Whether every declared dependency names a component.
pub open spec fn all_known(names: Seq<Seq<char>>, deps: Seq<Seq<char>>) -> bool {
    forall|k: int| 0 <= k < deps.len() ==> known(names, #[trigger] deps[k])
}

/// The result of resolving a system's declared dependencies against the
/// component names: the identity of each, in declared order, if all of them
/// are known, and nothing otherwise.
pub open spec fn resolve_all(names: Seq<Seq<char>>, deps: Seq<Seq<char>>) -> Option<Seq<u32>> {
    if all_known(names, deps) {
        Some(Seq::new(deps.len(), |k: int| identity_of(names, deps[k]).unwrap() as u32))
    } else {
        None
    }
}

/// The declared dependencies that name no component, in declared order.
pub open spec fn missing_names(names: Seq<Seq<char>>, deps: Seq<Seq<char>>) -> Seq<Seq<char>>
    decreases deps.len(),
{
    if deps.len() == 0 {
        Seq::empty()
    } else if known(names, deps.last()) {
        missing_names(names, deps.drop_last())
    } else {
        missing_names(names, deps.drop_last()).push(deps.last())
    }
}

/// The diagnostics of one system: one for each declared dependency that names
/// no component, in declared order.
pub open spec fn system_diagnostics(
    names: Seq<Seq<char>>,
    system: Seq<char>,
    deps: Seq<Seq<char>>,
) -> Seq<MissingDependency> {
    missing_names(names, deps).map_values(
        |c: Seq<char>| (MissingDependency { system, component: c }),
    )
}

/// The diagnostics of a resolution pass over systems given as pairs of name
/// and declared dependencies: those of each system, in registration order.
pub open spec fn diagnostics_of(
    names: Seq<Seq<char>>,
    systems: Seq<(Seq<char>, Seq<Seq<char>>)>,
) -> Seq<MissingDependency>
    decreases systems.len(),
{
    if systems.len() == 0 {
        Seq::empty()
    } else {
        diagnostics_of(names, systems.drop_last()) + system_diagnostics(
            names,
            systems.last().0,
            systems.last().1,
        )
    }
}

/// `i` is the first position at which `names` holds `name`.
pub open spec fn is_first_position(names: Seq<Seq<char>>, name: Seq<char>, i: int) -> bool {
    &&& 0 <= i < names.len()
    &&& names[i] == name
    &&& forall|j: int| 0 <= j < i ==> names[j] != name
}

/// The first position of a name is the identity it resolves to.
pub proof fn lemma_first_position(names: Seq<Seq<char>>, name: Seq<char>, i: int)
    requires
        is_first_position(names, name, i),
    ensures
        identity_of(names, name) == Some(i),
        known(names, name),
{
    names.index_of_first_ensures(name);
}

/// A name that occurs at no position resolves to nothing.
pub proof fn lemma_no_position(names: Seq<Seq<char>>, name: Seq<char>)
    requires
        forall|j: int| 0 <= j < names.len() ==> names[j] != name,
    ensures
        identity_of(names, name) == None::<int>,
        !known(names, name),
{
    names.index_of_first_ensures(name);
}

/// A known name resolves to the first position that holds it.
pub proof fn lemma_identity_of_known(names: Seq<Seq<char>>, name: Seq<char>)
    requires
        known(names, name),
    ensures
        identity_of(names, name).is_some(),
        is_first_position(names, name, identity_of(names, name).unwrap()),
{
    names.index_of_first_ensures(name);
}

/// Identities that were resolved name components that exist, and each names a
/// component that carries the declared name and is the first to carry it.
pub proof fn lemma_resolved_identities(
    names: Seq<Seq<char>>,
    deps: Seq<Seq<char>>,
    ids: Seq<u32>,
)
    requires
        names.len() <= u32::MAX,
        resolve_all(names, deps) == Some(ids),
    ensures
        ids.len() == deps.len(),
        forall|k: int|
            0 <= k < ids.len() ==> is_first_position(names, deps[k], (#[trigger] ids[k]) as int),
{
    assert forall|k: int| 0 <= k < ids.len() implies is_first_position(
        names,
        deps[k],
        (#[trigger] ids[k]) as int,
    ) by {
        lemma_identity_of_known(names, deps[k]);
    }
}

} // verus!
