use vstd::prelude::*;
use crate::error::{DependencyNotFound, MissingDependency, RegistryError};
use crate::hash::{name_hash, name_hash_of};
use crate::resolution::{
    all_known, identity_of, known, lemma_first_position, lemma_no_position,
    missing_names, resolve_all, text_of,
};
use crate::value::ComponentValue;

verus! {

/// One registered component: its name, the cached hash of the name, its
/// identity and the factory that builds its value.
pub struct ComponentEntry<F> {
    pub name: String,
    pub name_hash: u32,
    pub identity: u32,
    pub factory: F,
}

/// One registered system: its name, the cached hash of the name, its identity,
/// the dependency names as declared, the identities they resolved to (present
/// only once the registry is sealed and every name was found) and its behavior.
pub struct SystemEntry<B> {
    pub name: String,
    pub name_hash: u32,
    pub identity: u32,
    pub declared: Vec<String>,
    pub resolved: Option<Vec<u32>>,
    pub behavior: B,
}

/// What a listing shows of a component.
#[derive(Clone, Debug)]
pub struct ComponentInfo {
    pub name: String,
    pub name_hash: u32,
    pub identity: u32,
}

/// What a listing shows of a system.
#[derive(Clone, Debug)]
pub struct SystemInfo {
    pub name: String,
    pub identity: u32,
    pub resolved_dependency_identities: Option<Vec<u32>>,
}

/// The component table after one more component is registered: the new entry
/// comes last and its identity is the number of entries before it.
pub open spec fn with_component<F>(
    table: Seq<ComponentEntry<F>>,
    name: String,
    factory: F,
) -> Seq<ComponentEntry<F>> {
    table.push(
        ComponentEntry {
            name,
            name_hash: name_hash_of(name@),
            identity: table.len() as u32,
            factory,
        },
    )
}

/// The component table after components of the given names and factories are
/// registered one after the other.
pub open spec fn with_components<F>(
    table: Seq<ComponentEntry<F>>,
    names: Seq<String>,
    factories: Seq<F>,
) -> Seq<ComponentEntry<F>>
    recommends
        names.len() == factories.len(),
    decreases names.len(),
{
    if names.len() == 0 {
        table
    } else {
        with_component(
            with_components(table, names.drop_last(), factories.drop_last()),
            names.last(),
            factories.last(),
        )
    }
}

/// The system table after one more system is registered: the new entry comes
/// last, its identity is the number of entries before it, its dependency
/// names are kept as declared and none of them is resolved.
pub open spec fn with_system<B>(
    table: Seq<SystemEntry<B>>,
    name: String,
    behavior: B,
    dependency_names: Vec<String>,
) -> Seq<SystemEntry<B>> {
    table.push(
        SystemEntry {
            name,
            name_hash: name_hash_of(name@),
            identity: table.len() as u32,
            declared: dependency_names,
            resolved: None,
            behavior,
        },
    )
}

/// The resolved identities of a system as a sequence, if it has any.
pub open spec fn resolved_seq(resolved: Option<Vec<u32>>) -> Option<Seq<u32>> {
    match resolved {
        Some(ids) => Some(ids@),
        None => None,
    }
}

/// The names of a sequence of component entries, in order.
pub open spec fn names_of<F>(components: Seq<ComponentEntry<F>>) -> Seq<Seq<char>> {
    Seq::new(components.len(), |i: int| components[i].name@)
}

/// The systems of a sequence of entries as pairs of name and declared
/// dependency names, in order.
pub open spec fn declarations_of<B>(systems: Seq<SystemEntry<B>>) -> Seq<
    (Seq<char>, Seq<Seq<char>>),
> {
    Seq::new(systems.len(), |i: int| (systems[i].name@, text_of(systems[i].declared@)))
}

/// The contents of a sequence of diagnostics, in order.
pub open spec fn diagnostic_views(diagnostics: Seq<DependencyNotFound>) -> Seq<MissingDependency> {
    Seq::new(diagnostics.len(), |i: int| diagnostics[i]@)
}

/// Whether two system entries differ at most in their resolved identities.
pub open spec fn same_declaration<B>(a: SystemEntry<B>, b: SystemEntry<B>) -> bool {
    &&& a.name == b.name
    &&& a.name_hash == b.name_hash
    &&& a.identity == b.identity
    &&& a.declared == b.declared
    &&& a.behavior == b.behavior
}

/// The identities of the systems that have resolved dependencies, in order.
pub open spec fn runnable_ids<B>(systems: Seq<SystemEntry<B>>) -> Seq<u32>
    decreases systems.len(),
{
    if systems.len() == 0 {
        Seq::empty()
    } else if systems.last().resolved is Some {
        runnable_ids(systems.drop_last()).push(systems.last().identity)
    } else {
        runnable_ids(systems.drop_last())
    }
}

/// `values` holds, for each identity in `ids` and in that order, a value that
/// the factory of the component with that identity returned.
pub open spec fn values_built<F: Fn() -> ComponentValue>(
    components: Seq<ComponentEntry<F>>,
    ids: Seq<u32>,
    values: Seq<ComponentValue>,
) -> bool {
    &&& values.len() == ids.len()
    &&& forall|k: int|
        0 <= k < ids.len() ==> ids[k] < components.len() && call_ensures(
            components[ids[k] as int].factory,
            (),
            #[trigger] values[k],
        )
}

/// What holds of the component entry at position `i` of a valid registry.
pub open spec fn component_ok<F: Fn() -> ComponentValue>(e: ComponentEntry<F>, i: int) -> bool {
    &&& e.identity == i
    &&& e.name_hash == name_hash_of(e.name@)
    &&& call_requires(e.factory, ())
}

/// What holds of the component table of a valid registry: identities are
/// dense and follow the order of the entries, and each cached hash is the
/// hash of its name.
pub open spec fn table_ok<F: Fn() -> ComponentValue>(components: Seq<ComponentEntry<F>>) -> bool {
    &&& components.len() <= u32::MAX
    &&& forall|i: int| 0 <= i < components.len() ==> component_ok(#[trigger] components[i], i)
}

/// What holds of the system entry at position `i` of a valid registry whose
/// components carry `names`: before sealing nothing is resolved, after it the
/// resolved identities are exactly what the declared names resolve to.
pub open spec fn system_ok<B: Fn(Vec<ComponentValue>) -> Result<(), RegistryError>>(
    s: SystemEntry<B>,
    i: int,
    names: Seq<Seq<char>>,
    sealed: bool,
) -> bool {
    &&& s.identity == i
    &&& s.name_hash == name_hash_of(s.name@)
    &&& forall|args: Vec<ComponentValue>| call_requires(s.behavior, (args,))
    &&& !sealed ==> s.resolved is None
    &&& sealed ==> resolved_seq(s.resolved) == resolve_all(names, text_of(s.declared@))
}

/// Looks a name up in a component table. The cached hashes only skip entries
/// that cannot match; a match is decided by comparing the full names. Among
/// components of one name the first in the table is returned.
pub fn find_identity<F: Fn() -> ComponentValue>(
    components: &Vec<ComponentEntry<F>>,
    name: &str,
) -> (r: Result<u32, RegistryError>)
    requires
        table_ok(components@),
    ensures
        match identity_of(names_of(components@), name@) {
            Some(i) => r == Ok::<u32, RegistryError>(i as u32),
            None => r == Err::<u32, RegistryError>(RegistryError::UnknownName),
        },
{
    let ghost names = names_of(components@);
    let hash: u32 = name_hash(name);
    let wanted: String = name.to_owned();
    let mut i: usize = 0;
    while i < components.len()
        invariant
            table_ok(components@),
            names == names_of(components@),
            wanted@ == name@,
            i <= components.len(),
            hash == name_hash_of(name@),
            forall|j: int| 0 <= j < i ==> names[j] != name@,
        decreases components.len() - i,
    {
        let entry = &components[i];
        if entry.name_hash == hash && entry.name == wanted {
            proof {
                lemma_first_position(names, name@, i as int);
            }
            return Ok(entry.identity);
        }
        i += 1;
    }
    proof {
        lemma_no_position(names, name@);
    }
    Err(RegistryError::UnknownName)
}

/// Resolves declared dependency names against a component table. Returns the
/// identities, in declared order, if every name is known, and beside them the
/// names that are not, in declared order.
pub fn resolve_names<F: Fn() -> ComponentValue>(
    components: &Vec<ComponentEntry<F>>,
    declared: &Vec<String>,
) -> (r: (Option<Vec<u32>>, Vec<String>))
    requires
        table_ok(components@),
    ensures
        resolved_seq(r.0) == resolve_all(names_of(components@), text_of(declared@)),
        text_of(r.1@) == missing_names(names_of(components@), text_of(declared@)),
{
    let ghost names = names_of(components@);
    let ghost deps = text_of(declared@);
    let mut ids: Vec<u32> = Vec::new();
    let mut missing: Vec<String> = Vec::new();
    let mut k: usize = 0;
    while k < declared.len()
        invariant
            table_ok(components@),
            k <= declared.len(),
            names == names_of(components@),
            deps == text_of(declared@),
            text_of(missing@) == missing_names(names, deps.take(k as int)),
            (missing@.len() == 0) == all_known(names, deps.take(k as int)),
            missing@.len() == 0 ==> ids@.len() == k,
            missing@.len() == 0 ==> forall|j: int|
                0 <= j < k ==> #[trigger] ids@[j] == identity_of(names, deps[j]).unwrap() as u32,
        decreases declared.len() - k,
    {
        let ghost missing_before = missing@;
        let found = find_identity(components, declared[k].as_str());
        proof {
            names.index_of_first_ensures(deps[k as int]);
            assert(deps.take(k as int + 1).drop_last() =~= deps.take(k as int));
        }
        match found {
            Ok(id) => {
                ids.push(id);
                proof {
                    if all_known(names, deps.take(k as int)) {
                        assert forall|j: int| 0 <= j < k + 1 implies known(
                            names,
                            #[trigger] deps.take(k as int + 1)[j],
                        ) by {
                            if j < k {
                                assert(deps.take(k as int)[j] == deps[j]);
                            }
                        }
                    } else {
                        let j = choose|j: int|
                            0 <= j < k && !known(names, #[trigger] deps.take(k as int)[j]);
                        assert(!known(names, deps.take(k as int + 1)[j]));
                    }
                }
            },
            Err(_) => {
                missing.push(declared[k].clone());
                proof {
                    assert(text_of(missing@) =~= text_of(missing_before).push(deps[k as int]));
                    assert(!known(names, deps.take(k as int + 1)[k as int]));
                }
            },
        }
        k += 1;
    }
    proof {
        assert(deps.take(declared@.len() as int) =~= deps);
    }
    if missing.len() == 0 {
        (Some(ids), missing)
    } else {
        (None, missing)
    }
}

/// Appends to `diagnostics` one diagnostic for each name in `missing`, all of
/// them for the system `system_name`.
pub fn append_diagnostics(
    diagnostics: &mut Vec<DependencyNotFound>,
    system_name: &String,
    missing: &Vec<String>,
)
    ensures
        diagnostic_views(final(diagnostics)@) == diagnostic_views(old(diagnostics)@)
            + text_of(missing@).map_values(
            |c: Seq<char>| (MissingDependency { system: system_name@, component: c }),
        ),
{
    let ghost before = diagnostic_views(diagnostics@);
    let ghost wrap = |c: Seq<char>| (MissingDependency { system: system_name@, component: c });
    let mut k: usize = 0;
    while k < missing.len()
        invariant
            k <= missing.len(),
            wrap == |c: Seq<char>| (MissingDependency { system: system_name@, component: c }),
            diagnostic_views(diagnostics@) == before + text_of(missing@).take(k as int).map_values(
                wrap,
            ),
        decreases missing.len() - k,
    {
        let d = DependencyNotFound {
            system_name: system_name.clone(),
            component_name: missing[k].clone(),
        };
        diagnostics.push(d);
        proof {
            let t = text_of(missing@);
            assert(t.take(k as int + 1).map_values(wrap) =~= t.take(k as int).map_values(
                wrap,
            ).push(wrap(t[k as int])));
            assert(before + t.take(k as int).map_values(wrap).push(wrap(t[k as int])) =~= (before
                + t.take(k as int).map_values(wrap)).push(wrap(t[k as int])));
        }
        k += 1;
    }
}

/// Copies a vector of identities.
pub fn copy_identities(ids: &Vec<u32>) -> (r: Vec<u32>)
    ensures
        r@ == ids@,
{
    let mut out: Vec<u32> = Vec::new();
    let mut k: usize = 0;
    while k < ids.len()
        invariant
            k <= ids.len(),
            out@ == ids@.take(k as int),
        decreases ids.len() - k,
    {
        out.push(ids[k]);
        k += 1;
    }
    out
}

} // verus!
