use vstd::prelude::*;
use crate::error::RegistryError;
use crate::registry::Registry;
use crate::table::{resolved_seq, with_components, ComponentEntry};
use crate::resolution::{
    all_known, identity_of, is_first_position, known, lemma_identity_of_known,
    lemma_resolved_identities, missing_names, resolve_all, text_of,
};
use crate::value::ComponentValue;

verus! {

/// In a valid registry the identities of both tables are dense and follow the
/// registration order: the entry at position `i` has identity `i`, so the
/// `N` entries of a table have the identities `0..N-1` and no two share one.
pub proof fn lemma_identities_dense<
    F: Fn() -> ComponentValue,
    B: Fn(Vec<ComponentValue>) -> Result<(), RegistryError>,
>(registry: Registry<F, B>)
    requires
        registry.wf(),
    ensures
        forall|i: int|
            0 <= i < registry.component_seq().len() ==> (
            #[trigger] registry.component_seq()[i]).identity == i,
        forall|i: int|
            0 <= i < registry.system_seq().len() ==> (
            #[trigger] registry.system_seq()[i]).identity == i,
{
}

/// Components registered one after the other get consecutive identities in
/// the order of their registration: the `k`-th of them gets the number of
/// components that the table held before, plus `k`, and carries the `k`-th
/// name and factory; the entries that were there stay as they were. On an
/// empty table the identities are `0..N-1`.
pub proof fn lemma_sequential_identities<F>(
    table: Seq<ComponentEntry<F>>,
    names: Seq<String>,
    factories: Seq<F>,
)
    requires
        names.len() == factories.len(),
        table.len() + names.len() <= u32::MAX,
    ensures
        with_components(table, names, factories).len() == table.len() + names.len(),
        forall|i: int|
            0 <= i < table.len() ==> with_components(table, names, factories)[i] == table[i],
        forall|k: int|
            0 <= k < names.len() ==> {
                let e = #[trigger] with_components(table, names, factories)[table.len() + k];
                &&& e.identity == table.len() + k
                &&& e.name == names[k]
                &&& e.factory == factories[k]
            },
    decreases names.len(),
{
    if names.len() > 0 {
        lemma_sequential_identities(table, names.drop_last(), factories.drop_last());
    }
}

/// What a sealed registry holds as a system's resolved identities depends on
/// the component names in their registration order and on the names the
/// system declared, and on nothing else: two sealed registries with the same
/// components, whatever the order in which systems and components were
/// submitted relative to one another, resolve equal declarations alike.
pub proof fn lemma_resolution_ignores_interleaving<
    F: Fn() -> ComponentValue,
    B: Fn(Vec<ComponentValue>) -> Result<(), RegistryError>,
>(a: Registry<F, B>, b: Registry<F, B>, i: int, j: int)
    requires
        a.wf(),
        b.wf(),
        a.sealed(),
        b.sealed(),
        a.component_names() == b.component_names(),
        0 <= i < a.system_seq().len(),
        0 <= j < b.system_seq().len(),
        text_of(a.system_seq()[i].declared@) == text_of(b.system_seq()[j].declared@),
    ensures
        resolved_seq(a.system_seq()[i].resolved) == resolved_seq(b.system_seq()[j].resolved),
        resolved_seq(a.system_seq()[i].resolved) == resolve_all(
            a.component_names(),
            text_of(a.system_seq()[i].declared@),
        ),
{
}

/// Two sealed registries that hold the same set of component names, in any
/// order, agree on whether a declaration can be resolved, and where it can,
/// the identities found in each name components of the declared names.
pub proof fn lemma_resolution_ignores_component_order<
    F: Fn() -> ComponentValue,
    B: Fn(Vec<ComponentValue>) -> Result<(), RegistryError>,
>(a: Registry<F, B>, b: Registry<F, B>, i: int, j: int)
    requires
        a.wf(),
        b.wf(),
        a.sealed(),
        b.sealed(),
        forall|n: Seq<char>| known(a.component_names(), n) == known(b.component_names(), n),
        0 <= i < a.system_seq().len(),
        0 <= j < b.system_seq().len(),
        text_of(a.system_seq()[i].declared@) == text_of(b.system_seq()[j].declared@),
    ensures
        (a.system_seq()[i].resolved is Some) == (b.system_seq()[j].resolved is Some),
        a.system_seq()[i].resolved is Some ==> {
            let ra = a.system_seq()[i].resolved.unwrap()@;
            let rb = b.system_seq()[j].resolved.unwrap()@;
            let deps = text_of(a.system_seq()[i].declared@);
            &&& ra.len() == deps.len()
            &&& rb.len() == deps.len()
            &&& forall|k: int|
                0 <= k < deps.len() ==> {
                    &&& 0 <= ra[k] < a.component_names().len()
                    &&& 0 <= rb[k] < b.component_names().len()
                    &&& a.component_names()[ra[k] as int] == #[trigger] deps[k]
                    &&& b.component_names()[rb[k] as int] == deps[k]
                }
        },
{
    let deps = text_of(a.system_seq()[i].declared@);
    let na = a.component_names();
    let nb = b.component_names();
    if all_known(na, deps) {
        assert forall|k: int| 0 <= k < deps.len() implies known(nb, #[trigger] deps[k]) by {
            assert(known(na, deps[k]));
        }
    }
    if all_known(nb, deps) {
        assert forall|k: int| 0 <= k < deps.len() implies known(na, #[trigger] deps[k]) by {
            assert(known(nb, deps[k]));
        }
    }
    if a.system_seq()[i].resolved is Some {
        lemma_resolved_identities(na, deps, a.system_seq()[i].resolved.unwrap()@);
        lemma_resolved_identities(nb, deps, b.system_seq()[j].resolved.unwrap()@);
    }
}

/// Among components that carry one name the first registered wins: a name
/// carried at position `i` resolves to a position that is no later than `i`
/// and carries the name too, and no earlier position carries it.
pub proof fn lemma_first_registered_wins(names: Seq<Seq<char>>, name: Seq<char>, i: int)
    requires
        0 <= i < names.len(),
        names[i] == name,
    ensures
        identity_of(names, name) is Some,
        identity_of(names, name).unwrap() <= i,
        is_first_position(names, name, identity_of(names, name).unwrap()),
{
    lemma_identity_of_known(names, name);
}

/// A declaration can be resolved exactly if none of its names is missing, and
/// the missing names are exactly the declared names that no component carries.
pub proof fn lemma_missing_names(names: Seq<Seq<char>>, deps: Seq<Seq<char>>)
    ensures
        (missing_names(names, deps).len() == 0) == (resolve_all(names, deps) is Some),
        forall|n: Seq<char>|
            missing_names(names, deps).contains(n) == (deps.contains(n) && !known(names, n)),
    decreases deps.len(),
{
    let m = missing_names(names, deps);
    if deps.len() > 0 {
        let front = deps.drop_last();
        let last = deps.last();
        let mf = missing_names(names, front);
        lemma_missing_names(names, front);
        if all_known(names, deps) {
            assert forall|k: int| 0 <= k < front.len() implies known(names, #[trigger] front[k]) by {
                assert(known(names, deps[k]));
            }
            assert(known(names, deps[deps.len() - 1]));
        }
        if all_known(names, front) && known(names, last) {
            assert forall|k: int| 0 <= k < deps.len() implies known(names, #[trigger] deps[k]) by {
                if k < front.len() {
                    assert(front[k] == deps[k]);
                }
            }
        }
        assert forall|n: Seq<char>| m.contains(n) == (deps.contains(n) && !known(names, n)) by {
            if m.contains(n) {
                let k = choose|k: int| 0 <= k < m.len() && m[k] == n;
                if known(names, last) || k < mf.len() {
                    assert(mf[k] == n);
                    assert(front.contains(n));
                    let q = choose|q: int| 0 <= q < front.len() && front[q] == n;
                    assert(deps[q] == n);
                } else {
                    assert(deps[deps.len() - 1] == n);
                }
            }
            if deps.contains(n) && !known(names, n) {
                let q = choose|q: int| 0 <= q < deps.len() && deps[q] == n;
                if q < front.len() {
                    assert(front[q] == n);
                    let k = choose|k: int| 0 <= k < mf.len() && mf[k] == n;
                    assert(m[k] == n);
                } else {
                    assert(m[m.len() - 1] == n);
                }
            }
        }
    }
}

} // verus!
