use vstd::prelude::*;
use std::collections::HashMap;
use crate::error::{DependencyNotFound, RegistryError};
use crate::hash::name_hash;
use crate::resolution::{
    diagnostics_of, identity_of, lemma_resolved_identities, missing_names, resolve_all, text_of,
};
use crate::table::{
    append_diagnostics, copy_identities, declarations_of, diagnostic_views, find_identity,
    names_of, resolve_names, resolved_seq, runnable_ids, same_declaration, system_ok, table_ok,
    values_built, with_component, with_system, ComponentEntry, ComponentInfo, SystemEntry,
    SystemInfo,
};
use crate::value::ComponentValue;

verus! {

broadcast use vstd::std_specs::hash::group_hash_axioms;

/// The registry: the component table, the system table, the identity that
/// each type token was assigned, and the lifecycle flag.
pub struct Registry<F, B> {
    components: Vec<ComponentEntry<F>>,
    systems: Vec<SystemEntry<B>>,
    identities: HashMap<u64, u32>,
    sealed: bool,
}

impl<F: Fn() -> ComponentValue, B: Fn(Vec<ComponentValue>) -> Result<(), RegistryError>> Registry<
    F,
    B,
> {
    /// The component entries, in registration order.
    pub closed spec fn component_seq(&self) -> Seq<ComponentEntry<F>> {
        self.components@
    }

    /// The system entries, in registration order.
    pub closed spec fn system_seq(&self) -> Seq<SystemEntry<B>> {
        self.systems@
    }

    /// The identity assigned to each type token.
    pub closed spec fn identity_map(&self) -> Map<u64, u32> {
        self.identities@
    }

    /// Whether the registry is sealed.
    pub closed spec fn sealed(&self) -> bool {
        self.sealed
    }

    /// The component names, in registration order.
    pub open spec fn component_names(&self) -> Seq<Seq<char>> {
        names_of(self.component_seq())
    }

    /// The invariant of the registry: identities are dense and follow the
    /// registration order in both tables, every cached hash is the hash of its
    /// name, and systems are resolved exactly when the registry is sealed.
    pub open spec fn wf(&self) -> bool {
        &&& table_ok(self.component_seq())
        &&& self.system_seq().len() <= u32::MAX
        &&& forall|i: int|
            0 <= i < self.system_seq().len() ==> system_ok(
                #[trigger] self.system_seq()[i],
                i,
                self.component_names(),
                self.sealed(),
            )
    }

    /// An open registry with no entries.
    pub fn new() -> (r: Self)
        ensures
            r.wf(),
            !r.sealed(),
            r.component_seq() == Seq::<ComponentEntry<F>>::empty(),
            r.system_seq() == Seq::<SystemEntry<B>>::empty(),
            r.identity_map() == Map::<u64, u32>::empty(),
    {
        Registry {
            components: Vec::new(),
            systems: Vec::new(),
            identities: HashMap::new(),
            sealed: false,
        }
    }

    /// Whether the registry is sealed.
    pub fn is_sealed(&self) -> (b: bool)
        ensures
            b == self.sealed(),
    {
        self.sealed
    }

    /// The number of registered components.
    pub fn component_count(&self) -> (n: usize)
        ensures
            n == self.component_seq().len(),
    {
        self.components.len()
    }

    /// The number of registered systems.
    pub fn system_count(&self) -> (n: usize)
        ensures
            n == self.system_seq().len(),
    {
        self.systems.len()
    }

    /// The component entries, in registration order.
    pub fn entries(&self) -> (r: &Vec<ComponentEntry<F>>)
        ensures
            r@ == self.component_seq(),
    {
        &self.components
    }

    /// The system entries, in registration order.
    pub fn system_entries(&self) -> (r: &Vec<SystemEntry<B>>)
        ensures
            r@ == self.system_seq(),
    {
        &self.systems
    }

    /// Appends a component while the registry is open and returns its
    /// identity, which is the number of components registered before it.
    /// On a sealed registry it fails with `RegistryClosed` and changes nothing.
    pub fn register_component(&mut self, name: String, factory: F) -> (r: Result<
        u32,
        RegistryError,
    >)
        requires
            old(self).wf(),
            old(self).sealed() || old(self).component_seq().len() < u32::MAX,
            call_requires(factory, ()),
        ensures
            final(self).wf(),
            final(self).system_seq() == old(self).system_seq(),
            final(self).identity_map() == old(self).identity_map(),
            final(self).sealed() == old(self).sealed(),
            old(self).sealed() ==> r == Err::<u32, RegistryError>(RegistryError::RegistryClosed)
                && final(self).component_seq() == old(self).component_seq(),
            !old(self).sealed() ==> r == Ok::<u32, RegistryError>(
                old(self).component_seq().len() as u32,
            ) && final(self).component_seq() == with_component(
                old(self).component_seq(),
                name,
                factory,
            ),
    {
        if self.sealed {
            return Err(RegistryError::RegistryClosed);
        }
        let identity: u32 = self.components.len() as u32;
        let hash: u32 = name_hash(name.as_str());
        let entry = ComponentEntry { name, name_hash: hash, identity, factory };
        self.components.push(entry);
        Ok(identity)
    }

    /// Appends a system while the registry is open and returns its identity,
    /// which is the number of systems registered before it. The dependency
    /// names are stored as declared and are not looked up here. On a sealed
    /// registry it fails with `RegistryClosed` and changes nothing.
    pub fn register_system(&mut self, name: String, behavior: B, dependency_names: Vec<String>) -> (r:
        Result<u32, RegistryError>)
        requires
            old(self).wf(),
            old(self).sealed() || old(self).system_seq().len() < u32::MAX,
            forall|args: Vec<ComponentValue>| call_requires(behavior, (args,)),
        ensures
            final(self).wf(),
            final(self).component_seq() == old(self).component_seq(),
            final(self).identity_map() == old(self).identity_map(),
            final(self).sealed() == old(self).sealed(),
            old(self).sealed() ==> r == Err::<u32, RegistryError>(RegistryError::RegistryClosed)
                && final(self).system_seq() == old(self).system_seq(),
            !old(self).sealed() ==> r == Ok::<u32, RegistryError>(
                old(self).system_seq().len() as u32,
            ) && final(self).system_seq() == with_system(
                old(self).system_seq(),
                name,
                behavior,
                dependency_names,
            ),
    {
        if self.sealed {
            return Err(RegistryError::RegistryClosed);
        }
        let identity: u32 = self.systems.len() as u32;
        let hash: u32 = name_hash(name.as_str());
        let entry = SystemEntry {
            name,
            name_hash: hash,
            identity,
            declared: dependency_names,
            resolved: None,
            behavior,
        };
        self.systems.push(entry);
        Ok(identity)
    }

    /// Looks a component up by name; among components of one name the first
    /// registered is returned. Fails with `UnknownName` if none carries it.
    pub fn find_component_identity(&self, name: &str) -> (r: Result<u32, RegistryError>)
        requires
            self.wf(),
        ensures
            match identity_of(self.component_names(), name@) {
                Some(i) => r == Ok::<u32, RegistryError>(i as u32),
                None => r == Err::<u32, RegistryError>(RegistryError::UnknownName),
            },
    {
        find_identity(&self.components, name)
    }

    /// Builds the value of the component with the given identity by calling
    /// its factory. Fails with `UnknownIdentity` if no component has it.
    pub fn create(&self, identity: u32) -> (r: Result<ComponentValue, RegistryError>)
        requires
            self.wf(),
        ensures
            identity < self.component_seq().len() ==> r.is_ok() && call_ensures(
                self.component_seq()[identity as int].factory,
                (),
                r.unwrap(),
            ),
            identity >= self.component_seq().len() ==> r == Err::<ComponentValue, RegistryError>(
                RegistryError::UnknownIdentity,
            ),
    {
        if (identity as usize) < self.components.len() {
            let entry = &self.components[identity as usize];
            Ok((entry.factory)())
        } else {
            Err(RegistryError::UnknownIdentity)
        }
    }
    /// Resolves declared dependency names against the component table as it
    /// stands. Returns the identities, in declared order, if every name is
    /// known, and beside them the names that are not, in declared order.
    pub fn resolve_dependencies(&self, declared: &Vec<String>) -> (r: (
        Option<Vec<u32>>,
        Vec<String>,
    ))
        requires
            self.wf(),
        ensures
            resolved_seq(r.0) == resolve_all(self.component_names(), text_of(declared@)),
            text_of(r.1@) == missing_names(self.component_names(), text_of(declared@)),
    {
        resolve_names(&self.components, declared)
    }

    /// Seals the registry and resolves every system's declared dependencies
    /// against the components registered by then. A system whose names are all
    /// known gets its resolved identities; for each name that is not known a
    /// diagnostic is returned, and the other systems are resolved all the same.
    /// On a registry that is sealed already it fails with `RegistryClosed` and
    /// changes nothing.
    pub fn resolve(&mut self) -> (r: Result<Vec<DependencyNotFound>, RegistryError>)
        requires
            old(self).wf(),
        ensures
            final(self).wf(),
            final(self).sealed(),
            final(self).component_seq() == old(self).component_seq(),
            final(self).identity_map() == old(self).identity_map(),
            old(self).sealed() ==> r == Err::<Vec<DependencyNotFound>, RegistryError>(
                RegistryError::RegistryClosed,
            ) && final(self).system_seq() == old(self).system_seq(),
            !old(self).sealed() ==> r.is_ok() && diagnostic_views(r.unwrap()@) == diagnostics_of(
                old(self).component_names(),
                declarations_of(old(self).system_seq()),
            ),
            final(self).system_seq().len() == old(self).system_seq().len(),
            forall|i: int|
                0 <= i < old(self).system_seq().len() ==> same_declaration(
                    #[trigger] final(self).system_seq()[i],
                    old(self).system_seq()[i],
                ),
    {
        if self.sealed {
            return Err(RegistryError::RegistryClosed);
        }
        let ghost names = self.component_names();
        let ghost decls = declarations_of(self.system_seq());
        let mut diagnostics: Vec<DependencyNotFound> = Vec::new();
        let mut i: usize = 0;
        while i < self.systems.len()
            invariant
                old(self).wf(),
                !old(self).sealed(),
                !self.sealed,
                self.components == old(self).components,
                self.identities == old(self).identities,
                names == old(self).component_names(),
                decls == declarations_of(old(self).system_seq()),
                self.systems@.len() == old(self).systems@.len(),
                i <= self.systems@.len(),
                forall|j: int|
                    0 <= j < self.systems@.len() ==> same_declaration(
                        #[trigger] self.systems@[j],
                        old(self).systems@[j],
                    ),
                forall|j: int|
                    0 <= j < i ==> resolved_seq((#[trigger] self.systems@[j]).resolved)
                        == resolve_all(names, text_of(self.systems@[j].declared@)),
                diagnostic_views(diagnostics@) == diagnostics_of(names, decls.take(i as int)),
            decreases self.systems@.len() - i,
        {
            let outcome = resolve_names(&self.components, &self.systems[i].declared);
            append_diagnostics(&mut diagnostics, &self.systems[i].name, &outcome.1);
            self.systems[i].resolved = outcome.0;
            proof {
                assert(decls.take(i as int + 1).drop_last() =~= decls.take(i as int));
            }
            i += 1;
        }
        self.sealed = true;
        proof {
            assert(decls.take(self.systems@.len() as int) =~= decls);
        }
        Ok(diagnostics)
    }

    /// Assigns an identity to a type token, once, while the registry is open.
    /// On a sealed registry it fails with `RegistryClosed`; on an open one
    /// whose token has an identity already it fails with `AlreadyAssigned`.
    /// A failure leaves the assigned identities as they were.
    pub fn set_identity(&mut self, token: u64, identity: u32) -> (r: Result<(), RegistryError>)
        requires
            old(self).wf(),
        ensures
            final(self).wf(),
            final(self).component_seq() == old(self).component_seq(),
            final(self).system_seq() == old(self).system_seq(),
            final(self).sealed() == old(self).sealed(),
            old(self).sealed() ==> r == Err::<(), RegistryError>(RegistryError::RegistryClosed)
                && final(self).identity_map() == old(self).identity_map(),
            !old(self).sealed() && old(self).identity_map().contains_key(token) ==> r == Err::<
                (),
                RegistryError,
            >(RegistryError::AlreadyAssigned) && final(self).identity_map() == old(self).identity_map(),
            !old(self).sealed() && !old(self).identity_map().contains_key(token) ==> r == Ok::<
                (),
                RegistryError,
            >(()) && final(self).identity_map() == old(self).identity_map().insert(
                token,
                identity,
            ),
    {
        if self.sealed {
            return Err(RegistryError::RegistryClosed);
        }
        if self.identities.contains_key(&token) {
            return Err(RegistryError::AlreadyAssigned);
        }
        self.identities.insert(token, identity);
        Ok(())
    }

    /// The identity assigned to a type token, or `NotYetAssigned` if none was.
    pub fn get_identity(&self, token: u64) -> (r: Result<u32, RegistryError>)
        ensures
            self.identity_map().contains_key(token) ==> r == Ok::<u32, RegistryError>(
                self.identity_map()[token],
            ),
            !self.identity_map().contains_key(token) ==> r == Err::<u32, RegistryError>(
                RegistryError::NotYetAssigned,
            ),
    {
        match self.identities.get(&token) {
            Some(identity) => Ok(*identity),
            None => Err(RegistryError::NotYetAssigned),
        }
    }

    /// Lists name, cached hash and identity of every component, in
    /// registration order.
    pub fn list_components(&self) -> (r: Vec<ComponentInfo>)
        ensures
            r@.len() == self.component_seq().len(),
            forall|i: int|
                0 <= i < r@.len() ==> {
                    &&& (#[trigger] r@[i]).name == self.component_seq()[i].name
                    &&& r@[i].name_hash == self.component_seq()[i].name_hash
                    &&& r@[i].identity == self.component_seq()[i].identity
                },
    {
        let mut out: Vec<ComponentInfo> = Vec::new();
        let mut i: usize = 0;
        while i < self.components.len()
            invariant
                i <= self.components.len(),
                out@.len() == i,
                forall|j: int|
                    0 <= j < i ==> {
                        &&& (#[trigger] out@[j]).name == self.components@[j].name
                        &&& out@[j].name_hash == self.components@[j].name_hash
                        &&& out@[j].identity == self.components@[j].identity
                    },
            decreases self.components.len() - i,
        {
            let entry = &self.components[i];
            out.push(
                ComponentInfo {
                    name: entry.name.clone(),
                    name_hash: entry.name_hash,
                    identity: entry.identity,
                },
            );
            i += 1;
        }
        out
    }

    /// Lists name, identity and resolved dependency identities of every
    /// system, in registration order. A system that is not resolved, or could
    /// not be, shows no identities.
    pub fn list_systems(&self) -> (r: Vec<SystemInfo>)
        ensures
            r@.len() == self.system_seq().len(),
            forall|i: int|
                0 <= i < r@.len() ==> {
                    &&& (#[trigger] r@[i]).name == self.system_seq()[i].name
                    &&& r@[i].identity == self.system_seq()[i].identity
                    &&& resolved_seq(r@[i].resolved_dependency_identities) == resolved_seq(
                        self.system_seq()[i].resolved,
                    )
                },
    {
        let mut out: Vec<SystemInfo> = Vec::new();
        let mut i: usize = 0;
        while i < self.systems.len()
            invariant
                i <= self.systems.len(),
                out@.len() == i,
                forall|j: int|
                    0 <= j < i ==> {
                        &&& (#[trigger] out@[j]).name == self.systems@[j].name
                        &&& out@[j].identity == self.systems@[j].identity
                        &&& resolved_seq(out@[j].resolved_dependency_identities) == resolved_seq(
                            self.systems@[j].resolved,
                        )
                    },
            decreases self.systems.len() - i,
        {
            let entry = &self.systems[i];
            let resolved: Option<Vec<u32>> = match &entry.resolved {
                Some(ids) => Some(copy_identities(ids)),
                None => None,
            };
            out.push(
                SystemInfo {
                    name: entry.name.clone(),
                    identity: entry.identity,
                    resolved_dependency_identities: resolved,
                },
            );
            i += 1;
        }
        out
    }

    /// The execution order: the identities of the systems whose dependencies
    /// are resolved, in registration order. Systems only consume components,
    /// which are built on demand, so no system has to wait for another.
    pub fn execution_plan(&self) -> (r: Vec<u32>)
        ensures
            r@ == runnable_ids(self.system_seq()),
    {
        let mut plan: Vec<u32> = Vec::new();
        let mut i: usize = 0;
        while i < self.systems.len()
            invariant
                i <= self.systems.len(),
                plan@ == runnable_ids(self.systems@.take(i as int)),
            decreases self.systems.len() - i,
        {
            proof {
                assert(self.systems@.take(i as int + 1).drop_last() =~= self.systems@.take(
                    i as int,
                ));
            }
            if self.systems[i].resolved.is_some() {
                plan.push(self.systems[i].identity);
            }
            i += 1;
        }
        proof {
            assert(self.systems@.take(self.systems@.len() as int) =~= self.systems@);
        }
        plan
    }

    /// What a run of the system with the given identity that ended in `result`
    /// did. With no such system the result is `UnknownIdentity`; with a system
    /// that has no resolved dependencies (the registry is open, or one of its
    /// names was not found) it is `DependencyNotFound`; otherwise the behavior
    /// returned it, on values that the factories of the resolved dependencies
    /// built, in resolved order.
    pub open spec fn system_ran(&self, identity: u32, result: Result<(), RegistryError>) -> bool {
        if identity >= self.system_seq().len() {
            result == Err::<(), RegistryError>(RegistryError::UnknownIdentity)
        } else if self.system_seq()[identity as int].resolved is None {
            result == Err::<(), RegistryError>(RegistryError::DependencyNotFound)
        } else {
            exists|args: Vec<ComponentValue>|
                values_built(
                    self.component_seq(),
                    self.system_seq()[identity as int].resolved.unwrap()@,
                    args@,
                ) && call_ensures(self.system_seq()[identity as int].behavior, (args,), result)
        }
    }

    /// Runs the system with the given identity: builds the value of each
    /// resolved dependency, in resolved order, and hands them to the behavior,
    /// whose result is returned. Fails with `UnknownIdentity` if no system has
    /// the identity, and with `DependencyNotFound` if the system has no
    /// resolved dependencies.
    pub fn run_system(&self, identity: u32) -> (r: Result<(), RegistryError>)
        requires
            self.wf(),
        ensures
            self.system_ran(identity, r),
    {
        if (identity as usize) >= self.systems.len() {
            return Err(RegistryError::UnknownIdentity);
        }
        let system = &self.systems[identity as usize];
        match &system.resolved {
            None => Err(RegistryError::DependencyNotFound),
            Some(ids) => {
                proof {
                    lemma_resolved_identities(
                        self.component_names(),
                        text_of(system.declared@),
                        ids@,
                    );
                }
                let mut args: Vec<ComponentValue> = Vec::new();
                let mut k: usize = 0;
                while k < ids.len()
                    invariant
                        self.wf(),
                        k <= ids.len(),
                        forall|j: int| 0 <= j < ids@.len() ==> ids@[j] < self.components@.len(),
                        values_built(self.components@, ids@.take(k as int), args@),
                    decreases ids.len() - k,
                {
                    let entry = &self.components[ids[k] as usize];
                    let value = (entry.factory)();
                    args.push(value);
                    k += 1;
                }
                let outcome = (system.behavior)(args);
                proof {
                    assert(values_built(self.component_seq(), ids@, args@));
                }
                outcome
            },
        }
    }

    /// Runs every system of the execution plan, one after the other and in
    /// plan order, and returns each system's identity with its result. A
    /// system that fails does not keep the later ones from running.
    pub fn run_all(&self) -> (r: Vec<(u32, Result<(), RegistryError>)>)
        requires
            self.wf(),
        ensures
            r@.len() == runnable_ids(self.system_seq()).len(),
            forall|k: int|
                0 <= k < r@.len() ==> (#[trigger] r@[k]).0 == runnable_ids(self.system_seq())[k]
                    && self.system_ran(r@[k].0, r@[k].1),
    {
        let plan = self.execution_plan();
        let mut results: Vec<(u32, Result<(), RegistryError>)> = Vec::new();
        let mut k: usize = 0;
        while k < plan.len()
            invariant
                self.wf(),
                plan@ == runnable_ids(self.system_seq()),
                k <= plan.len(),
                results@.len() == k,
                forall|j: int|
                    0 <= j < k ==> (#[trigger] results@[j]).0 == plan@[j] && self.system_ran(
                        results@[j].0,
                        results@[j].1,
                    ),
            decreases plan.len() - k,
        {
            let outcome = self.run_system(plan[k]);
            results.push((plan[k], outcome));
            k += 1;
        }
        results
    }
}

} // verus!
