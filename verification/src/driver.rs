use vstd::prelude::*;
use crate::error::{DependencyNotFound, RegistryError};
use crate::registry::Registry;
use crate::table::{
    declarations_of, diagnostic_views, same_declaration, with_component, with_system,
    ComponentEntry, SystemEntry,
};
use crate::resolution::diagnostics_of;
use crate::value::ComponentValue;

verus! {

/// The registration driver: it owns an open registry, takes registration
/// requests in the order the application submits them, and gives the registry
/// up, sealed and resolved, at the end.
pub struct RegistrationDriver<F, B> {
    registry: Registry<F, B>,
}

impl<
    F: Fn() -> ComponentValue,
    B: Fn(Vec<ComponentValue>) -> Result<(), RegistryError>,
> RegistrationDriver<F, B> {
    /// The registry that the driver is filling.
    pub closed spec fn registry(&self) -> Registry<F, B> {
        self.registry
    }

    /// The invariant of the driver: its registry is valid and open.
    pub open spec fn wf(&self) -> bool {
        &&& self.registry().wf()
        &&& !self.registry().sealed()
    }

    /// Starts a registration phase on an open registry with no entries.
    pub fn begin() -> (d: Self)
        ensures
            d.wf(),
            d.registry().component_seq() == Seq::<ComponentEntry<F>>::empty(),
            d.registry().system_seq() == Seq::<SystemEntry<B>>::empty(),
            d.registry().identity_map() == Map::<u64, u32>::empty(),
    {
        RegistrationDriver { registry: Registry::new() }
    }

    /// The registry as it stands, for reading.
    pub fn peek(&self) -> (r: &Registry<F, B>)
        ensures
            *r == self.registry(),
    {
        &self.registry
    }

    /// Registers a component and returns its identity: the number of
    /// components submitted before it.
    pub fn submit_component(&mut self, name: String, factory: F) -> (id: u32)
        requires
            old(self).wf(),
            old(self).registry().component_seq().len() < u32::MAX,
            call_requires(factory, ()),
        ensures
            final(self).wf(),
            id == old(self).registry().component_seq().len(),
            final(self).registry().component_seq() == with_component(
                old(self).registry().component_seq(),
                name,
                factory,
            ),
            final(self).registry().system_seq() == old(self).registry().system_seq(),
            final(self).registry().identity_map() == old(self).registry().identity_map(),
    {
        match self.registry.register_component(name, factory) {
            Ok(id) => id,
            Err(_) => {
                proof {
                    assert(false);
                }
                0
            },
        }
    }

    /// Registers a system with its dependency names as declared, and returns
    /// its identity: the number of systems submitted before it.
    pub fn submit_system(&mut self, name: String, behavior: B, dependency_names: Vec<String>) -> (id:
        u32)
        requires
            old(self).wf(),
            old(self).registry().system_seq().len() < u32::MAX,
            forall|args: Vec<ComponentValue>| call_requires(behavior, (args,)),
        ensures
            final(self).wf(),
            id == old(self).registry().system_seq().len(),
            final(self).registry().system_seq() == with_system(
                old(self).registry().system_seq(),
                name,
                behavior,
                dependency_names,
            ),
            final(self).registry().component_seq() == old(self).registry().component_seq(),
            final(self).registry().identity_map() == old(self).registry().identity_map(),
    {
        match self.registry.register_system(name, behavior, dependency_names) {
            Ok(id) => id,
            Err(_) => {
                proof {
                    assert(false);
                }
                0
            },
        }
    }

    /// Ends the registration phase: resolves every system against all the
    /// components that were submitted, whenever each was, and returns the
    /// diagnostics of the pass with the sealed registry.
    pub fn seal_and_resolve(self) -> (r: (Vec<DependencyNotFound>, Registry<F, B>))
        requires
            self.wf(),
        ensures
            r.1.wf(),
            r.1.sealed(),
            r.1.component_seq() == self.registry().component_seq(),
            r.1.identity_map() == self.registry().identity_map(),
            r.1.system_seq().len() == self.registry().system_seq().len(),
            forall|i: int|
                0 <= i < r.1.system_seq().len() ==> same_declaration(
                    #[trigger] r.1.system_seq()[i],
                    self.registry().system_seq()[i],
                ),
            diagnostic_views(r.0@) == diagnostics_of(
                self.registry().component_names(),
                declarations_of(self.registry().system_seq()),
            ),
    {
        let mut registry = self.registry;
        match registry.resolve() {
            Ok(diagnostics) => (diagnostics, registry),
            Err(_) => {
                proof {
                    assert(false);
                }
                (Vec::new(), registry)
            },
        }
    }
}

} // verus!
