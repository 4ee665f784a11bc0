use vstd::prelude::*;
use crate::error::RegistryError;
use crate::registry::Registry;
use crate::value::{ComponentValue, MyComponent, MY_COMPONENT_TOKEN};

verus! {

/// A component type that has an identity slot in the registry. The slot is
/// found by the type's token, lives in the registry it is asked of, and is
/// assigned at most once.
pub trait HasID {
    /// The token that stands for the type.
    spec fn token() -> u64;

    /// The token that stands for the type.
    fn type_token() -> (t: u64)
        ensures
            t == Self::token(),
    ;

    /// The identity assigned to the type in `registry`, or `NotYetAssigned`.
    fn get_id<F: Fn() -> ComponentValue, B: Fn(Vec<ComponentValue>) -> Result<(), RegistryError>>(
        registry: &Registry<F, B>,
    ) -> (r: Result<u32, RegistryError>)
        ensures
            registry.identity_map().contains_key(Self::token()) ==> r == Ok::<u32, RegistryError>(
                registry.identity_map()[Self::token()],
            ),
            !registry.identity_map().contains_key(Self::token()) ==> r == Err::<
                u32,
                RegistryError,
            >(RegistryError::NotYetAssigned),
    ;

    /// Assigns the type's identity in `registry`. Fails with `RegistryClosed`
    /// on a sealed registry and with `AlreadyAssigned` where the type has an
    /// identity already; a failure leaves the assigned identities unchanged.
    fn set_id<F: Fn() -> ComponentValue, B: Fn(Vec<ComponentValue>) -> Result<(), RegistryError>>(
        registry: &mut Registry<F, B>,
        new_id: u32,
    ) -> (r: Result<(), RegistryError>)
        requires
            old(registry).wf(),
        ensures
            final(registry).wf(),
            final(registry).component_seq() == old(registry).component_seq(),
            final(registry).system_seq() == old(registry).system_seq(),
            final(registry).sealed() == old(registry).sealed(),
            old(registry).sealed() ==> r == Err::<(), RegistryError>(RegistryError::RegistryClosed)
                && final(registry).identity_map() == old(registry).identity_map(),
            !old(registry).sealed() && old(registry).identity_map().contains_key(Self::token())
                ==> r == Err::<(), RegistryError>(RegistryError::AlreadyAssigned) && final(registry).identity_map() == old(registry).identity_map(),
            !old(registry).sealed() && !old(registry).identity_map().contains_key(Self::token())
                ==> r == Ok::<(), RegistryError>(()) && final(registry).identity_map() == old(registry).identity_map().insert(Self::token(), new_id),
    ;
}

impl HasID for MyComponent {
    open spec fn token() -> u64 {
        MY_COMPONENT_TOKEN
    }

    fn type_token() -> (t: u64) {
        MY_COMPONENT_TOKEN
    }

    fn get_id<F: Fn() -> ComponentValue, B: Fn(Vec<ComponentValue>) -> Result<(), RegistryError>>(
        registry: &Registry<F, B>,
    ) -> (r: Result<u32, RegistryError>) {
        registry.get_identity(MY_COMPONENT_TOKEN)
    }

    fn set_id<F: Fn() -> ComponentValue, B: Fn(Vec<ComponentValue>) -> Result<(), RegistryError>>(
        registry: &mut Registry<F, B>,
        new_id: u32,
    ) -> (r: Result<(), RegistryError>) {
        registry.set_identity(MY_COMPONENT_TOKEN, new_id)
    }
}

} // verus!
