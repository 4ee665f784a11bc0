use vstd::prelude::*;
use crate::error::RegistryError;

verus! {

/// A type-erased value: a payload together with the token of the type it was
/// made from. The payload is recovered only through a checked downcast.
#[derive(Clone, Debug)]
pub struct ComponentValue {
    pub type_token: u64,
    pub payload: String,
}

impl ComponentValue {
    /// Hands out the payload if the value carries the expected type token,
    /// and fails with `TypeMismatch` otherwise.
    pub fn downcast(&self, expected: u64) -> (r: Result<&String, RegistryError>)
        ensures
            self.type_token == expected ==> r == Ok::<&String, RegistryError>(&self.payload),
            self.type_token != expected ==> r == Err::<&String, RegistryError>(
                RegistryError::TypeMismatch,
            ),
    {
        if self.type_token == expected {
            Ok(&self.payload)
        } else {
            Err(RegistryError::TypeMismatch)
        }
    }
}

/// The demonstration component: it holds a name.
#[derive(Clone, Debug)]
pub struct MyComponent {
    pub name: String,
}

/// The type token of `MyComponent`.
pub const MY_COMPONENT_TOKEN: u64 = 1;

/// Builds the demonstration component with its default name.
pub fn create_component() -> (c: MyComponent)
    ensures
        c.name@ == "Default Name"@,
{
    MyComponent { name: "Default Name".to_owned() }
}

impl MyComponent {
    /// Erases the component into a tagged value.
    pub fn into_value(self) -> (v: ComponentValue)
        ensures
            v.type_token == MY_COMPONENT_TOKEN,
            v.payload == self.name,
    {
        ComponentValue { type_token: MY_COMPONENT_TOKEN, payload: self.name }
    }

    /// Recovers the component from a tagged value, if the value carries its token.
    pub fn from_value(v: &ComponentValue) -> (r: Result<MyComponent, RegistryError>)
        ensures
            v.type_token == MY_COMPONENT_TOKEN ==> r.is_ok() && r.unwrap().name@ == v.payload@,
            v.type_token != MY_COMPONENT_TOKEN ==> r == Err::<MyComponent, RegistryError>(
                RegistryError::TypeMismatch,
            ),
    {
        match v.downcast(MY_COMPONENT_TOKEN) {
            Ok(payload) => Ok(MyComponent { name: payload.clone() }),
            Err(e) => Err(e),
        }
    }
}

/// The factory of the demonstration component: builds it and erases it.
pub fn my_component_factory() -> (v: ComponentValue)
    ensures
        v.type_token == MY_COMPONENT_TOKEN,
        v.payload@ == "Default Name"@,
{
    create_component().into_value()
}

} // verus!
