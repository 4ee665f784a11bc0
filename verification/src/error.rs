use vstd::prelude::*;

verus! {

/// Every way an operation on the registry can fail. All of them are returned
/// to the caller; none ends the process.
#[derive(Clone, Copy, Debug, PartialEq, Eq, Structural)]
pub enum RegistryError {
    /// No entry has the identity that was asked for.
    UnknownIdentity,
    /// No component is registered under the name that was asked for.
    UnknownName,
    /// The identity of this type token was assigned before.
    AlreadyAssigned,
    /// The identity of this type token was never assigned.
    NotYetAssigned,
    /// The system has a dependency that names no component, or was not resolved yet.
    DependencyNotFound,
    /// Reserved for a policy that rejects a second entry of one name.
    AlreadyRegistered,
    /// The registry is sealed and takes no more changes.
    RegistryClosed,
    /// The lock that guards a shared registry could not be taken.
    LockUnavailable,
    /// A value was asked for as a type other than the one it carries.
    TypeMismatch,
}

/// The mathematical content of a resolution diagnostic.
pub ghost struct MissingDependency {
    pub system: Seq<char>,
    pub component: Seq<char>,
}

/// A diagnostic of the resolution pass: the named system declared a dependency
/// on a component name that no registered component carries.
#[derive(Clone, Debug)]
pub struct DependencyNotFound {
    pub system_name: String,
    pub component_name: String,
}

impl View for DependencyNotFound {
    type V = MissingDependency;

    open spec fn view(&self) -> MissingDependency {
        MissingDependency { system: self.system_name@, component: self.component_name@ }
    }
}

} // verus!
