use registration::driver::RegistrationDriver;
use registration::error::{DependencyNotFound, RegistryError};
use registration::hash::name_hash;
use registration::identity::HasID;
use registration::registry::Registry;
use registration::table::{find_identity, resolve_names};
use registration::value::{
    create_component, my_component_factory, ComponentValue, MyComponent, MY_COMPONENT_TOKEN,
};

type Factory = fn() -> ComponentValue;
type Behavior = fn(Vec<ComponentValue>) -> Result<(), RegistryError>;
type TestRegistry = Registry<Factory, Behavior>;

fn make_a() -> ComponentValue {
    ComponentValue { type_token: 10, payload: "value of A".to_string() }
}

fn make_b() -> ComponentValue {
    ComponentValue { type_token: 11, payload: "value of B".to_string() }
}

fn accept_all(_values: Vec<ComponentValue>) -> Result<(), RegistryError> {
    Ok(())
}

fn expect_a_then_b(values: Vec<ComponentValue>) -> Result<(), RegistryError> {
    if values.len() != 2 {
        return Err(RegistryError::UnknownIdentity);
    }
    let a = values[0].downcast(10)?;
    let b = values[1].downcast(11)?;
    if a == "value of A" && b == "value of B" {
        Ok(())
    } else {
        Err(RegistryError::TypeMismatch)
    }
}

fn expect_b_then_a(values: Vec<ComponentValue>) -> Result<(), RegistryError> {
    if values.len() != 2 {
        return Err(RegistryError::UnknownIdentity);
    }
    values[0].downcast(11)?;
    values[1].downcast(10)?;
    Ok(())
}

fn names(list: &[&str]) -> Vec<String> {
    list.iter().map(|s| s.to_string()).collect()
}

#[test]
fn name_hash_is_the_crc32_of_the_name() {
    assert_eq!(name_hash("MyComponent"), 1359051788);
    assert_eq!(name_hash(""), 0);
    assert_eq!(name_hash("123456789"), 3421780262);
    assert_eq!(name_hash("A"), 3554254475);
}

#[test]
fn new_registry_is_open_and_empty() {
    let r = TestRegistry::new();
    assert!(!r.is_sealed());
    assert_eq!(r.component_count(), 0);
    assert_eq!(r.system_count(), 0);
    assert!(r.list_components().is_empty());
    assert!(r.list_systems().is_empty());
    assert!(r.execution_plan().is_empty());
}

#[test]
fn components_get_dense_identities_in_submission_order() {
    let mut r = TestRegistry::new();
    let labels = ["C0", "C1", "C2", "C3", "C4"];
    for (i, label) in labels.iter().enumerate() {
        let id = r.register_component(label.to_string(), make_a).unwrap();
        assert_eq!(id, i as u32);
    }
    let listed = r.list_components();
    assert_eq!(listed.len(), 5);
    for (i, info) in listed.iter().enumerate() {
        assert_eq!(info.identity, i as u32);
        assert_eq!(info.name, labels[i]);
        assert_eq!(info.name_hash, name_hash(labels[i]));
    }
    assert_eq!(r.entries().len(), 5);
    assert_eq!(r.entries()[3].name, "C3");
}

#[test]
fn systems_have_their_own_identity_space() {
    let mut r = TestRegistry::new();
    assert_eq!(r.register_component("A".to_string(), make_a), Ok(0));
    assert_eq!(r.register_system("S".to_string(), accept_all, names(&["A"])), Ok(0));
    assert_eq!(r.register_system("T".to_string(), accept_all, names(&[])), Ok(1));
    assert_eq!(r.register_component("B".to_string(), make_b), Ok(1));
    assert_eq!(r.system_entries()[1].name_hash, name_hash("T"));
    assert_eq!(r.system_entries()[0].declared, names(&["A"]));
    assert!(r.system_entries()[0].resolved.is_none());
}

#[test]
fn system_resolves_to_identities_in_declared_order() {
    let mut r = TestRegistry::new();
    assert_eq!(r.register_component("A".to_string(), make_a), Ok(0));
    assert_eq!(r.register_component("B".to_string(), make_b), Ok(1));
    assert_eq!(r.register_system("S".to_string(), expect_a_then_b, names(&["A", "B"])), Ok(0));
    let diagnostics = r.resolve().unwrap();
    assert!(diagnostics.is_empty());
    assert!(r.is_sealed());
    let listed = r.list_systems();
    assert_eq!(listed.len(), 1);
    assert_eq!(listed[0].name, "S");
    assert_eq!(listed[0].identity, 0);
    assert_eq!(listed[0].resolved_dependency_identities, Some(vec![0, 1]));
    assert_eq!(r.execution_plan(), vec![0]);
    assert_eq!(r.run_system(0), Ok(()));
}

#[test]
fn system_receives_values_in_reversed_declared_order() {
    let mut r = TestRegistry::new();
    r.register_component("A".to_string(), make_a).unwrap();
    r.register_component("B".to_string(), make_b).unwrap();
    r.register_system("S".to_string(), expect_b_then_a, names(&["B", "A"])).unwrap();
    r.register_system("wrong".to_string(), expect_a_then_b, names(&["B", "A"])).unwrap();
    assert!(r.resolve().unwrap().is_empty());
    assert_eq!(r.system_entries()[0].resolved, Some(vec![1, 0]));
    assert_eq!(r.run_system(0), Ok(()));
    assert_eq!(r.run_system(1), Err(RegistryError::TypeMismatch));
}

#[test]
fn missing_dependency_gives_a_diagnostic_and_spares_the_others() {
    let mut r = TestRegistry::new();
    r.register_system("S2".to_string(), accept_all, names(&["C"])).unwrap();
    r.register_component("A".to_string(), make_a).unwrap();
    r.register_system("S".to_string(), accept_all, names(&["A"])).unwrap();
    let diagnostics: Vec<DependencyNotFound> = r.resolve().unwrap();
    assert_eq!(diagnostics.len(), 1);
    assert_eq!(diagnostics[0].system_name, "S2");
    assert_eq!(diagnostics[0].component_name, "C");
    let listed = r.list_systems();
    assert_eq!(listed[0].resolved_dependency_identities, None);
    assert_eq!(listed[1].resolved_dependency_identities, Some(vec![0]));
    assert_eq!(r.execution_plan(), vec![1]);
    assert_eq!(r.run_system(0), Err(RegistryError::DependencyNotFound));
    assert_eq!(r.run_system(1), Ok(()));
}

#[test]
fn every_missing_name_is_reported_in_declared_order() {
    let mut r = TestRegistry::new();
    r.register_component("A".to_string(), make_a).unwrap();
    r.register_system("S".to_string(), accept_all, names(&["X", "A", "Y"])).unwrap();
    r.register_system("T".to_string(), accept_all, names(&["Z"])).unwrap();
    let diagnostics = r.resolve().unwrap();
    let pairs: Vec<(String, String)> = diagnostics
        .iter()
        .map(|d| (d.system_name.clone(), d.component_name.clone()))
        .collect();
    assert_eq!(
        pairs,
        vec![
            ("S".to_string(), "X".to_string()),
            ("S".to_string(), "Y".to_string()),
            ("T".to_string(), "Z".to_string()),
        ]
    );
    assert!(r.execution_plan().is_empty());
}

#[test]
fn resolution_does_not_depend_on_where_systems_are_submitted() {
    let mut first = TestRegistry::new();
    first.register_system("S".to_string(), accept_all, names(&["B", "A"])).unwrap();
    first.register_component("A".to_string(), make_a).unwrap();
    first.register_component("B".to_string(), make_b).unwrap();
    assert!(first.resolve().unwrap().is_empty());

    let mut second = TestRegistry::new();
    second.register_component("A".to_string(), make_a).unwrap();
    second.register_system("S".to_string(), accept_all, names(&["B", "A"])).unwrap();
    second.register_component("B".to_string(), make_b).unwrap();
    assert!(second.resolve().unwrap().is_empty());

    let mut third = TestRegistry::new();
    third.register_component("A".to_string(), make_a).unwrap();
    third.register_component("B".to_string(), make_b).unwrap();
    third.register_system("S".to_string(), accept_all, names(&["B", "A"])).unwrap();
    assert!(third.resolve().unwrap().is_empty());

    assert_eq!(first.system_entries()[0].resolved, Some(vec![1, 0]));
    assert_eq!(second.system_entries()[0].resolved, Some(vec![1, 0]));
    assert_eq!(third.system_entries()[0].resolved, Some(vec![1, 0]));
}

#[test]
fn names_are_not_looked_up_before_sealing() {
    let mut r = TestRegistry::new();
    r.register_component("A".to_string(), make_a).unwrap();
    r.register_system("S".to_string(), accept_all, names(&["A"])).unwrap();
    assert!(r.system_entries()[0].resolved.is_none());
    assert!(r.execution_plan().is_empty());
    assert_eq!(r.run_system(0), Err(RegistryError::DependencyNotFound));
    assert_eq!(r.list_systems()[0].resolved_dependency_identities, None);
}

#[test]
fn sealed_registry_refuses_registration_and_stays_as_it_was() {
    let mut r = TestRegistry::new();
    r.register_component("A".to_string(), make_a).unwrap();
    r.register_system("S".to_string(), accept_all, names(&["A"])).unwrap();
    r.resolve().unwrap();
    assert_eq!(
        r.register_component("B".to_string(), make_b),
        Err(RegistryError::RegistryClosed)
    );
    assert_eq!(
        r.register_system("T".to_string(), accept_all, names(&[])),
        Err(RegistryError::RegistryClosed)
    );
    assert_eq!(r.set_identity(7, 0), Err(RegistryError::RegistryClosed));
    assert_eq!(r.get_identity(7), Err(RegistryError::NotYetAssigned));
    assert_eq!(r.component_count(), 1);
    assert_eq!(r.system_count(), 1);
    assert_eq!(r.find_component_identity("B"), Err(RegistryError::UnknownName));
    assert_eq!(r.list_components()[0].name, "A");
    assert_eq!(r.list_systems()[0].resolved_dependency_identities, Some(vec![0]));
}

#[test]
fn resolving_twice_fails_and_keeps_the_first_result() {
    let mut r = TestRegistry::new();
    r.register_component("A".to_string(), make_a).unwrap();
    r.register_system("S".to_string(), accept_all, names(&["A"])).unwrap();
    assert!(r.resolve().is_ok());
    assert!(matches!(r.resolve(), Err(RegistryError::RegistryClosed)));
    assert_eq!(r.system_entries()[0].resolved, Some(vec![0]));
}

#[test]
fn identity_slot_is_assigned_once() {
    let mut r = TestRegistry::new();
    assert_eq!(r.get_identity(42), Err(RegistryError::NotYetAssigned));
    assert_eq!(r.set_identity(42, 5), Ok(()));
    assert_eq!(r.get_identity(42), Ok(5));
    assert_eq!(r.set_identity(42, 9), Err(RegistryError::AlreadyAssigned));
    assert_eq!(r.get_identity(42), Ok(5));
    assert_eq!(r.get_identity(43), Err(RegistryError::NotYetAssigned));
    assert_eq!(r.set_identity(43, 9), Ok(()));
    assert_eq!(r.get_identity(43), Ok(9));
}

#[test]
fn component_type_finds_its_identity_through_the_registry() {
    let mut r = TestRegistry::new();
    assert_eq!(MyComponent::type_token(), MY_COMPONENT_TOKEN);
    assert_eq!(MyComponent::get_id(&r), Err(RegistryError::NotYetAssigned));
    let id = r.register_component("MyComponent".to_string(), my_component_factory).unwrap();
    assert_eq!(MyComponent::set_id(&mut r, id), Ok(()));
    assert_eq!(MyComponent::get_id(&r), Ok(0));
    assert_eq!(MyComponent::set_id(&mut r, 3), Err(RegistryError::AlreadyAssigned));
    assert_eq!(MyComponent::get_id(&r), Ok(0));
    assert_eq!(r.get_identity(MY_COMPONENT_TOKEN), Ok(0));
}

#[test]
fn duplicate_names_get_distinct_identities_and_the_first_wins() {
    let mut r = TestRegistry::new();
    assert_eq!(r.register_component("A".to_string(), make_a), Ok(0));
    assert_eq!(r.register_component("B".to_string(), make_b), Ok(1));
    assert_eq!(r.register_component("A".to_string(), make_b), Ok(2));
    assert_eq!(r.find_component_identity("A"), Ok(0));
    assert_eq!(r.find_component_identity("A"), Ok(0));
    assert_eq!(r.find_component_identity("B"), Ok(1));
    r.register_system("S".to_string(), accept_all, names(&["A", "A"])).unwrap();
    r.resolve().unwrap();
    assert_eq!(r.find_component_identity("A"), Ok(0));
    assert_eq!(r.system_entries()[0].resolved, Some(vec![0, 0]));
}

#[test]
fn unknown_name_and_unknown_identity_are_errors() {
    let mut r = TestRegistry::new();
    assert_eq!(r.find_component_identity("A"), Err(RegistryError::UnknownName));
    assert!(matches!(r.create(0), Err(RegistryError::UnknownIdentity)));
    assert_eq!(r.run_system(0), Err(RegistryError::UnknownIdentity));
    r.register_component("A".to_string(), make_a).unwrap();
    assert_eq!(r.find_component_identity("a"), Err(RegistryError::UnknownName));
    assert_eq!(r.find_component_identity(""), Err(RegistryError::UnknownName));
    assert!(matches!(r.create(1), Err(RegistryError::UnknownIdentity)));
    let value = r.create(0).unwrap();
    assert_eq!(value.type_token, 10);
    assert_eq!(value.payload, "value of A");
}

#[test]
fn table_level_lookup_and_resolution() {
    let mut r = TestRegistry::new();
    r.register_component("A".to_string(), make_a).unwrap();
    r.register_component("B".to_string(), make_b).unwrap();
    assert_eq!(find_identity(r.entries(), "B"), Ok(1));
    assert_eq!(find_identity(r.entries(), "C"), Err(RegistryError::UnknownName));
    let (ids, missing) = resolve_names(r.entries(), &names(&["B", "A", "B"]));
    assert_eq!(ids, Some(vec![1, 0, 1]));
    assert!(missing.is_empty());
    let (ids, missing) = r.resolve_dependencies(&names(&["B", "C", "D", "C"]));
    assert_eq!(ids, None);
    assert_eq!(missing, names(&["C", "D", "C"]));
    let (ids, missing) = r.resolve_dependencies(&names(&[]));
    assert_eq!(ids, Some(vec![]));
    assert!(missing.is_empty());
}

#[test]
fn downcast_checks_the_type_token() {
    let value = make_a();
    assert_eq!(value.downcast(10), Ok(&"value of A".to_string()));
    assert_eq!(value.downcast(11), Err(RegistryError::TypeMismatch));
}

#[test]
fn demonstration_component_has_its_default_name() {
    let component = create_component();
    assert_eq!(component.name, "Default Name");
    let value = my_component_factory();
    assert_eq!(value.type_token, MY_COMPONENT_TOKEN);
    assert_eq!(value.payload, "Default Name");
    let back = MyComponent::from_value(&value).unwrap();
    assert_eq!(back.name, "Default Name");
    assert!(matches!(MyComponent::from_value(&make_a()), Err(RegistryError::TypeMismatch)));
}

#[test]
fn driver_runs_a_whole_registration_phase() {
    let mut driver: RegistrationDriver<Factory, Behavior> = RegistrationDriver::begin();
    assert_eq!(driver.submit_system("S".to_string(), expect_a_then_b, names(&["A", "B"])), 0);
    assert_eq!(driver.submit_system("S2".to_string(), accept_all, names(&["C"])), 1);
    assert_eq!(driver.submit_component("A".to_string(), make_a), 0);
    assert_eq!(driver.submit_component("B".to_string(), make_b), 1);
    assert!(!driver.peek().is_sealed());
    assert_eq!(driver.peek().component_count(), 2);
    let (diagnostics, registry) = driver.seal_and_resolve();
    assert!(registry.is_sealed());
    assert_eq!(diagnostics.len(), 1);
    assert_eq!(diagnostics[0].system_name, "S2");
    assert_eq!(diagnostics[0].component_name, "C");
    assert_eq!(registry.system_entries()[0].resolved, Some(vec![0, 1]));
    assert_eq!(registry.system_entries()[1].resolved, None);
    assert_eq!(registry.execution_plan(), vec![0]);
    assert_eq!(registry.run_system(0), Ok(()));
}

#[test]
fn behavior_failure_is_returned_to_the_caller() {
    let mut r = TestRegistry::new();
    r.register_component("A".to_string(), make_a).unwrap();
    r.register_system("S".to_string(), expect_a_then_b, names(&["A"])).unwrap();
    r.resolve().unwrap();
    assert_eq!(r.run_system(0), Err(RegistryError::UnknownIdentity));
}

#[test]
fn run_all_follows_the_plan_and_reports_each_result() {
    let mut r = TestRegistry::new();
    r.register_system("first".to_string(), expect_b_then_a, names(&["A", "B"])).unwrap();
    r.register_system("lost".to_string(), accept_all, names(&["C"])).unwrap();
    r.register_system("last".to_string(), expect_a_then_b, names(&["A", "B"])).unwrap();
    r.register_component("A".to_string(), make_a).unwrap();
    r.register_component("B".to_string(), make_b).unwrap();
    assert!(r.run_all().is_empty());
    assert_eq!(r.resolve().unwrap().len(), 1);
    assert_eq!(r.execution_plan(), vec![0, 2]);
    assert_eq!(r.run_all(), vec![(0, Err(RegistryError::TypeMismatch)), (2, Ok(()))]);
}
