use bacnet_objects::object_name::{
    hash_text, IntoBoxedObjectName, ObjectName, SharedName,
};

#[test]
fn clone_of_owned_name_is_equal_and_hashes_equal() {
    let name = "Room Temperature".into_object_name();
    let copy = name.clone();
    assert!(copy.equals(&name));
    assert!(name.equals(&copy));
    assert_eq!(copy.hash_value(), name.hash_value());
}

#[test]
fn clone_of_shared_name_is_equal_and_hashes_equal() {
    let name = SharedName::new("Boiler".to_string()).into_object_name();
    let copy = name.clone();
    assert!(copy.equals(&name));
    assert_eq!(copy.hash_value(), name.hash_value());
}

#[test]
fn update_replaces_the_text() {
    let mut name = "before".into_object_name();
    let updated = name.update("after");
    assert!(updated.is_ok());
    assert_eq!(name.snapshot(), "after");
}

#[test]
fn shared_name_mutation_is_visible_to_every_holder() {
    let original = SharedName::new("Room Temperature".to_string());
    let holder = original.share();

    original.write_text("Supply Temperature".to_string());

    assert_eq!(holder.read_text(), "Supply Temperature");
    assert_eq!(original.read_text(), "Supply Temperature");
}

#[test]
fn update_through_shared_name_keeps_the_handle() {
    let handle = SharedName::new("a".to_string());
    let mut name = ObjectName::Shared(handle.share());

    let updated = name.update("b");
    assert!(updated.is_ok());

    assert_eq!(handle.read_text(), "b");
    assert_eq!(name.snapshot(), "b");
}

#[test]
fn hash_is_a_function_of_the_text() {
    assert_eq!(hash_text("Room Temperature"), hash_text("Room Temperature"));
    assert_ne!(hash_text("Room Temperature"), hash_text("Room Temperatur"));
    assert_eq!(hash_text(""), 5381);
    assert_eq!(hash_text("a"), (5381 * 31 + 97) % 0x1_0000_0000);
}

#[test]
fn every_conversion_into_a_name_keeps_its_text() {
    let from_slice = "kitchen".into_object_name();
    assert_eq!(from_slice.snapshot(), "kitchen");

    let from_string = "cellar".to_string().into_object_name();
    assert_eq!(from_string.snapshot(), "cellar");

    let from_handle = SharedName::new("attic".to_string()).into_object_name();
    assert_eq!(from_handle.snapshot(), "attic");

    let from_name = from_slice.into_object_name();
    assert_eq!(from_name.snapshot(), "kitchen");
}

#[test]
fn names_with_different_texts_are_unequal() {
    let a = "alpha".into_object_name();
    let b = "beta".into_object_name();
    assert!(!a.equals(&b));
}
