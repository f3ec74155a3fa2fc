use bacnet_objects::callback::{ObjectCallbacks, Subscriber};
use bacnet_objects::property::{PropertyIdentifier, PropertyValue};

#[test]
fn test_callback_registration() {
    let mut callbacks = ObjectCallbacks::new();
    assert!(!callbacks.has_callback(PropertyIdentifier::PresentValue));

    callbacks.on_present_value(Subscriber::new(1));
    assert!(callbacks.has_callback(PropertyIdentifier::PresentValue));

    callbacks.clear_present_value();
    assert!(!callbacks.has_callback(PropertyIdentifier::PresentValue));
}

#[test]
fn test_callback_trigger() {
    let mut callbacks = ObjectCallbacks::new();
    callbacks.on_present_value(Subscriber::new(1));

    callbacks.trigger(
        PropertyIdentifier::PresentValue,
        PropertyValue::Real(23.5f32.to_bits()),
    );

    let subscriber = callbacks.present_value.as_ref().unwrap();
    assert_eq!(subscriber.received.len(), 1);
    match subscriber.received[0] {
        PropertyValue::Real(bits) => assert_eq!(f32::from_bits(bits), 23.5),
        _ => panic!("the subscriber observed a payload of another kind"),
    }
}

#[test]
fn test_clear_all() {
    let mut callbacks = ObjectCallbacks::new();
    callbacks.on_present_value(Subscriber::new(1));
    callbacks.on_out_of_service(Subscriber::new(2));

    assert!(callbacks.has_callback(PropertyIdentifier::PresentValue));
    assert!(callbacks.has_callback(PropertyIdentifier::OutOfService));

    callbacks.clear_all();

    assert!(!callbacks.has_callback(PropertyIdentifier::PresentValue));
    assert!(!callbacks.has_callback(PropertyIdentifier::OutOfService));
}

#[test]
fn second_registration_replaces_first() {
    let mut callbacks = ObjectCallbacks::new();
    callbacks.on_present_value(Subscriber::new(1));
    callbacks.on_present_value(Subscriber::new(2));

    callbacks.trigger(
        PropertyIdentifier::PresentValue,
        PropertyValue::Unsigned(40),
    );

    let subscriber = callbacks.present_value.as_ref().unwrap();
    assert_eq!(subscriber.id, 2);
    assert_eq!(subscriber.received.len(), 1);
    assert_eq!(subscriber.received[0], PropertyValue::Unsigned(40));
}

#[test]
fn cleared_collection_fires_nothing() {
    let mut callbacks = ObjectCallbacks::new();
    callbacks.on_present_value(Subscriber::new(1));
    callbacks.on_out_of_service(Subscriber::new(2));
    callbacks.clear_all();

    callbacks.trigger(PropertyIdentifier::PresentValue, PropertyValue::Boolean(true));
    callbacks.trigger(PropertyIdentifier::OutOfService, PropertyValue::Boolean(true));

    assert!(callbacks.present_value.is_none());
    assert!(callbacks.out_of_service.is_none());
}

#[test]
fn unwatched_kind_fires_nothing() {
    let mut callbacks = ObjectCallbacks::new();
    callbacks.on_present_value(Subscriber::new(1));

    callbacks.trigger(PropertyIdentifier::StatusFlags, PropertyValue::Enumerated(3));

    let subscriber = callbacks.present_value.as_ref().unwrap();
    assert_eq!(subscriber.received.len(), 0);
    assert!(!callbacks.has_callback(PropertyIdentifier::StatusFlags));
}

#[test]
fn clone_drops_subscribers() {
    let mut callbacks = ObjectCallbacks::new();
    callbacks.on_present_value(Subscriber::new(1));

    let copy = callbacks.clone();
    assert!(!copy.has_callback(PropertyIdentifier::PresentValue));
    assert!(callbacks.has_callback(PropertyIdentifier::PresentValue));
}
