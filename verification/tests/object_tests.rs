use bacnet_objects::callback::Subscriber;
use bacnet_objects::object::{Object, PropertyError};
use bacnet_objects::object_name::IntoBoxedObjectName;
use bacnet_objects::property::{PropertyCell, PropertyIdentifier, PropertyValue};
use bacnet_objects::state_text::complex::SyncStateText;
use bacnet_objects::state_text::StateText;

fn room_temperature() -> Object {
    Object::new(
        1,
        "Room Temperature".into_object_name(),
        vec![PropertyCell {
            kind: PropertyIdentifier::PresentValue,
            value: PropertyValue::Real(0.0f32.to_bits()),
        }],
    )
}

fn stored_real(object: &Object) -> f32 {
    match object.get_property(PropertyIdentifier::PresentValue).unwrap() {
        PropertyValue::Real(bits) => f32::from_bits(bits),
        _ => panic!("the cell holds a payload of another kind"),
    }
}

#[test]
fn local_write_stores_silently() {
    let mut object = room_temperature();
    object.callbacks.on_present_value(Subscriber::new(1));

    let written = object.set_local(
        PropertyIdentifier::PresentValue,
        PropertyValue::Real(23.5f32.to_bits()),
    );

    assert!(written.is_ok());
    assert_eq!(stored_real(&object), 23.5);
    let subscriber = object.callbacks.present_value.as_ref().unwrap();
    assert_eq!(subscriber.received.len(), 0);
}

#[test]
fn remote_write_stores_and_notifies_once() {
    let mut object = room_temperature();
    object.callbacks.on_present_value(Subscriber::new(1));

    let written = object.set_remote(
        PropertyIdentifier::PresentValue,
        PropertyValue::Real(25.0f32.to_bits()),
    );

    assert!(written.is_ok());
    assert_eq!(stored_real(&object), 25.0);
    let subscriber = object.callbacks.present_value.as_ref().unwrap();
    assert_eq!(subscriber.received.len(), 1);
    match subscriber.received[0] {
        PropertyValue::Real(bits) => assert_eq!(f32::from_bits(bits), 25.0),
        _ => panic!("the subscriber observed a payload of another kind"),
    }
}

#[test]
fn write_to_a_missing_cell_is_rejected() {
    let mut object = room_temperature();
    let written = object.set_local(
        PropertyIdentifier::OutOfService,
        PropertyValue::Boolean(true),
    );
    assert_eq!(written.unwrap_err(), PropertyError::UnknownProperty);
    assert_eq!(stored_real(&object), 0.0);
}

#[test]
fn write_of_another_kind_is_rejected() {
    let mut object = room_temperature();
    let written = object.set_remote(
        PropertyIdentifier::PresentValue,
        PropertyValue::Boolean(true),
    );
    assert_eq!(written.unwrap_err(), PropertyError::KindMismatch);
    assert_eq!(stored_real(&object), 0.0);
    assert!(object.callbacks.present_value.is_none());
}

#[test]
fn an_object_can_carry_a_state_text_list() {
    let states = SyncStateText::new(
        2,
        vec!["normal".to_string(), "alarm".to_string()],
    )
    .into_shared();

    let mut object = Object::new(33, "test".into_object_name(), Vec::new());
    object.attach_state_text(states.clone());

    let held = object.state_text.as_ref().unwrap();
    assert_eq!(held.number_of_states(), 2);
    assert_eq!(held.get_text(1).unwrap(), "alarm");
    assert_eq!(states.get_text(0).unwrap(), "normal");
}

#[test]
fn writes_to_one_kind_leave_the_other_alone() {
    let mut object = Object::new(
        2,
        "Pump".into_object_name(),
        vec![
            PropertyCell {
                kind: PropertyIdentifier::PresentValue,
                value: PropertyValue::Real(0.0f32.to_bits()),
            },
            PropertyCell {
                kind: PropertyIdentifier::OutOfService,
                value: PropertyValue::Boolean(false),
            },
        ],
    );

    object
        .set_local(
            PropertyIdentifier::PresentValue,
            PropertyValue::Real(1.5f32.to_bits()),
        )
        .unwrap();

    assert_eq!(
        object.get_property(PropertyIdentifier::OutOfService).unwrap(),
        PropertyValue::Boolean(false)
    );
    assert_eq!(stored_real(&object), 1.5);
}
