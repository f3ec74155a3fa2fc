//! Change-notification registry for object properties.
//!
//! Subscribers are closed records that accumulate every value delivered to
//! them, so a contract can say exactly which subscriber fired and with what.
//! Only the remote mutation path ever triggers this registry; the local path
//! stores silently.

use vstd::prelude::*;

use crate::property::{PropertyIdentifier, PropertyValue};

verus! {

/// A registered listener for one property kind.
///
/// Delivery appends the new value to `received`; the log is the record of
/// every notification this subscriber has observed, in order.
#[derive(Debug)]
pub struct Subscriber {
    pub id: u32,
    pub received: Vec<PropertyValue>,
}

/// Ghost image of a subscriber: its identity and its delivery log.
#[verifier::ext_equal]
pub struct SubView {
    pub id: u32,
    pub received: Seq<PropertyValue>,
}

impl View for Subscriber {
    type V = SubView;

    open spec fn view(&self) -> SubView {
        SubView { id: self.id, received: self.received@ }
    }
}

impl Subscriber {
    /// A fresh subscriber that has observed nothing yet.
    pub fn new(id: u32) -> (s: Self)
        ensures
            s@ == (SubView { id, received: Seq::<PropertyValue>::empty() }),
    {
        Subscriber { id, received: Vec::new() }
    }

    /// Deliver one value to this subscriber.
    fn record(&mut self, value: PropertyValue)
        ensures
            final(self)@ == delivered(old(self)@, value),
    {
        self.received.push(value);
    }
}

/// The subscriber after one delivery of `value`.
pub open spec fn delivered(s: SubView, value: PropertyValue) -> SubView {
    SubView { id: s.id, received: s.received.push(value) }
}

/// One delivery into an optional slot: a present subscriber observes the
/// value, an empty slot stays empty.
pub open spec fn fired(slot: Option<SubView>, value: PropertyValue) -> Option<SubView> {
    match slot {
        Some(s) => Some(delivered(s, value)),
        None => None,
    }
}

/// Collection of subscribers for the property kinds that commonly change at
/// runtime. At most one subscriber is registered per kind; registering a new
/// one replaces the previous one.
#[derive(Debug)]
pub struct ObjectCallbacks {
    /// Subscriber for `PresentValue` changes.
    pub present_value: Option<Subscriber>,
    /// Subscriber for `OutOfService` changes.
    pub out_of_service: Option<Subscriber>,
}

/// Ghost image of a callback collection: one optional subscriber per
/// watched kind.
#[verifier::ext_equal]
pub struct CallbacksView {
    pub present_value: Option<SubView>,
    pub out_of_service: Option<SubView>,
}

/// Ghost image of an optional subscriber slot.
pub open spec fn slot_view(slot: Option<Subscriber>) -> Option<SubView> {
    match slot {
        Some(s) => Some(s@),
        None => None,
    }
}

impl View for ObjectCallbacks {
    type V = CallbacksView;

    open spec fn view(&self) -> CallbacksView {
        CallbacksView {
            present_value: slot_view(self.present_value),
            out_of_service: slot_view(self.out_of_service),
        }
    }
}

/// The collection with nothing registered.
pub open spec fn empty_callbacks() -> CallbacksView {
    CallbacksView { present_value: None, out_of_service: None }
}

/// The collection after one trigger of `property` with `value`: only the
/// slot of a watched kind fires, and only when a subscriber is registered
/// there.
pub open spec fn trigger_model(
    c: CallbacksView,
    property: PropertyIdentifier,
    value: PropertyValue,
) -> CallbacksView {
    match property {
        PropertyIdentifier::PresentValue => CallbacksView {
            present_value: fired(c.present_value, value),
            out_of_service: c.out_of_service,
        },
        PropertyIdentifier::OutOfService => CallbacksView {
            present_value: c.present_value,
            out_of_service: fired(c.out_of_service, value),
        },
        _ => c,
    }
}

/// The subscriber slot a trigger of `property` delivers into: kinds that
/// are not watched have none.
pub open spec fn slot_of(c: CallbacksView, property: PropertyIdentifier) -> Option<SubView> {
    match property {
        PropertyIdentifier::PresentValue => c.present_value,
        PropertyIdentifier::OutOfService => c.out_of_service,
        _ => None,
    }
}

/// Whether a subscriber is registered for `property`.
pub open spec fn watched(c: CallbacksView, property: PropertyIdentifier) -> bool {
    slot_of(c, property) is Some
}

impl Clone for ObjectCallbacks {
    /// Cloning yields an empty collection: a subscriber's delivery log
    /// belongs to the original alone, so the copy starts unregistered.
    fn clone(&self) -> (r: Self)
        ensures
            r@ == empty_callbacks(),
    {
        ObjectCallbacks { present_value: None, out_of_service: None }
    }
}

impl Default for ObjectCallbacks {
    fn default() -> (r: Self)
        ensures
            r@ == empty_callbacks(),
    {
        ObjectCallbacks { present_value: None, out_of_service: None }
    }
}

impl ObjectCallbacks {
    /// A collection with no subscriber registered.
    pub fn new() -> (r: Self)
        ensures
            r@ == empty_callbacks(),
    {
        ObjectCallbacks { present_value: None, out_of_service: None }
    }

    /// Register a subscriber for `PresentValue` changes, replacing any
    /// subscriber registered there before.
    pub fn on_present_value(&mut self, callback: Subscriber)
        ensures
            final(self)@ == (CallbacksView {
                present_value: Some(callback@),
                out_of_service: old(self)@.out_of_service,
            }),
    {
        self.present_value = Some(callback);
    }

    /// Register a subscriber for `OutOfService` changes, replacing any
    /// subscriber registered there before.
    pub fn on_out_of_service(&mut self, callback: Subscriber)
        ensures
            final(self)@ == (CallbacksView {
                present_value: old(self)@.present_value,
                out_of_service: Some(callback@),
            }),
    {
        self.out_of_service = Some(callback);
    }

    /// Remove the `PresentValue` subscriber.
    pub fn clear_present_value(&mut self)
        ensures
            final(self)@ == (CallbacksView {
                present_value: None,
                out_of_service: old(self)@.out_of_service,
            }),
    {
        self.present_value = None;
    }

    /// Remove the `OutOfService` subscriber.
    pub fn clear_out_of_service(&mut self)
        ensures
            final(self)@ == (CallbacksView {
                present_value: old(self)@.present_value,
                out_of_service: None,
            }),
    {
        self.out_of_service = None;
    }

    /// Remove all subscribers.
    pub fn clear_all(&mut self)
        ensures
            final(self)@ == empty_callbacks(),
    {
        self.present_value = None;
        self.out_of_service = None;
    }

    /// Deliver `value` to the subscriber registered for `property`, if any.
    /// The delivery happens exactly once, before this call returns; a kind
    /// that is not watched, or a slot with no subscriber, fires nothing.
    pub fn trigger(&mut self, property: PropertyIdentifier, value: PropertyValue)
        ensures
            final(self)@ == trigger_model(old(self)@, property, value),
    {
        match property {
            PropertyIdentifier::PresentValue => {
                match &mut self.present_value {
                    Some(callback) => callback.record(value),
                    None => {},
                }
            },
            PropertyIdentifier::OutOfService => {
                match &mut self.out_of_service {
                    Some(callback) => callback.record(value),
                    None => {},
                }
            },
            _ => {},
        }
    }

    /// Whether a subscriber is registered for `property`.
    pub fn has_callback(&self, property: PropertyIdentifier) -> (r: bool)
        ensures
            r == watched(self@, property),
    {
        match property {
            PropertyIdentifier::PresentValue => self.present_value.is_some(),
            PropertyIdentifier::OutOfService => self.out_of_service.is_some(),
            _ => false,
        }
    }
}

/// A trigger delivers to the subscriber registered for the fired kind
/// exactly once: that subscriber's log grows by the one value fired, and
/// every other kind's slot is untouched.
pub proof fn lemma_remote_fires_exactly_once(
    c: CallbacksView,
    s: SubView,
    property: PropertyIdentifier,
    value: PropertyValue,
)
    requires
        slot_of(c, property) == Some(s),
    ensures
        ({
            let after = trigger_model(c, property, value);
            &&& slot_of(after, property) matches Some(t)
            &&& t.id == s.id
            &&& t.received == s.received.push(value)
            &&& t.received.len() == s.received.len() + 1
            &&& t.received.last() == value
            &&& forall|other: PropertyIdentifier|
                other != property ==> slot_of(after, other) == slot_of(c, other)
        }),
{
}

/// A kind with no registered subscriber fires nothing: the trigger leaves
/// the collection exactly as it was.
pub proof fn lemma_unwatched_kind_fires_nothing(
    c: CallbacksView,
    property: PropertyIdentifier,
    value: PropertyValue,
)
    requires
        slot_of(c, property) is None,
    ensures
        trigger_model(c, property, value) == c,
{
}

/// Registering a second subscriber replaces the first: after the
/// replacement, a trigger delivers to the second subscriber only, and the
/// first subscriber's log is no longer reachable from the collection.
pub proof fn lemma_second_registration_wins(
    c: CallbacksView,
    first: SubView,
    second: SubView,
    value: PropertyValue,
)
    ensures
        ({
            let with_first = CallbacksView {
                present_value: Some(first),
                out_of_service: c.out_of_service,
            };
            let with_second = CallbacksView {
                present_value: Some(second),
                out_of_service: with_first.out_of_service,
            };
            let after = trigger_model(with_second, PropertyIdentifier::PresentValue, value);
            &&& after.present_value == Some(delivered(second, value))
            &&& after.out_of_service == c.out_of_service
        }),
{
}

/// After clearing all subscribers, a trigger of any kind fires none: the
/// collection stays empty.
pub proof fn lemma_cleared_fires_none(property: PropertyIdentifier, value: PropertyValue)
    ensures
        trigger_model(empty_callbacks(), property, value) == empty_callbacks(),
{
}

} // verus!
