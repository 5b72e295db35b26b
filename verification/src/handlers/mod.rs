//! Handlers: what accepts an event of one type and acts on it.

use vstd::prelude::*;
use crate::messages::cloud_events::cloud_event::{CloudEvent, DeserializeFrom};
use crate::messages::kafka_message::{Envelope, KafkaError, KafkaErrorView, Text};

verus! {

/// Whether a handler for `handler_type` accepts an event whose type
/// reads as `event_type`: an unreadable type is an error, another type
/// is a plain no.
pub open spec fn accepts(handler_type: Text, event_type: Result<Text, KafkaErrorView>) -> Result<
    bool,
    KafkaErrorView,
> {
    match event_type {
        Ok(event_type) => Ok(event_type == handler_type),
        Err(reason) => Err(reason),
    }
}

/// The outcome of asking a handler, as it stands in specifications.
pub open spec fn accepts_result(res: Result<bool, KafkaError>) -> Result<bool, KafkaErrorView> {
    match res {
        Ok(answer) => Ok(answer),
        Err(error) => Err(error@),
    }
}

/// A handler for events of one type. `handle` is the handler's own
/// action; what it does to the handler and what it answers is described
/// by `handled`, which each handler states for itself.
pub trait EventHandler<InputEvent: CloudEvent>: Sized {
    /// The event that the handler's action works on.
    type Event: DeserializeFrom<InputEvent>;

    /// The type of the events that this handler accepts.
    spec fn event_type_spec(&self) -> Text;

    /// Whether acting on `event` may leave the handler as `after` and
    /// answer `res`.
    spec fn handled(&self, event: Self::Event, after: Self, res: Result<(), KafkaError>) -> bool;

    fn event_type(&self) -> (event_type: String)
        ensures
            event_type@ == self.event_type_spec(),
    ;

    /// Whether this handler accepts the event: its type is compared with
    /// the handler's.
    fn can_handle(&self, event: &InputEvent) -> (res: Result<bool, KafkaError>)
        ensures
            accepts_result(res) == accepts(self.event_type_spec(), event.event_type_spec()),
    {
        let incoming = event.event_type()?;
        let own = self.event_type();
        Ok(incoming == own)
    }

    /// The handler's own action. It never changes the type of the events
    /// that the handler accepts.
    fn handle(&mut self, event: &Self::Event) -> (res: Result<(), KafkaError>)
        ensures
            old(self).handled(*event, *final(self), res),
            final(self).event_type_spec() == old(self).event_type_spec(),
    ;

    /// Rebuilds the handler's event from the incoming one and acts on it.
    /// Where rebuilding fails the action does not run.
    fn deserialize_and_handle(&mut self, event: &InputEvent) -> (res: Result<(), KafkaError>)
        ensures
            exists|rebuilt: Result<Self::Event, KafkaError>| #[trigger]
                Self::Event::deserialized(event, rebuilt) && match rebuilt {
                    Ok(deserialized) => old(self).handled(deserialized, *final(self), res),
                    Err(error) => *final(self) == *old(self) && res == Err::<(), KafkaError>(
                        error,
                    ),
                },
            final(self).event_type_spec() == old(self).event_type_spec(),
    {
        match Self::Event::deserialize_from(event) {
            Ok(deserialized) => {
                assert(Self::Event::deserialized(event, Ok(deserialized)));
                self.handle(&deserialized)
            },
            Err(error) => {
                assert(Self::Event::deserialized(event, Err(error)));
                Err(error)
            },
        }
    }
}

/// What `deserialize_and_handle` promises, as one predicate: whether the
/// call on `event` may leave the handler
/// `before` as `after` and answer `res`: either rebuilding the event
/// failed, the handler is untouched and that failure is the answer, or
/// the event was rebuilt and the handler's action ran on it.
pub open spec fn handler_answers<InputEvent: CloudEvent, H: EventHandler<InputEvent>>(
    before: H,
    event: &InputEvent,
    after: H,
    res: Result<(), KafkaError>,
) -> bool {
    exists|rebuilt: Result<H::Event, KafkaError>| #[trigger]
        H::Event::deserialized(event, rebuilt) && match rebuilt {
            Ok(deserialized) => before.handled(deserialized, after, res),
            Err(error) => after == before && res == Err::<(), KafkaError>(error),
        }
}

/// A handler made of an event type and an action: the action runs on
/// the envelope of each event of that type.
pub struct RegisteredHandler<F: Fn(&Envelope) -> Result<(), KafkaError>> {
    event_type: String,
    action: F,
}

impl<F: Fn(&Envelope) -> Result<(), KafkaError>> RegisteredHandler<F> {
    #[verifier::type_invariant]
    spec fn action_is_total(&self) -> bool {
        forall|envelope: &Envelope| call_requires(self.action, (envelope,))
    }

    /// The type of the events that the action is registered for.
    pub closed spec fn registered_type(&self) -> Text {
        self.event_type@
    }

    /// Whether the action may answer `res` on `envelope`.
    pub closed spec fn answers(&self, envelope: Envelope, res: Result<(), KafkaError>) -> bool {
        call_ensures(self.action, (&envelope,), res)
    }

    /// Registers `action` for events of type `event_type`. The action
    /// must accept every envelope.
    pub fn new(event_type: String, action: F) -> (handler: Self)
        requires
            forall|envelope: &Envelope| call_requires(action, (envelope,)),
        ensures
            handler.registered_type() == event_type@,
            forall|envelope: Envelope, res: Result<(), KafkaError>|
                handler.answers(envelope, res) == call_ensures(action, (&envelope,), res),
    {
        RegisteredHandler { event_type, action }
    }
}

impl<InputEvent: CloudEvent, F: Fn(&Envelope) -> Result<(), KafkaError>> EventHandler<
    InputEvent,
> for RegisteredHandler<F> {
    type Event = Envelope;

    open spec fn event_type_spec(&self) -> Text {
        self.registered_type()
    }

    /// The action answers and leaves the registration as it was.
    open spec fn handled(&self, event: Envelope, after: Self, res: Result<(), KafkaError>) -> bool {
        after == *self && self.answers(event, res)
    }

    fn event_type(&self) -> (event_type: String) {
        self.event_type.clone()
    }

    fn handle(&mut self, event: &Envelope) -> (res: Result<(), KafkaError>) {
        proof {
            use_type_invariant(&*self);
        }
        (self.action)(event)
    }
}

} // verus!
