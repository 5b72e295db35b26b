//! Dispatch: routing one event to the first registered handler that
//! accepts it.

use vstd::prelude::*;
use crate::handlers::{handler_answers, EventHandler};
use crate::messages::cloud_events::cloud_event::CloudEvent;
use crate::messages::kafka_message::{KafkaError, KafkaErrorView, Text};

verus! {

/// What routes an incoming event to at most one handler.
pub trait EventDispatcher<InputEvent: CloudEvent>: Sized {
    /// Whether dispatching `event` may leave the dispatcher as `after`
    /// and answer `res`.
    spec fn dispatched(&self, event: &InputEvent, after: Self, res: Result<(), KafkaError>) -> bool;

    fn dispatch_event(&mut self, event: &InputEvent) -> (res: Result<(), KafkaError>)
        ensures
            old(self).dispatched(event, *final(self), res),
    ;
}

/// `index` is the first place in `types` where `wanted` stands.
pub open spec fn is_first_match(types: Seq<Text>, wanted: Text, index: int) -> bool {
    &&& 0 <= index < types.len()
    &&& types[index] == wanted
    &&& forall|earlier: int| 0 <= earlier < index ==> types[earlier] != wanted
}

/// `wanted` stands somewhere in `types`.
pub open spec fn has_match(types: Seq<Text>, wanted: Text) -> bool {
    exists|index: int| 0 <= index < types.len() && types[index] == wanted
}

/// The first place in `types` where `wanted` stands, if it stands anywhere.
pub open spec fn first_match(types: Seq<Text>, wanted: Text) -> Option<int> {
    if exists|index: int| is_first_match(types, wanted, index) {
        Some(choose|index: int| is_first_match(types, wanted, index))
    } else {
        None
    }
}

/// There is at most one first match, and there is one wherever there is
/// a match at all.
pub proof fn lemma_first_match(types: Seq<Text>, wanted: Text)
    ensures
        forall|a: int, b: int|
            is_first_match(types, wanted, a) && is_first_match(types, wanted, b) ==> a == b,
        has_match(types, wanted) <==> first_match(types, wanted) is Some,
        first_match(types, wanted) matches Some(index) ==> is_first_match(types, wanted, index),
    decreases types.len(),
{
    if has_match(types, wanted) {
        let found = choose|index: int| 0 <= index < types.len() && types[index] == wanted;
        lemma_least_match(types, wanted, found);
    }
    if first_match(types, wanted) is Some {
        let index = choose|index: int| is_first_match(types, wanted, index);
        assert(0 <= index < types.len() && types[index] == wanted);
    }
}

/// Below any match there is a first one.
proof fn lemma_least_match(types: Seq<Text>, wanted: Text, found: int)
    requires
        0 <= found < types.len(),
        types[found] == wanted,
    ensures
        exists|index: int| is_first_match(types, wanted, index),
    decreases found,
{
    if exists|earlier: int| 0 <= earlier < found && types[earlier] == wanted {
        let earlier = choose|earlier: int| 0 <= earlier < found && types[earlier] == wanted;
        lemma_least_match(types, wanted, earlier);
    } else {
        assert(is_first_match(types, wanted, found));
    }
}

/// An ordered collection of handlers. The order is that of registration
/// and decides between handlers that accept the same event.
pub struct CloudEventDispatcher<H> {
    pub handlers: Vec<H>,
}

impl<H> CloudEventDispatcher<H> {
    /// A dispatcher for these handlers, in this order.
    pub fn new(handlers: Vec<H>) -> (dispatcher: Self)
        ensures
            dispatcher.handlers == handlers,
    {
        CloudEventDispatcher { handlers }
    }
}

/// The event types of handlers, in the order of the handlers.
pub open spec fn handler_types<InputEvent: CloudEvent, H: EventHandler<InputEvent>>(
    handlers: Seq<H>,
) -> Seq<Text> {
    Seq::new(handlers.len(), |i: int| handlers[i].event_type_spec())
}

/// Only the handler at `index` ran: it went from its state in `before`
/// to its state in `after` and answered `res`, and every other handler
/// is as it was.
pub open spec fn only_handler_ran<InputEvent: CloudEvent, H: EventHandler<InputEvent>>(
    before: Seq<H>,
    index: int,
    event: &InputEvent,
    after: Seq<H>,
    res: Result<(), KafkaError>,
) -> bool {
    &&& 0 <= index < before.len()
    &&& after.len() == before.len()
    &&& forall|other: int| 0 <= other < before.len() && other != index ==> after[other] == before[other]
    &&& handler_answers(before[index], event, after[index], res)
}

/// The answer is this failure.
pub open spec fn failed_with(res: Result<(), KafkaError>, reason: KafkaErrorView) -> bool {
    res matches Err(error) && error@ == reason
}

/// What dispatch over an ordered list of handlers does. An event whose
/// type cannot be read fails as the reading does, and one that no
/// handler accepts fails with the type that found no handler; in both
/// cases no handler runs. Otherwise the first handler registered for the
/// type runs, alone, and its answer is the answer.
pub open spec fn dispatch_outcome<InputEvent: CloudEvent, H: EventHandler<InputEvent>>(
    before: Seq<H>,
    event: &InputEvent,
    after: Seq<H>,
    res: Result<(), KafkaError>,
) -> bool {
    match event.event_type_spec() {
        Err(reason) => after == before && failed_with(res, reason),
        Ok(event_type) => match first_match(handler_types::<InputEvent, H>(before), event_type) {
            None => after == before && failed_with(res, KafkaErrorView::NoHandler(event_type)),
            Some(index) => only_handler_ran(before, index, event, after, res),
        },
    }
}

impl<InputEvent: CloudEvent, H: EventHandler<InputEvent>> EventDispatcher<
    InputEvent,
> for CloudEventDispatcher<H> {
    open spec fn dispatched(&self, event: &InputEvent, after: Self, res: Result<(), KafkaError>) -> bool {
        dispatch_outcome(self.handlers@, event, after.handlers@, res)
    }

    fn dispatch_event(&mut self, event: &InputEvent) -> (res: Result<(), KafkaError>) {
        let ghost before = self.handlers@;
        let ghost types = handler_types::<InputEvent, H>(before);
        let event_type = match event.event_type() {
            Ok(event_type) => event_type,
            Err(error) => {
                return Err(error);
            },
        };
        let mut index: usize = 0;
        while index < self.handlers.len()
            invariant
                index <= self.handlers.len(),
                self.handlers@ == before,
                before == old(self).handlers@,
                types == handler_types::<InputEvent, H>(before),
                event.event_type_spec() == Ok::<Text, KafkaErrorView>(event_type@),
                forall|earlier: int| 0 <= earlier < index ==> types[earlier] != event_type@,
            decreases self.handlers.len() - index,
        {
            let accepted = match self.handlers[index].can_handle(event) {
                Ok(accepted) => accepted,
                Err(error) => {
                    return Err(error);
                },
            };
            if accepted {
                assert(is_first_match(types, event_type@, index as int));
                proof {
                    lemma_first_match(types, event_type@);
                }
                let res = self.handlers[index].deserialize_and_handle(event);
                assert(only_handler_ran(before, index as int, event, self.handlers@, res));
                return res;
            }
            assert(types[index as int] != event_type@);
            index = index + 1;
        }
        assert(!has_match(types, event_type@));
        proof {
            lemma_first_match(types, event_type@);
        }
        Err(KafkaError::NoHandler(event_type))
    }
}

/// Where several handlers accept the event, the one registered first
/// runs, and no other.
pub proof fn lemma_first_registered_runs<InputEvent: CloudEvent, H: EventHandler<InputEvent>>(
    before: Seq<H>,
    event: &InputEvent,
    after: Seq<H>,
    res: Result<(), KafkaError>,
    event_type: Text,
    first: int,
)
    requires
        event.event_type_spec() == Ok::<Text, KafkaErrorView>(event_type),
        0 <= first < before.len(),
        before[first].event_type_spec() == event_type,
        forall|earlier: int|
            0 <= earlier < first ==> (#[trigger] before[earlier]).event_type_spec() != event_type,
        dispatch_outcome(before, event, after, res),
    ensures
        only_handler_ran(before, first, event, after, res),
        forall|later: int| first < later < before.len() ==> after[later] == before[later],
{
    let types = handler_types::<InputEvent, H>(before);
    assert(is_first_match(types, event_type, first)) by {
        assert forall|earlier: int| 0 <= earlier < first implies types[earlier] != event_type by {
            assert(before[earlier].event_type_spec() != event_type);
        }
    }
    lemma_first_match(types, event_type);
}

/// Dispatch on an event whose type is that of exactly one handler runs
/// that handler and no other.
pub proof fn lemma_single_match_runs_alone<InputEvent: CloudEvent, H: EventHandler<InputEvent>>(
    before: Seq<H>,
    event: &InputEvent,
    after: Seq<H>,
    res: Result<(), KafkaError>,
    event_type: Text,
    index: int,
)
    requires
        event.event_type_spec() == Ok::<Text, KafkaErrorView>(event_type),
        0 <= index < before.len(),
        before[index].event_type_spec() == event_type,
        forall|other: int|
            0 <= other < before.len() && other != index ==> (#[trigger] before[other]).event_type_spec()
                != event_type,
        dispatch_outcome(before, event, after, res),
    ensures
        only_handler_ran(before, index, event, after, res),
{
    lemma_first_registered_runs(before, event, after, res, event_type, index);
}

/// Dispatch on an event that no handler accepts fails, names the type
/// that found no handler, and runs no handler.
pub proof fn lemma_no_match_runs_nothing<InputEvent: CloudEvent, H: EventHandler<InputEvent>>(
    before: Seq<H>,
    event: &InputEvent,
    after: Seq<H>,
    res: Result<(), KafkaError>,
    event_type: Text,
)
    requires
        event.event_type_spec() == Ok::<Text, KafkaErrorView>(event_type),
        forall|index: int|
            0 <= index < before.len() ==> (#[trigger] before[index]).event_type_spec() != event_type,
        dispatch_outcome(before, event, after, res),
    ensures
        after == before,
        failed_with(res, KafkaErrorView::NoHandler(event_type)),
{
    let types = handler_types::<InputEvent, H>(before);
    assert(!has_match(types, event_type)) by {
        if has_match(types, event_type) {
            let index = choose|index: int| 0 <= index < types.len() && types[index] == event_type;
            assert(before[index].event_type_spec() != event_type);
        }
    }
    lemma_first_match(types, event_type);
}

} // verus!
