//! The event bus: one channel for the events in their internal form, one
//! for the form that leaves the process. Publishing never waits; an event
//! that finds no subscriber on a channel is dropped there.

use vstd::prelude::*;
use tokio::sync::broadcast::error::SendError;
use tokio::sync::broadcast::Sender;
use crate::clock::is_clock_stamp;
use crate::event::{FabricEvent, InternalFabricEvent};
use crate::ident::is_hyphenated_uuid;
use crate::manager::{publication_of, Publication};

verus! {

/// The sending half of a broadcast channel.
#[verifier::external_type_specification]
#[verifier::external_body]
#[verifier::reject_recursive_types(T)]
pub struct ExSender<T>(Sender<T>);

/// A value that found no subscriber.
#[verifier::external_type_specification]
#[verifier::external_body]
#[verifier::reject_recursive_types(T)]
pub struct ExSendError<T>(SendError<T>);

/// Hands `value` to every subscriber of the channel. The call succeeds with
/// the number of subscribers, which is then at least one, and fails where
/// the channel has none. Whether a subscriber takes the value up is left
/// open.
pub assume_specification<T>[ Sender::<T>::send ](sender: &Sender<T>, value: T) -> (result: Result<
    usize,
    SendError<T>,
>)
    ensures
        result matches Ok(receivers) ==> receivers >= 1,
;

/// The two channels on which the fabric publishes.
pub struct EventBus {
    pub event_bus_tx: Sender<InternalFabricEvent>,
    pub event_stream_tx: Sender<FabricEvent>,
}

/// What became of one published event.
#[derive(Debug)]
pub struct Delivery {
    /// The event in both forms, as it was published.
    pub publication: Publication,
    /// The subscribers of the internal channel at that time; zero where the
    /// event was dropped there.
    pub internal_receivers: usize,
    /// The subscribers of the outward channel at that time; zero where the
    /// event was dropped there.
    pub wire_receivers: usize,
}

impl EventBus {
    /// Publishes `event`: once on the internal channel, and once, in its
    /// outward form, on the outward channel.
    pub fn broadcast_event(&self, event: InternalFabricEvent) -> (delivery: Delivery)
        ensures
            delivery.publication.internal@ == event@,
            delivery.publication.wire@ == event@.project(
                delivery.publication.wire@.event_id,
                delivery.publication.wire@.timestamp,
            ),
            is_hyphenated_uuid(delivery.publication.wire@.event_id),
            is_clock_stamp(delivery.publication.wire@.timestamp),
    {
        let publication = publication_of(event);
        let internal_receivers = match self.event_bus_tx.send(publication.internal.clone()) {
            Ok(receivers) => receivers,
            Err(_) => 0,
        };
        let wire_receivers = match self.event_stream_tx.send(publication.wire.clone()) {
            Ok(receivers) => receivers,
            Err(_) => 0,
        };
        Delivery { publication, internal_receivers, wire_receivers }
    }

    /// Publishes `events` in their order, each as
    /// [`broadcast_event`](Self::broadcast_event) does.
    pub fn publish(&self, events: &Vec<InternalFabricEvent>) -> (deliveries: Vec<Delivery>)
        ensures
            deliveries@.len() == events@.len(),
            forall|i: int|
                0 <= i < events@.len() ==> {
                    &&& (#[trigger] deliveries@[i]).publication.internal@ == events@[i]@
                    &&& deliveries@[i].publication.wire@ == events@[i]@.project(
                        deliveries@[i].publication.wire@.event_id,
                        deliveries@[i].publication.wire@.timestamp,
                    )
                    &&& is_hyphenated_uuid(deliveries@[i].publication.wire@.event_id)
                    &&& is_clock_stamp(deliveries@[i].publication.wire@.timestamp)
                },
    {
        let mut deliveries: Vec<Delivery> = Vec::new();
        let mut i: usize = 0;
        while i < events.len()
            invariant
                i <= events@.len(),
                deliveries@.len() == i,
                forall|k: int|
                    0 <= k < i ==> {
                        &&& (#[trigger] deliveries@[k]).publication.internal@ == events@[k]@
                        &&& deliveries@[k].publication.wire@ == events@[k]@.project(
                            deliveries@[k].publication.wire@.event_id,
                            deliveries@[k].publication.wire@.timestamp,
                        )
                        &&& is_hyphenated_uuid(deliveries@[k].publication.wire@.event_id)
                        &&& is_clock_stamp(deliveries@[k].publication.wire@.timestamp)
                    },
            decreases events@.len() - i,
        {
            deliveries.push(self.broadcast_event(events[i].clone()));
            i = i + 1;
        }
        deliveries
    }
}

} // verus!
