//! The decisions of the poll loop and of the notification worker, and the hand-off
//! of batches between them over a channel.
use vstd::prelude::*;

use std::sync::mpsc::Sender;

use crate::delta::{compute_delta, delta_of, previous_events, previous_well_formed};
use crate::format::{format_updates, updates_text};
use crate::model::{events_view, BotUpdate, ListTrackingDetails, TrackError, TrackingResponse};

verus! {

#[verifier::external_type_specification]
#[verifier::external_body]
#[verifier::reject_recursive_types(T)]
pub struct ExSender<T>(Sender<T>);

/// Relies on std::sync::mpsc::Sender::send to queue `batch` for the receiver;
/// `false` when the receiving end has been dropped.
#[verifier::external_body]
fn channel_send(tx: &Sender<BotUpdate>, batch: BotUpdate) -> (r: bool) {
    tx.send(batch).is_ok()
}

/// What one poll decides, given the new response and the one before it:
/// `Ok(None)` when nothing is new, `Ok(Some(batch))` with the new events for
/// the response's tracking number otherwise, and `MalformedResponse` when
/// either response does not hold exactly one shipment record.
pub fn parse_tracking_response(resp: &TrackingResponse, last: &Option<TrackingResponse>) -> (r:
    Result<Option<BotUpdate>, TrackError>)
    ensures
        r is Ok <==> resp.well_formed() && previous_well_formed(*last),
        r matches Err(e) ==> e == TrackError::MalformedResponse,
        r matches Ok(o) ==> (o is None <==> delta_of(resp.events(), previous_events(*last)).len()
            == 0),
        r matches Ok(Some(b)) ==> b.tracking_number@ == resp.tracking_number() && b.events()
            == delta_of(resp.events(), previous_events(*last)),
{
    let updates = match compute_delta(resp, last) {
        Ok(d) => d,
        Err(e) => return Err(e),
    };
    if updates.len() == 0 {
        Ok(None)
    } else {
        Ok(Some(BotUpdate { tracking_number: resp.list_hawb_details[0].hawb_number.clone(), updates }))
    }
}

/// The state the poll loop keeps between polls: the previous response, if any.
pub struct PollState {
    pub last: Option<TrackingResponse>,
}

impl PollState {
    /// The state before the first poll.
    pub fn new() -> (r: Self)
        ensures
            r.last is None,
    {
        PollState { last: None }
    }

    /// Takes in the response of one poll. On success the response becomes the
    /// previous one and the batch of new events, if any, is returned; on a
    /// malformed response the state is left as it was.
    pub fn observe(&mut self, resp: TrackingResponse) -> (r: Result<Option<BotUpdate>, TrackError>)
        ensures
            r is Ok <==> resp.well_formed() && previous_well_formed(old(self).last),
            r matches Err(e) ==> e == TrackError::MalformedResponse && *final(self) == *old(self),
            r is Ok ==> final(self).last == Some(resp),
            r matches Ok(o) ==> (o is None <==> delta_of(
                resp.events(),
                previous_events(old(self).last),
            ).len() == 0),
            r matches Ok(Some(b)) ==> b.tracking_number@ == resp.tracking_number() && b.events()
                == delta_of(resp.events(), previous_events(old(self).last)),
    {
        let r = parse_tracking_response(&resp, &self.last);
        if r.is_ok() {
            self.last = Some(resp);
        }
        r
    }
}

/// A batch for `tracking_number` holding copies of `details`, in order.
pub fn bot_update(tracking_number: &str, details: &Vec<ListTrackingDetails>) -> (r: BotUpdate)
    ensures
        r.tracking_number@ == tracking_number@,
        r.events() == events_view(details@),
{
    let mut updates: Vec<ListTrackingDetails> = Vec::new();
    let mut i: usize = 0;
    while i < details.len()
        invariant
            i <= details.len(),
            events_view(updates@) == events_view(details@).take(i as int),
        decreases details.len() - i,
    {
        let ghost before = updates@;
        updates.push(details[i].duplicate());
        assert(events_view(updates@) =~= events_view(before).push(details@[i as int]@));
        assert(events_view(details@).take(i + 1) =~= events_view(details@).take(i as int).push(
            details@[i as int]@,
        ));
        i = i + 1;
    }
    assert(events_view(details@).take(details.len() as int) =~= events_view(details@));
    BotUpdate { tracking_number: String::from_str(tracking_number), updates }
}

/// Queues a batch of `details` for `tracking_number` on the notifier's
/// channel; fails with `ChannelClosedError` when the notifier is gone.
pub fn send_bot_update(
    tracking_number: &str,
    details: &Vec<ListTrackingDetails>,
    bot_tx: &Sender<BotUpdate>,
) -> (r: Result<(), TrackError>)
    ensures
        r matches Err(e) ==> e == TrackError::ChannelClosedError,
{
    let update = bot_update(tracking_number, details);
    if channel_send(bot_tx, update) {
        Ok(())
    } else {
        Err(TrackError::ChannelClosedError)
    }
}

/// What the notification worker learns: a batch arrived, the last message was
/// or was not delivered, or the channel closed.
pub enum WorkerEvent {
    Received(BotUpdate),
    Delivered,
    DeliveryFailed,
    ChannelClosed,
}

/// What the notification worker does next.
pub enum WorkerAction {
    /// Send this text to the chat.
    Deliver(String),
    /// Wait for the next batch.
    AwaitNext,
    /// End the worker.
    Stop,
}

/// The worker's decision on one event. A batch becomes one message in the
/// update format; a delivery, failed or not, leads to waiting for the next
/// batch; a closed channel ends the worker.
pub fn worker_step(event: WorkerEvent) -> (r: WorkerAction)
    ensures
        event matches WorkerEvent::Received(b) ==> r matches WorkerAction::Deliver(t) && t@
            == updates_text(b.tracking_number@, b.events()),
        event is Delivered ==> r is AwaitNext,
        event is DeliveryFailed ==> r is AwaitNext,
        event is ChannelClosed ==> r is Stop,
{
    match event {
        WorkerEvent::Received(b) => WorkerAction::Deliver(
            format_updates(b.tracking_number.as_str(), &b.updates),
        ),
        WorkerEvent::Delivered => WorkerAction::AwaitNext,
        WorkerEvent::DeliveryFailed => WorkerAction::AwaitNext,
        WorkerEvent::ChannelClosed => WorkerAction::Stop,
    }
}

} // verus!
