//! The data that one poll brings back, and the batches handed to the notifier.
use vstd::prelude::*;

verus! {

/// One line of a shipment's history: what happened, where, and when.
#[derive(Clone, Debug)]
pub struct ListTrackingDetails {
    pub desc: String,
    pub location_name: String,
    pub event_time: String,
}

/// The mathematical value of an event: its description, location and time.
pub type EventView = (Seq<char>, Seq<char>, Seq<char>);

impl View for ListTrackingDetails {
    type V = EventView;

    open spec fn view(&self) -> EventView {
        (self.desc@, self.location_name@, self.event_time@)
    }
}

impl ListTrackingDetails {
    pub fn new(desc: String, location_name: String, event_time: String) -> (r: Self)
        ensures
            r.desc@ == desc@,
            r.location_name@ == location_name@,
            r.event_time@ == event_time@,
    {
        ListTrackingDetails { desc, location_name, event_time }
    }

    /// A field-by-field copy.
    pub fn duplicate(&self) -> (r: Self)
        ensures
            r@ == self@,
    {
        ListTrackingDetails {
            desc: self.desc.clone(),
            location_name: self.location_name.clone(),
            event_time: self.event_time.clone(),
        }
    }
}

impl PartialEq for ListTrackingDetails {
    fn eq(&self, other: &Self) -> (r: bool) {
        self.event_time == other.event_time && self.desc == other.desc
            && self.location_name == other.location_name
    }
}

impl Eq for ListTrackingDetails {

}

impl vstd::std_specs::cmp::PartialEqSpecImpl for ListTrackingDetails {
    open spec fn obeys_eq_spec() -> bool {
        true
    }

    open spec fn eq_spec(&self, other: &Self) -> bool {
        self@ == other@
    }
}

/// The views of a list of events, in order.
pub open spec fn events_view(v: Seq<ListTrackingDetails>) -> Seq<EventView> {
    v.map_values(|e: ListTrackingDetails| e@)
}

/// One shipment record of a tracking response.
pub struct ListHawbDetails {
    pub id: u32,
    pub hawb_number: String,
    pub hawb_status: u32,
    pub sender_country: String,
    pub receiver_country: String,
    pub list_tracking_details: Vec<ListTrackingDetails>,
}

/// The full answer of one poll: counters and the shipment records.
pub struct TrackingResponse {
    pub all_count: u32,
    pub no_record_count: u32,
    pub delivered_count: u32,
    pub in_transit_count: u32,
    pub unpickup_count: u32,
    pub list_hawb_details: Vec<ListHawbDetails>,
}

impl TrackingResponse {
    /// A well-formed response holds exactly one shipment record.
    pub open spec fn well_formed(&self) -> bool {
        self.list_hawb_details@.len() == 1
    }

    /// The events of the single shipment record, in the order received.
    pub open spec fn events(&self) -> Seq<EventView>
        recommends
            self.well_formed(),
    {
        events_view(self.list_hawb_details@[0].list_tracking_details@)
    }

    /// The tracking number of the single shipment record.
    pub open spec fn tracking_number(&self) -> Seq<char>
        recommends
            self.well_formed(),
    {
        self.list_hawb_details@[0].hawb_number@
    }
}

/// A non-empty run of new events for one tracking number, bound for the notifier.
pub struct BotUpdate {
    pub tracking_number: String,
    pub updates: Vec<ListTrackingDetails>,
}

impl BotUpdate {
    /// The events of the batch, as values.
    pub open spec fn events(&self) -> Seq<EventView> {
        events_view(self.updates@)
    }
}

/// What can go wrong between reading the command line and queueing a batch.
#[derive(Clone, Copy, Debug, PartialEq, Eq, Structural)]
pub enum TrackError {
    /// The command line did not hold exactly one tracking number.
    UsageError,
    /// A required setting was missing from the environment.
    ConfigError,
    /// The request address built from the tracking number did not parse.
    UrlError,
    /// The tracking endpoint could not be reached.
    TransportError,
    /// A response did not hold exactly one shipment record, or did not parse.
    MalformedResponse,
    /// The notifier's end of the delivery channel is gone.
    ChannelClosedError,
}

} // verus!
