use track_notify::delta::compute_delta;
use track_notify::model::{ListHawbDetails, ListTrackingDetails, TrackError, TrackingResponse};

fn ev(desc: &str, loc: &str, time: &str) -> ListTrackingDetails {
    ListTrackingDetails::new(desc.to_string(), loc.to_string(), time.to_string())
}

fn record(number: &str, events: Vec<ListTrackingDetails>) -> ListHawbDetails {
    ListHawbDetails {
        id: 1,
        hawb_number: number.to_string(),
        hawb_status: 0,
        sender_country: "CN".to_string(),
        receiver_country: "US".to_string(),
        list_tracking_details: events,
    }
}

fn response(records: Vec<ListHawbDetails>) -> TrackingResponse {
    TrackingResponse {
        all_count: 1,
        no_record_count: 0,
        delivered_count: 0,
        in_transit_count: 1,
        unpickup_count: 0,
        list_hawb_details: records,
    }
}

fn snapshot(events: Vec<ListTrackingDetails>) -> TrackingResponse {
    response(vec![record("ABC123", events)])
}

fn sample() -> Vec<ListTrackingDetails> {
    vec![
        ev("Picked up", "Shenzhen", "2024-01-01T08:00:00"),
        ev("Departed", "Hong Kong", "2024-01-02T09:00:00"),
        ev("Arrived", "Los Angeles, CA", "2024-01-03T10:00:00"),
    ]
}

#[test]
fn first_poll_returns_all_events_in_order() {
    let d = compute_delta(&snapshot(sample()), &None).unwrap();
    assert!(d == sample());
}

#[test]
fn first_poll_of_empty_history_is_empty() {
    let d = compute_delta(&snapshot(vec![]), &None).unwrap();
    assert!(d.is_empty());
}

#[test]
fn snapshot_against_itself_is_empty() {
    let d = compute_delta(&snapshot(sample()), &Some(snapshot(sample()))).unwrap();
    assert!(d.is_empty());
}

#[test]
fn moved_event_is_not_new() {
    let mut reordered = sample();
    reordered.reverse();
    let d = compute_delta(&snapshot(reordered), &Some(snapshot(sample()))).unwrap();
    assert!(d.is_empty());
}

#[test]
fn equality_is_over_all_three_fields() {
    let a = ev("Out for delivery", "Denver, CO", "2024-01-01T10:00:00");
    assert!(a == ev("Out for delivery", "Denver, CO", "2024-01-01T10:00:00"));
    assert!(a != ev("Out for delivery!", "Denver, CO", "2024-01-01T10:00:00"));
    assert!(a != ev("Out for delivery", "Denver, CA", "2024-01-01T10:00:00"));
    assert!(a != ev("Out for delivery", "Denver, CO", "2024-01-01T10:00:01"));
}

#[test]
fn event_differing_in_one_field_is_new() {
    let prev = snapshot(vec![ev("Out for delivery", "Denver, CO", "2024-01-01T10:00:00")]);
    let changed = vec![
        ev("Out for delivery", "Denver, CO", "2024-01-01T10:00:00"),
        ev("Out for delivery", "Denver, CO", "2024-01-01T10:00:01"),
        ev("Out for delivery", "Boulder, CO", "2024-01-01T10:00:00"),
        ev("Delivered", "Denver, CO", "2024-01-01T10:00:00"),
    ];
    let d = compute_delta(&snapshot(changed.clone()), &Some(prev)).unwrap();
    assert_eq!(d.len(), 3);
    assert!(d[0] == changed[1]);
    assert!(d[1] == changed[2]);
    assert!(d[2] == changed[3]);
}

#[test]
fn delta_keeps_order_and_repeats() {
    let prev = snapshot(vec![ev("b", "B", "2")]);
    let cur = vec![
        ev("c", "C", "3"),
        ev("a", "A", "1"),
        ev("b", "B", "2"),
        ev("c", "C", "3"),
    ];
    let d = compute_delta(&snapshot(cur), &Some(prev)).unwrap();
    assert!(d == vec![ev("c", "C", "3"), ev("a", "A", "1"), ev("c", "C", "3")]);
}

#[test]
fn no_shipment_record_is_malformed() {
    let r = compute_delta(&response(vec![]), &None);
    assert!(matches!(r, Err(TrackError::MalformedResponse)));
}

#[test]
fn two_shipment_records_are_malformed() {
    let two = response(vec![record("ABC123", sample()), record("ABC123", sample())]);
    let r = compute_delta(&two, &None);
    assert!(matches!(r, Err(TrackError::MalformedResponse)));
}

#[test]
fn malformed_previous_is_malformed() {
    let r = compute_delta(&snapshot(sample()), &Some(response(vec![])));
    assert!(matches!(r, Err(TrackError::MalformedResponse)));
}
