use track_notify::format::format_updates;
use track_notify::model::ListTrackingDetails;

fn ev(desc: &str, loc: &str, time: &str) -> ListTrackingDetails {
    ListTrackingDetails::new(desc.to_string(), loc.to_string(), time.to_string())
}

#[test]
fn format_single_event() {
    let events = vec![ev("Out for delivery", "Denver, CO", "2024-01-01T10:00:00")];
    assert_eq!(
        format_updates("ABC123", &events),
        "Updates for ABC123:\n  1: Denver, CO at 2024-01-01T10:00:00\n      Out for delivery\n"
    );
}

#[test]
fn format_no_events_is_header_only() {
    assert_eq!(format_updates("ABC123", &vec![]), "Updates for ABC123:\n");
}

#[test]
fn format_numbers_events_from_one() {
    let events = vec![ev("Picked up", "Shenzhen", "t1"), ev("Departed", "Hong Kong", "t2")];
    assert_eq!(
        format_updates("XY9", &events),
        "Updates for XY9:\n  1: Shenzhen at t1\n      Picked up\n  2: Hong Kong at t2\n      Departed\n"
    );
}

#[test]
fn format_writes_multi_digit_indices() {
    let mut events = Vec::new();
    for k in 0..12 {
        events.push(ev("d", "L", &format!("t{}", k)));
    }
    let text = format_updates("N", &events);
    assert!(text.contains("\n  10: L at t9\n      d\n  11: L at t10\n      d\n  12: L at t11\n"));
    assert!(text.ends_with("  12: L at t11\n      d\n"));
}
