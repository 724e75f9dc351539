//! The text of an update message, shared by the console and the notifier.
use vstd::prelude::*;

use crate::model::{events_view, EventView, ListTrackingDetails};

verus! {

/// The text of one decimal digit.
pub open spec fn digit_text(d: nat) -> Seq<char> {
    if d == 0 {
        "0"@
    } else if d == 1 {
        "1"@
    } else if d == 2 {
        "2"@
    } else if d == 3 {
        "3"@
    } else if d == 4 {
        "4"@
    } else if d == 5 {
        "5"@
    } else if d == 6 {
        "6"@
    } else if d == 7 {
        "7"@
    } else if d == 8 {
        "8"@
    } else {
        "9"@
    }
}

/// `n` written in decimal, without leading zeros.
pub open spec fn decimal(n: nat) -> Seq<char>
    decreases n,
{
    if n < 10 {
        digit_text(n)
    } else {
        decimal(n / 10) + digit_text(n % 10)
    }
}

/// The two lines for the event numbered `index` (counting from one).
pub open spec fn event_text(index: nat, e: EventView) -> Seq<char> {
    "  "@ + decimal(index) + ": "@ + e.1 + " at "@ + e.2 + "\n"@ + "      "@ + e.0 + "\n"@
}

/// The lines for the first `n` events, numbered from one.
pub open spec fn events_text(events: Seq<EventView>, n: nat) -> Seq<char>
    decreases n,
{
    if n == 0 {
        Seq::empty()
    } else {
        events_text(events, (n - 1) as nat) + event_text(n, events[n - 1])
    }
}

/// The whole message: a header naming the tracking number, then each event.
pub open spec fn updates_text(tracking_number: Seq<char>, events: Seq<EventView>) -> Seq<char> {
    "Updates for "@ + tracking_number + ":\n"@ + events_text(events, events.len())
}

fn digit_str(d: usize) -> (r: &'static str)
    requires
        d < 10,
    ensures
        r@ == digit_text(d as nat),
{
    if d == 0 {
        "0"
    } else if d == 1 {
        "1"
    } else if d == 2 {
        "2"
    } else if d == 3 {
        "3"
    } else if d == 4 {
        "4"
    } else if d == 5 {
        "5"
    } else if d == 6 {
        "6"
    } else if d == 7 {
        "7"
    } else if d == 8 {
        "8"
    } else {
        "9"
    }
}

fn push_decimal(out: &mut String, n: usize)
    ensures
        final(out)@ == old(out)@ + decimal(n as nat),
    decreases n,
{
    if n >= 10 {
        push_decimal(out, n / 10);
    }
    out.append(digit_str(n % 10));
    assert(final(out)@ =~= old(out)@ + decimal(n as nat));
}

/// Renders `details` as the update message for `tracking_number`: the header
/// `Updates for {number}:`, then for each event `  {i}: {location} at {time}`
/// and `      {description}`, every line ending in a newline.
pub fn format_updates(tracking_number: &str, details: &Vec<ListTrackingDetails>) -> (r: String)
    ensures
        r@ == updates_text(tracking_number@, events_view(details@)),
{
    let ghost events = events_view(details@);
    let mut update = String::from_str("Updates for ");
    update.append(tracking_number);
    update.append(":\n");
    let ghost header = update@;
    let mut i: usize = 0;
    while i < details.len()
        invariant
            i <= details.len(),
            events == events_view(details@),
            header == "Updates for "@ + tracking_number@ + ":\n"@,
            update@ == header + events_text(events, i as nat),
        decreases details.len() - i,
    {
        let event = &details[i];
        let ghost before = update@;
        update.append("  ");
        push_decimal(&mut update, i + 1);
        update.append(": ");
        update.append(event.location_name.as_str());
        update.append(" at ");
        update.append(event.event_time.as_str());
        update.append("\n");
        update.append("      ");
        update.append(event.desc.as_str());
        update.append("\n");
        assert(events[i as int] == event@);
        assert(update@ =~= before + event_text((i + 1) as nat, events[i as int]));
        i = i + 1;
    }
    update
}

} // verus!
