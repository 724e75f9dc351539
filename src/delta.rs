//! Which events of the latest response were not seen in the previous one.
use vstd::prelude::*;

use vstd::std_specs::cmp::PartialEqSpec;

use crate::model::{events_view, EventView, ListTrackingDetails, TrackError, TrackingResponse};

verus! {

/// Keeps an event exactly when no event of `previous` has the same value.
pub open spec fn is_new(previous: Seq<EventView>) -> spec_fn(EventView) -> bool {
    |e: EventView| !previous.contains(e)
}

/// The delta: everything when there was no previous poll, otherwise the events
/// of `current` whose value does not occur in `previous`, in `current`'s order.
pub open spec fn delta_of(current: Seq<EventView>, previous: Option<Seq<EventView>>) -> Seq<
    EventView,
> {
    match previous {
        None => current,
        Some(p) => current.filter(is_new(p)),
    }
}

/// The previous response is absent or holds exactly one shipment record.
pub open spec fn previous_well_formed(previous: Option<TrackingResponse>) -> bool {
    match previous {
        None => true,
        Some(p) => p.well_formed(),
    }
}

/// The events of the previous response, if there was one.
pub open spec fn previous_events(previous: Option<TrackingResponse>) -> Option<Seq<EventView>> {
    match previous {
        None => None,
        Some(p) => Some(p.events()),
    }
}

/// Whether an event with the value of `event` occurs in `list`.
pub fn contains_event(list: &Vec<ListTrackingDetails>, event: &ListTrackingDetails) -> (r: bool)
    ensures
        r == events_view(list@).contains(event@),
{
    let mut i: usize = 0;
    while i < list.len()
        invariant
            i <= list.len(),
            forall|j: int| 0 <= j < i ==> list@[j]@ != event@,
        decreases list.len() - i,
    {
        if list[i] == *event {
            assert(events_view(list@)[i as int] == event@);
            return true;
        }
        i = i + 1;
    }
    assert(!events_view(list@).contains(event@)) by {
        if events_view(list@).contains(event@) {
            let j = choose|j: int| 0 <= j < list@.len() && events_view(list@)[j] == event@;
            assert(list@[j]@ == event@);
        }
    }
    false
}

proof fn lemma_filter_push(s: Seq<EventView>, x: EventView, pred: spec_fn(EventView) -> bool)
    ensures
        s.push(x).filter(pred) == if pred(x) {
            s.filter(pred).push(x)
        } else {
            s.filter(pred)
        },
{
    reveal(Seq::filter);
    assert(s.push(x).drop_last() =~= s);
}

/// The events of `current` that are new relative to `previous`.
///
/// Fails with `MalformedResponse` exactly when either response does not hold
/// exactly one shipment record.
pub fn compute_delta(current: &TrackingResponse, previous: &Option<TrackingResponse>) -> (r: Result<
    Vec<ListTrackingDetails>,
    TrackError,
>)
    ensures
        r is Ok <==> current.well_formed() && previous_well_formed(*previous),
        r matches Err(e) ==> e == TrackError::MalformedResponse,
        r matches Ok(d) ==> events_view(d@) == delta_of(
            current.events(),
            previous_events(*previous),
        ),
{
    if current.list_hawb_details.len() != 1 {
        return Err(TrackError::MalformedResponse);
    }
    let old_list: Option<&Vec<ListTrackingDetails>> = match previous {
        None => None,
        Some(p) => {
            if p.list_hawb_details.len() != 1 {
                return Err(TrackError::MalformedResponse);
            }
            Some(&p.list_hawb_details[0].list_tracking_details)
        },
    };
    let cur = &current.list_hawb_details[0].list_tracking_details;
    let ghost cur_events = events_view(cur@);
    let ghost prev = previous_events(*previous);
    let mut out: Vec<ListTrackingDetails> = Vec::new();
    let mut i: usize = 0;
    while i < cur.len()
        invariant
            i <= cur.len(),
            cur_events == events_view(cur@),
            cur_events == current.events(),
            prev == previous_events(*previous),
            match old_list {
                None => prev is None,
                Some(l) => prev == Some(events_view(l@)),
            },
            events_view(out@) == delta_of(cur_events.take(i as int), prev),
        decreases cur.len() - i,
    {
        let keep = match old_list {
            None => true,
            Some(l) => !contains_event(l, &cur[i]),
        };
        let ghost before = out@;
        if keep {
            out.push(cur[i].duplicate());
        }
        proof {
            let x = cur@[i as int]@;
            assert(cur_events.take(i as int + 1) =~= cur_events.take(i as int).push(x));
            assert(events_view(before.push(cur@[i as int])) =~= events_view(before).push(x));
            if let Some(p) = prev {
                lemma_filter_push(cur_events.take(i as int), x, is_new(p));
            }
            if keep {
                assert(events_view(out@) =~= events_view(before).push(x));
            }
        }
        i = i + 1;
    }
    assert(cur_events.take(cur.len() as int) =~= cur_events);
    Ok(out)
}

/// Diffing a response against itself finds nothing new.
pub proof fn lemma_delta_against_itself(a: TrackingResponse)
    requires
        a.well_formed(),
    ensures
        delta_of(a.events(), previous_events(Some(a))) == Seq::<EventView>::empty(),
{
    let s = a.events();
    let d = s.filter(is_new(s));
    if d.len() > 0 {
        s.lemma_filter_pred(is_new(s), 0);
        lemma_filter_elements_come_from_source(s, is_new(s), 0);
    }
    assert(d =~= Seq::<EventView>::empty());
}

proof fn lemma_filter_elements_come_from_source(
    s: Seq<EventView>,
    pred: spec_fn(EventView) -> bool,
    i: int,
)
    requires
        0 <= i < s.filter(pred).len(),
    ensures
        s.contains(s.filter(pred)[i]),
    decreases s.len(),
{
    reveal(Seq::filter);
    let t = s.drop_last();
    if pred(s.last()) && i == t.filter(pred).len() {
        assert(s[s.len() - 1] == s.last());
    } else {
        lemma_filter_elements_come_from_source(t, pred, i);
        let j = choose|j: int| 0 <= j < t.len() && t[j] == t.filter(pred)[i];
        assert(s[j] == t[j]);
    }
}

/// On the first poll every event of the response is new, in the order received.
pub proof fn lemma_first_poll_takes_everything(a: TrackingResponse)
    requires
        a.well_formed(),
    ensures
        delta_of(a.events(), previous_events(None)) == a.events(),
{
}

/// Events compare equal exactly when description, location and time all agree,
/// so a change to any one of them makes an event new.
pub proof fn lemma_event_equality_is_structural(a: ListTrackingDetails, b: ListTrackingDetails)
    ensures
        a.eq_spec(&b) <==> (a.desc@ == b.desc@ && a.location_name@ == b.location_name@
            && a.event_time@ == b.event_time@),
        a.desc@ != b.desc@ ==> !a.eq_spec(&b),
        a.location_name@ != b.location_name@ ==> !a.eq_spec(&b),
        a.event_time@ != b.event_time@ ==> !a.eq_spec(&b),
{
}

/// An event of the latest response that differs from every previous event
/// (in at least one field) is part of the delta.
pub proof fn lemma_changed_event_is_new(current: Seq<EventView>, previous: Seq<EventView>, i: int)
    requires
        0 <= i < current.len(),
        forall|j: int| 0 <= j < previous.len() ==> previous[j] != current[i],
    ensures
        delta_of(current, Some(previous)).contains(current[i]),
{
    current.lemma_filter_contains(is_new(previous), i);
}

/// The delta keeps `current`'s order: the delta of a concatenation is the
/// delta of its first part followed by that of its second.
pub proof fn lemma_delta_keeps_order(
    first: Seq<EventView>,
    second: Seq<EventView>,
    previous: Option<Seq<EventView>>,
)
    ensures
        delta_of(first + second, previous) == delta_of(first, previous) + delta_of(second, previous),
{
    if let Some(p) = previous {
        Seq::filter_distributes_over_add(first, second, is_new(p));
    }
}

/// The delta removes no repetition: a new event occurs in it as often as in
/// `current`.
pub proof fn lemma_delta_keeps_repeats(
    current: Seq<EventView>,
    previous: Option<Seq<EventView>>,
    x: EventView,
)
    requires
        previous matches Some(p) ==> !p.contains(x),
    ensures
        delta_of(current, previous).to_multiset().count(x) == current.to_multiset().count(x),
    decreases current.len(),
{
    broadcast use vstd::seq_lib::group_to_multiset_ensures;

    if let Some(p) = previous {
        if current.len() > 0 {
            let t = current.drop_last();
            lemma_delta_keeps_repeats(t, previous, x);
            assert(t.push(current.last()) =~= current);
            lemma_filter_push(t, current.last(), is_new(p));
        }
    }
}

} // verus!
