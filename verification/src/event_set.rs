use vstd::prelude::*;

use crate::calendar::{event_key, CalendarEvent, CalendarEventKey};
use crate::datetime::DateTime;

verus! {

broadcast use vstd::seq_lib::group_seq_properties;

/// The order in which the renderer keeps its events: later start first, and among events
/// that start at the same instant, larger id first.
pub open spec fn comes_before(a: CalendarEvent, b: CalendarEvent) -> bool {
    a.start.unix_seconds > b.start.unix_seconds || (a.start.unix_seconds == b.start.unix_seconds
        && a.id > b.id)
}

/// Two events that take the same place in that order: same start instant, same id. The
/// renderer's set holds at most one event per place.
pub open spec fn same_slot(a: CalendarEvent, b: CalendarEvent) -> bool {
    a.start.unix_seconds == b.start.unix_seconds && a.id == b.id
}

/// Each event comes before every later one, so no place holds two events.
pub open spec fn strictly_ordered(s: Seq<CalendarEvent>) -> bool {
    forall|i: int, j: int| 0 <= i < j < s.len() ==> comes_before(#[trigger] s[i], #[trigger] s[j])
}

/// Membership after putting each event of `batch`, in turn, into the set `old`, where a put
/// event takes the place of the event that had its place.
pub open spec fn member_after_puts(old: Seq<CalendarEvent>, batch: Seq<CalendarEvent>, x: CalendarEvent) -> bool
    decreases batch.len(),
{
    if batch.len() == 0 {
        old.contains(x)
    } else {
        x == batch.last() || (member_after_puts(old, batch.drop_last(), x) && !same_slot(
            x,
            batch.last(),
        ))
    }
}

/// Whether `a` comes before `b` in the renderer's order.
pub fn event_comes_before(a: &CalendarEvent, b: &CalendarEvent) -> (r: bool)
    ensures
        r == comes_before(*a, *b),
{
    a.start.unix_seconds > b.start.unix_seconds || (a.start.unix_seconds == b.start.unix_seconds
        && a.id > b.id)
}

/// Puts `event` into the ordered set `events`, in place of the event that has the same start
/// and id if there is one.
pub fn put_event(events: &mut Vec<CalendarEvent>, event: CalendarEvent)
    requires
        strictly_ordered(old(events)@),
    ensures
        strictly_ordered(final(events)@),
        forall|x: CalendarEvent|
            #[trigger] final(events)@.contains(x) <==> (x == event || (old(events)@.contains(x)
                && !same_slot(x, event))),
{
    let ghost e = event;
    let mut i: usize = 0;
    while i < events.len() && event_comes_before(&events[i], &event)
        invariant
            0 <= i <= events@.len(),
            strictly_ordered(events@),
            forall|k: int| 0 <= k < i ==> comes_before(#[trigger] events@[k], event),
        decreases events@.len() - i,
    {
        i = i + 1;
    }
    let ghost s = events@;
    if i < events.len() && events[i].start.unix_seconds == event.start.unix_seconds
        && events[i].id == event.id {
        events.set(i, event);
        assert forall|x: CalendarEvent|
            #[trigger] events@.contains(x) <==> (x == e || (s.contains(x) && !same_slot(x, e))) by {
            if events@.contains(x) {
                let k = choose|k: int| 0 <= k < events@.len() && events@[k] == x;
                if k != i {
                    assert(s[k] == x);
                    assert(!same_slot(x, e)) by {
                        if k < i {
                            assert(comes_before(s[k], s[i as int]));
                        } else {
                            assert(comes_before(s[i as int], s[k]));
                        }
                    }
                }
            }
            if x == e {
                assert(events@[i as int] == x);
            }
            if s.contains(x) && !same_slot(x, e) {
                let k = choose|k: int| 0 <= k < s.len() && s[k] == x;
                assert(k != i);
                assert(events@[k] == x);
            }
        }
        assert forall|a: int, b: int| 0 <= a < b < events@.len() implies comes_before(
            #[trigger] events@[a],
            #[trigger] events@[b],
        ) by {
            if a == i {
                assert(comes_before(s[a], s[b]));
            } else if b == i {
                assert(comes_before(s[a], e));
            } else {
                assert(comes_before(s[a], s[b]));
            }
        }
    } else {
        events.insert(i, event);
        assert(events@ == s.insert(i as int, e));
        assert forall|x: CalendarEvent|
            #[trigger] events@.contains(x) <==> (x == e || (s.contains(x) && !same_slot(x, e))) by {
            if events@.contains(x) {
                let k = choose|k: int| 0 <= k < events@.len() && events@[k] == x;
                if k < i {
                    assert(s[k] == x);
                    assert(comes_before(x, e));
                } else if k > i {
                    assert(s[k - 1] == x);
                    assert(!comes_before(s[i as int], e));
                    assert(!same_slot(s[i as int], e));
                    if k - 1 > i {
                        assert(comes_before(s[i as int], s[k - 1]));
                    }
                }
            }
            if x == e {
                assert(events@[i as int] == x);
            }
            if s.contains(x) && !same_slot(x, e) {
                let k = choose|k: int| 0 <= k < s.len() && s[k] == x;
                if k < i {
                    assert(events@[k] == x);
                } else {
                    assert(events@[k + 1] == x);
                }
            }
        }
        assert forall|a: int, b: int| 0 <= a < b < events@.len() implies comes_before(
            #[trigger] events@[a],
            #[trigger] events@[b],
        ) by {
            if b < i {
                assert(comes_before(s[a], s[b]));
            } else if b == i {
                assert(comes_before(s[a], e));
            } else if a < i {
                assert(comes_before(s[a], s[b - 1]));
            } else if a == i {
                assert(!comes_before(s[i as int], e));
                assert(!same_slot(s[i as int], e));
                if b - 1 > i {
                    assert(comes_before(s[i as int], s[b - 1]));
                }
            } else {
                assert(comes_before(s[a - 1], s[b - 1]));
            }
        }
    }
}

/// Puts each event of `batch`, in turn, into the ordered set `events`.
pub fn put_events(events: &mut Vec<CalendarEvent>, batch: &Vec<CalendarEvent>)
    requires
        strictly_ordered(old(events)@),
    ensures
        strictly_ordered(final(events)@),
        forall|x: CalendarEvent|
            #[trigger] final(events)@.contains(x) <==> member_after_puts(old(events)@, batch@, x),
{
    let ghost start = events@;
    let mut i: usize = 0;
    while i < batch.len()
        invariant
            0 <= i <= batch@.len(),
            strictly_ordered(events@),
            forall|x: CalendarEvent|
                #[trigger] events@.contains(x) <==> member_after_puts(start, batch@.take(i as int), x),
        decreases batch@.len() - i,
    {
        let ghost before = events@;
        put_event(events, batch[i].clone());
        proof {
            let t = batch@.take(i as int + 1);
            assert(t.drop_last() =~= batch@.take(i as int));
            assert(t.last() == batch@[i as int]);
            assert forall|x: CalendarEvent|
                #[trigger] events@.contains(x) <==> member_after_puts(start, t, x) by {
                assert(before.contains(x) <==> member_after_puts(start, batch@.take(i as int), x));
            }
        }
        i = i + 1;
    }
    assert(batch@.take(batch@.len() as int) =~= batch@);
}

/// Keeping only some events of an ordered set keeps it ordered.
pub proof fn lemma_filter_keeps_order(s: Seq<CalendarEvent>, p: spec_fn(CalendarEvent) -> bool)
    requires
        strictly_ordered(s),
    ensures
        strictly_ordered(s.filter(p)),
    decreases s.len(),
{
    reveal(Seq::filter);
    if s.len() > 0 {
        let rest = s.drop_last();
        assert(strictly_ordered(rest)) by {
            assert forall|i: int, j: int| 0 <= i < j < rest.len() implies comes_before(
                #[trigger] rest[i],
                #[trigger] rest[j],
            ) by {
                assert(rest[i] == s[i] && rest[j] == s[j]);
            }
        }
        lemma_filter_keeps_order(rest, p);
        let f = rest.filter(p);
        if p(s.last()) {
            assert forall|i: int, j: int| 0 <= i < j < f.push(s.last()).len() implies comes_before(
                #[trigger] f.push(s.last())[i],
                #[trigger] f.push(s.last())[j],
            ) by {
                if j == f.len() {
                    assert(f.contains(f[i]));
                    rest.lemma_filter_contains_rev(p, f[i]);
                    let k = choose|k: int| 0 <= k < rest.len() && rest[k] == f[i];
                    assert(s[k] == f[i]);
                    assert(comes_before(s[k], s[s.len() - 1]));
                } else {
                    assert(f.push(s.last())[i] == f[i]);
                    assert(f.push(s.last())[j] == f[j]);
                }
            }
        }
    }
}

/// Whether `keys` holds `key`.
pub fn keys_contain(keys: &Vec<CalendarEventKey>, key: &CalendarEventKey) -> (r: bool)
    ensures
        r == keys@.contains(*key),
{
    let mut i: usize = 0;
    while i < keys.len()
        invariant
            0 <= i <= keys@.len(),
            forall|k: int| 0 <= k < i ==> keys@[k] != *key,
        decreases keys@.len() - i,
    {
        if keys[i].equals(key) {
            assert(keys@[i as int] == *key);
            return true;
        }
        i = i + 1;
    }
    false
}

/// The events whose key is not in `keys`.
pub open spec fn not_dropped(keys: Seq<CalendarEventKey>) -> spec_fn(CalendarEvent) -> bool {
    |x: CalendarEvent| !keys.contains(event_key(x))
}

/// The events that have not ended at `now`.
pub open spec fn not_ended(now: DateTime) -> spec_fn(CalendarEvent) -> bool {
    |x: CalendarEvent| x.end.unix_seconds >= now.unix_seconds
}

/// Removes from `events` every event whose key is in `keys`, keeping the order of the rest.
pub fn drop_keys(events: &mut Vec<CalendarEvent>, keys: &Vec<CalendarEventKey>)
    ensures
        final(events)@ == old(events)@.filter(not_dropped(keys@)),
{
    let ghost s = events@;
    let mut kept: Vec<CalendarEvent> = Vec::new();
    let mut i: usize = 0;
    while i < events.len()
        invariant
            0 <= i <= events@.len(),
            events@ == s,
            kept@ == s.take(i as int).filter(not_dropped(keys@)),
        decreases events@.len() - i,
    {
        let key = events[i].key();
        assert(s.take(i as int + 1) =~= s.take(i as int).push(s[i as int]));
        proof {
            s.take(i as int).lemma_filter_push(s[i as int], not_dropped(keys@));
        }
        if !keys_contain(keys, &key) {
            kept.push(events[i].clone());
        }
        i = i + 1;
    }
    assert(s.take(s.len() as int) =~= s);
    *events = kept;
}

/// Removes from `events` every event that has ended before `now`, keeping the order of the
/// rest.
pub fn retain_not_ended(events: &mut Vec<CalendarEvent>, now: &DateTime)
    ensures
        final(events)@ == old(events)@.filter(not_ended(*now)),
{
    let ghost s = events@;
    let mut kept: Vec<CalendarEvent> = Vec::new();
    let mut i: usize = 0;
    while i < events.len()
        invariant
            0 <= i <= events@.len(),
            events@ == s,
            kept@ == s.take(i as int).filter(not_ended(*now)),
        decreases events@.len() - i,
    {
        assert(s.take(i as int + 1) =~= s.take(i as int).push(s[i as int]));
        proof {
            s.take(i as int).lemma_filter_push(s[i as int], not_ended(*now));
        }
        if events[i].end.unix_seconds >= now.unix_seconds {
            kept.push(events[i].clone());
        }
        i = i + 1;
    }
    assert(s.take(s.len() as int) =~= s);
    *events = kept;
}

/// An event is kept by a filter exactly when it was there and passes the test.
pub proof fn lemma_filter_membership(s: Seq<CalendarEvent>, p: spec_fn(CalendarEvent) -> bool, x: CalendarEvent)
    ensures
        s.filter(p).contains(x) <==> (s.contains(x) && p(x)),
{
    if s.filter(p).contains(x) {
        s.lemma_filter_contains_rev(p, x);
        let k = choose|k: int| 0 <= k < s.filter(p).len() && s.filter(p)[k] == x;
        s.lemma_filter_pred(p, k);
    }
    if s.contains(x) && p(x) {
        let k = choose|k: int| 0 <= k < s.len() && s[k] == x;
        s.lemma_filter_contains(p, k);
    }
}

} // verus!
