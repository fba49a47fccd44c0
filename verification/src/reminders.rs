use vstd::prelude::*;

use crate::datetime::DateTime;

verus! {

/// What a reminder is about.
#[derive(Clone, Copy, Debug, PartialEq, Eq, Structural)]
pub enum ReminderKind {
    Event,
    Alert,
    Notification,
}

/// A moment at which the watch reminds its wearer of an event. Reminders order by the
/// instant they fire at.
#[derive(Clone, Copy, Debug)]
pub struct Reminder {
    pub remind_at: DateTime,
    pub kind: ReminderKind,
    pub event_id: i32,
}

impl Reminder {
    /// Whether `self` fires strictly before `other`.
    pub fn fires_before(&self, other: &Reminder) -> (r: bool)
        ensures
            r == (self.remind_at.unix_seconds < other.remind_at.unix_seconds),
    {
        self.remind_at.unix_seconds < other.remind_at.unix_seconds
    }
}

/// Reminders ordered by the instant they fire at, earliest first.
pub open spec fn sorted_by_time(s: Seq<Reminder>) -> bool {
    forall|i: int, j: int|
        0 <= i < j < s.len() ==> (#[trigger] s[i]).remind_at.unix_seconds <= (#[trigger] s[
            j]).remind_at.unix_seconds
}

/// Whether a reminder fires at the instant `t`.
pub open spec fn fires_at(t: int) -> spec_fn(Reminder) -> bool {
    |x: Reminder| x.remind_at.unix_seconds == t
}

/// The reminders of `s` that fire at the instant `t`, in their order in `s`.
pub open spec fn at_time(s: Seq<Reminder>, t: int) -> Seq<Reminder> {
    s.filter(fires_at(t))
}

/// Inserting a reminder in front of all that fire later appends it to those that fire at
/// its instant and leaves the others as they were.
proof fn lemma_insert_at_time(before: Seq<Reminder>, pos: int, x: Reminder, t: int)
    requires
        0 <= pos <= before.len(),
        forall|k: int| pos <= k < before.len() ==> (#[trigger] before[k]).remind_at.unix_seconds > x.remind_at.unix_seconds,
    ensures
        at_time(before.insert(pos, x), t) == (if x.remind_at.unix_seconds == t {
            at_time(before, t).push(x)
        } else {
            at_time(before, t)
        }),
{
    let p = fires_at(t);
    let a = before.take(pos);
    let b = before.skip(pos);
    assert(before =~= a + b);
    assert(before.insert(pos, x) =~= a.push(x) + b);
    Seq::filter_distributes_over_add(a, b, p);
    Seq::filter_distributes_over_add(a.push(x), b, p);
    a.lemma_filter_push(x, p);
    if x.remind_at.unix_seconds == t {
        assert(b.all(|y: Reminder| !p(y))) by {
            assert forall|k: int| 0 <= k < b.len() implies !p(#[trigger] b[k]) by {
                assert(b[k] == before[pos + k]);
            }
        }
        b.lemma_all_neg_filter_empty(p);
        assert(b.filter(p) =~= Seq::<Reminder>::empty());
        assert(a.filter(p).push(x) + b.filter(p) =~= a.filter(p).push(x));
        assert(a.filter(p) + b.filter(p) =~= a.filter(p));
    }
}

/// Inserting an element anywhere adds it to the multiset of elements.
pub proof fn lemma_insert_to_multiset<A>(s: Seq<A>, pos: int, x: A)
    requires
        0 <= pos <= s.len(),
    ensures
        s.insert(pos, x).to_multiset() =~= s.to_multiset().insert(x),
{
    let t = s.insert(pos, x);
    t.to_multiset_ensures();
    s.to_multiset_ensures();
    assert(t.remove(pos) =~= s);
    assert(t[pos] == x);
    assert(t.contains(x));
    assert(t.to_multiset().count(x) > 0);
    assert(s.to_multiset() =~= t.to_multiset().remove(x));
}

/// Sorts reminders by the instant they fire at; reminders that fire at the same instant
/// keep their order.
pub fn sort_by_time(reminders: Vec<Reminder>) -> (r: Vec<Reminder>)
    ensures
        sorted_by_time(r@),
        r@.to_multiset() == reminders@.to_multiset(),
        forall|t: int| #[trigger] at_time(r@, t) == at_time(reminders@, t),
{
    let mut sorted: Vec<Reminder> = Vec::new();
    let mut i: usize = 0;
    assert(sorted@ =~= reminders@.take(0));
    while i < reminders.len()
        invariant
            0 <= i <= reminders@.len(),
            sorted_by_time(sorted@),
            sorted@.to_multiset() == reminders@.take(i as int).to_multiset(),
            forall|t: int| #[trigger] at_time(sorted@, t) == at_time(reminders@.take(i as int), t),
        decreases reminders@.len() - i,
    {
        let x = reminders[i];
        let mut pos: usize = 0;
        while pos < sorted.len() && sorted[pos].remind_at.unix_seconds <= x.remind_at.unix_seconds
            invariant
                0 <= pos <= sorted@.len(),
                forall|k: int|
                    0 <= k < pos ==> (#[trigger] sorted@[k]).remind_at.unix_seconds
                        <= x.remind_at.unix_seconds,
            decreases sorted@.len() - pos,
        {
            pos = pos + 1;
        }
        let ghost before = sorted@;
        sorted.insert(pos, x);
        proof {
            assert(sorted@ == before.insert(pos as int, x));
            lemma_insert_to_multiset(before, pos as int, x);
            assert(reminders@.take(i as int + 1) =~= reminders@.take(i as int).push(x));
            reminders@.take(i as int).to_multiset_ensures();
            assert forall|t: int| #[trigger] at_time(sorted@, t) == at_time(reminders@.take(i as int + 1), t) by {
                assert forall|k: int| pos <= k < before.len() implies (#[trigger] before[k]).remind_at.unix_seconds
                    > x.remind_at.unix_seconds by {
                    if pos < before.len() {
                        assert(before[pos as int].remind_at.unix_seconds > x.remind_at.unix_seconds);
                        assert(sorted_by_time(before));
                        assert(before[pos as int].remind_at.unix_seconds <= before[k].remind_at.unix_seconds || k == pos);
                    }
                }
                lemma_insert_at_time(before, pos as int, x, t);
                reminders@.take(i as int).lemma_filter_push(x, fires_at(t));
            }
            assert forall|a: int, b: int| 0 <= a < b < sorted@.len() implies (
            #[trigger] sorted@[a]).remind_at.unix_seconds <= (#[trigger] sorted@[b]).remind_at.unix_seconds by {
                if b < pos {
                    assert(before[a] == sorted@[a] && before[b] == sorted@[b]);
                } else if b == pos {
                    assert(before[a] == sorted@[a]);
                } else if a < pos {
                    assert(before[a] == sorted@[a] && before[b - 1] == sorted@[b]);
                } else if a == pos {
                    assert(before[b - 1] == sorted@[b]);
                    if pos < before.len() {
                        assert(before[pos as int].remind_at.unix_seconds > x.remind_at.unix_seconds);
                    }
                } else {
                    assert(before[a - 1] == sorted@[a] && before[b - 1] == sorted@[b]);
                }
            }
        }
        i = i + 1;
    }
    assert(reminders@.take(reminders@.len() as int) =~= reminders@);
    sorted
}

} // verus!
