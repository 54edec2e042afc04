//! Pipeline-wide properties, stated and proved over the same spec
//! functions the stage contracts use.  Loss-freedom on shutdown and
//! inertness after shutdown are stated directly on the stage functions
//! themselves: see `Logger::close`, `Logger::run_session`, and the
//! stopped-pipeline clauses of `Logger::deliver`, `Logger::process` and
//! `Logger::drain`.

use vstd::prelude::*;

use crate::event::Event;
use crate::filter::accepts_spec;
use crate::filter::Filters;
use crate::logger::events_of;
use crate::logger::has_terminate;
use crate::logger::records_of;
use crate::logger::sent_messages;
use crate::logger::EventType;

verus! {

/// Per-producer FIFO: the formatter stage hands the writer stage one record
/// per log event, at the event's own arrival position, so any two events —
/// in particular two from the same producer thread — keep their relative
/// order from the channel to every appender.
pub proof fn lemma_per_producer_fifo(msgs: Seq<EventType>, i: int, j: int)
    requires
        0 <= i < j < events_of(msgs).len(),
        events_of(msgs)[i].thread_tag@ == events_of(msgs)[j].thread_tag@,
    ensures
        records_of(msgs).len() == events_of(msgs).len(),
        records_of(msgs)[i] == events_of(msgs)[i].format_spec(),
        records_of(msgs)[j] == events_of(msgs)[j].format_spec(),
{
}

/// What one producer contributes to the channel: exactly its accepted
/// events, wrapped as log messages in emission order — and never the
/// shutdown signal.
pub proof fn lemma_sent_messages_events(f: Filters, evs: Seq<Event>)
    ensures
        events_of(sent_messages(f, evs)) == evs.filter(|e: Event| accepts_spec(f, e)),
        !has_terminate(sent_messages(f, evs)),
    decreases evs.len(),
{
    reveal(Seq::filter);
    if evs.len() == 0 {
        assert(evs.filter(|e: Event| accepts_spec(f, e)) =~= Seq::<Event>::empty());
    } else {
        lemma_sent_messages_events(f, evs.drop_last());
        if accepts_spec(f, evs.last()) {
            let s = sent_messages(f, evs.drop_last()).push(EventType::Log(evs.last()));
            assert(s.drop_last() =~= sent_messages(f, evs.drop_last()));
            assert(s.last() == EventType::Log(evs.last()));
        }
    }
}

/// Whether the channel sequence `m` is one of the orders in which the
/// channel may deliver the push sequences `a` and `b` of two producers:
/// `m` merges the two, keeping each one's internal order.
pub open spec fn is_interleaving(m: Seq<EventType>, a: Seq<EventType>, b: Seq<EventType>) -> bool
    decreases m.len(),
{
    if m.len() == 0 {
        a.len() == 0 && b.len() == 0
    } else {
        (a.len() > 0 && m.last() == a.last() && is_interleaving(m.drop_last(), a.drop_last(), b))
            || (b.len() > 0 && m.last() == b.last() && is_interleaving(
            m.drop_last(),
            a,
            b.drop_last(),
        ))
    }
}

proof fn lemma_filter_push(s: Seq<Event>, e: Event, pred: spec_fn(Event) -> bool)
    ensures
        s.push(e).filter(pred) == (if pred(e) {
            s.filter(pred).push(e)
        } else {
            s.filter(pred)
        }),
{
    reveal(Seq::filter);
    assert(s.push(e).drop_last() =~= s);
    assert(s.push(e).last() == e);
}

proof fn lemma_filter_keeps_tag(evs: Seq<Event>, pred: spec_fn(Event) -> bool, t: Seq<char>)
    requires
        forall|i: int| 0 <= i < evs.len() ==> (#[trigger] evs[i]).thread_tag@ == t,
    ensures
        forall|i: int|
            0 <= i < evs.filter(pred).len() ==> (#[trigger] evs.filter(pred)[i]).thread_tag@ == t,
    decreases evs.len(),
{
    reveal(Seq::filter);
    if evs.len() > 0 {
        let d = evs.drop_last();
        assert forall|i: int| 0 <= i < d.len() implies (#[trigger] d[i]).thread_tag@ == t by {
            assert(d[i] == evs[i]);
        }
        lemma_filter_keeps_tag(d, pred, t);
        assert(evs.last().thread_tag@ == t);
        assert forall|i: int| 0 <= i < evs.filter(pred).len() implies (#[trigger] evs.filter(
            pred,
        )[i]).thread_tag@ == t by {
            if pred(evs.last()) {
                if i < evs.filter(pred).len() - 1 {
                    assert(evs.filter(pred)[i] == d.filter(pred)[i]);
                } else {
                    assert(evs.filter(pred)[i] == evs.last());
                }
            } else {
                assert(evs.filter(pred)[i] == d.filter(pred)[i]);
            }
        }
    }
}

proof fn lemma_interleaving_sym(m: Seq<EventType>, a: Seq<EventType>, b: Seq<EventType>)
    requires
        is_interleaving(m, a, b),
    ensures
        is_interleaving(m, b, a),
    decreases m.len(),
{
    if m.len() > 0 {
        if a.len() > 0 && m.last() == a.last() && is_interleaving(m.drop_last(), a.drop_last(), b) {
            lemma_interleaving_sym(m.drop_last(), a.drop_last(), b);
        } else {
            lemma_interleaving_sym(m.drop_last(), a, b.drop_last());
        }
    }
}

/// In any interleaving of two producers' messages, the channel's events
/// tagged `t` are exactly the events of the producer whose events carry
/// tag `t`, in that producer's own push order.
pub proof fn lemma_interleaving_projects(
    m: Seq<EventType>,
    a: Seq<EventType>,
    b: Seq<EventType>,
    t: Seq<char>,
)
    requires
        is_interleaving(m, a, b),
        forall|i: int| 0 <= i < events_of(a).len() ==> (#[trigger] events_of(a)[i]).thread_tag@
            == t,
        forall|i: int| 0 <= i < events_of(b).len() ==> (#[trigger] events_of(b)[i]).thread_tag@
            != t,
    ensures
        events_of(m).filter(|e: Event| e.thread_tag@ == t) == events_of(a),
    decreases m.len(),
{
    let pred = |e: Event| e.thread_tag@ == t;
    if m.len() == 0 {
        reveal(Seq::filter);
        assert(events_of(m).filter(pred) =~= Seq::<Event>::empty());
        assert(events_of(a) =~= Seq::<Event>::empty());
    } else if a.len() > 0 && m.last() == a.last() && is_interleaving(
        m.drop_last(),
        a.drop_last(),
        b,
    ) {
        let ad = a.drop_last();
        match a.last() {
            EventType::Log(e) => {
                assert(events_of(a) == events_of(ad).push(e));
                assert forall|i: int| 0 <= i < events_of(ad).len() implies (#[trigger] events_of(
                    ad,
                )[i]).thread_tag@ == t by {
                    assert(events_of(a)[i] == events_of(ad)[i]);
                }
                lemma_interleaving_projects(m.drop_last(), ad, b, t);
                assert(e == events_of(a)[events_of(a).len() - 1]);
                assert(events_of(m) == events_of(m.drop_last()).push(e));
                lemma_filter_push(events_of(m.drop_last()), e, pred);
            },
            EventType::Terminate => {
                assert(events_of(a) == events_of(ad));
                lemma_interleaving_projects(m.drop_last(), ad, b, t);
                assert(events_of(m) == events_of(m.drop_last()));
            },
        }
    } else {
        let bd = b.drop_last();
        match b.last() {
            EventType::Log(e) => {
                assert(events_of(b) == events_of(bd).push(e));
                assert forall|i: int| 0 <= i < events_of(bd).len() implies (#[trigger] events_of(
                    bd,
                )[i]).thread_tag@ != t by {
                    assert(events_of(b)[i] == events_of(bd)[i]);
                }
                lemma_interleaving_projects(m.drop_last(), a, bd, t);
                assert(e == events_of(b)[events_of(b).len() - 1]);
                assert(events_of(m) == events_of(m.drop_last()).push(e));
                lemma_filter_push(events_of(m.drop_last()), e, pred);
            },
            EventType::Terminate => {
                assert(events_of(b) == events_of(bd));
                lemma_interleaving_projects(m.drop_last(), a, bd, t);
                assert(events_of(m) == events_of(m.drop_last()));
            },
        }
    }
}

/// Two producers, one shared channel: whatever order the channel delivers
/// their messages in, each producer's events are formatted in exactly its
/// own emission order — its accepted events, nothing else, nothing twice.
pub proof fn lemma_two_producers_fifo(
    m: Seq<EventType>,
    f1: Filters,
    evs1: Seq<Event>,
    t1: Seq<char>,
    f2: Filters,
    evs2: Seq<Event>,
    t2: Seq<char>,
)
    requires
        is_interleaving(m, sent_messages(f1, evs1), sent_messages(f2, evs2)),
        forall|i: int| 0 <= i < evs1.len() ==> (#[trigger] evs1[i]).thread_tag@ == t1,
        forall|i: int| 0 <= i < evs2.len() ==> (#[trigger] evs2[i]).thread_tag@ == t2,
        t1 != t2,
    ensures
        events_of(m).filter(|e: Event| e.thread_tag@ == t1) == evs1.filter(
            |e: Event| accepts_spec(f1, e),
        ),
        events_of(m).filter(|e: Event| e.thread_tag@ == t2) == evs2.filter(
            |e: Event| accepts_spec(f2, e),
        ),
{
    let s1 = sent_messages(f1, evs1);
    let s2 = sent_messages(f2, evs2);
    lemma_sent_messages_events(f1, evs1);
    lemma_sent_messages_events(f2, evs2);
    lemma_filter_keeps_tag(evs1, |e: Event| accepts_spec(f1, e), t1);
    lemma_filter_keeps_tag(evs2, |e: Event| accepts_spec(f2, e), t2);
    lemma_interleaving_projects(m, s1, s2, t1);
    lemma_interleaving_sym(m, s1, s2);
    lemma_interleaving_projects(m, s2, s1, t2);
}

/// A filter that rejects every event silences its producer entirely: no
/// message reaches the channel, so no record reaches any appender, however
/// many events were emitted.
pub proof fn lemma_reject_all_is_silent(f: Filters, evs: Seq<Event>)
    requires
        forall|e: Event| !accepts_spec(f, e),
    ensures
        sent_messages(f, evs) == Seq::<EventType>::empty(),
        records_of(sent_messages(f, evs)) == Seq::<Seq<char>>::empty(),
    decreases evs.len(),
{
    if evs.len() > 0 {
        lemma_reject_all_is_silent(f, evs.drop_last());
    }
    assert(records_of(Seq::<EventType>::empty()) =~= Seq::<Seq<char>>::empty());
}

} // verus!
