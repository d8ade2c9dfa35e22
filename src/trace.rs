//! Whole sessions as sequences of events, and the laws that hold of them.
use vstd::prelude::*;
use crate::budget::Direction;
use crate::session::{Action, Event, Session, Termination};

verus! {

/// The session after the events `evs`, taken in order from `s`.
pub open spec fn run(s: Session, evs: Seq<Event>) -> Session
    decreases evs.len(),
{
    if evs.len() == 0 {
        s
    } else {
        run(s, evs.drop_last()).after(evs.last())
    }
}

/// Every event of `evs` can occur in the state that it meets.
pub open spec fn feasible(s: Session, evs: Seq<Event>) -> bool
    decreases evs.len(),
{
    evs.len() == 0 || (feasible(s, evs.drop_last()) && run(s, evs.drop_last()).eligible(evs.last()))
}

/// The bytes that action `a` writes to the destination of direction `d`.
pub open spec fn sent(a: Action, d: Direction) -> Seq<u8> {
    match a {
        Action::Forward { dir, data } => if dir == d { data@ } else { Seq::empty() },
        _ => Seq::empty(),
    }
}

/// The bytes written, in order, to the destination of direction `d` while
/// the session answers the events `evs`.
pub open spec fn delivered(s: Session, evs: Seq<Event>, d: Direction) -> Seq<u8>
    decreases evs.len(),
{
    if evs.len() == 0 {
        Seq::empty()
    } else {
        let p = evs.drop_last();
        delivered(s, p, d) + sent(run(s, p).reaction(evs.last()), d)
    }
}

/// The bytes that event `e` reads from the source of direction `d`.
pub open spec fn read_by(e: Event, d: Direction) -> Seq<u8> {
    match e {
        Event::Read { dir, data } => if dir == d { data@ } else { Seq::empty() },
        _ => Seq::empty(),
    }
}

/// The bytes read, in order, from the source of direction `d` while the
/// session was running.
pub open spec fn read_stream(s: Session, evs: Seq<Event>, d: Direction) -> Seq<u8>
    decreases evs.len(),
{
    if evs.len() == 0 {
        Seq::empty()
    } else {
        let p = evs.drop_last();
        read_stream(s, p, d) + if run(s, p).running() { read_by(evs.last(), d) } else { Seq::empty() }
    }
}

pub open spec fn is_tick(e: Event) -> bool {
    e is Tick
}

/// No window boundary falls inside `evs`.
pub open spec fn tick_free(evs: Seq<Event>) -> bool {
    forall|i: int| 0 <= i < evs.len() ==> !#[trigger] is_tick(evs[i])
}

/// A run of feasible events keeps the session well formed and never changes
/// the configured limits.
pub proof fn lemma_run_keeps_limits(s: Session, evs: Seq<Event>)
    requires
        s.wf(),
        feasible(s, evs),
    ensures
        run(s, evs).wf(),
        run(s, evs).budgets.download.limit == s.budgets.download.limit,
        run(s, evs).budgets.upload.limit == s.budgets.upload.limit,
    decreases evs.len(),
{
    if evs.len() > 0 {
        lemma_run_keeps_limits(s, evs.drop_last());
    }
}

/// Within one window (a stretch of events with no tick), the bytes delivered
/// in a direction, added to what the window had consumed at its start, never
/// exceed that direction's limit; the consumption counter tracks them exactly.
pub proof fn lemma_window_cap(s: Session, evs: Seq<Event>, d: Direction)
    requires
        s.wf(),
        feasible(s, evs),
        tick_free(evs),
    ensures
        run(s, evs).budgets.budget(d).consumed == s.budgets.budget(d).consumed + delivered(s, evs, d).len(),
        s.budgets.budget(d).consumed + delivered(s, evs, d).len() <= s.budgets.budget(d).limit,
        delivered(s, evs, d).len() <= s.budgets.budget(d).limit,
    decreases evs.len(),
{
    if evs.len() > 0 {
        let p = evs.drop_last();
        assert forall|i: int| 0 <= i < p.len() implies !#[trigger] is_tick(p[i]) by {
            assert(is_tick(p[i]) == is_tick(evs[i]));
        }
        assert(!is_tick(evs[evs.len() - 1]));
        lemma_window_cap(s, p, d);
        lemma_run_keeps_limits(s, p);
    }
    lemma_run_keeps_limits(s, evs);
}

/// Forwarding loses, adds and reorders nothing: what reaches the destination
/// of a direction is exactly what was read from its source.
pub proof fn lemma_lossless(s: Session, evs: Seq<Event>, d: Direction)
    ensures
        delivered(s, evs, d) == read_stream(s, evs, d),
    decreases evs.len(),
{
    if evs.len() > 0 {
        lemma_lossless(s, evs.drop_last(), d);
        let t = run(s, evs.drop_last());
        if t.running() {
            assert(sent(t.reaction(evs.last()), d) =~= read_by(evs.last(), d));
        }
    }
}

/// A terminated session stays terminated and delivers nothing more.
pub proof fn lemma_terminated_is_final(t: Session, evs: Seq<Event>, d: Direction)
    requires
        !t.running(),
    ensures
        run(t, evs) == t,
        delivered(t, evs, d).len() == 0,
    decreases evs.len(),
{
    if evs.len() > 0 {
        lemma_terminated_is_final(t, evs.drop_last(), d);
    }
}

/// A zero-length read on either side ends the session at once: the answer
/// is a clean stop, and no byte is delivered in either direction afterwards.
pub proof fn lemma_end_of_stream_ends_session(t: Session, dir: Direction, data: Vec<u8>, later: Seq<Event>)
    requires
        t.running(),
        data@.len() == 0,
    ensures
        t.reaction(Event::Read { dir, data }) == Action::Stop(Termination::EndOfStream),
        !run(t.after(Event::Read { dir, data }), later).running(),
        delivered(t.after(Event::Read { dir, data }), later, Direction::Download).len() == 0,
        delivered(t.after(Event::Read { dir, data }), later, Direction::Upload).len() == 0,
{
    let u = t.after(Event::Read { dir, data });
    lemma_terminated_is_final(u, later, Direction::Download);
    lemma_terminated_is_final(u, later, Direction::Upload);
}

/// A direction whose limit is zero never delivers a byte, whatever the
/// session does in the other direction and however many windows pass.
pub proof fn lemma_zero_limit_starves(s: Session, evs: Seq<Event>, d: Direction)
    requires
        s.wf(),
        s.budgets.budget(d).limit == 0,
        feasible(s, evs),
    ensures
        delivered(s, evs, d).len() == 0,
    decreases evs.len(),
{
    if evs.len() > 0 {
        let p = evs.drop_last();
        lemma_zero_limit_starves(s, p, d);
        lemma_run_keeps_limits(s, p);
    }
}

} // verus!
