//! What holds of the loop over whole sequences of events.

use vstd::prelude::*;
use crate::input::Key;
use crate::machine::{Action, Event, FrameLoop, LoopModel, LoopState, Response};

verus! {

/// The loop after all of `events`, taken in order.
pub open spec fn run(s: LoopModel, events: Seq<Event>) -> LoopModel
    decreases events.len(),
{
    if events.len() == 0 {
        s
    } else {
        run(s.step(events.first()), events.drop_first())
    }
}

/// The responses to `events`, one for each, in order.
pub open spec fn responses(s: LoopModel, events: Seq<Event>) -> Seq<Response>
    decreases events.len(),
{
    if events.len() == 0 {
        Seq::empty()
    } else {
        seq![s.respond(events.first())] + responses(s.step(events.first()), events.drop_first())
    }
}

/// The place of the first event that stops the loop, or the number of events
/// where none does.
pub open spec fn first_stop(events: Seq<Event>) -> int
    decreases events.len(),
{
    if events.len() == 0 || events.first().stops() {
        0
    } else {
        1 + first_stop(events.drop_first())
    }
}

/// The events that reach a running loop: those before the first that stops it.
pub open spec fn live(events: Seq<Event>) -> Seq<Event> {
    events.take(first_stop(events))
}

/// The total time, in nanoseconds, that ticks in `events` find `key` held,
/// where `held` says whether it is held at the start. Only events of `key`
/// itself change whether it is held.
pub open spec fn hold_time(key: Key, held: bool, events: Seq<Event>) -> int
    decreases events.len(),
{
    if events.len() == 0 {
        0
    } else {
        let rest = events.drop_first();
        match events.first() {
            Event::Tick { delta_nanos } => (if held {
                delta_nanos as int
            } else {
                0
            }) + hold_time(key, held, rest),
            Event::Key { key: k, state } => hold_time(
                key,
                if k == key {
                    state is Pressed
                } else {
                    held
                },
                rest,
            ),
            _ => hold_time(key, held, rest),
        }
    }
}

/// The views of `actions`, in order.
pub open spec fn views(actions: Seq<Action>) -> Seq<Response> {
    actions.map_values(|a: Action| a@)
}

/// One more event at the end moves the loop on by one step.
pub proof fn lemma_run_push(s: LoopModel, events: Seq<Event>, event: Event)
    ensures
        run(s, events.push(event)) == run(s, events).step(event),
        responses(s, events.push(event)) == responses(s, events).push(
            run(s, events).respond(event),
        ),
    decreases events.len(),
{
    let longer = events.push(event);
    if events.len() == 0 {
        let next = s.step(event);
        assert(longer.first() == event);
        assert(longer.drop_first() =~= events);
        assert(run(next, events) == next);
        assert(responses(next, events) =~= Seq::<Response>::empty());
        assert(responses(s, longer) =~= responses(s, events).push(s.respond(event)));
    } else {
        let next = s.step(events.first());
        lemma_run_push(next, events.drop_first(), event);
        assert(longer.drop_first() =~= events.drop_first().push(event));
        assert(responses(s, longer) =~= responses(s, events).push(
            run(s, events).respond(event),
        ));
    }
}

/// The first stop lies within the sequence or just behind it, no event before
/// it stops the loop, and the event at it does.
pub proof fn lemma_first_stop(events: Seq<Event>)
    ensures
        0 <= first_stop(events) <= events.len(),
        forall|i: int| 0 <= i < first_stop(events) ==> !(#[trigger] events[i]).stops(),
        first_stop(events) < events.len() ==> events[first_stop(events)].stops(),
    decreases events.len(),
{
    if events.len() != 0 && !events.first().stops() {
        let rest = events.drop_first();
        lemma_first_stop(rest);
        assert forall|i: int| 0 <= i < first_stop(events) implies !(#[trigger] events[i]).stops() by {
            if i > 0 {
                assert(events[i] == rest[i - 1]);
            }
        }
        if first_stop(events) < events.len() {
            assert(events[first_stop(events)] == rest[first_stop(rest)]);
        }
    }
}

/// There is one response to each event.
pub proof fn lemma_responses_len(s: LoopModel, events: Seq<Event>)
    ensures
        responses(s, events).len() == events.len(),
    decreases events.len(),
{
    if events.len() != 0 {
        lemma_responses_len(s.step(events.first()), events.drop_first());
    }
}

/// A terminated loop is final: no sequence of events changes it, and the
/// response to each of them is to do nothing.
pub proof fn lemma_terminated_is_final(s: LoopModel, events: Seq<Event>)
    requires
        s.state is Terminated,
    ensures
        run(s, events) == s,
        responses(s, events).len() == events.len(),
        forall|i: int| 0 <= i < events.len() ==> #[trigger] responses(s, events)[i] is Idle,
    decreases events.len(),
{
    if events.len() != 0 {
        lemma_terminated_is_final(s, events.drop_first());
    }
}

/// A running loop terminates once, at the first event that stops it: the
/// response to that event is the only one to exit, every later response is to
/// do nothing, and the loop ends as it stood before that event, but
/// terminated. Where no event stops it, the loop still runs.
pub proof fn lemma_terminates_once(s: LoopModel, events: Seq<Event>)
    requires
        s.state is Running,
    ensures
        responses(s, events).len() == events.len(),
        forall|i: int|
            0 <= i < events.len() ==> (#[trigger] responses(s, events)[i] is Exit <==> i
                == first_stop(events)),
        forall|i: int|
            first_stop(events) < i < events.len() ==> #[trigger] responses(s, events)[i] is Idle,
        run(s, live(events)).state is Running,
        first_stop(events) == events.len() ==> run(s, events) == run(s, live(events)),
        first_stop(events) < events.len() ==> run(s, events) == (LoopModel {
            state: LoopState::Terminated,
            ..run(s, live(events))
        }),
    decreases events.len(),
{
    lemma_first_stop(events);
    if events.len() == 0 {
        assert(live(events) =~= events);
    } else {
        let rest = events.drop_first();
        let next = s.step(events.first());
        let all = responses(s, events);
        lemma_responses_len(next, rest);
        assert forall|i: int| 0 < i < events.len() implies #[trigger] all[i] == responses(
            next,
            rest,
        )[i - 1] by {}
        if events.first().stops() {
            lemma_terminated_is_final(next, rest);
            assert(live(events) =~= Seq::<Event>::empty());
        } else {
            lemma_terminates_once(next, rest);
            lemma_first_stop(rest);
            assert(live(events).first() == events.first());
            assert(live(events).drop_first() =~= live(rest));
        }
    }
}

/// The angle is the signed integral of the turning rate over the time the
/// keys are held: from a running loop, it moves by the time that ticks find
/// right held less the time that they find left held, counted over the events
/// that reach the loop before it terminates.
pub proof fn lemma_angle_is_signed_hold_time(s: LoopModel, events: Seq<Event>)
    requires
        s.state is Running,
    ensures
        run(s, events).angle == s.angle + hold_time(Key::Right, s.input.right, live(events))
            - hold_time(Key::Left, s.input.left, live(events)),
    decreases events.len(),
{
    lemma_first_stop(events);
    if events.len() == 0 {
        assert(live(events) =~= events);
    } else {
        let rest = events.drop_first();
        let next = s.step(events.first());
        if events.first().stops() {
            lemma_terminated_is_final(next, rest);
            assert(live(events) =~= Seq::<Event>::empty());
        } else {
            lemma_angle_is_signed_hold_time(next, rest);
            lemma_first_stop(rest);
            assert(live(events).first() == events.first());
            assert(live(events).drop_first() =~= live(rest));
        }
    }
}

/// With left and right released the angle is frozen: a tick leaves the whole
/// loop as it was, however long it took.
pub proof fn lemma_idle_tick_is_identity(s: LoopModel, delta_nanos: u64)
    requires
        !s.input.left,
        !s.input.right,
    ensures
        s.step(Event::Tick { delta_nanos }) == s,
{
}

/// With left and right released, any number of ticks leaves the loop as it
/// was.
pub proof fn lemma_released_keys_freeze(s: LoopModel, events: Seq<Event>)
    requires
        !s.input.left,
        !s.input.right,
        forall|i: int| 0 <= i < events.len() ==> #[trigger] events[i] is Tick,
    ensures
        run(s, events) == s,
    decreases events.len(),
{
    if events.len() != 0 {
        let rest = events.drop_first();
        assert(events[0] is Tick);
        assert forall|i: int| 0 <= i < rest.len() implies #[trigger] rest[i] is Tick by {
            assert(rest[i] == events[i + 1]);
        }
        lemma_released_keys_freeze(s, rest);
    }
}

/// Left and right held together cancel: a tick leaves the angle where it was.
pub proof fn lemma_opposite_keys_cancel(s: LoopModel, delta_nanos: u64)
    requires
        s.input.left,
        s.input.right,
    ensures
        s.step(Event::Tick { delta_nanos }).angle == s.angle,
{
}

/// Every draw submits the quad's six vertices, whatever the angle and
/// whatever keys are held.
pub proof fn lemma_draw_submits_quad(s: LoopModel, event: Event)
    ensures
        s.respond(event) matches Response::Draw { vertices, .. } ==> vertices == 6,
        s.respond(event) is Draw <==> s.state is Running && event is Tick,
{
}

impl FrameLoop {
    /// Takes `events` in order for as long as the machine integers can hold
    /// the loop, and returns the actions in the same order. It stops before
    /// the first event that would take the angle out of range; the number of
    /// actions says how many events were taken.
    pub fn replay(&mut self, events: &[Event]) -> (actions: Vec<Action>)
        ensures
            actions.len() <= events.len(),
            final(self)@ == run(old(self)@, events@.take(actions.len() as int)),
            views(actions@) == responses(old(self)@, events@.take(actions.len() as int)),
            forall|i: int|
                0 < i <= actions.len() ==> (#[trigger] run(
                    old(self)@,
                    events@.take(i),
                )).representable(),
            actions.len() < events.len() ==> !final(self).admits(events[actions.len() as int]),
    {
        let mut actions: Vec<Action> = Vec::new();
        let mut i: usize = 0;
        proof {
            assert(events@.take(0) =~= Seq::<Event>::empty());
            assert(views(actions@) =~= Seq::<Response>::empty());
        }
        while i < events.len()
            invariant
                i <= events.len(),
                actions.len() == i,
                self@ == run(old(self)@, events@.take(i as int)),
                views(actions@) == responses(old(self)@, events@.take(i as int)),
                forall|j: int|
                    0 < j <= i ==> (#[trigger] run(old(self)@, events@.take(j))).representable(),
            ensures
                actions.len() <= events.len(),
                self@ == run(old(self)@, events@.take(actions.len() as int)),
                views(actions@) == responses(old(self)@, events@.take(actions.len() as int)),
                forall|j: int|
                    0 < j <= actions.len() ==> (#[trigger] run(
                        old(self)@,
                        events@.take(j),
                    )).representable(),
                actions.len() < events.len() ==> !self.admits(events[actions.len() as int]),
            decreases events.len() - i,
        {
            let ghost before = actions@;
            match self.try_handle(events[i]) {
                Some(action) => {
                    actions.push(action);
                    proof {
                        lemma_run_push(old(self)@, events@.take(i as int), events[i as int]);
                        assert(events@.take(i as int).push(events[i as int]) =~= events@.take(
                            i + 1,
                        ));
                        assert(views(actions@) =~= views(before).push(action@));
                    }
                    i += 1;
                },
                None => {
                    break ;
                },
            }
        }
        actions
    }
}

} // verus!
