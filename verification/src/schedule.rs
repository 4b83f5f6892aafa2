//! The frame scheduler: what is done, and in what order, for each displayed
//! frame.
//!
//! The driver does not measure time. The speed of the program is set by
//! running a fixed number of steps per displayed frame, and the timers count
//! down once per frame. The number of steps is the same for every frame: a
//! host that displays fewer frames per second runs the program more slowly.
//!
//! The scheduler says what is to be done; it does none of it. Whoever
//! carries a frame out does so in the order given, and then presents the
//! frame. Should the interpreter fail at a step, as it does on a program
//! that it cannot run, the run ends there: no step is skipped or tried
//! again, and nothing more of the frame is carried out.

use crate::config::TICKS_PER_FRAME;
use crate::input::{bridged, key_events, KeyEvent};
use crate::keymap::KEY_COUNT;
use std::collections::HashSet;
use vstd::prelude::*;

verus! {

/// One thing to do in the course of a frame.
#[derive(Clone, Copy, Debug, PartialEq, Eq, Structural)]
pub enum FrameAction {
    /// Tell the interpreter that a keypad key changed.
    Key(KeyEvent),
    /// Run one instruction cycle of the interpreter.
    Step,
    /// Count the interpreter's timers down by one.
    TickTimers,
    /// Paint the interpreter's display.
    Render,
}

/// The actions of one frame: the key events of its keyboard sample, then
/// `TICKS_PER_FRAME` steps, then one tick of the timers, then the rendering.
pub open spec fn frame_plan(pressed: Set<u16>, released: Set<u16>) -> Seq<FrameAction> {
    bridged(pressed, released).map_values(|event: KeyEvent| FrameAction::Key(event)) + Seq::new(
        TICKS_PER_FRAME as nat,
        |i: int| FrameAction::Step,
    ) + seq![FrameAction::TickTimers, FrameAction::Render]
}

/// One sample of the keyboard, as a frame is given it.
pub ghost struct Sample {
    /// The host keys that went down.
    pub pressed: Set<u16>,
    /// The host keys that went up.
    pub released: Set<u16>,
}

/// The actions of a run of frames, one frame after the other; `samples` holds
/// the keyboard sample of each frame.
pub open spec fn session(samples: Seq<Sample>) -> Seq<FrameAction>
    decreases samples.len(),
{
    if samples.len() == 0 {
        Seq::empty()
    } else {
        session(samples.drop_last()) + frame_plan(samples.last().pressed, samples.last().released)
    }
}

/// How often `action` occurs in `actions`.
pub open spec fn count(actions: Seq<FrameAction>, action: FrameAction) -> nat
    decreases actions.len(),
{
    if actions.len() == 0 {
        0
    } else {
        count(actions.drop_last(), action) + if actions.last() == action {
            1nat
        } else {
            0nat
        }
    }
}

/// Occurrences add up over concatenation.
pub proof fn lemma_count_concat(front: Seq<FrameAction>, back: Seq<FrameAction>, action: FrameAction)
    ensures
        count(front + back, action) == count(front, action) + count(back, action),
    decreases back.len(),
{
    if back.len() > 0 {
        assert((front + back).drop_last() =~= front + back.drop_last());
        lemma_count_concat(front, back.drop_last(), action);
    }
}

/// Key events are neither steps nor ticks nor renderings.
proof fn lemma_count_in_events(events: Seq<KeyEvent>, action: FrameAction)
    requires
        !(action is Key),
    ensures
        count(events.map_values(|event: KeyEvent| FrameAction::Key(event)), action) == 0,
    decreases events.len(),
{
    let wrapped = events.map_values(|event: KeyEvent| FrameAction::Key(event));
    if events.len() > 0 {
        assert(wrapped.drop_last() =~= events.drop_last().map_values(
            |event: KeyEvent| FrameAction::Key(event),
        ));
        lemma_count_in_events(events.drop_last(), action);
    }
}

/// A block of `n` steps holds `n` steps and nothing else.
proof fn lemma_count_in_steps(n: nat, action: FrameAction)
    ensures
        count(Seq::new(n, |i: int| FrameAction::Step), action) == if action == FrameAction::Step {
            n
        } else {
            0
        },
    decreases n,
{
    let steps = Seq::new(n, |i: int| FrameAction::Step);
    if n > 0 {
        assert(steps.drop_last() =~= Seq::new((n - 1) as nat, |i: int| FrameAction::Step));
        lemma_count_in_steps((n - 1) as nat, action);
    }
}

/// A frame is its key events, at most a press and a release; then the steps,
/// with nothing in between them; then the tick of the timers; then the
/// rendering, and nothing after it.
pub proof fn lemma_frame_order(pressed: Set<u16>, released: Set<u16>)
    ensures
        ({
            let plan = frame_plan(pressed, released);
            let keys = bridged(pressed, released).len();
            &&& keys <= 2
            &&& plan.len() == keys + TICKS_PER_FRAME + 2
            &&& forall|i: int|
                0 <= i < keys ==> #[trigger] plan[i] == FrameAction::Key(
                    bridged(pressed, released)[i],
                )
            &&& forall|i: int| keys <= i < keys + TICKS_PER_FRAME ==> plan[i] == FrameAction::Step
            &&& plan[keys + TICKS_PER_FRAME] == FrameAction::TickTimers
            &&& plan[keys + TICKS_PER_FRAME + 1] == FrameAction::Render
        }),
{
}

/// Each frame holds exactly `TICKS_PER_FRAME` steps, one tick of the timers
/// and one rendering, whatever its keyboard sample.
pub proof fn lemma_frame_counts(pressed: Set<u16>, released: Set<u16>)
    ensures
        count(frame_plan(pressed, released), FrameAction::Step) == TICKS_PER_FRAME,
        count(frame_plan(pressed, released), FrameAction::TickTimers) == 1,
        count(frame_plan(pressed, released), FrameAction::Render) == 1,
{
    let keys = bridged(pressed, released).map_values(|event: KeyEvent| FrameAction::Key(event));
    let steps = Seq::new(TICKS_PER_FRAME as nat, |i: int| FrameAction::Step);
    let tail = seq![FrameAction::TickTimers, FrameAction::Render];
    assert forall|action: FrameAction| !(action is Key) implies count(
        frame_plan(pressed, released),
        action,
    ) == count(steps, action) + count(tail, action) by {
        lemma_count_in_events(bridged(pressed, released), action);
        lemma_count_concat(keys, steps, action);
        lemma_count_concat(keys + steps, tail, action);
    }
    lemma_count_in_steps(TICKS_PER_FRAME as nat, FrameAction::Step);
    lemma_count_in_steps(TICKS_PER_FRAME as nat, FrameAction::TickTimers);
    lemma_count_in_steps(TICKS_PER_FRAME as nat, FrameAction::Render);
    reveal_with_fuel(count, 3);
}

/// Over any run of frames the timers are ticked exactly once per frame and
/// the interpreter is stepped exactly `TICKS_PER_FRAME` times per frame; each
/// frame is rendered once.
pub proof fn lemma_session_counts(samples: Seq<Sample>)
    ensures
        count(session(samples), FrameAction::TickTimers) == samples.len(),
        count(session(samples), FrameAction::Step) == TICKS_PER_FRAME * samples.len(),
        count(session(samples), FrameAction::Render) == samples.len(),
    decreases samples.len(),
{
    if samples.len() > 0 {
        let before = session(samples.drop_last());
        let frame = frame_plan(samples.last().pressed, samples.last().released);
        lemma_session_counts(samples.drop_last());
        lemma_frame_counts(samples.last().pressed, samples.last().released);
        lemma_count_concat(before, frame, FrameAction::TickTimers);
        lemma_count_concat(before, frame, FrameAction::Step);
        lemma_count_concat(before, frame, FrameAction::Render);
    }
}

/// The actions of one frame, in the order in which they are to be carried
/// out.
///
/// `pressed` and `released` are the frame's one sample of the keyboard: the
/// host keys that went down and those that went up. The keyboard is not
/// looked at again between the steps.
pub fn frame_actions(pressed: &HashSet<u16>, released: &HashSet<u16>) -> (plan: Vec<FrameAction>)
    ensures
        plan@ == frame_plan(pressed@, released@),
        count(plan@, FrameAction::Step) == TICKS_PER_FRAME,
        count(plan@, FrameAction::TickTimers) == 1,
        count(plan@, FrameAction::Render) == 1,
        forall|i: int|
            0 <= i < plan@.len() ==> (#[trigger] plan@[i] matches FrameAction::Key(event)
                ==> event.key < KEY_COUNT),
{
    let events = key_events(pressed, released);
    let mut plan: Vec<FrameAction> = Vec::new();
    let mut told: usize = 0;
    while told < events.len()
        invariant
            0 <= told <= events.len(),
            plan@ == events@.take(told as int).map_values(
                |event: KeyEvent| FrameAction::Key(event),
            ),
            forall|i: int| 0 <= i < events@.len() ==> (#[trigger] events@[i]).key < KEY_COUNT,
        decreases events.len() - told,
    {
        plan.push(FrameAction::Key(events[told]));
        told += 1;
    }
    let ghost keys = plan@;
    let mut stepped: usize = 0;
    while stepped < TICKS_PER_FRAME
        invariant
            0 <= stepped <= TICKS_PER_FRAME,
            plan@ == keys + Seq::new(stepped as nat, |i: int| FrameAction::Step),
        decreases TICKS_PER_FRAME - stepped,
    {
        plan.push(FrameAction::Step);
        stepped += 1;
    }
    plan.push(FrameAction::TickTimers);
    plan.push(FrameAction::Render);
    proof {
        assert(plan@ =~= frame_plan(pressed@, released@));
        lemma_frame_counts(pressed@, released@);
    }
    plan
}

} // verus!
