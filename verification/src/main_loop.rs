//! The cycle of a frame: drain the input, acquire an image, draw, present.

use vstd::prelude::*;

verus! {

/// What the window reports.
#[derive(Copy, Clone, Debug, PartialEq, Eq, Structural)]
pub enum WindowEvent {
    /// The user asked to close the window.
    CloseRequested,
    /// Anything else.
    Other,
}

/// Where the cycle stands.
#[derive(Copy, Clone, Debug, PartialEq, Eq, Structural)]
pub enum Phase {
    /// Taking the pending input events, one by one.
    Drain,
    /// Waiting for the next image.
    Acquire,
    /// Drawing into the image.
    Draw { image: u32 },
    /// Handing the image back to be shown.
    Present { image: u32 },
    /// A close request was seen. The rest of the pending input events is
    /// still taken, one by one; no further image is acquired.
    Closing,
    /// A close request was seen and the input was drained. The cycle has ended.
    Closed,
    /// A step failed. The cycle has ended.
    Failed,
}

/// What happened since the last action.
#[derive(Copy, Clone, Debug, PartialEq, Eq, Structural)]
pub enum LoopEvent {
    /// An input event was pending.
    Input(WindowEvent),
    /// No input event is pending any more.
    Drained,
    /// The presentation mechanism handed out an image.
    Acquired(u32),
    /// The frame was drawn and submitted.
    Drawn,
    /// The image was handed back to be shown.
    Presented,
    /// The action failed.
    Failed,
}

/// How the cycle ended.
#[derive(Copy, Clone, Debug, PartialEq, Eq, Structural)]
pub enum Outcome {
    Closed,
    Failed,
}

/// What is to be done next.
#[derive(Copy, Clone, Debug, PartialEq, Eq, Structural)]
pub enum LoopAction {
    /// Take the next pending input event, without waiting for one.
    PollInput,
    /// Acquire the next image, waiting for as long as it takes.
    AcquireImage,
    /// Draw a frame into the image.
    DrawFrame(u32),
    /// Hand the image back to be shown.
    PresentImage(u32),
    /// Leave the loop.
    Exit(Outcome),
}

impl Phase {
    /// Whether the cycle has ended.
    pub open spec fn is_terminal(self) -> bool {
        self == Phase::Closed || self == Phase::Failed
    }

    /// The phase that follows on an event. A close request that is read
    /// while the input is drained only marks the cycle as closing: the
    /// pending input events behind it are still taken, and the cycle ends
    /// when none is left, before an image is acquired. An event that the
    /// phase does not wait for, a failure among them, ends the cycle in
    /// failure: nothing is tried again.
    pub open spec fn next(self, event: LoopEvent) -> Phase {
        match (self, event) {
            (Phase::Closed, _) => Phase::Closed,
            (Phase::Failed, _) => Phase::Failed,
            (Phase::Drain, LoopEvent::Input(WindowEvent::CloseRequested)) => Phase::Closing,
            (Phase::Drain, LoopEvent::Input(WindowEvent::Other)) => Phase::Drain,
            (Phase::Drain, LoopEvent::Drained) => Phase::Acquire,
            (Phase::Closing, LoopEvent::Input(_)) => Phase::Closing,
            (Phase::Closing, LoopEvent::Drained) => Phase::Closed,
            (Phase::Acquire, LoopEvent::Acquired(image)) => Phase::Draw { image },
            (Phase::Draw { image }, LoopEvent::Drawn) => Phase::Present { image },
            (Phase::Present { image }, LoopEvent::Presented) => Phase::Drain,
            _ => Phase::Failed,
        }
    }

    /// What a phase asks for.
    pub open spec fn action(self) -> LoopAction {
        match self {
            Phase::Drain => LoopAction::PollInput,
            Phase::Closing => LoopAction::PollInput,
            Phase::Acquire => LoopAction::AcquireImage,
            Phase::Draw { image } => LoopAction::DrawFrame(image),
            Phase::Present { image } => LoopAction::PresentImage(image),
            Phase::Closed => LoopAction::Exit(Outcome::Closed),
            Phase::Failed => LoopAction::Exit(Outcome::Failed),
        }
    }

    /// The phase of a loop that has just been entered.
    pub fn start() -> (phase: Phase)
        ensures
            phase == Phase::Drain,
    {
        Phase::Drain
    }

    /// Decides `is_terminal`.
    pub fn has_ended(&self) -> (ended: bool)
        ensures
            ended == self.is_terminal(),
    {
        match self {
            Phase::Closed => true,
            Phase::Failed => true,
            _ => false,
        }
    }

    /// The action that this phase asks for.
    pub fn pending(&self) -> (action: LoopAction)
        ensures
            action == self.action(),
    {
        match self {
            Phase::Drain => LoopAction::PollInput,
            Phase::Closing => LoopAction::PollInput,
            Phase::Acquire => LoopAction::AcquireImage,
            Phase::Draw { image } => LoopAction::DrawFrame(*image),
            Phase::Present { image } => LoopAction::PresentImage(*image),
            Phase::Closed => LoopAction::Exit(Outcome::Closed),
            Phase::Failed => LoopAction::Exit(Outcome::Failed),
        }
    }

    /// Takes an event: moves to the phase that follows and says what is to
    /// be done next.
    pub fn step(&mut self, event: LoopEvent) -> (action: LoopAction)
        ensures
            *final(self) == old(self).next(event),
            action == final(self).action(),
    {
        let next = match (*self, event) {
            (Phase::Closed, _) => Phase::Closed,
            (Phase::Failed, _) => Phase::Failed,
            (Phase::Drain, LoopEvent::Input(WindowEvent::CloseRequested)) => Phase::Closing,
            (Phase::Drain, LoopEvent::Input(WindowEvent::Other)) => Phase::Drain,
            (Phase::Drain, LoopEvent::Drained) => Phase::Acquire,
            (Phase::Closing, LoopEvent::Input(_)) => Phase::Closing,
            (Phase::Closing, LoopEvent::Drained) => Phase::Closed,
            (Phase::Acquire, LoopEvent::Acquired(image)) => Phase::Draw { image },
            (Phase::Draw { image }, LoopEvent::Drawn) => Phase::Present { image },
            (Phase::Present { image }, LoopEvent::Presented) => Phase::Drain,
            _ => Phase::Failed,
        };
        *self = next;
        next.pending()
    }
}

/// The phase after the first `count` of `events`, from the start of the loop.
pub open spec fn phase_after(events: Seq<LoopEvent>, count: int) -> Phase
    decreases count,
{
    if count <= 0 {
        Phase::Drain
    } else {
        phase_after(events, count - 1).next(events[count - 1])
    }
}

/// Runs the loop over a recorded sequence of events and returns the actions
/// that it asked for: the first on entry, then one after each event, up to
/// the action that leaves the loop or to the end of the events.
pub fn main_loop(events: &Vec<LoopEvent>) -> (actions: Vec<LoopAction>)
    ensures
        1 <= actions.len() <= events.len() + 1,
        forall|taken: int|
            0 <= taken < actions.len() ==> #[trigger] actions[taken] == phase_after(
                events@,
                taken,
            ).action(),
        forall|taken: int|
            0 <= taken < actions.len() - 1 ==> !(#[trigger] phase_after(events@, taken)).is_terminal(),
        actions.len() == events.len() + 1 || phase_after(events@, actions.len() - 1).is_terminal(),
{
    let mut phase = Phase::start();
    let mut actions: Vec<LoopAction> = Vec::new();
    actions.push(phase.pending());
    let mut taken: usize = 0;
    while taken < events.len() && !phase.has_ended()
        invariant
            taken <= events.len(),
            actions.len() == taken + 1,
            phase == phase_after(events@, taken as int),
            forall|earlier: int|
                0 <= earlier < actions.len() ==> #[trigger] actions[earlier] == phase_after(
                    events@,
                    earlier,
                ).action(),
            forall|earlier: int|
                0 <= earlier < taken ==> !(#[trigger] phase_after(events@, earlier)).is_terminal(),
        decreases events.len() - taken,
    {
        let action = phase.step(events[taken]);
        actions.push(action);
        taken += 1;
    }
    actions
}

/// Whether a phase is one that a loop can be in after a close request was
/// read: taking the rest of the input, or ended.
pub open spec fn is_after_close(phase: Phase) -> bool {
    phase == Phase::Closing || phase == Phase::Closed || phase == Phase::Failed
}

/// After a close request was read while the input was drained, no image is
/// acquired, drawn into or presented any more: the loop only takes input
/// events, or has ended.
pub proof fn lemma_close_ends_the_loop(events: Seq<LoopEvent>, seen: int, later: int)
    requires
        0 <= seen < later,
        phase_after(events, seen) == Phase::Drain,
        events[seen] == LoopEvent::Input(WindowEvent::CloseRequested),
    ensures
        is_after_close(phase_after(events, later)),
        phase_after(events, later) != Phase::Acquire,
        !(phase_after(events, later) is Draw),
        !(phase_after(events, later) is Present),
        phase_after(events, later).action() != LoopAction::AcquireImage,
        !(phase_after(events, later).action() is DrawFrame),
        !(phase_after(events, later).action() is PresentImage),
    decreases later - seen,
{
    if later > seen + 1 {
        lemma_close_ends_the_loop(events, seen, later - 1);
    }
}

/// After a close request was read while the input was drained, every input
/// event that is pending behind it is still asked for, and the loop is
/// closed as soon as the input is drained, and stays so.
pub proof fn lemma_close_drains_the_input(
    events: Seq<LoopEvent>,
    seen: int,
    drained: int,
    later: int,
)
    requires
        0 <= seen < drained < later,
        phase_after(events, seen) == Phase::Drain,
        events[seen] == LoopEvent::Input(WindowEvent::CloseRequested),
        forall|between: int| seen < between < drained ==> events[between] is Input,
        events[drained] == LoopEvent::Drained,
    ensures
        forall|between: int|
            seen < between <= drained ==> #[trigger] phase_after(events, between)
                == Phase::Closing,
        forall|between: int|
            seen <= between <= drained ==> #[trigger] phase_after(events, between).action()
                == LoopAction::PollInput,
        phase_after(events, later) == Phase::Closed,
        phase_after(events, later).action() == LoopAction::Exit(Outcome::Closed),
    decreases later - seen,
{
    assert forall|between: int| seen < between <= drained implies #[trigger] phase_after(
        events,
        between,
    ) == Phase::Closing by {
        lemma_closing_until_drained(events, seen, drained, between);
    }
    if later > drained + 1 {
        lemma_close_drains_the_input(events, seen, drained, later - 1);
    }
}

/// While only input events follow a close request, the loop is closing.
proof fn lemma_closing_until_drained(events: Seq<LoopEvent>, seen: int, drained: int, between: int)
    requires
        0 <= seen < between <= drained,
        phase_after(events, seen) == Phase::Drain,
        events[seen] == LoopEvent::Input(WindowEvent::CloseRequested),
        forall|earlier: int| seen < earlier < drained ==> events[earlier] is Input,
    ensures
        phase_after(events, between) == Phase::Closing,
    decreases between - seen,
{
    if between > seen + 1 {
        lemma_closing_until_drained(events, seen, drained, between - 1);
    }
}

/// An image is acquired only after the input was drained to its end
/// without a close request.
pub proof fn lemma_acquire_follows_drain(events: Seq<LoopEvent>, count: int)
    requires
        phase_after(events, count) == Phase::Acquire,
    ensures
        count >= 1,
        phase_after(events, count - 1) == Phase::Drain,
        events[count - 1] == LoopEvent::Drained,
{
}

/// An image is drawn into only right after it was acquired, and presented
/// only right after it was drawn into.
pub proof fn lemma_frame_order(events: Seq<LoopEvent>, count: int, image: u32)
    requires
        phase_after(events, count) == (Phase::Present { image }),
    ensures
        count >= 3,
        events[count - 1] == LoopEvent::Drawn,
        phase_after(events, count - 1) == (Phase::Draw { image }),
        events[count - 2] == LoopEvent::Acquired(image),
        phase_after(events, count - 2) == Phase::Acquire,
{
    reveal_with_fuel(phase_after, 3);
}

/// A loop that has ended stays as it ended, whatever comes.
pub proof fn lemma_ended_stays_ended(phase: Phase, event: LoopEvent)
    requires
        phase.is_terminal(),
    ensures
        phase.next(event) == phase,
{
}

} // verus!
