use bindless_sample::main_loop::{main_loop, LoopAction, LoopEvent, Outcome, Phase, WindowEvent};
use bindless_sample::{debugger, Debuggers, EnvChange};

#[test]
fn a_loop_starts_by_draining_the_input() {
    let phase = Phase::start();
    assert_eq!(phase, Phase::Drain);
    assert_eq!(phase.pending(), LoopAction::PollInput);
    assert!(!phase.has_ended());
    assert_eq!(main_loop(&vec![]), vec![LoopAction::PollInput]);
}

#[test]
fn a_frame_runs_through_its_four_phases() {
    let events = vec![
        LoopEvent::Input(WindowEvent::Other),
        LoopEvent::Input(WindowEvent::Other),
        LoopEvent::Drained,
        LoopEvent::Acquired(4),
        LoopEvent::Drawn,
        LoopEvent::Presented,
        LoopEvent::Drained,
    ];
    assert_eq!(
        main_loop(&events),
        vec![
            LoopAction::PollInput,
            LoopAction::PollInput,
            LoopAction::PollInput,
            LoopAction::AcquireImage,
            LoopAction::DrawFrame(4),
            LoopAction::PresentImage(4),
            LoopAction::PollInput,
            LoopAction::AcquireImage,
        ]
    );
}

#[test]
fn a_close_request_ends_the_loop_before_the_next_image() {
    let events = vec![
        LoopEvent::Drained,
        LoopEvent::Acquired(0),
        LoopEvent::Drawn,
        LoopEvent::Presented,
        LoopEvent::Input(WindowEvent::Other),
        LoopEvent::Input(WindowEvent::CloseRequested),
        LoopEvent::Input(WindowEvent::Other),
        LoopEvent::Drained,
        LoopEvent::Acquired(1),
        LoopEvent::Drawn,
        LoopEvent::Presented,
    ];
    let actions = main_loop(&events);
    assert_eq!(
        actions,
        vec![
            LoopAction::PollInput,
            LoopAction::AcquireImage,
            LoopAction::DrawFrame(0),
            LoopAction::PresentImage(0),
            LoopAction::PollInput,
            LoopAction::PollInput,
            // The close request was read: the input behind it is still taken.
            LoopAction::PollInput,
            LoopAction::PollInput,
            LoopAction::Exit(Outcome::Closed),
        ]
    );
    assert_eq!(actions.iter().filter(|action| **action == LoopAction::AcquireImage).count(), 1);
}

#[test]
fn the_input_behind_a_close_request_is_still_taken() {
    let events = vec![
        LoopEvent::Input(WindowEvent::Other),
        LoopEvent::Input(WindowEvent::CloseRequested),
        LoopEvent::Input(WindowEvent::Other),
        LoopEvent::Drained,
    ];
    assert_eq!(
        main_loop(&events),
        vec![
            LoopAction::PollInput,
            LoopAction::PollInput,
            LoopAction::PollInput,
            LoopAction::PollInput,
            LoopAction::Exit(Outcome::Closed),
        ]
    );
    // A second close request behind the first changes nothing.
    let events = vec![
        LoopEvent::Input(WindowEvent::CloseRequested),
        LoopEvent::Input(WindowEvent::CloseRequested),
        LoopEvent::Input(WindowEvent::Other),
        LoopEvent::Drained,
    ];
    assert_eq!(
        main_loop(&events),
        vec![
            LoopAction::PollInput,
            LoopAction::PollInput,
            LoopAction::PollInput,
            LoopAction::PollInput,
            LoopAction::Exit(Outcome::Closed),
        ]
    );
}

#[test]
fn a_close_request_at_once_draws_nothing() {
    let events = vec![LoopEvent::Input(WindowEvent::CloseRequested), LoopEvent::Drained];
    assert_eq!(
        main_loop(&events),
        vec![LoopAction::PollInput, LoopAction::PollInput, LoopAction::Exit(Outcome::Closed)]
    );
}

#[test]
fn a_closing_loop_waits_for_the_end_of_the_input_only() {
    for event in [LoopEvent::Acquired(3), LoopEvent::Drawn, LoopEvent::Presented, LoopEvent::Failed] {
        let mut phase = Phase::Closing;
        assert!(!phase.has_ended());
        assert_eq!(phase.pending(), LoopAction::PollInput);
        assert_eq!(phase.step(event), LoopAction::Exit(Outcome::Failed));
        assert_eq!(phase, Phase::Failed);
    }
    let mut phase = Phase::Closing;
    assert_eq!(phase.step(LoopEvent::Input(WindowEvent::Other)), LoopAction::PollInput);
    assert_eq!(phase, Phase::Closing);
    assert_eq!(phase.step(LoopEvent::Input(WindowEvent::CloseRequested)), LoopAction::PollInput);
    assert_eq!(phase, Phase::Closing);
    assert_eq!(phase.step(LoopEvent::Drained), LoopAction::Exit(Outcome::Closed));
    assert_eq!(phase, Phase::Closed);
}

#[test]
fn a_closed_loop_stays_closed() {
    let mut phase = Phase::start();
    assert_eq!(phase.step(LoopEvent::Input(WindowEvent::CloseRequested)), LoopAction::PollInput);
    assert_eq!(phase, Phase::Closing);
    assert!(!phase.has_ended());
    assert_eq!(phase.step(LoopEvent::Drained), LoopAction::Exit(Outcome::Closed));
    assert!(phase.has_ended());
    for event in [
        LoopEvent::Input(WindowEvent::Other),
        LoopEvent::Drained,
        LoopEvent::Acquired(3),
        LoopEvent::Drawn,
        LoopEvent::Presented,
        LoopEvent::Failed,
    ] {
        assert_eq!(phase.step(event), LoopAction::Exit(Outcome::Closed));
        assert_eq!(phase, Phase::Closed);
    }
}

#[test]
fn a_failure_ends_the_loop() {
    for failing in 1..4 {
        let mut events = vec![
            LoopEvent::Drained,
            LoopEvent::Acquired(0),
            LoopEvent::Drawn,
            LoopEvent::Presented,
        ];
        events[failing] = LoopEvent::Failed;
        let actions = main_loop(&events);
        assert_eq!(actions.len(), failing + 2);
        assert_eq!(actions[failing + 1], LoopAction::Exit(Outcome::Failed));
    }
    let mut phase = Phase::Failed;
    assert!(phase.has_ended());
    assert_eq!(phase.step(LoopEvent::Drained), LoopAction::Exit(Outcome::Failed));
    assert_eq!(phase, Phase::Failed);
}

#[test]
fn an_event_out_of_turn_is_a_failure() {
    let mut phase = Phase::Drain;
    assert_eq!(phase.step(LoopEvent::Acquired(0)), LoopAction::Exit(Outcome::Failed));
    let mut phase = Phase::Acquire;
    assert_eq!(
        phase.step(LoopEvent::Input(WindowEvent::CloseRequested)),
        LoopAction::Exit(Outcome::Failed)
    );
    let mut phase = Phase::Draw { image: 1 };
    assert_eq!(phase.step(LoopEvent::Presented), LoopAction::Exit(Outcome::Failed));
    let mut phase = Phase::Present { image: 1 };
    assert_eq!(phase.step(LoopEvent::Drawn), LoopAction::Exit(Outcome::Failed));
}

#[test]
fn each_phase_asks_for_its_action() {
    assert_eq!(Phase::Drain.pending(), LoopAction::PollInput);
    assert_eq!(Phase::Closing.pending(), LoopAction::PollInput);
    assert_eq!(Phase::Acquire.pending(), LoopAction::AcquireImage);
    assert_eq!(Phase::Draw { image: 7 }.pending(), LoopAction::DrawFrame(7));
    assert_eq!(Phase::Present { image: 7 }.pending(), LoopAction::PresentImage(7));
    assert_eq!(Phase::Closed.pending(), LoopAction::Exit(Outcome::Closed));
    assert_eq!(Phase::Failed.pending(), LoopAction::Exit(Outcome::Failed));
}

#[test]
fn the_validation_layer_is_the_tool_in_use() {
    assert_eq!(debugger(), Debuggers::Validation);
}

#[test]
fn only_frame_capture_changes_the_environment() {
    assert_eq!(Debuggers::Off.environment(), vec![]);
    assert_eq!(Debuggers::Validation.environment(), vec![]);
    assert_eq!(
        Debuggers::RenderDoc.environment(),
        vec![EnvChange::RemoveWaylandDisplay, EnvChange::EnableRenderDocCapture]
    );
}
