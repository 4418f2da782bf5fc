use xr_session::fault::{FrameFault, RuntimeCall, RuntimeFault};
use xr_session::frame::{
    check_view_count, close_frame, FrameCall, FrameInput, FrameMachine, FrameOutcome, FrameStage,
    EYES, REFRESH_QUANTUM_MILLIS,
};
use xr_session::lifecycle::{RuntimeEvent, RuntimeState, SessionAction, SessionPhase};
use xr_session::swapchain::{plan_swapchains, SetupFault, ViewConfig};

/// How the calls of one frame are answered.
struct Answers {
    should_render: bool,
    fail: Option<FrameCall>,
    left_draw_fails: bool,
    right_draw_fails: bool,
}

impl Answers {
    fn fine(should_render: bool) -> Answers {
        Answers { should_render, fail: None, left_draw_fails: false, right_draw_fails: false }
    }

    fn failing(call: FrameCall) -> Answers {
        Answers { should_render: true, fail: Some(call), left_draw_fails: false, right_draw_fails: false }
    }

    fn to(&self, call: FrameCall) -> FrameInput {
        if self.fail == Some(call) {
            return FrameInput::Failed;
        }
        match call {
            FrameCall::WaitFrame => FrameInput::FrameReady { should_render: self.should_render },
            FrameCall::Draw { eye: 0 } if self.left_draw_fails => FrameInput::Failed,
            FrameCall::Draw { eye: 1 } if self.right_draw_fails => FrameInput::Failed,
            _ => FrameInput::Completed,
        }
    }
}

/// Drives one frame and returns every call the machine asked for.
fn drive(machine: &mut FrameMachine, running: bool, answers: &Answers) -> Vec<FrameCall> {
    let mut calls = Vec::new();
    let mut call = machine.step(FrameInput::Tick { running });
    calls.push(call);
    while !call.is_last() {
        assert!(calls.len() <= 16, "a frame takes at most sixteen calls");
        call = machine.step(answers.to(call));
        calls.push(call);
    }
    calls
}

fn rendered_calls(create: bool, draw_failed: bool) -> Vec<FrameCall> {
    let mut calls = vec![FrameCall::WaitFrame, FrameCall::BeginFrame];
    if create {
        calls.push(FrameCall::CreateSwapchains);
    }
    calls.extend([
        FrameCall::SyncActions,
        FrameCall::LocateViews,
        FrameCall::AcquireImage { eye: 0 },
        FrameCall::WaitImage { eye: 0 },
        FrameCall::Draw { eye: 0 },
        FrameCall::ReleaseImage { eye: 0 },
        FrameCall::AcquireImage { eye: 1 },
        FrameCall::WaitImage { eye: 1 },
        FrameCall::Draw { eye: 1 },
        FrameCall::ReleaseImage { eye: 1 },
        FrameCall::EndFrame { projection: true },
        FrameCall::Complete { rendered: true, draw_failed },
    ]);
    calls
}

fn skipped_calls() -> Vec<FrameCall> {
    vec![
        FrameCall::WaitFrame,
        FrameCall::BeginFrame,
        FrameCall::EndFrame { projection: false },
        FrameCall::Complete { rendered: false, draw_failed: false },
    ]
}

fn count(calls: &[FrameCall], wanted: FrameCall) -> usize {
    calls.iter().filter(|call| **call == wanted).count()
}

fn is_end(call: &FrameCall) -> bool {
    matches!(call, FrameCall::EndFrame { .. })
}

/// Checks that begin and end alternate, starting with a begin.
fn strictly_paired(calls: &[FrameCall]) -> bool {
    let mut open = false;
    for call in calls {
        if *call == FrameCall::BeginFrame {
            if open {
                return false;
            }
            open = true;
        } else if is_end(call) {
            if !open {
                return false;
            }
            open = false;
        }
    }
    !open
}

#[test]
fn the_refresh_quantum_is_a_sixtieth_of_a_second_in_whole_milliseconds() {
    assert_eq!(REFRESH_QUANTUM_MILLIS, 16);
    assert_eq!(EYES, 2);
}

#[test]
fn a_new_machine_rests_without_swapchains() {
    let machine = FrameMachine::new();
    assert_eq!(machine.stage(), FrameStage::Idle);
    assert!(machine.at_rest());
    assert!(!machine.swapchains_ready());
}

#[test]
fn a_tick_while_not_running_sleeps_and_touches_nothing() {
    let mut machine = FrameMachine::new();
    for _ in 0..3 {
        let calls = drive(&mut machine, false, &Answers::fine(true));
        assert_eq!(calls, vec![FrameCall::Sleep { millis: 16 }]);
        assert!(machine.at_rest());
        assert!(!machine.swapchains_ready());
    }
}

#[test]
fn a_frame_that_is_not_to_be_rendered_begins_and_ends_empty() {
    let mut machine = FrameMachine::new();
    let calls = drive(&mut machine, true, &Answers::fine(false));
    assert_eq!(calls, skipped_calls());
    assert!(machine.at_rest());
    assert!(!machine.swapchains_ready());
}

#[test]
fn the_first_rendered_frame_creates_the_swapchains_and_draws_both_eyes() {
    let mut machine = FrameMachine::new();
    let calls = drive(&mut machine, true, &Answers::fine(true));
    assert_eq!(calls, rendered_calls(true, false));
    assert!(machine.at_rest());
    assert!(machine.swapchains_ready());
}

#[test]
fn later_rendered_frames_reuse_the_swapchains() {
    let mut machine = FrameMachine::new();
    drive(&mut machine, true, &Answers::fine(true));
    for _ in 0..5 {
        let calls = drive(&mut machine, true, &Answers::fine(true));
        assert_eq!(calls, rendered_calls(false, false));
        assert!(machine.swapchains_ready());
    }
}

#[test]
fn stages_follow_the_calls() {
    let mut machine = FrameMachine::new();
    let inputs = [
        (FrameInput::Tick { running: true }, FrameStage::Waiting),
        (FrameInput::FrameReady { should_render: true }, FrameStage::Beginning { should_render: true }),
        (FrameInput::Completed, FrameStage::Creating),
        (FrameInput::Completed, FrameStage::Syncing),
        (FrameInput::Completed, FrameStage::Locating),
        (FrameInput::Completed, FrameStage::Acquiring { eye: 0 }),
        (FrameInput::Completed, FrameStage::WaitingImage { eye: 0 }),
        (FrameInput::Completed, FrameStage::Drawing { eye: 0 }),
        (FrameInput::Completed, FrameStage::Releasing { eye: 0 }),
        (FrameInput::Completed, FrameStage::Acquiring { eye: 1 }),
        (FrameInput::Completed, FrameStage::WaitingImage { eye: 1 }),
        (FrameInput::Completed, FrameStage::Drawing { eye: 1 }),
        (FrameInput::Completed, FrameStage::Releasing { eye: 1 }),
        (FrameInput::Completed, FrameStage::Ending),
        (FrameInput::Completed, FrameStage::Idle),
    ];
    for (input, stage) in inputs {
        machine.step(input);
        assert_eq!(machine.stage(), stage);
        assert_eq!(machine.at_rest(), stage == FrameStage::Idle);
    }
}

#[test]
fn session_start_then_a_skipped_and_a_rendered_frame() {
    let mut phase = SessionPhase::Idle;
    let mut machine = FrameMachine::new();

    // Before the runtime is ready a tick only sleeps.
    assert_eq!(drive(&mut machine, phase.is_running(), &Answers::fine(true)),
        vec![FrameCall::Sleep { millis: 16 }]);

    // The runtime reports ready: the manager begins the session.
    let (announced, action) = phase.react(RuntimeEvent::SessionStateChanged(RuntimeState::Ready));
    assert_eq!(action, SessionAction::Begin);
    phase = announced.settle(action, true);
    assert_eq!(phase, SessionPhase::Running);

    // The next tick is not to be rendered: begin and end, no layer, no swapchain.
    let calls = drive(&mut machine, phase.is_running(), &Answers::fine(false));
    assert_eq!(calls, skipped_calls());
    assert_eq!(count(&calls, FrameCall::CreateSwapchains), 0);
    assert!(calls.iter().all(|call| !matches!(
        call,
        FrameCall::AcquireImage { .. }
            | FrameCall::WaitImage { .. }
            | FrameCall::Draw { .. }
            | FrameCall::ReleaseImage { .. }
    )));
    assert!(!machine.swapchains_ready());

    // The tick after is rendered: the swapchains are created once, two draws.
    let calls = drive(&mut machine, phase.is_running(), &Answers::fine(true));
    assert_eq!(count(&calls, FrameCall::CreateSwapchains), 1);
    let draws: Vec<&FrameCall> =
        calls.iter().filter(|call| matches!(call, FrameCall::Draw { .. })).collect();
    assert_eq!(draws, vec![&FrameCall::Draw { eye: 0 }, &FrameCall::Draw { eye: 1 }]);
    assert_eq!(calls.last(), Some(&FrameCall::Complete { rendered: true, draw_failed: false }));

    // Each eye is drawn into the rectangle of its own swapchain.
    let views = vec![
        ViewConfig { recommended_width: 1440, recommended_height: 1600, recommended_sample_count: 1 },
        ViewConfig { recommended_width: 1456, recommended_height: 1600, recommended_sample_count: 1 },
    ];
    let plans = plan_swapchains(&views, &vec![0x8C43]).unwrap();
    assert_eq!(plans.len(), 2);
    assert_ne!(plans[0].rect, plans[1].rect);

    // The swapchains are never created again.
    let calls = drive(&mut machine, phase.is_running(), &Answers::fine(true));
    assert_eq!(count(&calls, FrameCall::CreateSwapchains), 0);
}

#[test]
fn a_stop_request_ends_the_session_and_frames_cease_until_ready() {
    let mut phase = SessionPhase::Running;
    let mut machine = FrameMachine::new();
    assert_eq!(drive(&mut machine, phase.is_running(), &Answers::fine(true)),
        rendered_calls(true, false));

    let (announced, action) =
        phase.react(RuntimeEvent::SessionStateChanged(RuntimeState::Stopping));
    assert_eq!(action, SessionAction::End);
    phase = announced.settle(action, true);
    assert_eq!(phase, SessionPhase::Idle);

    for event in [
        RuntimeEvent::SessionStateChanged(RuntimeState::Idle),
        RuntimeEvent::Other,
        RuntimeEvent::EventsLost(1),
    ] {
        phase = phase.apply(event);
        let calls = drive(&mut machine, phase.is_running(), &Answers::fine(true));
        assert_eq!(calls, vec![FrameCall::Sleep { millis: 16 }]);
    }

    phase = phase.apply(RuntimeEvent::SessionStateChanged(RuntimeState::Ready));
    assert_eq!(phase, SessionPhase::Running);
    assert_eq!(drive(&mut machine, phase.is_running(), &Answers::fine(true)),
        rendered_calls(false, false));
}

#[test]
fn begin_and_end_pair_up_over_a_thousand_frames() {
    let mut machine = FrameMachine::new();
    let mut all = Vec::new();
    let mut seed: u32 = 0x2545_F491;
    let mut rendered = 0;
    for frame in 0..1000 {
        seed ^= seed << 13;
        seed ^= seed >> 17;
        seed ^= seed << 5;
        let should_render = seed & 1 == 1;
        let calls = drive(&mut machine, true, &Answers::fine(should_render));
        assert_eq!(count(&calls, FrameCall::BeginFrame), 1, "frame {frame}");
        assert_eq!(calls.iter().filter(|call| is_end(call)).count(), 1, "frame {frame}");
        assert!(strictly_paired(&calls));
        if should_render {
            rendered += 1;
            assert_eq!(calls, rendered_calls(rendered == 1, false));
        } else {
            assert_eq!(calls, skipped_calls());
        }
        all.extend(calls);
        assert!(machine.at_rest());
    }
    assert!(rendered > 0 && rendered < 1000);
    assert!(strictly_paired(&all));
    assert_eq!(count(&all, FrameCall::BeginFrame), 1000);
    assert_eq!(all.iter().filter(|call| is_end(call)).count(), 1000);
    assert_eq!(count(&all, FrameCall::EndFrame { projection: true }), rendered);
    assert_eq!(count(&all, FrameCall::CreateSwapchains), 1);
}

#[test]
fn begin_and_end_pair_up_for_every_pattern_of_short_runs() {
    for frames in 1..=8u32 {
        for pattern in 0..(1u32 << frames) {
            let mut machine = FrameMachine::new();
            let mut all = Vec::new();
            for frame in 0..frames {
                let should_render = pattern >> frame & 1 == 1;
                all.extend(drive(&mut machine, true, &Answers::fine(should_render)));
            }
            assert!(strictly_paired(&all));
            assert_eq!(count(&all, FrameCall::BeginFrame), frames as usize);
            assert!(count(&all, FrameCall::CreateSwapchains) <= 1);
            assert_eq!(count(&all, FrameCall::CreateSwapchains) == 1, pattern != 0);
        }
    }
}

#[test]
fn a_failed_draw_is_still_followed_by_the_release() {
    for (left, right) in [(true, false), (false, true), (true, true)] {
        let mut machine = FrameMachine::new();
        let answers = Answers {
            should_render: true,
            fail: None,
            left_draw_fails: left,
            right_draw_fails: right,
        };
        let calls = drive(&mut machine, true, &answers);
        assert_eq!(calls, rendered_calls(true, true));
        for eye in 0..2 {
            assert_eq!(count(&calls, FrameCall::AcquireImage { eye }), 1);
            assert_eq!(count(&calls, FrameCall::ReleaseImage { eye }), 1);
            let draw = calls.iter().position(|call| *call == FrameCall::Draw { eye }).unwrap();
            assert_eq!(calls[draw + 1], FrameCall::ReleaseImage { eye });
        }
        assert!(machine.at_rest());

        // The fault does not carry over to the next frame.
        let calls = drive(&mut machine, true, &Answers::fine(true));
        assert_eq!(calls, rendered_calls(false, false));
    }
}

#[test]
fn whatever_a_draw_reports_the_image_is_released() {
    let reports = [
        FrameInput::Completed,
        FrameInput::Failed,
        FrameInput::Tick { running: true },
        FrameInput::Tick { running: false },
        FrameInput::FrameReady { should_render: true },
        FrameInput::FrameReady { should_render: false },
    ];
    for report in reports {
        let mut machine = FrameMachine::new();
        let mut call = machine.step(FrameInput::Tick { running: true });
        let answers = Answers::fine(true);
        while call != (FrameCall::Draw { eye: 0 }) {
            call = machine.step(answers.to(call));
        }
        assert_eq!(machine.step(report), FrameCall::ReleaseImage { eye: 0 });
        assert_eq!(machine.stage(), FrameStage::Releasing { eye: 0 });
    }
}

#[test]
fn every_acquire_has_its_release_over_many_frames_with_failing_draws() {
    let mut machine = FrameMachine::new();
    let mut all = Vec::new();
    for frame in 0..200u32 {
        let answers = Answers {
            should_render: frame % 3 != 0,
            fail: None,
            left_draw_fails: frame % 5 == 0,
            right_draw_fails: frame % 7 == 0,
        };
        all.extend(drive(&mut machine, true, &answers));
    }
    for eye in 0..2 {
        let mut out = false;
        for call in &all {
            if *call == (FrameCall::AcquireImage { eye }) {
                assert!(!out);
                out = true;
            } else if *call == (FrameCall::ReleaseImage { eye }) {
                assert!(out);
                out = false;
            }
        }
        assert!(!out);
        assert_eq!(
            count(&all, FrameCall::AcquireImage { eye }),
            count(&all, FrameCall::ReleaseImage { eye })
        );
        assert_eq!(count(&all, FrameCall::Draw { eye }), count(&all, FrameCall::ReleaseImage { eye }));
    }
}

#[test]
fn a_failed_runtime_call_aborts_the_frame() {
    let failing = [
        FrameCall::WaitFrame,
        FrameCall::BeginFrame,
        FrameCall::CreateSwapchains,
        FrameCall::SyncActions,
        FrameCall::LocateViews,
        FrameCall::AcquireImage { eye: 0 },
        FrameCall::WaitImage { eye: 0 },
        FrameCall::ReleaseImage { eye: 0 },
        FrameCall::AcquireImage { eye: 1 },
        FrameCall::WaitImage { eye: 1 },
        FrameCall::ReleaseImage { eye: 1 },
        FrameCall::EndFrame { projection: true },
    ];
    for fail in failing {
        let mut machine = FrameMachine::new();
        let calls = drive(&mut machine, true, &Answers::failing(fail));
        let full = rendered_calls(true, false);
        let at = full.iter().position(|call| *call == fail).unwrap();
        let mut expected = full[..=at].to_vec();
        expected.push(FrameCall::Abort);
        assert_eq!(calls, expected);
        assert_eq!(machine.stage(), FrameStage::Failed);
        assert!(!machine.at_rest());
    }
}

#[test]
fn a_failed_end_of_a_skipped_frame_aborts() {
    let mut machine = FrameMachine::new();
    let answers = Answers {
        should_render: false,
        fail: Some(FrameCall::EndFrame { projection: false }),
        left_draw_fails: false,
        right_draw_fails: false,
    };
    let calls = drive(&mut machine, true, &answers);
    assert_eq!(
        calls,
        vec![
            FrameCall::WaitFrame,
            FrameCall::BeginFrame,
            FrameCall::EndFrame { projection: false },
            FrameCall::Abort,
        ]
    );
    assert_eq!(machine.stage(), FrameStage::Failed);
}

#[test]
fn a_machine_that_failed_drives_no_more_frames() {
    let mut machine = FrameMachine::new();
    drive(&mut machine, true, &Answers::failing(FrameCall::SyncActions));
    let inputs = [
        FrameInput::Tick { running: true },
        FrameInput::Tick { running: false },
        FrameInput::FrameReady { should_render: true },
        FrameInput::Completed,
        FrameInput::Failed,
    ];
    for input in inputs {
        assert_eq!(machine.step(input), FrameCall::Abort);
        assert_eq!(machine.stage(), FrameStage::Failed);
    }
}

#[test]
fn an_answer_without_a_call_aborts() {
    for input in [
        FrameInput::Completed,
        FrameInput::Failed,
        FrameInput::FrameReady { should_render: true },
    ] {
        let mut machine = FrameMachine::new();
        assert_eq!(machine.step(input), FrameCall::Abort);
        assert_eq!(machine.stage(), FrameStage::Failed);
    }
}

#[test]
fn an_input_that_does_not_answer_the_call_aborts() {
    let mut machine = FrameMachine::new();
    assert_eq!(machine.step(FrameInput::Tick { running: true }), FrameCall::WaitFrame);
    assert_eq!(machine.step(FrameInput::Completed), FrameCall::Abort);

    let mut machine = FrameMachine::new();
    machine.step(FrameInput::Tick { running: true });
    assert_eq!(machine.step(FrameInput::FrameReady { should_render: true }), FrameCall::BeginFrame);
    assert_eq!(machine.step(FrameInput::Tick { running: true }), FrameCall::Abort);

    let mut machine = FrameMachine::new();
    machine.step(FrameInput::Tick { running: true });
    machine.step(FrameInput::FrameReady { should_render: false });
    assert_eq!(machine.step(FrameInput::FrameReady { should_render: false }), FrameCall::Abort);
}

#[test]
fn only_the_closing_calls_are_last() {
    assert!(FrameCall::Sleep { millis: 16 }.is_last());
    assert!(FrameCall::Complete { rendered: true, draw_failed: false }.is_last());
    assert!(FrameCall::Abort.is_last());
    for call in rendered_calls(true, false) {
        assert_eq!(call.is_last(), matches!(call, FrameCall::Complete { .. }));
    }
}

#[test]
fn a_frame_closes_on_its_outcome_or_on_a_fault() {
    let fault = FrameFault::Runtime(RuntimeFault { call: RuntimeCall::WaitFrame, code: -1 });
    assert_eq!(
        close_frame(FrameCall::Sleep { millis: 16 }, None),
        Ok(FrameOutcome::NotRunning { sleep_millis: 16 })
    );
    assert_eq!(
        close_frame(FrameCall::Complete { rendered: false, draw_failed: false }, None),
        Ok(FrameOutcome::Skipped)
    );
    assert_eq!(
        close_frame(FrameCall::Complete { rendered: true, draw_failed: false }, None),
        Ok(FrameOutcome::Rendered { draw_failed: false })
    );
    assert_eq!(
        close_frame(FrameCall::Complete { rendered: true, draw_failed: true }, None),
        Ok(FrameOutcome::Rendered { draw_failed: true })
    );
    assert_eq!(close_frame(FrameCall::Abort, Some(fault)), Err(fault));
    assert_eq!(close_frame(FrameCall::Abort, None), Err(FrameFault::Halted));
    assert_eq!(
        close_frame(FrameCall::Abort, Some(FrameFault::ImageIndex { eye: 1, index: 9 })),
        Err(FrameFault::ImageIndex { eye: 1, index: 9 })
    );
    assert_eq!(
        close_frame(FrameCall::Abort, Some(FrameFault::Setup(SetupFault::FormatUnsupported))),
        Err(FrameFault::Setup(SetupFault::FormatUnsupported))
    );
}

#[test]
fn a_machine_that_failed_earlier_closes_frames_as_halted() {
    let mut machine = FrameMachine::new();
    drive(&mut machine, true, &Answers::failing(FrameCall::BeginFrame));
    let calls = drive(&mut machine, true, &Answers::fine(true));
    assert_eq!(calls, vec![FrameCall::Abort]);
    assert_eq!(close_frame(calls[0], None), Err(FrameFault::Halted));
}

#[test]
fn located_views_must_be_one_per_eye() {
    assert_eq!(check_view_count(2), Ok(()));
    assert_eq!(check_view_count(0), Err(FrameFault::ViewCount { found: 0 }));
    assert_eq!(check_view_count(1), Err(FrameFault::ViewCount { found: 1 }));
    assert_eq!(check_view_count(3), Err(FrameFault::ViewCount { found: 3 }));
    assert_eq!(check_view_count(usize::MAX), Err(FrameFault::ViewCount { found: usize::MAX }));
}
