use whisper::editor::EditorController;
use whisper::editor::EDITOR_HEIGHT;
use whisper::editor::EDITOR_WIDTH;
use whisper::gui::GuiAction;
use whisper::gui::GuiDriver;
use whisper::gui::GuiEvent;
use whisper::gui::Phase;
use whisper::gui::ResumeInput;
use whisper::gui::StepOutcome;
use whisper::params::WhisperParameters;
use whisper::params::VOLUME_INDEX;

fn setup_ok() -> ResumeInput {
    ResumeInput::Setup { acquired: true, width: EDITOR_WIDTH, height: EDITOR_HEIGHT }
}

fn poll(events: Vec<GuiEvent>) -> ResumeInput {
    ResumeInput::Poll { events }
}

#[test]
fn first_resume_sets_up_runs_and_renders_one_frame() {
    let params = WhisperParameters::new();
    let mut driver = GuiDriver::new();
    assert_eq!(driver.phase, Phase::Uninitialized);

    let (outcome, action) = driver.resume(&setup_ok(), &params);
    assert_eq!(outcome, StepOutcome::Suspended);
    assert_eq!(action, Some(GuiAction::RenderFrame));
    assert_eq!(driver.phase, Phase::Running);
    assert_eq!(driver.viewport.width, EDITOR_WIDTH);
    assert_eq!(driver.viewport.height, EDITOR_HEIGHT);
}

#[test]
fn failed_setup_completes_with_nothing_to_release() {
    let params = WhisperParameters::new();
    let mut driver = GuiDriver::new();
    let (outcome, action) =
        driver.resume(&ResumeInput::Setup { acquired: false, width: 0, height: 0 }, &params);
    assert_eq!(outcome, StepOutcome::Completed);
    assert_eq!(action, None);
    assert_eq!(driver.phase, Phase::Completed);
}

#[test]
fn each_running_resume_renders_exactly_one_frame() {
    let params = WhisperParameters::new();
    let mut driver = GuiDriver::new();
    driver.resume(&setup_ok(), &params);
    for _ in 0..5 {
        let (outcome, action) = driver.resume(&poll(vec![GuiEvent::Other]), &params);
        assert_eq!(outcome, StepOutcome::Suspended);
        assert_eq!(action, Some(GuiAction::RenderFrame));
    }
}

#[test]
fn resize_recomputes_the_viewport_last_one_wins() {
    let params = WhisperParameters::new();
    let mut driver = GuiDriver::new();
    driver.resume(&setup_ok(), &params);
    driver.resume(
        &poll(vec![
            GuiEvent::Resized { width: 100, height: 50 },
            GuiEvent::Other,
            GuiEvent::Resized { width: 800, height: 400 },
        ]),
        &params,
    );
    assert_eq!(driver.viewport.width, 800);
    assert_eq!(driver.viewport.height, 400);
}

#[test]
fn volume_changes_reach_the_shared_store_in_order() {
    let params = WhisperParameters::new();
    let mut driver = GuiDriver::new();
    driver.resume(&setup_ok(), &params);
    let first = 0.25f32.to_bits();
    let last = 0.75f32.to_bits();
    driver.resume(
        &poll(vec![
            GuiEvent::VolumeChanged { bits: first },
            GuiEvent::VolumeChanged { bits: last },
        ]),
        &params,
    );
    assert_eq!(params.get_parameter(VOLUME_INDEX), last);
}

#[test]
fn close_request_completes_and_releases_exactly_once() {
    let params = WhisperParameters::new();
    let mut driver = GuiDriver::new();
    driver.resume(&setup_ok(), &params);

    let (outcome, action) = driver.resume(&poll(vec![GuiEvent::CloseRequested]), &params);
    assert_eq!(outcome, StepOutcome::Completed);
    assert_eq!(action, Some(GuiAction::ReleaseResources));
    assert_eq!(driver.phase, Phase::Completed);

    // Further resumes are no-ops: completed again, nothing released twice.
    for _ in 0..3 {
        let (outcome, action) = driver.resume(&poll(vec![GuiEvent::CloseRequested]), &params);
        assert_eq!(outcome, StepOutcome::Completed);
        assert_eq!(action, None);
        assert_eq!(driver.phase, Phase::Completed);
    }
}

#[test]
fn controller_reports_fixed_geometry() {
    let controller = EditorController::new();
    assert_eq!(controller.size(), (600, 300));
    assert_eq!(controller.position(), (0, 0));
}

#[test]
fn idle_without_a_session_is_a_no_op() {
    let params = WhisperParameters::new();
    let mut controller = EditorController::new();
    assert!(!controller.is_open());
    assert_eq!(controller.idle(&poll(vec![]), &params), None);
    assert!(!controller.is_open());
}

#[test]
fn open_installs_a_session_that_needs_setup() {
    let mut controller = EditorController::new();
    let action = controller.open();
    assert_eq!(action, None);
    assert!(controller.is_open());
    assert!(controller.needs_setup());
}

#[test]
fn failed_acquisition_leaves_no_half_constructed_session() {
    let params = WhisperParameters::new();
    let mut controller = EditorController::new();
    controller.open();
    let action = controller.idle(
        &ResumeInput::Setup { acquired: false, width: 0, height: 0 },
        &params,
    );
    assert_eq!(action, None);
    assert!(!controller.is_open());
}

#[test]
fn completed_session_is_discarded_by_the_observing_idle() {
    let params = WhisperParameters::new();
    let mut controller = EditorController::new();
    controller.open();
    controller.idle(&setup_ok(), &params);
    assert!(controller.is_open());

    let action = controller.idle(&poll(vec![GuiEvent::CloseRequested]), &params);
    assert_eq!(action, Some(GuiAction::ReleaseResources));
    assert!(!controller.is_open());
    assert_eq!(controller.idle(&poll(vec![]), &params), None);
}

#[test]
fn close_releases_a_running_session_and_only_that() {
    let params = WhisperParameters::new();
    let mut controller = EditorController::new();
    assert_eq!(controller.close(), None);

    controller.open();
    assert_eq!(controller.close(), None); // never set up: nothing acquired

    controller.open();
    controller.idle(&setup_ok(), &params);
    assert_eq!(controller.close(), Some(GuiAction::ReleaseResources));
    assert!(!controller.is_open());
}

#[test]
fn open_over_open_keeps_acquisitions_and_releases_one_to_one() {
    let params = WhisperParameters::new();
    let mut controller = EditorController::new();
    let mut acquired: u32 = 0;
    let mut released: u32 = 0;

    // First open and setup: the adapter acquires the resources.
    controller.open();
    acquired += 1;
    controller.idle(&setup_ok(), &params);

    // Second open without an intervening close: the prior running session
    // must be torn down, not leaked.
    if controller.open() == Some(GuiAction::ReleaseResources) {
        released += 1;
    }
    assert_eq!((acquired, released), (1, 1));
    assert!(controller.needs_setup());

    acquired += 1;
    controller.idle(&setup_ok(), &params);

    // The second session is the only one alive; closing it balances the books.
    if controller.close() == Some(GuiAction::ReleaseResources) {
        released += 1;
    }
    assert_eq!((acquired, released), (2, 2));
}
