use nesmulator_gui::backpressure::{producing_after, AUDIO_QUEUE_FLOOR};
use nesmulator_gui::command::{target_frame_micros, Message};
use nesmulator_gui::driver::{
    failure_is_fatal, step, DriverState, Effect, MachineOp, PersistOp, SurfaceOp,
    DEBUG_WINDOW_HEIGHT, DEBUG_WINDOW_WIDTH, MAIN_WINDOW_HEIGHT,
};
use nesmulator_gui::pacer::sleep_micros;
use nesmulator_gui::Mailbox;

const NTSC_FRAME_MICROS: u64 = 16_639;

#[test]
fn mailbox_delivers_in_submission_order() {
    let mut mailbox = Mailbox::new();
    assert_eq!(mailbox.len(), 0);
    assert!(mailbox.poll().is_none());
    mailbox.send(Message::Reset);
    mailbox.send(Message::DrawFrame);
    mailbox.send(Message::ToggleDebugWindow);
    assert_eq!(mailbox.len(), 3);
    assert!(matches!(mailbox.poll(), Some(Message::Reset)));
    assert!(matches!(mailbox.poll(), Some(Message::DrawFrame)));
    assert!(matches!(mailbox.poll(), Some(Message::ToggleDebugWindow)));
    assert!(mailbox.poll().is_none());
}

#[test]
fn at_most_one_command_per_clock_step() {
    let mut state = DriverState::new(NTSC_FRAME_MICROS);
    let mut mailbox = Mailbox::new();
    mailbox.send(Message::DrawFrame);
    mailbox.send(Message::Reset);
    mailbox.send(Message::DrawFrame);

    let plan = step(&mut state, &mut mailbox, false, 0, false);
    assert!(matches!(plan.effect, Some(Effect::Surface(SurfaceOp::Redraw))));
    assert_eq!(mailbox.len(), 2);

    let plan = step(&mut state, &mut mailbox, false, 0, false);
    assert!(matches!(plan.effect, Some(Effect::Machine(MachineOp::Reset))));
    assert_eq!(mailbox.len(), 1);

    let plan = step(&mut state, &mut mailbox, false, 0, false);
    assert!(matches!(plan.effect, Some(Effect::Surface(SurfaceOp::Redraw))));
    assert_eq!(mailbox.len(), 0);

    let plan = step(&mut state, &mut mailbox, false, 0, false);
    assert!(plan.effect.is_none());
    assert_eq!(mailbox.len(), 0);
    assert!(state.running);
}

#[test]
fn close_app_exits_after_one_step_with_a_save_attempt() {
    let mut state = DriverState::new(NTSC_FRAME_MICROS);
    let mut mailbox = Mailbox::new();
    mailbox.send(Message::CloseApp);

    // Even with a frame completed this very step, the terminal command wins.
    let plan = step(&mut state, &mut mailbox, true, 0, true);
    assert!(matches!(plan.effect, Some(Effect::SaveAndExit)));
    assert!(!state.running);
    assert!(!plan.handle_frame);
    assert!(!plan.advance_timestamp);
    assert!(plan.set_producing.is_none());
    assert_eq!(mailbox.len(), 0);
}

#[test]
fn dispatch_effects_match_each_command() {
    let mut state = DriverState::new(NTSC_FRAME_MICROS);

    let effect = state.handle_message(Message::Input(0, 0b1001_0000));
    assert!(matches!(effect, Effect::Machine(MachineOp::Input(0, 0b1001_0000))));

    let effect = state.handle_message(Message::ChangePaletteId(5));
    assert!(matches!(effect, Effect::Machine(MachineOp::SetPaletteId(5))));

    let effect = state.handle_message(Message::ResizeWindow(800, 600));
    assert!(matches!(effect, Effect::Surface(SurfaceOp::ResizeSurface(800, 600))));

    let effect = state.handle_message(Message::SaveState(String::from("game.data")));
    match effect {
        Effect::Persist(PersistOp::SaveState(path)) => assert_eq!(path, "game.data"),
        _ => panic!("state save must be a persistence request"),
    }

    let effect = state.handle_message(Message::Save(String::from("game.sav")));
    match effect {
        Effect::Persist(PersistOp::Save(path)) => assert_eq!(path, "game.sav"),
        _ => panic!("game save must be a persistence request"),
    }
}

#[test]
fn toggling_debug_resizes_the_buffer_both_ways() {
    let mut state = DriverState::new(NTSC_FRAME_MICROS);
    assert!(!state.debug);

    let effect = state.handle_message(Message::ToggleDebugWindow);
    assert!(state.debug);
    assert!(matches!(
        effect,
        Effect::Surface(SurfaceOp::ResizeBuffer(DEBUG_WINDOW_WIDTH, DEBUG_WINDOW_HEIGHT))
    ));

    let effect = state.handle_message(Message::ToggleDebugWindow);
    assert!(!state.debug);
    assert!(matches!(
        effect,
        Effect::Surface(SurfaceOp::ResizeBuffer(DEBUG_WINDOW_WIDTH, MAIN_WINDOW_HEIGHT))
    ));
}

#[test]
fn debug_window_is_138_rows_taller() {
    assert_eq!(DEBUG_WINDOW_WIDTH, 256);
    assert_eq!(MAIN_WINDOW_HEIGHT, 240);
    assert_eq!(DEBUG_WINDOW_HEIGHT, 240 + 2 + 128 + 2 + 6);
    // The overlay fills exactly the rows the debug window adds.
    assert_eq!(
        nesmulator_gui::compositor::DEBUG_BUFFER_CELLS,
        ((DEBUG_WINDOW_HEIGHT - MAIN_WINDOW_HEIGHT) * DEBUG_WINDOW_WIDTH) as usize
    );
}

#[test]
fn speed_change_recomputes_target_and_is_idempotent() {
    let mut state = DriverState::new(16_667);
    assert_eq!(state.target_frame_micros, 16_667);

    let effect = state.handle_message(Message::ChangeEmulationSpeed(2_000));
    assert!(matches!(effect, Effect::Nothing));
    assert_eq!(state.target_frame_micros, 8_333);

    // The same factor again computes from the base duration, not the target.
    state.handle_message(Message::ChangeEmulationSpeed(2_000));
    assert_eq!(state.target_frame_micros, 8_333);

    state.handle_message(Message::ChangeEmulationSpeed(500));
    assert_eq!(state.target_frame_micros, 33_334);

    state.handle_message(Message::ChangeEmulationSpeed(1_000));
    assert_eq!(state.target_frame_micros, 16_667);
}

#[test]
fn zero_speed_factor_is_clamped_not_unbounded() {
    assert_eq!(target_frame_micros(16_667, 0), 16_667_000);
    assert_eq!(target_frame_micros(16_667, 1), 16_667_000);
}

#[test]
fn backpressure_toggles_exactly_twice_over_one_crossing() {
    // Occupancy rises over the floor once, then falls below it once;
    // sampling exactly on the floor must change nothing.
    let trace: [u32; 5] = [10_000, 17_000, 18_000, AUDIO_QUEUE_FLOOR, 16_000];
    // 17,000 is still below the 17,640 floor; only 18,000 crosses it.
    let mut producing = true;
    let mut toggles: u32 = 0;
    let mut flags: Vec<bool> = Vec::new();
    for occupancy in trace {
        let next = producing_after(producing, occupancy);
        if next != producing {
            toggles += 1;
        }
        producing = next;
        flags.push(next);
    }
    assert_eq!(toggles, 2);
    assert_eq!(flags, vec![true, true, false, false, true]);
}

#[test]
fn backpressure_floor_value_and_equality_cases() {
    assert_eq!(AUDIO_QUEUE_FLOOR, 17_640);
    assert!(producing_after(false, AUDIO_QUEUE_FLOOR - 1));
    assert!(!producing_after(true, AUDIO_QUEUE_FLOOR + 1));
    assert!(producing_after(true, AUDIO_QUEUE_FLOOR));
    assert!(!producing_after(false, AUDIO_QUEUE_FLOOR));
}

#[test]
fn pacer_sleeps_the_remainder_or_not_at_all() {
    assert_eq!(sleep_micros(5_000, 16_639), 11_639);
    assert_eq!(sleep_micros(16_639, 16_639), 0);
    assert_eq!(sleep_micros(20_000, 16_639), 0);
    assert_eq!(sleep_micros(0, 16_639), 16_639);
}

#[test]
fn timestamp_advances_whenever_a_frame_is_handled() {
    let mut state = DriverState::new(NTSC_FRAME_MICROS);
    let mut mailbox = Mailbox::new();

    // A slow frame (no sleep owed) still advances the reference timestamp.
    let plan = step(&mut state, &mut mailbox, true, 20_000, true);
    assert!(plan.handle_frame);
    assert!(plan.advance_timestamp);

    // Without a completed frame, nothing is paced.
    let plan = step(&mut state, &mut mailbox, false, 20_000, true);
    assert!(!plan.handle_frame);
    assert!(!plan.advance_timestamp);
}

#[test]
fn only_machine_dispatch_failures_are_fatal() {
    assert!(failure_is_fatal(&Effect::Machine(MachineOp::Reset)));
    assert!(failure_is_fatal(&Effect::Machine(MachineOp::Input(0, 0))));
    assert!(failure_is_fatal(&Effect::Machine(MachineOp::SetPaletteId(9))));
    assert!(!failure_is_fatal(&Effect::Persist(PersistOp::Save(String::from("game.sav")))));
    assert!(!failure_is_fatal(&Effect::Persist(PersistOp::SaveState(String::from("game.data")))));
    assert!(!failure_is_fatal(&Effect::Surface(SurfaceOp::Redraw)));
    assert!(!failure_is_fatal(&Effect::SaveAndExit));
    assert!(!failure_is_fatal(&Effect::Nothing));
}

#[test]
fn debug_overlay_is_composed_only_when_toggled_on() {
    let mut state = DriverState::new(NTSC_FRAME_MICROS);
    let mut mailbox = Mailbox::new();

    let plan = step(&mut state, &mut mailbox, true, 0, true);
    assert!(plan.handle_frame);
    assert!(!plan.compose_debug);

    mailbox.send(Message::ToggleDebugWindow);
    let plan = step(&mut state, &mut mailbox, true, 0, true);
    assert!(plan.handle_frame);
    assert!(plan.compose_debug);

    mailbox.send(Message::ToggleDebugWindow);
    let plan = step(&mut state, &mut mailbox, false, 0, true);
    assert!(!plan.compose_debug);
}

#[test]
fn frame_step_requests_producing_transitions_only_on_change() {
    let mut state = DriverState::new(NTSC_FRAME_MICROS);
    let mut mailbox = Mailbox::new();

    let plan = step(&mut state, &mut mailbox, true, 0, false);
    assert_eq!(plan.set_producing, Some(true));

    let plan = step(&mut state, &mut mailbox, true, 0, true);
    assert_eq!(plan.set_producing, None);

    let plan = step(&mut state, &mut mailbox, true, 40_000, true);
    assert_eq!(plan.set_producing, Some(false));

    let plan = step(&mut state, &mut mailbox, true, 40_000, false);
    assert_eq!(plan.set_producing, None);
}
