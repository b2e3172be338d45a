use lcard_dac_signal_generator::ui::{
    field_at, Adjustment, ControlState, Field, Key, KeyCommand, StartMode, StatusStyle, FIELD_COUNT,
};

#[test]
fn initial_state() {
    let s = ControlState::new();
    assert_eq!(s.focused(), 0);
    assert!(!s.running());
    assert_eq!(s.status(), "");
    assert_eq!(s.num_cycles(), 1);
    assert_eq!(s.focused_field(), Field::FreqCh0);
}

#[test]
fn field_order() {
    let order: Vec<Field> = (0..FIELD_COUNT).map(field_at).collect();
    assert_eq!(
        order,
        vec![
            Field::FreqCh0,
            Field::PhaseCh0,
            Field::FreqCh1,
            Field::PhaseCh1,
            Field::Amplitude,
            Field::Offset,
            Field::Duration,
            Field::NumCycles,
            Field::PauseSec,
        ]
    );
}

#[test]
fn tab_and_back_tab_wrap_and_undo_each_other() {
    let mut s = ControlState::new();
    assert_eq!(s.handle_key(Key::BackTab, false), KeyCommand::Redraw);
    assert_eq!(s.focused(), 8);
    assert_eq!(s.focused_field(), Field::PauseSec);
    s.handle_key(Key::Tab, false);
    assert_eq!(s.focused(), 0);
    for start in 0..FIELD_COUNT {
        assert_eq!(s.focused(), start);
        s.handle_key(Key::Tab, false);
        s.handle_key(Key::BackTab, false);
        assert_eq!(s.focused(), start);
        s.handle_key(Key::Tab, false);
    }
    assert_eq!(s.focused(), 0);
}

#[test]
fn keys_when_idle() {
    let mut s = ControlState::new();
    assert_eq!(s.handle_key(Key::Char('q'), false), KeyCommand::Quit);
    assert_eq!(s.handle_key(Key::Char('Q'), false), KeyCommand::Quit);
    assert_eq!(s.handle_key(Key::Esc, false), KeyCommand::Quit);
    assert_eq!(s.handle_key(Key::Up, false), KeyCommand::Adjust(Adjustment::Up));
    assert_eq!(s.handle_key(Key::Down, false), KeyCommand::Adjust(Adjustment::Down));
    assert_eq!(s.handle_key(Key::Char('+'), false), KeyCommand::Adjust(Adjustment::CoarseUp));
    assert_eq!(s.handle_key(Key::Char('-'), false), KeyCommand::Adjust(Adjustment::CoarseDown));
    assert_eq!(s.handle_key(Key::Enter, false), KeyCommand::Start);
    assert_eq!(s.handle_key(Key::Char('x'), false), KeyCommand::Redraw);
    assert_eq!(s.handle_key(Key::Char('c'), false), KeyCommand::Redraw);
    assert_eq!(s.handle_key(Key::Char('c'), true), KeyCommand::StopAndQuit);
    assert_eq!(s.handle_key(Key::Char('q'), true), KeyCommand::Quit);
}

#[test]
fn keys_while_running() {
    let mut s = ControlState::new();
    assert!(s.begin_generation(Ok(())));
    assert!(s.running());
    assert_eq!(s.handle_key(Key::Char('q'), false), KeyCommand::Redraw);
    assert_eq!(s.handle_key(Key::Esc, false), KeyCommand::Abort);
    assert_eq!(s.handle_key(Key::Up, false), KeyCommand::Redraw);
    assert_eq!(s.handle_key(Key::Char('+'), false), KeyCommand::Redraw);
    assert_eq!(s.handle_key(Key::Enter, false), KeyCommand::Redraw);
    assert_eq!(s.handle_key(Key::Tab, false), KeyCommand::Redraw);
    assert_eq!(s.focused(), 1);
    assert_eq!(s.handle_key(Key::Char('c'), true), KeyCommand::StopAndQuit);
    assert!(s.running());
}

#[test]
fn generation_status() {
    let mut s = ControlState::new();
    assert_eq!(s.status_style(), StatusStyle::Hidden);
    assert!(!s.begin_generation(Err("duration_sec must be > 0".to_string())));
    assert!(!s.running());
    assert_eq!(s.status(), "Error: duration_sec must be > 0");
    // the status starts with "Error:" and not "Error ", so it is drawn as information
    assert_eq!(s.status_style(), StatusStyle::Info);
    assert!(s.begin_generation(Ok(())));
    assert_eq!(s.status(), "");
    assert_eq!(s.status_style(), StatusStyle::Generating);
    assert_eq!(s.start_hint(), "[Esc] Abort ");
    s.finish_generation(Ok(()));
    assert!(!s.running());
    assert_eq!(s.status(), "Generation complete.");
    assert_eq!(s.start_hint(), "[Enter] Start ");
    s.begin_generation(Ok(()));
    s.finish_generation(Err("START_DAC() failed".to_string()));
    assert_eq!(s.status(), "Error: START_DAC() failed");
    assert_eq!(s.status_style(), StatusStyle::Info);
}

#[test]
fn start_mode_and_cycle_count() {
    let mut s = ControlState::new();
    assert_eq!(s.start_mode(), StartMode::Single);
    assert_eq!(s.active_cycle_count(4), 1);
    s.set_num_cycles(7);
    assert_eq!(s.start_mode(), StartMode::Multi);
    assert_eq!(s.active_cycle_count(4), 4);
    assert_eq!(s.active_cycle_count(10), 7);
}
