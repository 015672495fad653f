use decision_maker::machine::{App, KeyCode, KeyInput, State};

fn press(code: KeyCode) -> KeyInput {
    KeyInput { code, ctrl: false, release: false }
}

fn chord(code: KeyCode) -> KeyInput {
    KeyInput { code, ctrl: true, release: false }
}

#[test]
fn fresh_start() {
    let app = App::new();
    assert!(matches!(app.state, State::Idle));
    assert!(!app.help_visible);
    assert_eq!(app.last_answer, None);
}

#[test]
fn single_ask_full_animation() {
    let mut app = App::new();
    app.ask_at(0, 3, 1);
    assert!(matches!(
        app.state,
        State::Animating { final_index: 3, current_index: 1, end_at: 2000, next_switch: 0 }
    ));
    assert_eq!(app.last_answer, None);
    app.tick_step(1999, 0);
    assert!(matches!(app.state, State::Animating { final_index: 3, end_at: 2000, .. }));
    app.tick_step(2000, 0);
    assert!(matches!(app.state, State::Showing { index: 3, until: 3500 }));
    assert_eq!(app.last_answer, Some(3));
}

#[test]
fn flash_expiry() {
    let mut app = App::new();
    app.ask_at(0, 3, 1);
    app.tick_step(2000, 0);
    app.tick_step(3499, 0);
    assert!(matches!(app.state, State::Showing { index: 3, until: 3500 }));
    app.tick_step(3500, 0);
    assert!(matches!(app.state, State::Idle));
    assert_eq!(app.last_answer, Some(3));
}

#[test]
fn help_during_animation() {
    let mut app = App::new();
    app.ask_at(0, 3, 1);
    app.tick_step(500, 2);
    let st = app.state;
    let quit = app.on_key(chord(KeyCode::Char('h')), 500);
    assert!(!quit);
    assert!(app.help_visible);
    assert_eq!(app.state, st);
    assert_eq!(app.last_answer, None);
    let quit = app.on_key(press(KeyCode::Enter), 600);
    assert!(!quit);
    assert!(!app.help_visible);
    assert_eq!(app.state, st);
}

#[test]
fn esc_precedence_over_quit() {
    let mut app = App::new();
    app.ask_at(0, 4, 2);
    app.toggle_help();
    let quit = app.on_key(press(KeyCode::Esc), 700);
    assert!(!quit);
    assert!(!app.help_visible);
    let quit = app.on_key(press(KeyCode::Esc), 800);
    assert!(quit);
}

#[test]
fn ctrl_c_during_showing() {
    let mut app = App::new();
    app.ask_at(0, 5, 0);
    app.tick_step(2000, 0);
    assert!(matches!(app.state, State::Showing { .. }));
    let quit = app.on_key(chord(KeyCode::Char('c')), 2100);
    assert!(quit);
    app.toggle_help();
    let quit = app.on_key(chord(KeyCode::Char('C')), 2200);
    assert!(quit);
}

#[test]
fn toggle_help_is_involution() {
    let mut app = App::new();
    app.toggle_help();
    assert!(app.help_visible);
    app.toggle_help();
    assert!(!app.help_visible);
}

#[test]
fn shuffle_step_moves_light() {
    let mut app = App::new();
    app.ask_at(0, 0, 1);
    // The first step is due immediately; draw 1 remaps over the gap at the
    // lit cell 1 to light cell 2.
    app.tick_step(0, 1);
    assert!(matches!(
        app.state,
        State::Animating { final_index: 0, current_index: 2, end_at: 2000, next_switch: 120 }
    ));
    // Before the rescheduled switch nothing happens.
    app.tick_step(60, 4);
    assert!(matches!(app.state, State::Animating { current_index: 2, next_switch: 120, .. }));
    // At the switch the light moves again; draw 3 lands past the gap at 2.
    app.tick_step(120, 3);
    assert!(matches!(
        app.state,
        State::Animating { final_index: 0, current_index: 4, end_at: 2000, next_switch: 240 }
    ));
}

#[test]
fn shuffle_draw_below_gap_is_kept() {
    let mut app = App::new();
    app.ask_at(0, 0, 5);
    app.tick_step(0, 3);
    assert!(matches!(app.state, State::Animating { current_index: 3, .. }));
}

#[test]
fn tick_in_idle_is_a_no_op() {
    let mut app = App::new();
    app.tick_step(12345, 0);
    assert!(matches!(app.state, State::Idle));
    assert_eq!(app.last_answer, None);
    assert!(!app.help_visible);
}

#[test]
fn release_events_are_ignored() {
    let mut app = App::new();
    let quit = app.on_key(
        KeyInput { code: KeyCode::Char('c'), ctrl: true, release: true },
        0,
    );
    assert!(!quit);
    let quit = app.on_key(KeyInput { code: KeyCode::Esc, ctrl: false, release: true }, 0);
    assert!(!quit);
    assert!(matches!(app.state, State::Idle));
}

#[test]
fn quit_keys_quit_when_no_help_is_up() {
    for code in [KeyCode::Esc, KeyCode::Char('q'), KeyCode::Char('Q')] {
        let mut app = App::new();
        assert!(app.on_key(press(code), 0));
        assert!(matches!(app.state, State::Idle));
    }
}

#[test]
fn ask_keys_dismiss_help_first() {
    for code in [KeyCode::Enter, KeyCode::Char(' ')] {
        let mut app = App::new();
        app.toggle_help();
        let quit = app.on_key(press(code), 0);
        assert!(!quit);
        assert!(!app.help_visible);
        assert!(matches!(app.state, State::Idle));
    }
}

#[test]
fn ask_keys_start_an_animation() {
    for code in [KeyCode::Enter, KeyCode::Char(' ')] {
        let mut app = App::new();
        let quit = app.on_key(press(code), 40);
        assert!(!quit);
        match app.state {
            State::Animating { final_index, current_index, end_at, next_switch } => {
                assert!(final_index < 6);
                assert!(current_index < 6);
                assert_ne!(final_index, current_index);
                assert_eq!(end_at, 2040);
                assert_eq!(next_switch, 40);
            }
            _ => panic!("an ask key must start the animation"),
        }
        assert_eq!(app.last_answer, None);
    }
}

#[test]
fn ctrl_h_toggles_help_in_both_cases() {
    let mut app = App::new();
    assert!(!app.on_key(chord(KeyCode::Char('h')), 0));
    assert!(app.help_visible);
    assert!(!app.on_key(chord(KeyCode::Char('H')), 0));
    assert!(!app.help_visible);
}

#[test]
fn other_keys_do_nothing() {
    let mut app = App::new();
    app.ask_at(0, 2, 4);
    let st = app.state;
    assert!(!app.on_key(press(KeyCode::Char('x')), 10));
    assert!(!app.on_key(press(KeyCode::Other), 20));
    assert!(!app.on_key(chord(KeyCode::Char('z')), 30));
    assert_eq!(app.state, st);
    assert_eq!(app.last_answer, None);
}

#[test]
fn random_ask_draws_stay_on_the_face() {
    // Runs the thread-local draws: the drawn indices must always address
    // the face and differ at ask time.
    for t in 0..50u64 {
        let mut app = App::new();
        app.ask(t);
        match app.state {
            State::Animating { final_index, current_index, end_at, next_switch } => {
                assert!(final_index < 6);
                assert!(current_index < 6);
                assert_ne!(final_index, current_index);
                assert_eq!(end_at, t + 2000);
                assert_eq!(next_switch, t);
            }
            _ => panic!("ask must animate"),
        }
    }
}

#[test]
fn random_shuffle_keeps_moving() {
    let mut app = App::new();
    app.ask(0);
    let mut lit = match app.state {
        State::Animating { current_index, .. } => current_index,
        _ => panic!("ask must animate"),
    };
    // Drive the shuffle on its own cadence; each step must move the light.
    for step in 1..18u64 {
        app.tick(step * 120);
        match app.state {
            State::Animating { current_index, .. } => {
                assert!(current_index < 6);
                assert_ne!(current_index, lit);
                lit = current_index;
            }
            State::Showing { index, .. } => {
                assert!(index < 6);
                assert_eq!(app.last_answer, Some(index));
                return;
            }
            State::Idle => panic!("the animation never falls back to idle"),
        }
    }
    panic!("the animation must settle by its end deadline");
}
