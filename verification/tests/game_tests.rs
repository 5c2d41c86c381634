use snake_game::game::EventEffect;
use snake_game::game::GameKey;
use snake_game::game::GameSession;
use snake_game::game::InputEvent;

fn drive_to_death(session: &mut GameSession) {
    // Heading right with no input, the snake must hit the right wall.
    for _ in 0..session.start_term_size.0 {
        if !session.playing {
            return;
        }
        session.step();
    }
    panic!("snake never died");
}

#[test]
fn scenario_twelve_by_eight_board() {
    // Interior 10x6, snake starts heading right at (2,4) with growth 2,
    // fruit at (8,4): straight-line approach eats on exactly tick 6.
    let mut session = GameSession::new_session((12, 8));
    assert_eq!(session.snake.head_pos, (2, 4));
    assert_eq!(session.snake.growing, 2);
    assert_eq!(session.fruit_pos, (8, 4));
    for tick in 1..=6 {
        let report = session.step().expect("playing and focused");
        assert_eq!(report.ate, tick == 6);
        assert!(!report.died);
    }
    assert_eq!(session.snake.head_pos, (8, 4));
    assert_eq!(session.score, 1);
    assert_eq!(session.snake.growing, 2);
    let fruit = session.fruit_pos;
    assert!((1..=10).contains(&fruit.0));
    assert!((1..=6).contains(&fruit.1));
    assert_ne!(fruit, session.snake.head_pos);
    assert!(!session.snake.body_pos.contains(&fruit));
}

#[test]
fn menu_toggle_flips_between_two_entries() {
    let mut session = GameSession::new_session((20, 10));
    drive_to_death(&mut session);
    assert!(!session.playing);
    assert_eq!(session.menu_selection, 0);
    let effect = session.handle_event(InputEvent::Key(GameKey::Up));
    assert_eq!(effect, EventEffect::MenuRedraw);
    assert_eq!(session.menu_selection, 1);
    let effect = session.handle_event(InputEvent::Key(GameKey::Down));
    assert_eq!(effect, EventEffect::MenuRedraw);
    assert_eq!(session.menu_selection, 0);
}

#[test]
fn quit_key_terminates_from_any_state() {
    let mut playing = GameSession::new_session((20, 10));
    assert_eq!(playing.handle_event(InputEvent::Key(GameKey::Quit)), EventEffect::Quit);
    assert!(playing.terminated);

    let mut in_menu = GameSession::new_session((20, 10));
    drive_to_death(&mut in_menu);
    assert_eq!(in_menu.handle_event(InputEvent::Key(GameKey::Quit)), EventEffect::Quit);
    assert!(in_menu.terminated);
}

#[test]
fn quit_selection_terminates() {
    let mut session = GameSession::new_session((20, 10));
    drive_to_death(&mut session);
    session.handle_event(InputEvent::Key(GameKey::Up));
    assert_eq!(session.menu_selection, 1);
    let effect = session.handle_event(InputEvent::Key(GameKey::Enter));
    assert_eq!(effect, EventEffect::Quit);
    assert!(session.terminated);
}

#[test]
fn replay_selection_starts_a_fresh_round() {
    let mut session = GameSession::new_session((20, 10));
    session.step();
    session.step();
    drive_to_death(&mut session);
    assert_eq!(session.menu_selection, 0);
    let effect = session.handle_event(InputEvent::Key(GameKey::Enter));
    assert_eq!(effect, EventEffect::RoundRestart);
    assert!(session.playing);
    assert!(!session.terminated);
    assert_eq!(session.score, 0);
    assert_eq!(session.snake.head_pos, (4, 5));
    assert_eq!(session.snake.growing, 2);
    assert!(session.snake.body_pos.is_empty());
    assert_eq!(session.fruit_pos, (16, 5));
}

#[test]
fn resize_applies_on_next_round_only() {
    let mut session = GameSession::new_session((20, 10));
    let effect = session.handle_event(InputEvent::Resize(30, 16));
    assert_eq!(effect, EventEffect::ResizeNote);
    assert_eq!(session.term_size, (30, 16));
    assert_eq!(session.start_term_size, (20, 10));
    drive_to_death(&mut session);
    session.handle_event(InputEvent::Key(GameKey::Enter));
    assert_eq!(session.start_term_size, (30, 16));
    assert_eq!(session.snake.head_pos, (6, 8));
    assert_eq!(session.fruit_pos, (24, 8));
}

#[test]
fn resize_below_playable_minimum_is_ignored() {
    let mut session = GameSession::new_session((20, 10));
    let effect = session.handle_event(InputEvent::Resize(2, 2));
    assert_eq!(effect, EventEffect::Nothing);
    assert_eq!(session.term_size, (20, 10));
}

#[test]
fn focus_lost_freezes_ticks_until_focus_gained() {
    let mut session = GameSession::new_session((20, 10));
    assert_eq!(session.handle_event(InputEvent::FocusLost), EventEffect::Nothing);
    let head = session.snake.head_pos;
    assert!(session.step().is_none());
    assert!(session.step().is_none());
    assert_eq!(session.snake.head_pos, head);
    assert_eq!(session.handle_event(InputEvent::FocusGained), EventEffect::Nothing);
    let report = session.step().expect("focused again");
    assert_eq!(report.old_head, head);
    assert_ne!(session.snake.head_pos, head);
}

#[test]
fn steering_during_play_obeys_rejection_rule() {
    let mut session = GameSession::new_session((20, 10));
    // Heading right: a left request is rejected, an up request taken.
    session.handle_event(InputEvent::Key(GameKey::Left));
    assert!(matches!(session.snake.dir, snake_game::snake::Direction::Right));
    session.handle_event(InputEvent::Key(GameKey::Up));
    assert!(matches!(session.snake.dir, snake_game::snake::Direction::Up));
    let report = session.step().expect("playing");
    assert_eq!(report.new_head, (4, 4));
}

#[test]
fn directional_keys_during_menu_do_not_steer() {
    let mut session = GameSession::new_session((20, 10));
    drive_to_death(&mut session);
    let dir_before = session.snake.dir;
    session.handle_event(InputEvent::Key(GameKey::Up));
    assert_eq!(session.snake.dir, dir_before);
}

#[test]
fn death_tick_reports_died_and_puts_menu_up() {
    let mut session = GameSession::new_session((12, 8));
    // Head starts at (2,4); the wall column is 11, so the head reaches the
    // last playable column 10 on tick 8 and dies on tick 9.
    let mut death_tick = 0;
    for tick in 1..=12 {
        let report = session.step().expect("still stepping");
        if report.died {
            death_tick = tick;
            break;
        }
    }
    assert_eq!(death_tick, 9);
    assert!(!session.playing);
    assert_eq!(session.snake.head_pos, (11, 4));
    assert!(session.step().is_none());
}
