use pong::court::{
    BALL_SIZE, BALL_SPEED, CENTER_X, CENTER_Y, HEIGHT, PADDLE_HEIGHT, PADDLE_MAX_Y,
    PADDLE_SPEED, PADDLE_START_Y, PADDLE_WIDTH, WIDTH,
};
use pong::court::clamp_paddle;
use pong::frame::Rect;
use pong::game::Game;
use pong::input::{Held, Key, KeyEvent};
use pong::session::Session;

#[test]
fn constants_in_pixels() {
    assert_eq!(WIDTH, 800 * 10);
    assert_eq!(HEIGHT, 400 * 10);
    assert_eq!(PADDLE_HEIGHT, 80 * 10);
    assert_eq!(PADDLE_WIDTH, 10 * 10);
    assert_eq!(BALL_SIZE, 10 * 10);
    assert_eq!(PADDLE_SPEED, 9);
    assert_eq!(BALL_SPEED, 10);
    assert!(0 < PADDLE_SPEED && PADDLE_SPEED < BALL_SPEED);
    assert_eq!(CENTER_X * 2, WIDTH);
    assert_eq!(CENTER_Y * 2, HEIGHT);
    assert_eq!(PADDLE_START_Y * 2, HEIGHT - PADDLE_HEIGHT);
}

#[test]
fn new_game_is_centred() {
    let g = Game::new();
    assert_eq!(g.player_y, 1600);
    assert_eq!(g.ai_y, 1600);
    assert_eq!(g.ball_x, 4000);
    assert_eq!(g.ball_y, 2000);
    assert_eq!(g.ball_dx, 10);
    assert_eq!(g.ball_dy, 10);
}

#[test]
fn first_tick_moves_ball_diagonally() {
    let mut g = Game::new();
    g.update();
    assert_eq!((g.ball_x, g.ball_y), (4010, 2010));
    assert_eq!((g.ball_dx, g.ball_dy), (10, 10));
    // middle at 2000, ball at 2010: the opponent moves down one step
    assert_eq!(g.ai_y, 1609);
    assert_eq!(g.player_y, 1600);
}

#[test]
fn clamp_paddle_values() {
    assert_eq!(clamp_paddle(-9), 0);
    assert_eq!(clamp_paddle(0), 0);
    assert_eq!(clamp_paddle(1234), 1234);
    assert_eq!(clamp_paddle(PADDLE_MAX_Y), 3200);
    assert_eq!(clamp_paddle(3209), 3200);
}

#[test]
fn wall_bounce_at_top() {
    let mut g = Game::new();
    g.ball_y = 0;
    g.ball_dy = -BALL_SPEED;
    g.update();
    assert_eq!(g.ball_dy, BALL_SPEED);
    // no correction of the position
    assert_eq!(g.ball_y, -BALL_SPEED);
}

#[test]
fn wall_bounce_at_bottom() {
    let mut g = Game::new();
    g.ball_y = HEIGHT - BALL_SIZE - 5;
    g.ball_dy = BALL_SPEED;
    g.update();
    assert_eq!(g.ball_y, HEIGHT - BALL_SIZE + 5);
    assert_eq!(g.ball_dy, -BALL_SPEED);
}

#[test]
fn player_paddle_bounce() {
    let mut g = Game::new();
    g.player_y = 1000;
    g.ball_x = PADDLE_WIDTH + BALL_SPEED;
    g.ball_y = 1400;
    g.ball_dx = -BALL_SPEED;
    g.update();
    assert_eq!(g.ball_x, PADDLE_WIDTH);
    assert_eq!(g.ball_dx, BALL_SPEED);
}

#[test]
fn player_paddle_miss() {
    let mut g = Game::new();
    g.player_y = 1000;
    g.ball_x = PADDLE_WIDTH + BALL_SPEED;
    g.ball_y = 1900;
    g.ball_dx = -BALL_SPEED;
    g.update();
    assert_eq!(g.ball_dx, -BALL_SPEED);
}

#[test]
fn opponent_paddle_bounce() {
    let mut g = Game::new();
    g.ai_y = 1600;
    g.ball_x = WIDTH - PADDLE_WIDTH - BALL_SIZE - BALL_SPEED;
    g.ball_y = 2000;
    g.ball_dy = 0;
    g.update();
    assert_eq!(g.ball_dx, -BALL_SPEED);
}

#[test]
fn reset_keeps_velocity() {
    let mut g = Game::new();
    g.ball_x = WIDTH - 2;
    g.ball_y = 1000;
    g.ball_dx = 50;
    g.ball_dy = 30;
    g.update();
    assert_eq!((g.ball_x, g.ball_y), (WIDTH / 2, HEIGHT / 2));
    assert_eq!((g.ball_dx, g.ball_dy), (50, 30));
    assert_ne!((g.ball_dx, g.ball_dy), (BALL_SPEED, BALL_SPEED));
}

#[test]
fn reset_off_left_end() {
    let mut g = Game::new();
    g.player_y = 0;
    g.ball_x = 5;
    g.ball_y = 3000;
    g.ball_dx = -BALL_SPEED;
    g.ball_dy = -BALL_SPEED;
    g.update();
    assert_eq!((g.ball_x, g.ball_y), (CENTER_X, CENTER_Y));
    assert_eq!((g.ball_dx, g.ball_dy), (-BALL_SPEED, -BALL_SPEED));
}

#[test]
fn ai_tracks_fixed_ball() {
    let mut g = Game::new();
    g.ai_y = 0;
    g.ball_y = HEIGHT / 2;
    let target = HEIGHT / 2 - PADDLE_HEIGHT / 2;
    let mut prev = g.ai_y;
    let mut reached = false;
    for _ in 0..1000 {
        g.update_ai();
        if !reached {
            assert_eq!(g.ai_y, prev + PADDLE_SPEED);
            if g.ai_y >= target {
                reached = true;
            }
        } else {
            assert!((g.ai_y - target).abs() <= PADDLE_SPEED);
        }
        prev = g.ai_y;
    }
    assert!(reached);
}

#[test]
fn ai_stays_when_centred() {
    let mut g = Game::new();
    g.ai_y = 1600;
    g.ball_y = 2000;
    g.update_ai();
    assert_eq!(g.ai_y, 1600);
}

#[test]
fn ai_clamped_at_bottom() {
    let mut g = Game::new();
    g.ai_y = PADDLE_MAX_Y - 4;
    g.ball_y = HEIGHT;
    g.update_ai();
    assert_eq!(g.ai_y, PADDLE_MAX_Y);
}

#[test]
fn ai_clamped_at_top() {
    let mut g = Game::new();
    g.ai_y = 4;
    g.ball_y = 0;
    g.update_ai();
    assert_eq!(g.ai_y, 0);
}

#[test]
fn ticks_are_deterministic() {
    let mut a = Game::new();
    let mut b = Game::new();
    for _ in 0..5000 {
        a.update();
        b.update();
        assert_eq!(a, b);
    }
}

#[test]
fn held_keys_follow_events() {
    let mut h = Held::new();
    assert_eq!(h, Held { up: false, down: false });
    h.handle(KeyEvent::Pressed(Key::Up));
    assert_eq!(h, Held { up: true, down: false });
    h.handle(KeyEvent::Pressed(Key::Down));
    assert_eq!(h, Held { up: true, down: true });
    h.handle(KeyEvent::Released(Key::Up));
    assert_eq!(h, Held { up: false, down: true });
    h.handle(KeyEvent::Released(Key::Down));
    assert_eq!(h, Held { up: false, down: false });
}

#[test]
fn other_key_changes_nothing() {
    let mut s = Session::new();
    s.held.up = true;
    let mut t = s;
    s.step(Some(KeyEvent::Pressed(Key::Other)));
    t.step(None);
    assert_eq!(s, t);
    assert_eq!(s.held, Held { up: true, down: false });

    let mut u = Session::new();
    let y = u.game.player_y;
    u.step(Some(KeyEvent::Released(Key::Other)));
    assert_eq!(u.held, Held { up: false, down: false });
    assert_eq!(u.game.player_y, y);
}

#[test]
fn move_player_steps_and_clamps() {
    let mut g = Game::new();
    g.move_player(&Held { up: true, down: false });
    assert_eq!(g.player_y, 1600 - PADDLE_SPEED);
    g.move_player(&Held { up: false, down: true });
    assert_eq!(g.player_y, 1600);
    g.move_player(&Held { up: true, down: true });
    assert_eq!(g.player_y, 1600);
    g.player_y = 3;
    g.move_player(&Held { up: true, down: false });
    assert_eq!(g.player_y, 0);
    g.player_y = PADDLE_MAX_Y - 1;
    g.move_player(&Held { up: false, down: true });
    assert_eq!(g.player_y, PADDLE_MAX_Y);
}

#[test]
fn session_round_moves_then_ticks() {
    let mut s = Session::new();
    s.step(Some(KeyEvent::Pressed(Key::Down)));
    assert!(s.held.down);
    assert_eq!(s.game.player_y, 1600 + PADDLE_SPEED);
    assert_eq!((s.game.ball_x, s.game.ball_y), (4010, 2010));
    s.step(None);
    assert_eq!(s.game.player_y, 1600 + 2 * PADDLE_SPEED);
    s.step(Some(KeyEvent::Released(Key::Down)));
    assert_eq!(s.game.player_y, 1600 + 2 * PADDLE_SPEED);
}

#[test]
fn paddles_stay_in_court_under_any_input() {
    let mut s = Session::new();
    let keys = [Key::Up, Key::Down, Key::Other];
    let mut seed: u64 = 12345;
    for _ in 0..20000 {
        seed = seed.wrapping_mul(6364136223846793005).wrapping_add(1442695040888963407);
        let k = keys[((seed >> 33) % 3) as usize];
        let e = match (seed >> 40) % 3 {
            0 => Some(KeyEvent::Pressed(k)),
            1 => Some(KeyEvent::Released(k)),
            _ => None,
        };
        s.step(e);
        assert!(0 <= s.game.player_y && s.game.player_y <= HEIGHT - PADDLE_HEIGHT);
        assert!(0 <= s.game.ai_y && s.game.ai_y <= HEIGHT - PADDLE_HEIGHT);
        assert_eq!(s.game.ball_dx.abs(), BALL_SPEED);
        assert_eq!(s.game.ball_dy.abs(), BALL_SPEED);
    }
}

#[test]
fn render_places_shapes() {
    let mut g = Game::new();
    g.player_y = 100;
    g.ai_y = 2500;
    g.ball_x = 1234;
    g.ball_y = 567;
    let f = g.render();
    assert_eq!(f.player, Rect { x: 0, y: 100, w: 100, h: 800 });
    assert_eq!(f.ai, Rect { x: 7900, y: 2500, w: 100, h: 800 });
    assert_eq!(f.ball, Rect { x: 1234, y: 567, w: 100, h: 100 });
}
