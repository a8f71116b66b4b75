use mamemaki::entity::{
    saturating_add_i32, Bean, Circle, Demon, SpawnDraw, UserInput, VelocityDraw, BEAN_RADIUS,
    DEMON_SIZE,
};
use mamemaki::game::{Demons, Game, TickOutcome, DEFAULT_COUNTER, DEMON_COUNT};
use mamemaki::rng::random_integer;
use mamemaki::signal::{Delivery, LoadSignal};

const HALF: u32 = 0x8000_0000;

fn demon(x: i32, y: i32, dx: i32, dy: i32) -> Demon {
    Demon { x, y, width: DEMON_SIZE, height: DEMON_SIZE, dx, dy }
}

fn game_with(width: i32, height: i32, demons: Vec<Demon>, bean: Bean, counter: i32) -> Game {
    Game {
        canvas_width: width,
        canvas_height: height,
        circle: Circle { x: width / 2, y: height / 2, radius: width / 3 },
        demons: Demons { inner: demons },
        bean,
        score: 0,
        counter,
        user_input: UserInput { mouse_x: 0, mouse_y: 0 },
    }
}

fn still_draws(n: usize) -> Vec<VelocityDraw> {
    vec![VelocityDraw { dx: HALF, dy: HALF }; n]
}

fn spawn_draws(n: usize) -> Vec<SpawnDraw> {
    vec![SpawnDraw { x: HALF, y: HALF, dx: u32::MAX, dy: 0 }; n]
}

#[test]
fn velocity_draws_stay_within_two() {
    let mut seen_minus_two = 0;
    let mut s: u64 = 0;
    while s <= u32::MAX as u64 {
        let r = random_integer(4, s as u32);
        assert!((-2..=2).contains(&r));
        if r == -2 {
            seen_minus_two += 1;
        }
        s += 0x10001;
    }
    assert_eq!(seen_minus_two, 1);
    assert_eq!(random_integer(4, 0), -2);
    assert_eq!(random_integer(4, 1), -1);
    assert_eq!(random_integer(4, u32::MAX), 2);
    assert_eq!(random_integer(4, HALF), 0);
    assert_eq!(random_integer(4, HALF + 1), 1);
    assert_eq!(random_integer(4, HALF - 1), 0);
}

#[test]
fn random_integer_exact_values() {
    assert_eq!(random_integer(400, 0), -200);
    assert_eq!(random_integer(400, HALF), 0);
    assert_eq!(random_integer(400, HALF + 1), 1);
    assert_eq!(random_integer(400, 0xC000_0000), 100);
    assert_eq!(random_integer(401, u32::MAX), 201);
    assert_eq!(random_integer(401, 0), -200);
    assert_eq!(random_integer(0, 12345), 0);
}

#[test]
fn demon_spawn_from_draws() {
    let d = Demon::new(400, 300, SpawnDraw { x: HALF, y: 0, dx: u32::MAX, dy: 0 });
    assert_eq!(d, demon(200, 0, 2, -2));
    let d = Demon::new(400, 300, SpawnDraw { x: u32::MAX, y: 0xC000_0000, dx: HALF, dy: 1 });
    assert_eq!((d.x, d.y, d.dx, d.dy), (400, 225, 0, -1));
}

#[test]
fn demons_new_counts() {
    assert_eq!(Demons::new(3, 400, 300, &spawn_draws(5)).inner.len(), 3);
    assert_eq!(Demons::new(0, 400, 300, &spawn_draws(5)).inner.len(), 0);
    assert_eq!(Demons::new(-4, 400, 300, &spawn_draws(0)).inner.len(), 0);
}

#[test]
fn new_game_state() {
    let g = Game::new(400, 300, &spawn_draws(DEMON_COUNT as usize));
    assert_eq!(g.counter, DEFAULT_COUNTER);
    assert_eq!(g.counter, 1000);
    assert_eq!(g.score, 0);
    assert_eq!(g.circle, Circle { x: 200, y: 150, radius: 133 });
    assert_eq!(g.bean, Bean { x: 200, y: 150, radius: BEAN_RADIUS });
    assert_eq!(g.demons.inner.len(), 5);
    for d in &g.demons.inner {
        assert_eq!(*d, demon(200, 150, 2, -2));
    }
}

#[test]
fn bounce_off_right_wall_before_moving() {
    let bean = Bean { x: 50, y: 250, radius: BEAN_RADIUS };
    let mut g = game_with(400, 300, vec![demon(395, 100, 3, 0)], bean, DEFAULT_COUNTER);
    let r = g.tick(0, 0, &still_draws(1));
    assert_eq!(r, TickOutcome::Running);
    assert_eq!(g.demons.inner[0].dx, -3);
    assert_eq!(g.demons.inner[0].x, 392);
    assert_eq!(g.demons.inner[0].y, 100);
    assert_eq!(g.bean, bean);
}

#[test]
fn wall_flip_happens_once_per_tick() {
    let bean = Bean { x: 50, y: 250, radius: BEAN_RADIUS };
    let mut g = game_with(400, 300, vec![demon(389, 100, 2, 1), demon(1, 100, -2, 0)], bean, 10);
    g.tick(0, 0, &still_draws(2));
    assert_eq!(g.demons.inner[0], demon(387, 101, -2, 1));
    assert_eq!(g.demons.inner[1], demon(3, 100, 2, 0));
    g.tick(0, 0, &still_draws(2));
    assert_eq!(g.demons.inner[0], demon(385, 102, -2, 1));
    assert_eq!(g.demons.inner[1], demon(5, 100, 2, 0));
}

#[test]
fn bottom_wall_flips_dy() {
    let bean = Bean { x: 50, y: 20, radius: BEAN_RADIUS };
    let mut g = game_with(400, 300, vec![demon(200, 289, 1, 2)], bean, 10);
    g.tick(0, 0, &still_draws(1));
    assert_eq!(g.demons.inner[0], demon(201, 287, 1, -2));
}

#[test]
fn bean_band_reverses_both_components() {
    // Only the vertical band of the bean is met: it is an OR of two bands.
    let bean = Bean { x: 50, y: 100, radius: BEAN_RADIUS };
    let mut g = game_with(400, 300, vec![demon(300, 100, 1, 1)], bean, 10);
    g.tick(0, 0, &still_draws(1));
    assert_eq!(g.demons.inner[0], demon(299, 99, -1, -1));
}

#[test]
fn wall_and_bean_cancel_out() {
    let bean = Bean { x: 392, y: 250, radius: BEAN_RADIUS };
    let mut g = game_with(400, 300, vec![demon(389, 100, 2, 0)], bean, 10);
    g.tick(0, 0, &still_draws(1));
    assert_eq!(g.demons.inner[0], demon(391, 100, 2, 0));
}

#[test]
fn stuck_demon_rerolls_velocity() {
    let bean = Bean { x: 50, y: 250, radius: BEAN_RADIUS };
    let mut g = game_with(400, 300, vec![demon(200, 100, 0, 0), demon(100, 100, 0, 0)], bean, 10);
    let draws = vec![VelocityDraw { dx: u32::MAX, dy: 0 }, VelocityDraw { dx: HALF, dy: HALF }];
    g.tick(0, 0, &draws);
    assert_eq!(g.demons.inner[0], demon(202, 98, 2, -2));
    // A reroll may draw a standstill again; it is retried on the next tick.
    assert_eq!(g.demons.inner[1], demon(100, 100, 0, 0));
    let draws = vec![VelocityDraw { dx: HALF, dy: HALF }, VelocityDraw { dx: 1, dy: HALF + 1 }];
    g.tick(0, 0, &draws);
    assert_eq!(g.demons.inner[0], demon(204, 96, 2, -2));
    assert_eq!(g.demons.inner[1], demon(99, 101, -1, 1));
}

#[test]
fn demon_stopped_and_panic() {
    let mut d = demon(5, 5, 0, 0);
    assert!(d.stopped());
    d.panic(VelocityDraw { dx: 0, dy: u32::MAX });
    assert_eq!(d, demon(5, 5, -2, 2));
    assert!(!d.stopped());
    assert!(!demon(5, 5, 0, 1).stopped());
}

#[test]
fn saturating_move_at_bounds() {
    let mut d = demon(i32::MAX - 1, i32::MIN + 1, 2, -2);
    d.advance();
    assert_eq!((d.x, d.y), (i32::MAX, i32::MIN));
}

#[test]
fn score_counts_demons_in_zone() {
    let bean = Bean { x: 1000, y: 1000, radius: BEAN_RADIUS };
    // Zone: centre (200, 150), radius 133, so 67 < x < 333 and 17 < y < 283.
    let demons = vec![
        demon(200, 150, 1, 0),
        demon(66, 150, 1, 0),
        demon(332, 282, 0, 0),
        demon(65, 150, 1, 0),
        demon(200, 18, 0, -1),
    ];
    let draws = vec![
        VelocityDraw { dx: HALF, dy: HALF },
        VelocityDraw { dx: HALF, dy: HALF },
        VelocityDraw { dx: HALF + 1, dy: HALF + 1 },
        VelocityDraw { dx: HALF, dy: HALF },
        VelocityDraw { dx: HALF, dy: HALF },
    ];
    let mut g = game_with(400, 300, demons, bean, 10);
    g.score = 5;
    g.tick(0, 0, &draws);
    // Inside after the move: (201,150), (67 is not > 67: out), (333 is not < 333: out),
    // (66: out), (200, 17: out).
    assert_eq!(g.score, 1);
    g.tick(0, 0, &still_draws(5));
    // (202,150) in, (68,150) in, (334,284) out, (67,150) out, (200,16) out.
    assert_eq!(g.score, 2);
}

#[test]
fn empty_arena_scores_zero() {
    let bean = Bean { x: 10, y: 10, radius: BEAN_RADIUS };
    let mut g = game_with(400, 300, vec![], bean, 10);
    assert_eq!(g.tick(0, 0, &still_draws(0)), TickOutcome::Running);
    assert_eq!(g.score, 0);
    assert_eq!(g.counter, 9);
}

#[test]
fn bean_follows_pointer_inside_arena() {
    let mut g = game_with(400, 300, vec![], Bean { x: 200, y: 150, radius: BEAN_RADIUS }, 10);
    g.user_input.set_mouse_position(130, 90);
    assert_eq!(g.user_input, UserInput { mouse_x: 130, mouse_y: 90 });
    g.tick(8, 8, &still_draws(0));
    assert_eq!(g.bean, Bean { x: 112, y: 72, radius: BEAN_RADIUS });
}

#[test]
fn bean_keeps_position_in_dead_zone() {
    let mut g = game_with(400, 300, vec![], Bean { x: 200, y: 150, radius: BEAN_RADIUS }, 10);
    // Local x = 28 - 8 = 20, the diameter: x stays; local y = 100 moves.
    g.user_input.set_mouse_position(28, 108);
    g.tick(8, 8, &still_draws(0));
    assert_eq!(g.bean, Bean { x: 200, y: 90, radius: BEAN_RADIUS });
    // Local y = 20: y stays; local x = 21 moves.
    g.user_input.set_mouse_position(29, 28);
    g.tick(8, 8, &still_draws(0));
    assert_eq!(g.bean, Bean { x: 11, y: 90, radius: BEAN_RADIUS });
    // Beyond the arena on both axes: nothing moves.
    g.user_input.set_mouse_position(408, 308);
    g.tick(8, 8, &still_draws(0));
    assert_eq!(g.bean, Bean { x: 11, y: 90, radius: BEAN_RADIUS });
    assert_eq!(g.bean.diameter(), 20);
}

#[test]
fn session_ends_on_thousandth_tick() {
    let mut g = Game::new(400, 300, &spawn_draws(5));
    for k in 1..DEFAULT_COUNTER {
        assert_eq!(g.tick(0, 0, &still_draws(5)), TickOutcome::Running, "tick {}", k);
        assert_eq!(g.counter, DEFAULT_COUNTER - k);
    }
    assert_eq!(g.counter, 1);
    let r = g.tick(0, 0, &still_draws(5));
    assert_eq!(r, TickOutcome::Terminal(g.score));
    assert_eq!(g.counter, DEFAULT_COUNTER);
}

#[test]
fn last_tick_ends_session_and_resets_counter() {
    let bean = Bean { x: 1000, y: 1000, radius: BEAN_RADIUS };
    let demons = vec![demon(200, 150, 1, 1), demon(10, 10, 1, 1), demon(210, 160, -1, 0)];
    let mut g = game_with(400, 300, demons, bean, 1);
    let r = g.tick(0, 0, &still_draws(3));
    assert_eq!(r, TickOutcome::Terminal(2));
    assert_eq!(g.score, 2);
    assert_eq!(g.counter, DEFAULT_COUNTER);
    let fresh = Game::new(400, 300, &spawn_draws(5));
    assert_eq!(fresh.counter, DEFAULT_COUNTER);
    assert_eq!(fresh.score, 0);
}

#[test]
fn collision_hook_changes_nothing() {
    let bean = Bean { x: 30, y: 40, radius: BEAN_RADIUS };
    let mut g = game_with(400, 300, vec![demon(1, 2, 3, 4)], bean, 7);
    g.collision_detection();
    assert_eq!(g.demons.inner[0], demon(1, 2, 3, 4));
    assert_eq!(g.bean, bean);
    assert_eq!(g.counter, 7);
}

#[test]
fn load_signal_delivers_once() {
    let (tx, mut rx) = futures::channel::oneshot::channel::<Result<(), String>>();
    let mut signal = LoadSignal::new(tx);
    assert!(signal.armed());
    assert_eq!(signal.deliver(Ok(())), Delivery::Sent);
    assert!(!signal.armed());
    assert_eq!(signal.deliver(Err("late".to_string())), Delivery::AlreadyDelivered);
    assert_eq!(rx.try_recv(), Ok(Some(Ok(()))));
}

#[test]
fn load_signal_error_first_wins() {
    let (tx, mut rx) = futures::channel::oneshot::channel::<Result<(), String>>();
    let mut signal = LoadSignal::new(tx);
    assert_eq!(signal.deliver(Err("not found".to_string())), Delivery::Sent);
    assert_eq!(signal.deliver(Ok(())), Delivery::AlreadyDelivered);
    assert_eq!(rx.try_recv(), Ok(Some(Err("not found".to_string()))));
}

#[test]
fn load_signal_receiver_gone() {
    let (tx, rx) = futures::channel::oneshot::channel::<Result<(), String>>();
    drop(rx);
    let mut signal = LoadSignal::new(tx);
    assert_eq!(signal.deliver(Ok(())), Delivery::ReceiverGone);
    assert_eq!(signal.deliver(Ok(())), Delivery::AlreadyDelivered);
}

#[test]
fn saturating_addition() {
    assert_eq!(saturating_add_i32(3, -5), -2);
    assert_eq!(saturating_add_i32(i32::MAX, 1), i32::MAX);
    assert_eq!(saturating_add_i32(i32::MIN, -1), i32::MIN);
}

#[test]
fn zone_and_bean_tests() {
    let zone = Circle { x: 200, y: 150, radius: 133 };
    assert!(zone.contains(&demon(68, 18, 0, 0)));
    assert!(!zone.contains(&demon(67, 150, 0, 0)));
    assert!(!zone.contains(&demon(200, 283, 0, 0)));
    let bean = Bean { x: 50, y: 100, radius: BEAN_RADIUS };
    assert!(bean.hit_by(41, 500));
    assert!(bean.hit_by(500, 109));
    assert!(!bean.hit_by(40, 90));
    assert!(!bean.hit_by(60, 110));
}

#[test]
fn top_left_corner_bounces_both() {
    let bean = Bean { x: 300, y: 250, radius: BEAN_RADIUS };
    let mut g = game_with(400, 300, vec![demon(1, 0, -2, -1)], bean, 10);
    g.tick(0, 0, &still_draws(1));
    assert_eq!(g.demons.inner[0], demon(3, 1, 2, 1));
}
