use multishot::config::{Config, ConfigError};
use multishot::curves::{alpha_at, radius_at};
use multishot::game::{Game, Input};
use multishot::scoring::Stats;
use multishot::target::Target;

const W: u32 = 1280;
const H: u32 = 720;
const FAR: i32 = -100_000;

fn idle() -> Input {
    Input {
        quit: false,
        restart: false,
        toggle_practice: false,
        toggle_grab: false,
        shoot: false,
        pointer_x: 0,
        pointer_y: 0,
        fps: 60,
    }
}

fn single(base_points: u32, speed_bonus: u32, miss_penalty: u32) -> Config {
    Config {
        target_count: 1,
        target_life_ms: 1000,
        base_points,
        speed_bonus,
        miss_penalty,
        ..Config::default()
    }
}

fn snapshot(g: &Game) -> (Vec<Target>, Stats, bool, bool, u64, bool, String) {
    (
        g.targets().clone(),
        *g.stats(),
        g.is_practice(),
        g.is_finished(),
        g.start_ms(),
        g.cursor_grabbed(),
        g.hud().to_string(),
    )
}

#[test]
fn new_game_starts_a_timed_session() {
    let g = Game::new(Config::default(), 1, 500, W, H).unwrap();
    assert_eq!(*g.config(), Config::default());
    assert_eq!(*g.stats(), Stats::default());
    assert_eq!(g.targets().len(), 3);
    assert!(!g.is_practice());
    assert!(!g.is_finished());
    assert!(!g.cursor_grabbed());
    assert_eq!(g.start_ms(), 500);
    assert_eq!(g.hud(), "");
    for t in g.targets() {
        assert_eq!(t.spawn_ms, 500);
        assert!(t.life_ms > 0);
    }
}

#[test]
fn new_game_refuses_an_invalid_config() {
    let mut c = Config::default();
    c.target_count = 0;
    assert_eq!(Game::new(c, 1, 0, W, H).err(), Some(ConfigError::NoTargets));
    let mut c = Config::default();
    c.min_r = 30;
    assert_eq!(Game::new(c, 1, 0, W, H).err(), Some(ConfigError::RadiiInverted));
    let mut c = Config::default();
    c.target_life_ms = 0;
    assert_eq!(Game::new(c, 1, 0, W, H).err(), Some(ConfigError::ZeroLifetime));
    let mut c = Config::default();
    c.target_life_ms = 4_000_000_000;
    assert_eq!(Game::new(c, 1, 0, W, H).err(), Some(ConfigError::LifetimeTooLong));
}

#[test]
fn shot_at_age_zero_scores_base_plus_bonus() {
    let mut g = Game::new(single(100, 100, 50), 5, 1000, W, H).unwrap();
    let t = g.targets()[0];
    g.shoot(1000, W, H, t.x as i32, t.y as i32);
    assert_eq!(g.stats().score, 200);
    assert_eq!(g.stats().kills, 1);
    assert_eq!(g.stats().shots, 1);
    assert_eq!(g.stats().expired, 0);
    assert_eq!(g.stats().rt_sum_ms, 0);
    assert_eq!(g.stats().rt_n, 1);
}

#[test]
fn shot_at_half_life_scores_base_plus_half_bonus() {
    for seed in 0..20u64 {
        let mut g = Game::new(single(100, 100, 50), seed, 1000, W, H).unwrap();
        let t = g.targets()[0];
        let age = (t.life_ms / 2) as u64;
        g.shoot(1000 + age, W, H, t.x as i32, t.y as i32);
        assert_eq!(g.stats().score, 150, "life {}", t.life_ms);
        assert_eq!(g.stats().kills, 1);
        assert_eq!(g.stats().rt_sum_ms, age);
    }
}

#[test]
fn miss_clamps_score_to_zero() {
    let mut g = Game::new(single(30, 0, 50), 5, 0, W, H).unwrap();
    let t = g.targets()[0];
    g.shoot(0, W, H, t.x as i32, t.y as i32);
    assert_eq!(g.stats().score, 30);
    g.shoot(0, W, H, FAR, FAR);
    assert_eq!(g.stats().score, 0);
    assert_eq!(g.stats().shots, 2);
    assert_eq!(g.stats().kills, 1);
}

#[test]
fn miss_leaves_the_targets_alone() {
    let mut g = Game::new(Config::default(), 11, 0, W, H).unwrap();
    let before = g.targets().clone();
    g.shoot(100, W, H, FAR, FAR);
    assert_eq!(*g.targets(), before);
    assert_eq!(
        *g.stats(),
        Stats { score: 0, shots: 1, kills: 0, expired: 0, rt_sum_ms: 0, rt_n: 0 }
    );
}

#[test]
fn hit_is_decided_by_the_radius_of_the_moment() {
    let c = single(100, 100, 50);
    let g0 = Game::new(c, 21, 0, W, H).unwrap();
    let t = g0.targets()[0];
    let now = (t.life_ms / 4) as u64;
    let r = radius_at(&c, now, t.life_ms);
    assert!(c.min_r < r && r < c.max_r);

    let mut g = Game::new(c, 21, 0, W, H).unwrap();
    g.shoot(now, W, H, (t.x + r) as i32, t.y as i32);
    assert_eq!(g.stats().kills, 1);

    let mut g = Game::new(c, 21, 0, W, H).unwrap();
    g.shoot(now, W, H, (t.x + r + 1) as i32, t.y as i32);
    assert_eq!(g.stats().kills, 0);

    let mut g = Game::new(c, 21, 0, W, H).unwrap();
    assert_eq!(g.find_hit(now, t.x as i32, (t.y - r) as i32), Some(0));
    assert_eq!(g.find_hit(now, t.x as i32, (t.y - r - 1) as i32), None);
    g.shoot(0, W, H, (t.x + c.min_r + 1) as i32, t.y as i32);
    assert_eq!(g.stats().kills, 0);
}

#[test]
fn hit_replaces_only_the_slot_that_was_hit() {
    for slot in 0..3usize {
        let mut g = Game::new(Config::default(), 77, 0, W, H).unwrap();
        let before = g.targets().clone();
        let t = before[slot];
        assert_eq!(g.find_hit(200, t.x as i32, t.y as i32), Some(slot));
        g.shoot(200, W, H, t.x as i32, t.y as i32);
        let after = g.targets().clone();
        assert_eq!(after.len(), 3);
        for j in 0..3 {
            if j == slot {
                assert_eq!(after[j].spawn_ms, 200);
                assert_ne!(after[j], before[j]);
            } else {
                assert_eq!(after[j], before[j]);
            }
        }
        assert_eq!(g.stats().kills, 1);
    }
}

#[test]
fn first_slot_wins_where_targets_overlap() {
    // On a surface without extent every target sits at the origin.
    let mut g = Game::new(Config::default(), 3, 0, 0, 0).unwrap();
    let before = g.targets().clone();
    assert_eq!(g.find_hit(0, 0, 0), Some(0));
    g.shoot(10, 0, 0, 0, 0);
    let after = g.targets().clone();
    assert_eq!(after[0].spawn_ms, 10);
    assert_eq!(after[1], before[1]);
    assert_eq!(after[2], before[2]);
}

#[test]
fn sweep_without_expired_targets_changes_nothing() {
    let mut g = Game::new(Config::default(), 8, 0, W, H).unwrap();
    g.update(0, W, H, &idle());
    g.shoot(10, W, H, FAR, FAR);
    let before = snapshot(&g);
    g.sweep_expired(700, W, H);
    assert_eq!(snapshot(&g), before);
    g.sweep_expired(700, W, H);
    assert_eq!(snapshot(&g), before);
}

#[test]
fn sweep_replaces_exactly_the_expired_targets() {
    let mut c = Config::default();
    c.target_count = 6;
    for seed in 0..20u64 {
        let mut g = Game::new(c, seed, 1000, W, H).unwrap();
        let t = g.targets()[0];
        g.shoot(1000, W, H, t.x as i32, t.y as i32);
        assert_eq!(g.stats().score, 200);
        let before = g.targets().clone();
        let now = 1000 + 900;
        let expired: Vec<bool> = before.iter().map(|t| t.is_expired(now)).collect();
        let count = expired.iter().filter(|&&e| e).count() as u64;
        g.sweep_expired(now, W, H);
        let after = g.targets().clone();
        assert_eq!(after.len(), before.len());
        for j in 0..before.len() {
            if expired[j] {
                assert_eq!(after[j].spawn_ms, now);
            } else {
                assert_eq!(after[j], before[j]);
            }
        }
        assert_eq!(g.stats().expired as u64, count);
        assert_eq!(g.stats().score, 200u64.saturating_sub(75 * count));
        assert_eq!(g.stats().shots, 1);
        assert_eq!(g.stats().kills, 1);
    }
}

#[test]
fn target_expires_when_its_age_reaches_its_lifetime() {
    let mut g = Game::new(single(100, 100, 50), 4, 1000, W, H).unwrap();
    let t = g.targets()[0];
    assert!(!t.is_expired(999));
    assert!(!t.is_expired(1000 + t.life_ms as u64 - 1));
    assert!(t.is_expired(1000 + t.life_ms as u64));
    assert_eq!(t.age(999), 0);
    assert_eq!(t.age(1000), 0);
    assert_eq!(t.age(1450), 450);
    g.sweep_expired(1000 + t.life_ms as u64 - 1, W, H);
    assert_eq!(g.targets()[0], t);
    assert_eq!(g.stats().expired, 0);
    g.sweep_expired(1000 + t.life_ms as u64, W, H);
    assert_ne!(g.targets()[0], t);
    assert_eq!(g.stats().expired, 1);
    assert_eq!(g.stats().score, 0);
}

#[test]
fn practice_toggle_resets_stats_and_targets() {
    let mut g = Game::new(Config::default(), 13, 0, W, H).unwrap();
    let t = g.targets()[1];
    g.shoot(100, W, H, t.x as i32, t.y as i32);
    g.shoot(150, W, H, FAR, FAR);
    g.sweep_expired(2000, W, H);
    assert_ne!(*g.stats(), Stats::default());

    g.toggle_practice(3000, W, H);
    assert!(g.is_practice());
    assert!(!g.is_finished());
    assert_eq!(*g.stats(), Stats::default());
    assert_eq!(g.start_ms(), 3000);
    assert_eq!(g.targets().len(), 3);
    for t in g.targets() {
        assert_eq!(t.spawn_ms, 3000);
    }

    g.toggle_practice(4000, W, H);
    assert!(!g.is_practice());
    assert_eq!(*g.stats(), Stats::default());
    assert_eq!(g.start_ms(), 4000);
    for t in g.targets() {
        assert_eq!(t.spawn_ms, 4000);
    }
}

#[test]
fn practice_toggle_revives_a_finished_session() {
    let mut g = Game::new(Config::default(), 13, 0, W, H).unwrap();
    g.update(60_000, W, H, &idle());
    assert!(g.is_finished());
    let mut input = idle();
    input.toggle_practice = true;
    g.update(61_000, W, H, &input);
    assert!(g.is_practice());
    assert!(!g.is_finished());
    assert_eq!(*g.stats(), Stats::default());
    for t in g.targets() {
        assert_eq!(t.spawn_ms, 61_000);
    }
}

#[test]
fn reset_keeps_the_mode() {
    let mut g = Game::new(Config::default(), 13, 0, W, H).unwrap();
    g.toggle_practice(10, W, H);
    g.shoot(20, W, H, FAR, FAR);
    g.reset(30, W, H);
    assert!(g.is_practice());
    assert_eq!(*g.stats(), Stats::default());
    assert_eq!(g.start_ms(), 30);
    assert_eq!(g.hud(), "");
    for t in g.targets() {
        assert_eq!(t.spawn_ms, 30);
    }
}

#[test]
fn timed_session_finishes_when_the_duration_has_elapsed() {
    let mut g = Game::new(Config::default(), 2, 1000, W, H).unwrap();
    g.update(1000, W, H, &idle());
    assert!(!g.is_finished());
    g.update(60_999, W, H, &idle());
    assert!(!g.is_finished());
    let before = snapshot(&g);
    g.update(61_000, W, H, &idle());
    assert!(g.is_finished());
    // Nothing but the flag changed in the frame that finished the session.
    let after = snapshot(&g);
    assert_eq!(after.0, before.0);
    assert_eq!(after.1, before.1);
    assert_eq!(after.6, before.6);
}

#[test]
fn finished_session_ignores_shots_and_expiry() {
    let mut g = Game::new(Config::default(), 2, 0, W, H).unwrap();
    g.update(60_000, W, H, &idle());
    assert!(g.is_finished());
    let before = snapshot(&g);
    let t = g.targets()[0];
    let mut input = idle();
    input.shoot = true;
    input.pointer_x = t.x as i32;
    input.pointer_y = t.y as i32;
    g.update(70_000, W, H, &input);
    assert_eq!(snapshot(&g), before);
}

#[test]
fn restart_revives_a_finished_session() {
    let mut g = Game::new(Config::default(), 2, 0, W, H).unwrap();
    g.update(60_000, W, H, &idle());
    assert!(g.is_finished());
    let mut input = idle();
    input.restart = true;
    g.update(70_000, W, H, &input);
    assert!(!g.is_finished());
    assert!(!g.is_practice());
    assert_eq!(g.start_ms(), 70_000);
    assert_eq!(*g.stats(), Stats::default());
    g.update(129_999, W, H, &idle());
    assert!(!g.is_finished());
    g.update(130_000, W, H, &idle());
    assert!(g.is_finished());
}

#[test]
fn practice_session_never_finishes() {
    let mut g = Game::new(Config::default(), 2, 0, W, H).unwrap();
    g.toggle_practice(0, W, H);
    g.update(60_000, W, H, &idle());
    assert!(!g.is_finished());
    g.update(u64::MAX, W, H, &idle());
    assert!(!g.is_finished());
}

#[test]
fn zero_duration_finishes_at_once() {
    let mut c = Config::default();
    c.duration_ms = 0;
    let mut g = Game::new(c, 2, 5, W, H).unwrap();
    let mut input = idle();
    input.shoot = true;
    g.update(5, W, H, &input);
    assert!(g.is_finished());
    assert_eq!(g.stats().shots, 0);
}

#[test]
fn clock_before_the_start_does_not_finish_the_session() {
    let mut g = Game::new(Config::default(), 2, 100_000, W, H).unwrap();
    g.update(50_000, W, H, &idle());
    assert!(!g.is_finished());
    assert_eq!(g.stats().expired, 0);
}

#[test]
fn update_sweeps_before_it_shoots() {
    let mut g = Game::new(single(100, 100, 50), 9, 0, W, H).unwrap();
    let t = g.targets()[0];
    let mut input = idle();
    input.shoot = true;
    input.pointer_x = t.x as i32;
    input.pointer_y = t.y as i32;
    g.update(t.life_ms as u64, W, H, &input);
    // The expired target was replaced first, away from where it stood.
    assert_eq!(g.stats().expired, 1);
    assert_eq!(g.stats().shots, 1);
    assert_eq!(g.stats().kills, 0);
    assert_eq!(g.stats().score, 0);
}

#[test]
fn update_shoots_at_the_pointer() {
    let mut g = Game::new(single(100, 100, 50), 9, 0, W, H).unwrap();
    let t = g.targets()[0];
    let mut input = idle();
    input.shoot = true;
    input.pointer_x = t.x as i32;
    input.pointer_y = t.y as i32;
    let quit = g.update(0, W, H, &input);
    assert!(!quit);
    assert_eq!(g.stats().score, 200);
    assert_eq!(g.stats().kills, 1);
    input.shoot = false;
    g.update(1, W, H, &input);
    assert_eq!(g.stats().shots, 1);
}

#[test]
fn quit_is_handed_back_and_nothing_is_done() {
    let mut g = Game::new(Config::default(), 2, 0, W, H).unwrap();
    g.update(0, W, H, &idle());
    let before = snapshot(&g);
    let input = Input {
        quit: true,
        restart: true,
        toggle_practice: true,
        toggle_grab: true,
        shoot: true,
        pointer_x: 1,
        pointer_y: 1,
        fps: 1,
    };
    assert!(g.update(90_000, W, H, &input));
    assert_eq!(snapshot(&g), before);
}

#[test]
fn restart_and_practice_toggle_in_one_frame() {
    let mut g = Game::new(Config::default(), 2, 0, W, H).unwrap();
    g.shoot(5, W, H, FAR, FAR);
    let mut input = idle();
    input.restart = true;
    input.toggle_practice = true;
    input.toggle_grab = true;
    g.update(10, W, H, &input);
    assert!(g.is_practice());
    assert!(g.cursor_grabbed());
    assert_eq!(*g.stats(), Stats::default());
    assert_eq!(g.start_ms(), 10);
}

#[test]
fn cursor_grab_toggles_and_is_released_at_the_end() {
    let mut g = Game::new(Config::default(), 2, 0, W, H).unwrap();
    let mut input = idle();
    input.toggle_grab = true;
    g.update(0, W, H, &input);
    assert!(g.cursor_grabbed());
    g.update(1, W, H, &idle());
    assert!(g.cursor_grabbed());
    g.update(2, W, H, &input);
    assert!(!g.cursor_grabbed());
    g.toggle_grab();
    assert!(g.cursor_grabbed());
    g.reset(3, W, H);
    assert!(g.cursor_grabbed());
    g.update(60_003, W, H, &idle());
    assert!(g.is_finished());
    assert!(!g.cursor_grabbed());
    // A finished session still answers the key.
    g.update(60_004, W, H, &input);
    assert!(g.cursor_grabbed());
    assert!(g.is_finished());
}

#[test]
fn status_text_is_composed_at_most_every_50_ms() {
    let mut g = Game::new(Config::default(), 2, 1000, W, H).unwrap();
    g.update(1000, W, H, &idle());
    let first = "TIME: 60.0s\nScore: 0\nKills: 0  Expired: 0\nShots: 0  ShotAcc:   0%\nTargetAcc:   0%\nAvg RT:    0 ms\nFPS: 60";
    assert_eq!(g.hud(), first);
    let mut input = idle();
    input.fps = 75;
    input.shoot = true;
    input.pointer_x = FAR;
    input.pointer_y = FAR;
    g.update(1049, W, H, &input);
    assert_eq!(g.hud(), first);
    assert_eq!(g.stats().shots, 1);
    input.shoot = false;
    g.update(1050, W, H, &input);
    assert_eq!(
        g.hud(),
        "TIME: 60.0s\nScore: 0\nKills: 0  Expired: 0\nShots: 1  ShotAcc:   0%\nTargetAcc:   0%\nAvg RT:    0 ms\nFPS: 75"
    );
}

#[test]
fn status_text_of_a_practice_session_shows_no_time() {
    let mut g = Game::new(single(100, 100, 50), 2, 0, W, H).unwrap();
    g.toggle_practice(0, W, H);
    let t = g.targets()[0];
    let mut input = idle();
    input.shoot = true;
    input.pointer_x = t.x as i32;
    input.pointer_y = t.y as i32;
    g.update(300, W, H, &input);
    assert_eq!(g.stats().rt_sum_ms, 300);
    let points = g.stats().score;
    assert_eq!(
        g.hud(),
        format!(
            "PRACTICE (\u{221e})\nScore: {points}\nKills: 1  Expired: 0\nShots: 1  ShotAcc: 100%\nTargetAcc: 100%\nAvg RT:  300 ms\nFPS: 60"
        )
    );
    assert_eq!(g.readout(300, 60).avg_rt_ms, 300);
    assert_eq!(g.readout(300, 60).time_left_ds, 0);
}

#[test]
fn refresh_hud_waits_until_the_text_is_due() {
    let mut g = Game::new(Config::default(), 2, 0, W, H).unwrap();
    g.refresh_hud(10, 30);
    assert!(g.hud().ends_with("FPS: 30"));
    g.refresh_hud(59, 31);
    assert!(g.hud().ends_with("FPS: 30"));
    g.refresh_hud(60, 32);
    assert!(g.hud().ends_with("FPS: 32"));
    assert!(g.hud().starts_with("TIME: 59.9s\n"));
}

#[test]
fn sprites_follow_the_curves() {
    let g = Game::new(Config::default(), 6, 100, W, H).unwrap();
    let c = Config::default();
    for now in [0u64, 100, 400, 550, 900, 1200, 5000] {
        let sprites = g.sprites(now);
        assert_eq!(sprites.len(), 3);
        for (s, t) in sprites.iter().zip(g.targets()) {
            let age = now.saturating_sub(100);
            assert_eq!((s.x, s.y), (t.x, t.y));
            assert_eq!(s.radius, radius_at(&c, age, t.life_ms));
            assert_eq!(s.alpha, alpha_at(age, t.life_ms));
            assert_eq!(*s, t.sprite(&c, now));
        }
    }
    let first = g.sprites(100);
    assert!(first.iter().all(|s| s.radius == 10 && s.alpha == 1000));
}

#[test]
fn game_curves_use_the_config_of_the_session() {
    let mut c = Config::default();
    c.min_r = 4;
    c.max_r = 40;
    let g = Game::new(c, 6, 0, W, H).unwrap();
    assert_eq!(g.radius_at(0, 1000), 4);
    assert_eq!(g.radius_at(500, 1000), 40);
    assert_eq!(g.radius_at(250, 1000), 31);
    assert_eq!(g.alpha_at(0, 1000), 1000);
    assert_eq!(g.alpha_at(1000, 1000), 150);
}

#[test]
fn score_never_wraps_below_zero_over_a_long_run() {
    let mut g = Game::new(Config::default(), 31, 0, W, H).unwrap();
    let mut now = 0u64;
    let mut input = idle();
    let mut last_expired = 0;
    for step in 0..2000u64 {
        now += 37;
        input.shoot = step % 3 == 0;
        if step % 2 == 0 {
            let t = g.targets()[(step % 3) as usize];
            input.pointer_x = t.x as i32;
            input.pointer_y = t.y as i32;
        } else {
            input.pointer_x = FAR;
            input.pointer_y = FAR;
        }
        g.update(now, W, H, &input);
        let s = *g.stats();
        assert!(s.score <= 200 * s.kills as u64);
        assert!(s.kills <= s.shots);
        assert!(s.expired >= last_expired);
        assert_eq!(s.kills, s.rt_n);
        last_expired = s.expired;
        assert_eq!(g.targets().len(), 3);
    }
    assert!(g.is_finished());
}
