use multishot::hud::{
    push_decimal, push_padded, push_tenths, ratio, status_text, time_left, Readout, HUD_PERIOD_MS,
};
use multishot::scoring::Stats;

#[test]
fn ratio_rounds_to_the_nearest_whole() {
    assert_eq!(ratio(0, 0), 0);
    assert_eq!(ratio(5, 0), 0);
    assert_eq!(ratio(0, 7), 0);
    assert_eq!(ratio(100, 3), 33);
    assert_eq!(ratio(200, 3), 67);
    assert_eq!(ratio(100, 8), 13);
    assert_eq!(ratio(7, 2), 4);
    assert_eq!(ratio(700, 7), 100);
    assert_eq!(ratio(u64::MAX, 1), u64::MAX);
    assert_eq!(ratio(u64::MAX, u64::MAX), 1);
}

#[test]
fn time_left_is_in_tenths_of_a_second() {
    assert_eq!(time_left(60_000, 0, 0), 600);
    assert_eq!(time_left(60_000, 1000, 1000), 600);
    assert_eq!(time_left(60_000, 1000, 2000), 590);
    assert_eq!(time_left(60_000, 0, 49), 600);
    assert_eq!(time_left(60_000, 0, 51), 599);
    assert_eq!(time_left(60_000, 0, 59_960), 0);
    assert_eq!(time_left(60_000, 0, 59_950), 1);
    assert_eq!(time_left(60_000, 0, 60_000), 0);
    assert_eq!(time_left(60_000, 0, 90_000), 0);
    assert_eq!(time_left(60_000, 500, 100), 600);
    assert_eq!(time_left(u64::MAX, 0, 0), 184467440737095516);
}

#[test]
fn hud_period_is_a_twentieth_of_a_second() {
    assert_eq!(HUD_PERIOD_MS, 50);
}

#[test]
fn decimal_digits_are_written_without_leading_zeros() {
    let mut s = String::from("n=");
    push_decimal(&mut s, 0);
    s.push(',');
    push_decimal(&mut s, 7);
    s.push(',');
    push_decimal(&mut s, 10);
    s.push(',');
    push_decimal(&mut s, 1234567890);
    s.push(',');
    push_decimal(&mut s, u64::MAX);
    assert_eq!(s, "n=0,7,10,1234567890,18446744073709551615");
}

#[test]
fn padded_numbers_are_flush_right() {
    let mut s = String::new();
    push_padded(&mut s, 0, 3);
    s.push('|');
    push_padded(&mut s, 42, 3);
    s.push('|');
    push_padded(&mut s, 100, 3);
    s.push('|');
    push_padded(&mut s, 12345, 3);
    s.push('|');
    push_padded(&mut s, 9, 0);
    assert_eq!(s, "  0| 42|100|12345|9");
}

#[test]
fn tenths_have_one_digit_after_the_point() {
    let mut s = String::new();
    push_tenths(&mut s, 0, 4);
    s.push('|');
    push_tenths(&mut s, 5, 4);
    s.push('|');
    push_tenths(&mut s, 600, 4);
    s.push('|');
    push_tenths(&mut s, 12345, 4);
    s.push('|');
    push_tenths(&mut s, 99, 6);
    assert_eq!(s, " 0.0| 0.5|60.0|1234.5|   9.9");
}

#[test]
fn readout_of_fresh_stats() {
    let r = Stats::default().readout(false, 600, 60);
    assert_eq!(
        r,
        Readout {
            practice: false,
            time_left_ds: 600,
            score: 0,
            kills: 0,
            expired: 0,
            shots: 0,
            shot_acc: 0,
            target_acc: 0,
            avg_rt_ms: 0,
            fps: 60,
        }
    );
}

#[test]
fn readout_of_played_stats() {
    let s = Stats { score: 1234, shots: 9, kills: 6, expired: 2, rt_sum_ms: 2500, rt_n: 6 };
    let r = s.readout(true, 0, 144);
    assert_eq!(r.shot_acc, 67);
    assert_eq!(r.target_acc, 75);
    assert_eq!(r.avg_rt_ms, 417);
    assert_eq!(r.score, 1234);
    assert_eq!((r.kills, r.expired, r.shots, r.fps), (6, 2, 9, 144));
    assert!(r.practice);
}

#[test]
fn status_text_of_a_timed_session() {
    let s = Stats { score: 1234, shots: 9, kills: 6, expired: 2, rt_sum_ms: 2500, rt_n: 6 };
    let text = status_text(&s.readout(false, 423, 60));
    assert_eq!(
        text,
        "TIME: 42.3s\nScore: 1234\nKills: 6  Expired: 2\nShots: 9  ShotAcc:  67%\nTargetAcc:  75%\nAvg RT:  417 ms\nFPS: 60"
    );
}

#[test]
fn status_text_of_a_practice_session() {
    let text = status_text(&Stats::default().readout(true, 0, 0));
    assert_eq!(
        text,
        "PRACTICE (\u{221e})\nScore: 0\nKills: 0  Expired: 0\nShots: 0  ShotAcc:   0%\nTargetAcc:   0%\nAvg RT:    0 ms\nFPS: 0"
    );
}

#[test]
fn status_text_pads_short_times() {
    let text = status_text(&Stats::default().readout(false, 7, 1));
    assert!(text.starts_with("TIME:  0.7s\n"));
    let text = status_text(&Stats::default().readout(false, 6000, 1));
    assert!(text.starts_with("TIME: 600.0s\n"));
}
