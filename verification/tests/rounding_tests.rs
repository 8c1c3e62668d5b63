// Tests for rounding to 8 decimal places over quarter ticks.

use technical_analyzer::rounding::round8_quarter_ticks;

#[test]
fn rounds_half_away_from_zero() {
    assert_eq!(round8_quarter_ticks(0), 0);
    assert_eq!(round8_quarter_ticks(1), 0);
    assert_eq!(round8_quarter_ticks(2), 1);
    assert_eq!(round8_quarter_ticks(3), 1);
    assert_eq!(round8_quarter_ticks(4), 1);
    assert_eq!(round8_quarter_ticks(5), 1);
    assert_eq!(round8_quarter_ticks(6), 2);
    assert_eq!(round8_quarter_ticks(7), 2);
    assert_eq!(round8_quarter_ticks(-1), 0);
    assert_eq!(round8_quarter_ticks(-2), -1);
    assert_eq!(round8_quarter_ticks(-3), -1);
    assert_eq!(round8_quarter_ticks(-5), -1);
    assert_eq!(round8_quarter_ticks(-6), -2);
}

#[test]
fn rounding_is_idempotent() {
    let samples = [0_i64, 1, 2, 3, 5, 6, 7, 41, -1, -2, -3, -6, -41, 399_999_999];
    for q in samples {
        let once = round8_quarter_ticks(q);
        let twice = round8_quarter_ticks(4 * once);
        assert_eq!(twice, once);
    }
}

#[test]
fn rounding_only_at_output_matters() {
    // Averaging two quarter-tick values and rounding once differs from
    // rounding each first: the engine's contracts pin the former.
    let t_quarters = 2_i64; // half a tick, unrounded
    let k_quarters = 0_i64;
    let midpoint_then_round = round8_quarter_ticks((t_quarters + k_quarters) / 2);
    let round_then_midpoint =
        round8_quarter_ticks(2 * (round8_quarter_ticks(t_quarters) + round8_quarter_ticks(k_quarters)));
    assert_eq!(midpoint_then_round, 0);
    assert_eq!(round_then_midpoint, 1);
}
