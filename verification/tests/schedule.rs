use compositor_policy::schedule::delay_until_multiple;
use compositor_policy::schedule::TimerPlan;
use compositor_policy::schedule::STATUS_PERIOD;
use compositor_policy::schedule::STATUS_TIMER;

const SECOND: u128 = 1_000_000_000;

#[test]
fn delay_reaches_the_next_multiple() {
    assert_eq!(delay_until_multiple(12 * SECOND + 1, STATUS_PERIOD), 2_999_999_999);
    assert_eq!(delay_until_multiple(14 * SECOND + 999_999_999, STATUS_PERIOD), 1);
    assert_eq!(delay_until_multiple(1, 1), 0);
    assert_eq!(delay_until_multiple(7, 3), 2);
}

#[test]
fn no_delay_on_a_multiple() {
    assert_eq!(delay_until_multiple(0, STATUS_PERIOD), 0);
    assert_eq!(delay_until_multiple(15 * SECOND, STATUS_PERIOD), 0);
    assert_eq!(delay_until_multiple(u128::from(u64::MAX), u64::MAX), 0);
}

#[test]
fn no_delay_without_a_period() {
    assert_eq!(delay_until_multiple(0, 0), 0);
    assert_eq!(delay_until_multiple(12 * SECOND + 1, 0), 0);
}

#[test]
fn delay_beyond_sixty_four_bits_of_clock() {
    let now = u128::MAX;
    let delay = delay_until_multiple(now, STATUS_PERIOD);
    assert!(u128::from(delay) < u128::from(STATUS_PERIOD));
    assert_eq!((now % u128::from(STATUS_PERIOD) + u128::from(delay)) % u128::from(STATUS_PERIOD), 0);
}

#[test]
fn aligned_plan_ticks_on_multiples_one_period_apart() {
    for now in [0, 1, 4 * SECOND + 999_999_999, 1_709_647_629 * SECOND + 123_456_789] {
        let plan = TimerPlan::aligned(now, STATUS_PERIOD);
        assert_eq!(plan.period, STATUS_PERIOD);
        assert!(plan.initial < STATUS_PERIOD);
        let mut previous = None;
        for k in 0..5u128 {
            let fire = now + u128::from(plan.initial) + k * u128::from(plan.period);
            assert_eq!(fire % u128::from(STATUS_PERIOD), 0);
            if let Some(previous) = previous {
                assert_eq!(fire - previous, u128::from(STATUS_PERIOD));
            }
            previous = Some(fire);
        }
    }
    assert_eq!(
        TimerPlan::aligned(1_709_647_629 * SECOND + 123_456_789, STATUS_PERIOD),
        TimerPlan { initial: 876_543_211, period: STATUS_PERIOD }
    );
}

#[test]
fn wall_clock_plan_starts_within_one_period() {
    for period in [1, 1000, STATUS_PERIOD, u64::MAX] {
        let plan = TimerPlan::from_wall_clock(period);
        assert_eq!(plan.period, period);
        assert!(plan.initial < period);
    }
    assert_eq!(TimerPlan::from_wall_clock(0), TimerPlan { initial: 0, period: 0 });
}

#[test]
fn status_timer_runs_every_five_seconds() {
    assert_eq!(STATUS_PERIOD, 5_000_000_000);
    assert_eq!(STATUS_TIMER, "status_timer");
}
