use compositor_policy::clock::stamp;
use compositor_policy::clock::LAST_FOUR_DIGIT_SECOND;
use compositor_policy::decimal::decimal_text;
use compositor_policy::decimal::divide_rounded;
use compositor_policy::decimal::push_decimal;
use compositor_policy::decimal::push_hundredths;
use compositor_policy::decimal::push_tenths;
use compositor_policy::status::mean_load;
use compositor_policy::status::render_line;
use compositor_policy::status::render_lines;
use compositor_policy::status::scaled_memory;
use compositor_policy::status::setup_status;
use compositor_policy::status::state_text;
use compositor_policy::status::tick;
use compositor_policy::status::Battery;
use compositor_policy::status::BatteryState;
use compositor_policy::status::Sample;

const GIB_IN_KIB: u64 = 1024 * 1024;

fn charging() -> Battery {
    Battery {
        state: BatteryState::Charging,
        time_to_empty: None,
        time_to_full: Some(1800),
        charge: 730,
    }
}

fn draining() -> Battery {
    Battery {
        state: BatteryState::Discharging,
        time_to_empty: Some(7259),
        time_to_full: None,
        charge: 415,
    }
}

fn busy_sample(batteries: Vec<Option<Battery>>) -> Sample {
    Sample {
        cores: vec![10000, 10000, 10000, 10000],
        used_memory: 2 * GIB_IN_KIB,
        total_memory: 8 * GIB_IN_KIB,
        batteries,
    }
}

#[test]
fn busy_machine_with_one_charging_battery() {
    let sample = busy_sample(vec![Some(charging())]);
    let lines = render_lines(&sample, "2024-03-05 14:07:09");
    assert_eq!(
        lines,
        vec![
            "BAT: M-Charging DT-0 min CT-30 min Capacity-73.0% <span color=\"#333333\">|</span> \
             MEM: 2.0/8.0 <span color=\"#333333\">|</span> CPU:  1.00 \
             <span color=\"#333333\">|</span> 2024-03-05 14:07:09"
        ]
    );
    let line = &lines[0];
    let state = line.find("Charging").unwrap();
    let charge = line.find("73").unwrap();
    let memory = line.find("2.0/8.0").unwrap();
    let load = line.find("CPU:").unwrap();
    assert!(state < charge && charge < memory && memory < load);
}

#[test]
fn one_line_per_battery() {
    let sample = busy_sample(vec![Some(charging()), Some(draining())]);
    let lines = render_lines(&sample, "t");
    assert_eq!(lines.len(), 2);
    assert_eq!(lines[0], render_line(&charging(), &sample, "t"));
    assert_eq!(lines[1], render_line(&draining(), &sample, "t"));
    assert!(lines[1].starts_with("BAT: M-Discharging DT-120 min CT-0 min Capacity-41.5% "));
}

#[test]
fn no_battery_no_line() {
    let sample = busy_sample(Vec::new());
    assert!(render_lines(&sample, "2024-03-05 14:07:09").is_empty());
    assert_eq!(tick(&sample, 0, 0), Some(Vec::new()));
}

#[test]
fn unreadable_battery_is_passed_over() {
    let sample = busy_sample(vec![None, Some(draining()), None, Some(charging())]);
    let lines = render_lines(&sample, "t");
    assert_eq!(
        lines,
        vec![render_line(&draining(), &sample, "t"), render_line(&charging(), &sample, "t")]
    );
    assert!(render_lines(&busy_sample(vec![None]), "t").is_empty());
}

#[test]
fn idle_machine() {
    let sample = Sample {
        cores: vec![0, 0],
        used_memory: 0,
        total_memory: 16 * 1024 * 1024 * 1024,
        batteries: vec![Some(Battery {
            state: BatteryState::Full,
            time_to_empty: None,
            time_to_full: None,
            charge: 1000,
        })],
    };
    assert_eq!(
        render_lines(&sample, "1999-12-31 23:59:59"),
        vec![
            "BAT: M-Full DT-0 min CT-0 min Capacity-100.0% <span color=\"#333333\">|</span> \
             MEM: 0.0/16384.0 <span color=\"#333333\">|</span> CPU:  0.00 \
             <span color=\"#333333\">|</span> 1999-12-31 23:59:59"
        ]
    );
}

#[test]
fn mean_load_is_rounded_to_hundredths() {
    assert_eq!(mean_load(&Vec::new()), 0);
    assert_eq!(mean_load(&vec![10000]), 100);
    assert_eq!(mean_load(&vec![0, 10000]), 50);
    assert_eq!(mean_load(&vec![1234]), 12);
    assert_eq!(mean_load(&vec![1250]), 12);
    assert_eq!(mean_load(&vec![1350]), 14);
    assert_eq!(mean_load(&vec![1251]), 13);
    assert_eq!(mean_load(&vec![100, 200, 400]), 2);
    assert_eq!(mean_load(&vec![u32::MAX, u32::MAX]), 42949673);
}

#[test]
fn wide_loads_fill_the_field() {
    let mut sample = busy_sample(vec![Some(charging())]);
    sample.cores = vec![99949];
    assert!(render_lines(&sample, "t")[0].contains(" CPU:  9.99 "));
    sample.cores = vec![100000];
    assert!(render_lines(&sample, "t")[0].contains(" CPU: 10.00 "));
    sample.cores = vec![1234567];
    assert!(render_lines(&sample, "t")[0].contains(" CPU: 123.46 "));
}

#[test]
fn memory_is_scaled_and_rounded() {
    assert_eq!(scaled_memory(0), 0);
    assert_eq!(scaled_memory(2 * GIB_IN_KIB), 20);
    assert_eq!(scaled_memory(1_572_864), 15);
    assert_eq!(scaled_memory(52_428), 0);
    assert_eq!(scaled_memory(52_429), 1);
    assert_eq!(scaled_memory(1_048_576 / 4), 2);
    assert_eq!(scaled_memory(3 * 1_048_576 / 4), 8);
    assert_eq!(scaled_memory(u64::MAX), 175_921_860_444_160);
}

#[test]
fn battery_state_names() {
    assert_eq!(state_text(BatteryState::Unknown), "Unknown");
    assert_eq!(state_text(BatteryState::Charging), "Charging");
    assert_eq!(state_text(BatteryState::Discharging), "Discharging");
    assert_eq!(state_text(BatteryState::Empty), "Empty");
    assert_eq!(state_text(BatteryState::Full), "Full");
}

#[test]
fn division_rounds_ties_to_even() {
    assert_eq!(divide_rounded(0, 7), 0);
    assert_eq!(divide_rounded(5, 2), 2);
    assert_eq!(divide_rounded(7, 2), 4);
    assert_eq!(divide_rounded(1, 2), 0);
    assert_eq!(divide_rounded(3, 2), 2);
    assert_eq!(divide_rounded(10, 4), 2);
    assert_eq!(divide_rounded(11, 4), 3);
    assert_eq!(divide_rounded(9, 4), 2);
    assert_eq!(divide_rounded(u128::MAX, 1), u128::MAX);
    assert_eq!(divide_rounded(u128::MAX, u128::MAX), 1);
    assert_eq!(divide_rounded(u128::MAX - 1, u128::MAX), 1);
    assert_eq!(divide_rounded(u128::MAX / 2, u128::MAX), 0);
}

#[test]
fn decimal_numerals() {
    assert_eq!(decimal_text(0), "0");
    assert_eq!(decimal_text(9), "9");
    assert_eq!(decimal_text(10), "10");
    assert_eq!(decimal_text(1090), "1090");
    assert_eq!(decimal_text(u64::MAX), "18446744073709551615");
    let mut text = String::from("n=");
    push_decimal(&mut text, 507);
    assert_eq!(text, "n=507");
}

#[test]
fn fixed_point_numerals() {
    let mut text = String::new();
    push_tenths(&mut text, 0);
    text.push(' ');
    push_tenths(&mut text, 7);
    text.push(' ');
    push_tenths(&mut text, 1234);
    assert_eq!(text, "0.0 0.7 123.4");
    let mut text = String::new();
    push_hundredths(&mut text, 5);
    text.push(' ');
    push_hundredths(&mut text, 50);
    text.push(' ');
    push_hundredths(&mut text, 12345);
    assert_eq!(text, "0.05 0.50 123.45");
}

#[test]
fn stamps_follow_the_calendar() {
    assert_eq!(stamp(0, 0), Some(String::from("1970-01-01 00:00:00")));
    assert_eq!(stamp(1709647629, 0), Some(String::from("2024-03-05 14:07:09")));
    assert_eq!(stamp(1709647629, 3600), Some(String::from("2024-03-05 15:07:09")));
    assert_eq!(stamp(1709647629, -5 * 3600), Some(String::from("2024-03-05 09:07:09")));
    assert_eq!(stamp(946684799, 1), Some(String::from("2000-01-01 00:00:00")));
    assert_eq!(stamp(LAST_FOUR_DIGIT_SECOND, 0), Some(String::from("9999-12-31 23:59:59")));
}

#[test]
fn stamps_end_where_the_calendar_ends() {
    assert_eq!(stamp(i64::MAX, 0), None);
    assert_eq!(stamp(i64::MAX, 1), None);
    assert_eq!(stamp(i64::MIN, -1), None);
    assert_eq!(stamp(i64::MIN, 0), None);
}

#[test]
fn tick_stamps_every_line() {
    let sample = busy_sample(vec![Some(charging()), None, Some(draining())]);
    let lines = tick(&sample, 1709647629, 7200).unwrap();
    assert_eq!(lines, render_lines(&sample, "2024-03-05 16:07:09"));
    assert_eq!(lines.len(), 2);
    assert!(lines[0].ends_with("<span color=\"#333333\">|</span> 2024-03-05 16:07:09"));
    assert_eq!(tick(&sample, i64::MAX, 0), None);
}

#[test]
fn setup_publishes_at_once_and_plans_the_timer() {
    let sample = busy_sample(vec![Some(charging())]);
    let setup = setup_status(&sample, 1709647629, 0);
    assert_eq!(setup.first, Some(render_lines(&sample, "2024-03-05 14:07:09")));
    assert_eq!(setup.plan.period, 5_000_000_000);
    assert!(setup.plan.initial < 5_000_000_000);
    assert_eq!(setup_status(&sample, i64::MIN, 0).first, None);
}
