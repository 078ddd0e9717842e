use workguard::config::default_timer::schedule_default;
use workguard::core_logic::calculator::WorkCalculator;
use workguard::core_logic::clock::TimeOfDay;
use workguard::core_logic::schedule::{BlockType, Schedule, TimeBlock};

fn hms(h: u32, m: u32, s: u32) -> TimeOfDay {
    TimeOfDay::from_hms_opt(h, m, s).unwrap()
}

fn block(label: &str, start: TimeOfDay, end: TimeOfDay, block_type: BlockType) -> TimeBlock {
    TimeBlock { label: label.to_string(), start, end, block_type }
}

#[test]
fn full_day_with_lunch_is_eight_hours() {
    let worked = WorkCalculator::calculate_worked_minutes(hms(8, 0, 0), hms(17, 0, 0), &schedule_default());
    assert_eq!(worked, 480);
}

#[test]
fn lunch_overlap_is_partial() {
    let worked = WorkCalculator::calculate_worked_minutes(hms(8, 0, 0), hms(12, 30, 0), &schedule_default());
    assert_eq!(worked, 240);
}

#[test]
fn soft_pause_counts_as_work() {
    let worked = WorkCalculator::calculate_worked_minutes(hms(14, 0, 0), hms(17, 0, 0), &schedule_default());
    assert_eq!(worked, 180);
    let empty = Schedule { blocks: vec![] };
    assert_eq!(WorkCalculator::calculate_worked_minutes(hms(14, 0, 0), hms(17, 0, 0), &empty), 180);
}

#[test]
fn worked_is_never_negative() {
    let worked = WorkCalculator::calculate_worked_minutes(hms(9, 0, 0), hms(8, 0, 0), &schedule_default());
    assert_eq!(worked, 0);
    let whole_pause = Schedule {
        blocks: vec![block("p", hms(8, 0, 0), hms(10, 0, 0), BlockType::HardPause)],
    };
    assert_eq!(WorkCalculator::calculate_worked_minutes(hms(8, 30, 0), hms(9, 0, 0), &whole_pause), 0);
}

#[test]
fn pause_outside_span_changes_nothing() {
    let late = Schedule {
        blocks: vec![block("late", hms(20, 0, 0), hms(21, 0, 0), BlockType::HardPause)],
    };
    assert_eq!(WorkCalculator::calculate_worked_minutes(hms(8, 0, 0), hms(10, 0, 0), &late), 120);
}

#[test]
fn repeated_hard_pauses_each_count() {
    let twice = Schedule {
        blocks: vec![
            block("a", hms(9, 0, 0), hms(9, 30, 0), BlockType::HardPause),
            block("b", hms(9, 0, 0), hms(9, 30, 0), BlockType::HardPause),
        ],
    };
    assert_eq!(WorkCalculator::calculate_worked_minutes(hms(8, 0, 0), hms(10, 0, 0), &twice), 60);
}

#[test]
fn minutes_are_truncated() {
    let start = TimeOfDay::from_num_seconds_from_midnight_opt(8 * 3600, 500_000_000).unwrap();
    let now = TimeOfDay::from_num_seconds_from_midnight_opt(9 * 3600, 200_000_000).unwrap();
    let empty = Schedule { blocks: vec![] };
    assert_eq!(WorkCalculator::calculate_worked_minutes(start, now, &empty), 59);
    assert_eq!(WorkCalculator::calculate_worked_minutes(start, hms(8, 1, 0), &empty), 0);
    assert_eq!(WorkCalculator::calculate_worked_minutes(start, hms(8, 1, 1), &empty), 1);
}

#[test]
fn leap_second_counts_as_a_second() {
    let empty = Schedule { blocks: vec![] };
    let leap = TimeOfDay::from_num_seconds_from_midnight_opt(8 * 3600 + 59, 1_500_000_000).unwrap();
    assert_eq!(WorkCalculator::calculate_worked_minutes(hms(8, 0, 0), leap, &empty), 1);
    assert_eq!(WorkCalculator::calculate_worked_minutes(hms(8, 0, 1), leap, &empty), 0);
    let leap_start = TimeOfDay::from_num_seconds_from_midnight_opt(7 * 3600 + 59 * 60 + 59, 1_000_000_000).unwrap();
    assert_eq!(WorkCalculator::calculate_worked_minutes(leap_start, hms(8, 1, 0), &empty), 1);
}

#[test]
fn worked_and_remaining_split_the_target() {
    let s = schedule_default();
    assert_eq!(WorkCalculator::calculate_worked_and_remaining(hms(8, 0, 0), hms(12, 30, 0), &s, 480), (240, 240));
    assert_eq!(WorkCalculator::calculate_worked_and_remaining(hms(8, 0, 0), hms(18, 0, 0), &s, 480), (540, 0));
    assert_eq!(WorkCalculator::calculate_worked_and_remaining(hms(8, 0, 0), hms(17, 0, 0), &s, 480), (480, 0));
    assert_eq!(WorkCalculator::calculate_worked_and_remaining(hms(8, 0, 0), hms(8, 0, 0), &s, -5), (0, 0));
}

#[test]
fn time_constructors_check_ranges() {
    assert!(TimeOfDay::from_hms_opt(24, 0, 0).is_none());
    assert!(TimeOfDay::from_hms_opt(23, 60, 0).is_none());
    assert!(TimeOfDay::from_hms_opt(23, 59, 60).is_none());
    assert_eq!(TimeOfDay::from_hms_opt(1, 2, 3), Some(TimeOfDay { secs: 3723, frac: 0 }));
    assert!(TimeOfDay::from_num_seconds_from_midnight_opt(86_400, 0).is_none());
    assert!(TimeOfDay::from_num_seconds_from_midnight_opt(100, 1_000_000_000).is_none());
    assert!(TimeOfDay::from_num_seconds_from_midnight_opt(119, 1_000_000_000).is_some());
    assert!(TimeOfDay::from_num_seconds_from_midnight_opt(119, 2_000_000_000).is_none());
    assert!(hms(8, 0, 0).is_before(&hms(8, 0, 1)));
    assert!(!hms(8, 0, 1).is_before(&hms(8, 0, 1)));
    assert!(TimeOfDay { secs: 90_000, frac: 0 }.is_valid() == false);
}

#[test]
fn reordering_and_soft_pauses_do_not_change_work() {
    let lunch = block("lunch", hms(12, 0, 0), hms(13, 0, 0), BlockType::HardPause);
    let errand = block("errand", hms(15, 0, 0), hms(15, 20, 0), BlockType::HardPause);
    let coffee = block("coffee", hms(9, 0, 0), hms(11, 0, 0), BlockType::SoftPause);
    let a = Schedule { blocks: vec![lunch.clone(), coffee.clone(), errand.clone()] };
    let b = Schedule { blocks: vec![errand.clone(), lunch.clone()] };
    let c = Schedule { blocks: vec![coffee.clone(), errand, coffee, lunch] };
    for now in [hms(10, 0, 0), hms(12, 30, 0), hms(15, 10, 0), hms(18, 0, 0)] {
        let w = WorkCalculator::calculate_worked_minutes(hms(8, 0, 0), now, &a);
        assert_eq!(WorkCalculator::calculate_worked_minutes(hms(8, 0, 0), now, &b), w);
        assert_eq!(WorkCalculator::calculate_worked_minutes(hms(8, 0, 0), now, &c), w);
    }
    assert_eq!(WorkCalculator::calculate_worked_minutes(hms(8, 0, 0), hms(18, 0, 0), &a), 520);
}

#[test]
fn work_grows_by_at_most_the_elapsed_minutes() {
    let s = schedule_default();
    let start = hms(8, 0, 0);
    let mut previous = 0;
    for minute in (8 * 60)..(20 * 60) {
        let now = hms(minute / 60, minute % 60, 0);
        let w = WorkCalculator::calculate_worked_minutes(start, now, &s);
        assert!(w >= previous);
        assert!(w <= previous + 1);
        previous = w;
    }
    assert_eq!(previous, 11 * 60 + 59 - 60);
}
