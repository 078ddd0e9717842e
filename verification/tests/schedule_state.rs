use workguard::config::default_timer::{create_default_timer, restore_timer, restore_timer_on, schedule_default};
use workguard::commands::reset_day::reset_day;
use workguard::core_logic::clock::{CalendarDate, TimeOfDay, current_date, current_time};
use workguard::core_logic::schedule::{BlockType, Schedule, TimeBlock};
use workguard::core_logic::state::{WorkState, WorkTimerState};
use workguard::core_logic::timer::WorkTimer;

fn hms(h: u32, m: u32, s: u32) -> TimeOfDay {
    TimeOfDay::from_hms_opt(h, m, s).unwrap()
}

#[test]
fn block_is_half_open() {
    let s = schedule_default();
    let lunch = &s.blocks[0];
    assert!(lunch.contains(hms(12, 0, 0)));
    assert!(lunch.contains(hms(12, 59, 59)));
    assert!(!lunch.contains(hms(13, 0, 0)));
    assert!(!lunch.contains(hms(11, 59, 59)));
}

#[test]
fn active_block_is_the_first_match() {
    let s = Schedule {
        blocks: vec![
            TimeBlock { label: "a".to_string(), start: hms(9, 0, 0), end: hms(11, 0, 0), block_type: BlockType::SoftPause },
            TimeBlock { label: "b".to_string(), start: hms(10, 0, 0), end: hms(12, 0, 0), block_type: BlockType::HardPause },
        ],
    };
    assert_eq!(s.get_active_block(hms(10, 30, 0)).unwrap().label, "a");
    assert_eq!(s.get_active_block(hms(11, 30, 0)).unwrap().label, "b");
    assert!(s.get_active_block(hms(12, 0, 0)).is_none());
}

#[test]
fn default_schedule_has_lunch_and_coffee() {
    let s = schedule_default();
    assert_eq!(s.blocks.len(), 2);
    assert_eq!(s.blocks[0].label, "Almoço");
    assert_eq!(s.blocks[0].start, hms(12, 0, 0));
    assert_eq!(s.blocks[0].end, hms(13, 0, 0));
    assert_eq!(s.blocks[0].block_type, BlockType::HardPause);
    assert_eq!(s.blocks[1].label, "Pausa para café");
    assert_eq!(s.blocks[1].start, hms(16, 0, 0));
    assert_eq!(s.blocks[1].end, hms(17, 0, 0));
    assert_eq!(s.blocks[1].block_type, BlockType::SoftPause);
}

#[test]
fn determine_state_follows_target_then_schedule() {
    let timer = WorkTimer::new(hms(8, 0, 0), schedule_default(), 480);
    assert_eq!(timer.determine_state(hms(12, 30, 0), 480), WorkState::Finished);
    assert_eq!(timer.determine_state(hms(12, 30, 0), 600), WorkState::Finished);
    assert_eq!(
        timer.determine_state(hms(12, 30, 0), 240),
        WorkState::Paused { reason: "Almoço".to_string(), until: Some(hms(13, 0, 0)) }
    );
    assert_eq!(
        timer.determine_state(hms(16, 15, 0), 400),
        WorkState::SoftBreak { label: "Pausa para café".to_string(), until: Some(hms(17, 0, 0)) }
    );
    assert_eq!(timer.determine_state(hms(10, 0, 0), 120), WorkState::Working);
}

#[test]
fn work_state_equality_compares_contents() {
    let a = WorkState::Paused { reason: "x".to_string(), until: Some(hms(1, 0, 0)) };
    assert_eq!(a, a.clone());
    assert_ne!(a, WorkState::Paused { reason: "y".to_string(), until: Some(hms(1, 0, 0)) });
    assert_ne!(a, WorkState::Paused { reason: "x".to_string(), until: None });
    assert_ne!(a, WorkState::SoftBreak { label: "x".to_string(), until: Some(hms(1, 0, 0)) });
    assert_eq!(WorkState::Working, WorkState::Working);
    assert_ne!(WorkState::Working, WorkState::Finished);
}

#[test]
fn timer_from_state_keeps_start_and_target() {
    let st = WorkTimerState {
        start_date: CalendarDate { year: 2024, month: 5, day: 6 },
        start_time: hms(7, 45, 0),
        daily_target_minutes: 360,
    };
    let t = WorkTimer::from_state(st, schedule_default());
    assert_eq!(t.start_time, hms(7, 45, 0));
    assert_eq!(t.daily_target_minutes, 360);
    let saved = t.to_state();
    assert_eq!(saved.start_time, hms(7, 45, 0));
    assert_eq!(saved.daily_target_minutes, 360);
    assert_eq!(saved.start_date, current_date());
}

#[test]
fn restore_only_on_the_same_day() {
    let day = CalendarDate { year: 2024, month: 5, day: 6 };
    let st = WorkTimerState { start_date: day, start_time: hms(7, 45, 0), daily_target_minutes: 360 };
    let t = restore_timer_on(st, day).unwrap();
    assert_eq!(t.start_time, hms(7, 45, 0));
    assert_eq!(t.daily_target_minutes, 360);
    assert_eq!(t.schedule.blocks.len(), 2);
    assert!(restore_timer_on(st, CalendarDate { year: 2024, month: 5, day: 7 }).is_none());
    let today = WorkTimerState { start_date: current_date(), start_time: hms(7, 0, 0), daily_target_minutes: 1 };
    assert!(restore_timer(today).is_some());
}

#[test]
fn default_timer_and_reset() {
    let mut t = create_default_timer();
    assert_eq!(t.daily_target_minutes, 480);
    assert!(t.start_time.is_valid());
    t.start_time = hms(0, 0, 0);
    assert!(reset_day(&mut t).is_ok());
    assert_eq!(t.daily_target_minutes, 480);
    assert_eq!(t.schedule.blocks.len(), 2);
    assert!(t.start_time.is_valid());
    let s = t.get_state();
    assert!(s.has_valid_times());
    assert!(current_time().is_valid());
}

#[test]
fn restart_and_save_on_given_values() {
    let mut t = WorkTimer::new(hms(8, 0, 0), schedule_default(), 480);
    t.restart_at(hms(9, 15, 0));
    assert_eq!(t.start_time, hms(9, 15, 0));
    assert_eq!(t.daily_target_minutes, 480);
    assert_eq!(t.schedule.blocks.len(), 2);
    let day = CalendarDate { year: 2025, month: 1, day: 31 };
    let st = t.to_state_on(day);
    assert_eq!(st, WorkTimerState { start_date: day, start_time: hms(9, 15, 0), daily_target_minutes: 480 });
    let back = restore_timer_on(st, day).unwrap();
    assert_eq!(back.start_time, t.start_time);
    assert_eq!(back.daily_target_minutes, t.daily_target_minutes);
}

#[test]
fn state_at_a_given_time() {
    let timer = WorkTimer::new(hms(8, 0, 0), schedule_default(), 480);
    assert_eq!(
        timer.state_at_time(hms(12, 30, 0)),
        WorkState::Paused { reason: "Almoço".to_string(), until: Some(hms(13, 0, 0)) }
    );
    assert_eq!(
        timer.state_at_time(hms(16, 30, 0)),
        WorkState::SoftBreak { label: "Pausa para café".to_string(), until: Some(hms(17, 0, 0)) }
    );
    assert_eq!(timer.state_at_time(hms(10, 0, 0)), WorkState::Working);
    assert_eq!(timer.state_at_time(hms(17, 0, 0)), WorkState::Finished);
    assert_eq!(timer.state_at_time(hms(7, 0, 0)), WorkState::Working);
}
