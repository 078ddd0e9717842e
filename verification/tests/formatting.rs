use workguard::commands::get_status::{get_status, status_report};
use workguard::config::default_timer::schedule_default;
use workguard::core_logic::clock::TimeOfDay;
use workguard::core_logic::state::WorkState;
use workguard::core_logic::time_format::{deserialize, serialize};
use workguard::core_logic::timer::WorkTimer;
use workguard::utils::format_status::{format_status, format_status_at};
use workguard::utils::format_work_state::{describe_state, format_work_state};
use workguard::utils::text::decimal_string;

fn hms(h: u32, m: u32, s: u32) -> TimeOfDay {
    TimeOfDay::from_hms_opt(h, m, s).unwrap()
}

#[test]
fn decimal_digits() {
    assert_eq!(decimal_string(0), "0");
    assert_eq!(decimal_string(7), "7");
    assert_eq!(decimal_string(10), "10");
    assert_eq!(decimal_string(480), "480");
    assert_eq!(decimal_string(u64::MAX), u64::MAX.to_string());
}

#[test]
fn serialize_writes_hh_mm_ss() {
    assert_eq!(serialize(&Some(hms(7, 5, 3))), Some("07:05:03".to_string()));
    assert_eq!(serialize(&None), None);
    let with_nanos = TimeOfDay::from_num_seconds_from_midnight_opt(3600, 999).unwrap();
    assert_eq!(serialize(&Some(with_nanos)), Some("01:00:00".to_string()));
    let leap = TimeOfDay::from_num_seconds_from_midnight_opt(86_399, 1_000_000_000).unwrap();
    assert_eq!(serialize(&Some(leap)), Some("23:59:60".to_string()));
}

#[test]
fn deserialize_reads_hh_mm_ss() {
    assert_eq!(deserialize(None).unwrap(), None);
    assert_eq!(deserialize(Some("13:00:00".to_string())).unwrap(), Some(hms(13, 0, 0)));
    assert!(deserialize(Some("25:00:00".to_string())).is_err());
    assert!(deserialize(Some("13:00".to_string())).is_err());
    assert!(deserialize(Some("nonsense".to_string())).is_err());
    let leap = deserialize(Some("23:59:60".to_string())).unwrap().unwrap();
    assert_eq!(leap, TimeOfDay { secs: 86_399, frac: 1_000_000_000 });
}

#[test]
fn serialize_then_deserialize_round_trip() {
    for t in [hms(0, 0, 0), hms(12, 34, 56), hms(23, 59, 59)] {
        assert_eq!(deserialize(serialize(&Some(t))).unwrap(), Some(t));
    }
    assert_eq!(deserialize(serialize(&None)).unwrap(), None);
}

#[test]
fn state_words() {
    assert_eq!(describe_state(&WorkState::Working), "Trabalhando");
    assert_eq!(describe_state(&WorkState::Finished), "Concluído");
    assert_eq!(
        describe_state(&WorkState::Paused { reason: "Almoço".to_string(), until: None }),
        "Pausado: Almoço"
    );
    assert_eq!(
        describe_state(&WorkState::SoftBreak { label: "Café".to_string(), until: Some(hms(17, 0, 0)) }),
        "Pausa leve: Café"
    );
}

#[test]
fn status_line_in_hours_and_minutes() {
    let timer = WorkTimer::new(hms(8, 0, 0), schedule_default(), 480);
    assert_eq!(format_status_at(&timer, hms(12, 30, 0)), "4h 0m trabalhadas | 4h 0m restantes");
    assert_eq!(format_status_at(&timer, hms(9, 5, 0)), "1h 5m trabalhadas | 6h 55m restantes");
    assert_eq!(format_status_at(&timer, hms(18, 0, 0)), "9h 0m trabalhadas | 0h 0m restantes");
    let now_text = format_status(&timer);
    assert!(now_text.contains("trabalhadas | "));
    assert!(now_text.ends_with("m restantes"));
}

#[test]
fn status_report_text() {
    let timer = WorkTimer::new(hms(8, 0, 0), schedule_default(), 480);
    let state = timer.determine_state(hms(12, 30, 0), 240);
    assert_eq!(
        status_report(&timer, &state, hms(12, 30, 0)),
        "Trabalhados: 240 minutos | Restante: 240 minutos | Pausado: Almoço"
    );
    let report = get_status(&timer).unwrap();
    assert!(report.starts_with("Trabalhados: "));
    let words = format_work_state(&timer);
    assert!(["Trabalhando", "Concluído", "Pausado: Almoço", "Pausa leve: Pausa para café"].contains(&words.as_str()));
}
