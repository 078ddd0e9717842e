use workguard::core_logic::clock::TimeOfDay;
use workguard::core_logic::state::WorkState;
use workguard::config::default_timer::schedule_default;
use workguard::core_logic::timer::WorkTimer;
use workguard::notifications::notifier::{notify_back_to_work, notify_finished, notify_hard_pause, notify_soft_pause};
use workguard::tray::handlers::{MenuAction, handle_menu_event, notify_by_state, status_line, status_tick};
use workguard::tray::tray_icon::load_icon;

fn hms(h: u32, m: u32, s: u32) -> TimeOfDay {
    TimeOfDay::from_hms_opt(h, m, s).unwrap()
}

#[test]
fn menu_events() {
    assert_eq!(handle_menu_event("quit"), MenuAction::Quit);
    assert_eq!(handle_menu_event("reset"), MenuAction::Reset);
    assert_eq!(handle_menu_event("status"), MenuAction::Ignore);
    assert_eq!(handle_menu_event("Quit"), MenuAction::Ignore);
}

#[test]
fn notification_texts() {
    let n = notify_hard_pause("Almoço", "13:00");
    assert_eq!(n.title, "Pausa Obrigatória");
    assert_eq!(n.body, "Pausa para: Almoço, retorno em: 13:00");
    let n = notify_soft_pause("Café", "17:00");
    assert_eq!(n.title, "Pausa Leve");
    assert_eq!(n.body, "Pausa leve: Café, retorno em: 17:00");
    let n = notify_finished();
    assert_eq!(n.title, "Dia Concluído");
    assert_eq!(n.body, "Parabéns! Você concluiu seu dia de trabalho.");
    let n = notify_back_to_work();
    assert_eq!(n.title, "Fim da Pausa");
    assert_eq!(n.body, "Hora de voltar ao trabalho!");
}

#[test]
fn notice_for_each_state() {
    let n = notify_by_state(&WorkState::Paused { reason: "Almoço".to_string(), until: Some(hms(13, 5, 59)) });
    assert_eq!(n.body, "Pausa para: Almoço, retorno em: 13:05");
    let n = notify_by_state(&WorkState::SoftBreak { label: "Café".to_string(), until: None });
    assert_eq!(n.body, "Pausa leve: Café, retorno em: ?");
    assert_eq!(notify_by_state(&WorkState::Finished).title, "Dia Concluído");
    assert_eq!(notify_by_state(&WorkState::Working).title, "Fim da Pausa");
}

#[test]
fn updater_announces_only_changes() {
    let mut last = None;
    let first = status_tick(&mut last, WorkState::Working);
    assert_eq!(first.unwrap().title, "Fim da Pausa");
    assert_eq!(last, Some(WorkState::Working));
    assert!(status_tick(&mut last, WorkState::Working).is_none());
    let pause = WorkState::Paused { reason: "Almoço".to_string(), until: Some(hms(13, 0, 0)) };
    assert_eq!(status_tick(&mut last, pause.clone()).unwrap().title, "Pausa Obrigatória");
    assert!(status_tick(&mut last, pause.clone()).is_none());
    assert_eq!(last, Some(pause));
    assert!(status_tick(&mut last, WorkState::Finished).is_some());
}

#[test]
fn status_line_joins_status_and_state() {
    let timer = WorkTimer::new(hms(8, 0, 0), schedule_default(), 480);
    let line = status_line(&timer);
    assert!(line.contains("trabalhadas | "));
    assert!(line.contains("m restantes | "));
}

#[test]
fn icon_decodes_png() {
    let png: [u8; 71] = [
        137, 80, 78, 71, 13, 10, 26, 10, 0, 0, 0, 13, 73, 72, 68, 82, 0, 0, 0, 2, 0, 0, 0, 1, 8, 6,
        0, 0, 0, 244, 34, 127, 138, 0, 0, 0, 14, 73, 68, 65, 84, 120, 156, 99, 248, 207, 192, 0,
        66, 13, 0, 15, 122, 3, 126, 119, 233, 127, 151, 0, 0, 0, 0, 73, 69, 78, 68, 174, 66, 96,
        130,
    ];
    let icon = load_icon(&png).unwrap();
    assert_eq!((icon.width, icon.height), (2, 1));
    assert_eq!(icon.rgba, vec![255, 0, 0, 255, 0, 0, 255, 128]);
    assert_eq!(icon.rgba.len() as u32, 4 * icon.width * icon.height);
    assert!(load_icon(&[1, 2, 3]).is_err());
}
