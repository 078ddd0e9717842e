use vstd::prelude::*;
use crate::core_logic::clock::{TimeOfDay, chrono_format, hm_pattern, hm_text};
use crate::core_logic::state::{WorkState, same_work_state};
use crate::core_logic::timer::WorkTimer;
use crate::notifications::notifier::{
    Notification, hard_pause_body, notify_back_to_work, notify_finished, notify_hard_pause,
    notify_soft_pause, soft_pause_body,
};
use crate::utils::format_status::{format_status, progress_at, status_text};
use crate::utils::format_work_state::{format_work_state, state_text};
use crate::utils::text::{is_numeral, lemma_two_digits_reads_back, numeral_value};

verus! {

/// What a click on the tray menu asks for.
#[derive(Debug, Clone, Copy, PartialEq, Eq, Structural)]
pub enum MenuAction {
    /// Save the timer and leave.
    Quit,
    /// Start the day over, save, and show the new state.
    Reset,
    /// Nothing to do.
    Ignore,
}

/// The action for the menu item with id `event_id`: `"quit"`, `"reset"`, or any other.
pub fn handle_menu_event(event_id: &str) -> (action: MenuAction)
    ensures
        action == (if event_id@ == "quit"@ {
            MenuAction::Quit
        } else if event_id@ == "reset"@ {
            MenuAction::Reset
        } else {
            MenuAction::Ignore
        }),
{
    let id = String::from_str(event_id);
    if id == String::from_str("quit") {
        MenuAction::Quit
    } else if id == String::from_str("reset") {
        MenuAction::Reset
    } else {
        MenuAction::Ignore
    }
}

/// The time of return shown in a pause notice: `HH:MM`, or `?` when the pause has no end.
pub open spec fn return_time_text(until: Option<TimeOfDay>) -> Seq<char> {
    match until {
        Some(t) => hm_text(t),
        None => "?"@,
    }
}

/// The title and body of the notice for a state.
pub open spec fn notice_text(state: WorkState) -> (Seq<char>, Seq<char>) {
    match state {
        WorkState::Paused { reason, until } => (
            "Pausa Obrigatória"@,
            hard_pause_body(reason@, return_time_text(until)),
        ),
        WorkState::SoftBreak { label, until } => (
            "Pausa Leve"@,
            soft_pause_body(label@, return_time_text(until)),
        ),
        WorkState::Finished => ("Dia Concluído"@, "Parabéns! Você concluiu seu dia de trabalho."@),
        WorkState::Working => ("Fim da Pausa"@, "Hora de voltar ao trabalho!"@),
    }
}

fn return_time(until: &Option<TimeOfDay>) -> (s: String)
    requires
        until matches Some(t) ==> t.wf(),
    ensures
        s@ == return_time_text(*until),
{
    match until {
        Some(t) => {
            let fmt = "%H:%M";
            proof {
                reveal_strlit("%H:%M");
                assert(fmt@ =~= hm_pattern());
            }
            chrono_format(*t, fmt)
        },
        None => String::from_str("?"),
    }
}

/// The notice of a pause that ends at `t` names the pause and then gives the time of return as
/// `HH:MM`, whose two numerals read as the hour and the minute of `t`.
pub proof fn lemma_pause_notice_shows_return_time(state: WorkState, t: TimeOfDay)
    requires
        t.wf(),
        match state {
            WorkState::Paused { until, .. } => until == Some(t),
            WorkState::SoftBreak { until, .. } => until == Some(t),
            _ => false,
        },
    ensures
        exists|hh: Seq<char>, mm: Seq<char>|
            #![trigger is_numeral(hh), is_numeral(mm)]
            {
                &&& is_numeral(hh) && hh.len() == 2 && numeral_value(hh) == t.hour()
                &&& is_numeral(mm) && mm.len() == 2 && numeral_value(mm) == t.minute()
                &&& notice_text(state).1 == match state {
                    WorkState::Paused { reason, .. } => "Pausa para: "@ + reason@,
                    WorkState::SoftBreak { label, .. } => "Pausa leve: "@ + label@,
                    _ => Seq::<char>::empty(),
                } + ", retorno em: "@ + hh + seq![':'] + mm
            },
{
    lemma_two_digits_reads_back(t.hour());
    lemma_two_digits_reads_back(t.minute());
    let hh = crate::utils::text::two_digits(t.hour());
    let mm = crate::utils::text::two_digits(t.minute());
    assert(is_numeral(hh) && is_numeral(mm));
}

/// The notice to show when the timer enters `state`.
pub fn notify_by_state(state: &WorkState) -> (n: Notification)
    requires
        state.wf(),
    ensures
        (n.title@, n.body@) == notice_text(*state),
{
    match state {
        WorkState::Paused { reason, until } => {
            let time_str = return_time(until);
            notify_hard_pause(reason.as_str(), time_str.as_str())
        },
        WorkState::SoftBreak { label, until } => {
            let time_str = return_time(until);
            notify_soft_pause(label.as_str(), time_str.as_str())
        },
        WorkState::Finished => notify_finished(),
        WorkState::Working => notify_back_to_work(),
    }
}

/// The state differs from the last one seen (or none was seen yet).
pub open spec fn state_changed(last: Option<WorkState>, current: WorkState) -> bool {
    match last {
        Some(prev) => !same_work_state(prev, current),
        None => true,
    }
}

/// One round of the status updater: remembers `current` as the last state seen and returns the
/// notice to show when it differs from the state seen before.
pub fn status_tick(last: &mut Option<WorkState>, current: WorkState) -> (notice: Option<Notification>)
    requires
        current.wf(),
    ensures
        *final(last) == Some(current),
        notice is Some <==> state_changed(*old(last), current),
        notice matches Some(n) ==> (n.title@, n.body@) == notice_text(current),
{
    let changed = match last {
        Some(prev) => !(*prev == current),
        None => true,
    };
    let notice = if changed {
        Some(notify_by_state(&current))
    } else {
        None
    };
    *last = Some(current);
    notice
}

/// The text of the tray's status item: the status line, then the state's words, each read from
/// the system clock in turn.
pub fn status_line(timer: &WorkTimer) -> (s: String)
    requires
        timer.wf(),
    ensures
        exists|at_progress: TimeOfDay, at_state: TimeOfDay|
            #![trigger progress_at(*timer, at_progress), timer.state_now(at_state)]
            at_progress.wf() && at_state.wf() && s@ == status_text(
                progress_at(*timer, at_progress).0,
                progress_at(*timer, at_progress).1,
            ) + " | "@ + state_text(timer.state_now(at_state)),
{
    let mut s = format_status(timer);
    s.append(" | ");
    s.append(format_work_state(timer).as_str());
    s
}

/// The updater announces the first state it sees, and stays quiet while the state stays the
/// same.
pub proof fn lemma_updater_announces_changes_only(s: WorkState)
    ensures
        state_changed(None, s),
        !state_changed(Some(s), s),
{
}

} // verus!
