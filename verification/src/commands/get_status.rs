use vstd::prelude::*;
use crate::core_logic::calculator::WorkCalculator;
use crate::core_logic::clock::{TimeOfDay, current_time};
use crate::core_logic::state::WorkState;
use crate::core_logic::timer::WorkTimer;
use crate::utils::format_status::progress_at;
use crate::utils::format_work_state::{describe_state, state_text};
use crate::utils::text::{decimal_string, decimal_text, is_numeral, lemma_decimal_text_reads_back, numeral_value};
use crate::core_logic::calculator::{lemma_worked_within_elapsed, remaining_minutes, worked_minutes};

verus! {

/// `"Trabalhados: {worked} minutos | Restante: {remaining} minutos | {state}"`.
pub open spec fn report_text(worked: int, remaining: int, state: WorkState) -> Seq<char> {
    "Trabalhados: "@ + decimal_text(worked as nat) + " minutos | Restante: "@
        + decimal_text(remaining as nat) + " minutos | "@ + state_text(state)
}

/// The report gives the worked minutes first and the remaining minutes second: after
/// `Trabalhados: ` stands a numeral that reads as `worked`, after ` minutos | Restante: ` one that
/// reads as `remaining`, and after the next ` minutos | ` the state's words.
pub proof fn lemma_report_reads_back(worked: int, remaining: int, state: WorkState)
    requires
        worked >= 0,
        remaining >= 0,
    ensures
        exists|w: Seq<char>, r: Seq<char>|
            #![trigger is_numeral(w), is_numeral(r)]
            is_numeral(w) && numeral_value(w) == worked && is_numeral(r) && numeral_value(r) == remaining
                && report_text(worked, remaining, state) == "Trabalhados: "@ + w + " minutos | Restante: "@ + r
                + " minutos | "@ + state_text(state),
{
    lemma_decimal_text_reads_back(worked as nat);
    lemma_decimal_text_reads_back(remaining as nat);
    let w = decimal_text(worked as nat);
    let r = decimal_text(remaining as nat);
    assert(is_numeral(w) && is_numeral(r));
}

/// The numbers that `status_report` shows for a timer at time `now` are the minutes worked
/// since the start, less the hard pauses, and the minutes still missing to the daily target.
pub proof fn lemma_status_report_numbers(timer: WorkTimer, now: TimeOfDay, state: WorkState)
    requires
        timer.wf(),
        now.wf(),
    ensures
        exists|w: Seq<char>, r: Seq<char>|
            #![trigger is_numeral(w), is_numeral(r)]
            is_numeral(w) && numeral_value(w) == worked_minutes(timer.start_time, now, timer.schedule.blocks@)
                && is_numeral(r) && numeral_value(r) == remaining_minutes(
                    worked_minutes(timer.start_time, now, timer.schedule.blocks@),
                    timer.daily_target_minutes as int,
                )
                && report_text(progress_at(timer, now).0, progress_at(timer, now).1, state)
                == "Trabalhados: "@ + w + " minutos | Restante: "@ + r + " minutos | "@ + state_text(state),
{
    lemma_worked_within_elapsed(timer.start_time, now, timer.schedule.blocks@);
    lemma_report_reads_back(progress_at(timer, now).0, progress_at(timer, now).1, state);
}

/// The report of the timer in `state`, with the minutes worked and remaining at time `now`.
pub fn status_report(timer: &WorkTimer, state: &WorkState, now: TimeOfDay) -> (s: String)
    requires
        timer.wf(),
        now.wf(),
    ensures
        s@ == report_text(progress_at(*timer, now).0, progress_at(*timer, now).1, *state),
{
    let (worked_minutes, remaining_minutes) = WorkCalculator::calculate_worked_and_remaining(
        timer.start_time,
        now,
        &timer.schedule,
        timer.daily_target_minutes,
    );
    let mut s = String::from_str("Trabalhados: ");
    s.append(decimal_string(worked_minutes as u64).as_str());
    s.append(" minutos | Restante: ");
    s.append(decimal_string(remaining_minutes as u64).as_str());
    s.append(" minutos | ");
    s.append(describe_state(state).as_str());
    s
}

/// The report of the timer now: its state and then the minutes, each read from the system
/// clock in turn; never fails.
pub fn get_status(timer: &WorkTimer) -> (res: Result<String, String>)
    requires
        timer.wf(),
    ensures
        res is Ok,
        exists|at_state: TimeOfDay, now: TimeOfDay|
            #![trigger timer.state_now(at_state), progress_at(*timer, now)]
            at_state.wf() && now.wf() && res->Ok_0@ == report_text(
                progress_at(*timer, now).0,
                progress_at(*timer, now).1,
                timer.state_now(at_state),
            ),
{
    let state = timer.get_state();
    let now = current_time();
    Ok(status_report(timer, &state, now))
}

} // verus!
